//! A receiver for one IPv4 multicast group: the checks made before a socket
//! is opened, the choice of the local interface address, the order in which
//! the socket is set up, and the polling loop with its time budget, each
//! stated as a contract and proved.
//!
//! The library decides and renders; the program around it owns the socket
//! and the terminal.
//!
//! - [`startup`]: the destination has to be a multicast group and a port
//!   that is not reserved.
//! - [`interface`]: the local address is the first address of the first
//!   interface of the given name that has any; [`dotted`] reads it from its
//!   text.
//! - [`setup`]: create, make non-blocking, join, bind, in this order, and
//!   any failure is final.
//! - [`receiver`]: one turn of the loop checks the time budget and then
//!   looks for a datagram. A budget of `T` seconds is used up once more than
//!   `T` seconds have run, to the nanosecond; the lines show whole seconds.
//!   A receive attempt that brings nothing is passed over, whatever the
//!   reason. The loop ends by its budget only: when the process is stopped
//!   from outside, nothing here is asked and no summary is made.
//! - [`clock`], [`address`], [`text`], [`error`]: what the others are built
//!   from.

pub mod address;
pub mod clock;
pub mod dotted;
pub mod error;
pub mod interface;
pub mod receiver;
pub mod setup;
pub mod startup;
pub mod text;
