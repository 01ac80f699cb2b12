//! The conditions that end the program before the receive loop starts.

use vstd::prelude::*;

verus! {

/// The exit status of a run that ended well.
pub const EXIT_OK: i32 = 0;

/// The exit status of a run that failed, at startup or by running out of
/// time with nothing received.
pub const EXIT_FAILURE: i32 = 1;

/// A fatal condition met at startup. None of them is retried.
#[derive(Clone, Copy, Debug, PartialEq, Eq, Structural)]
pub enum StartupError {
    /// The destination is not the address of a multicast group.
    NotMulticast,
    /// The port is one of the reserved ones.
    PortOutOfRange,
    /// No interface of the given name has an address.
    InterfaceNotFound,
    /// The interface's first address does not read as an IPv4 address.
    LocalAddressNotIpv4,
    /// The datagram socket could not be created.
    SocketCreate,
    /// The socket could not be made non-blocking.
    SocketNonBlocking,
    /// The group could not be joined.
    JoinGroup,
    /// The socket could not be bound to the group's address and port.
    Bind,
}

impl StartupError {
    /// The one-line diagnostic of the condition.
    pub open spec fn diagnostic(self) -> Seq<char> {
        match self {
            StartupError::NotMulticast => "error: Address is not a valid multicast address"@,
            StartupError::PortOutOfRange => "error: Port is out of range"@,
            StartupError::InterfaceNotFound => "error: Could not find local interface address"@,
            StartupError::LocalAddressNotIpv4 => "error: Could not parse local IP address"@,
            StartupError::SocketCreate => "error: Could not create the socket"@,
            StartupError::SocketNonBlocking => "error: Could not set non-blocking socket"@,
            StartupError::JoinGroup => "error: Could not subscribe to the group"@,
            StartupError::Bind => "error: Could not bind to the group"@,
        }
    }

    /// The line to print for the condition.
    pub fn message(&self) -> (line: &'static str)
        ensures
            line@ == self.diagnostic(),
    {
        match self {
            StartupError::NotMulticast => "error: Address is not a valid multicast address",
            StartupError::PortOutOfRange => "error: Port is out of range",
            StartupError::InterfaceNotFound => "error: Could not find local interface address",
            StartupError::LocalAddressNotIpv4 => "error: Could not parse local IP address",
            StartupError::SocketCreate => "error: Could not create the socket",
            StartupError::SocketNonBlocking => "error: Could not set non-blocking socket",
            StartupError::JoinGroup => "error: Could not subscribe to the group",
            StartupError::Bind => "error: Could not bind to the group",
        }
    }

    /// The status with which the process ends on the condition: the same
    /// for all of them.
    pub open spec fn status(self) -> i32 {
        EXIT_FAILURE
    }

    /// The status with which the process ends on the condition.
    pub fn exit_code(&self) -> (code: i32)
        ensures
            code == self.status(),
    {
        EXIT_FAILURE
    }
}

} // verus!
