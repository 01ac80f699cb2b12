//! The order in which the group socket is set up, and what becomes of a
//! step that fails.
//!
//! The socket itself belongs to the program. This module says which
//! operation is due next and takes the word of the program on whether it
//! went well.

use vstd::prelude::*;
use crate::address::Ipv4Address;
use crate::error::StartupError;

verus! {

/// How far the setup has come.
#[derive(Clone, Copy, Debug, PartialEq, Eq, Structural)]
pub enum SetupPhase {
    /// The datagram socket is to be created.
    Create,
    /// The socket is to be made non-blocking.
    NonBlocking,
    /// The group is to be joined.
    Join,
    /// The socket is to be bound.
    Bind,
    /// Every step went well: the socket receives the group's traffic.
    Ready,
    /// A step failed: the setup has ended.
    Failed(StartupError),
}

/// One operation on the socket.
#[derive(Clone, Copy, Debug, PartialEq, Eq, Structural)]
pub enum SocketAction {
    /// Create a UDP socket over IPv4.
    CreateUdp,
    /// Make receive calls return at once when there is no data.
    SetNonBlocking,
    /// Join `group`, receiving on the interface that has the address `interface`.
    JoinGroup { group: Ipv4Address, interface: Ipv4Address },
    /// Bind the socket to `group` and `port`.
    Bind { group: Ipv4Address, port: u16 },
}

/// The setup of the socket for one group.
#[derive(Clone, Copy, Debug, PartialEq, Eq, Structural)]
pub struct SocketSetup {
    /// The address of the group to join and to bind to.
    pub group: Ipv4Address,
    /// The port to bind to.
    pub port: u16,
    /// The address of the local interface to receive on.
    pub local: Ipv4Address,
    /// How far the setup has come.
    pub phase: SetupPhase,
}

impl SetupPhase {
    /// The phase that follows when the operation of this phase has gone well
    /// or has failed. The two final phases have no operation and stay.
    pub open spec fn after(self, succeeded: bool) -> SetupPhase {
        match self {
            SetupPhase::Create => if succeeded {
                SetupPhase::NonBlocking
            } else {
                SetupPhase::Failed(StartupError::SocketCreate)
            },
            SetupPhase::NonBlocking => if succeeded {
                SetupPhase::Join
            } else {
                SetupPhase::Failed(StartupError::SocketNonBlocking)
            },
            SetupPhase::Join => if succeeded {
                SetupPhase::Bind
            } else {
                SetupPhase::Failed(StartupError::JoinGroup)
            },
            SetupPhase::Bind => if succeeded {
                SetupPhase::Ready
            } else {
                SetupPhase::Failed(StartupError::Bind)
            },
            SetupPhase::Ready => SetupPhase::Ready,
            SetupPhase::Failed(error) => SetupPhase::Failed(error),
        }
    }

    /// Whether the setup has ended, well or not.
    pub open spec fn is_final(self) -> bool {
        self is Ready || self is Failed
    }

    /// The number of operations that have gone well when this phase is
    /// reached without a failure.
    pub open spec fn steps_done(self) -> nat {
        match self {
            SetupPhase::Create => 0,
            SetupPhase::NonBlocking => 1,
            SetupPhase::Join => 2,
            SetupPhase::Bind => 3,
            SetupPhase::Ready => 4,
            SetupPhase::Failed(_) => 0,
        }
    }
}

impl SocketSetup {
    /// The operation that is due, if the setup has not ended.
    pub open spec fn due(self) -> Option<SocketAction> {
        match self.phase {
            SetupPhase::Create => Some(SocketAction::CreateUdp),
            SetupPhase::NonBlocking => Some(SocketAction::SetNonBlocking),
            SetupPhase::Join => Some(
                SocketAction::JoinGroup { group: self.group, interface: self.local },
            ),
            SetupPhase::Bind => Some(SocketAction::Bind { group: self.group, port: self.port }),
            SetupPhase::Ready => None,
            SetupPhase::Failed(_) => None,
        }
    }

    /// How the setup has ended, if it has: well, or with the error of the
    /// step that failed.
    pub open spec fn ended(self) -> Option<Result<(), StartupError>> {
        match self.phase {
            SetupPhase::Ready => Some(Ok(())),
            SetupPhase::Failed(error) => Some(Err(error)),
            _ => None,
        }
    }

    /// The setup after the operation that was due has gone well or failed.
    pub open spec fn after(self, succeeded: bool) -> SocketSetup {
        SocketSetup { phase: self.phase.after(succeeded), ..self }
    }

    /// The setup after a run of operations, told of each in turn.
    pub open spec fn after_all(self, reports: Seq<bool>) -> SocketSetup
        decreases reports.len(),
    {
        if reports.len() == 0 {
            self
        } else {
            self.after(reports[0]).after_all(reports.drop_first())
        }
    }

    /// The setup for receiving `group` on `port` through the interface with
    /// the address `local`, with nothing done yet.
    pub fn begin(group: Ipv4Address, port: u16, local: Ipv4Address) -> (setup: SocketSetup)
        ensures
            setup == (SocketSetup { group, port, local, phase: SetupPhase::Create }),
    {
        SocketSetup { group, port, local, phase: SetupPhase::Create }
    }

    /// The operation to perform next: none once the setup has ended.
    pub fn next_action(&self) -> (action: Option<SocketAction>)
        ensures
            action == self.due(),
    {
        match self.phase {
            SetupPhase::Create => Some(SocketAction::CreateUdp),
            SetupPhase::NonBlocking => Some(SocketAction::SetNonBlocking),
            SetupPhase::Join => Some(
                SocketAction::JoinGroup { group: self.group, interface: self.local },
            ),
            SetupPhase::Bind => Some(SocketAction::Bind { group: self.group, port: self.port }),
            SetupPhase::Ready => None,
            SetupPhase::Failed(_) => None,
        }
    }

    /// Takes note of how the operation that was due has ended.
    pub fn completed(&mut self, succeeded: bool)
        ensures
            *final(self) == old(self).after(succeeded),
    {
        let next = match self.phase {
            SetupPhase::Create => if succeeded {
                SetupPhase::NonBlocking
            } else {
                SetupPhase::Failed(StartupError::SocketCreate)
            },
            SetupPhase::NonBlocking => if succeeded {
                SetupPhase::Join
            } else {
                SetupPhase::Failed(StartupError::SocketNonBlocking)
            },
            SetupPhase::Join => if succeeded {
                SetupPhase::Bind
            } else {
                SetupPhase::Failed(StartupError::JoinGroup)
            },
            SetupPhase::Bind => if succeeded {
                SetupPhase::Ready
            } else {
                SetupPhase::Failed(StartupError::Bind)
            },
            SetupPhase::Ready => SetupPhase::Ready,
            SetupPhase::Failed(error) => SetupPhase::Failed(error),
        };
        self.phase = next;
    }

    /// How the setup has ended: `None` while an operation is still due.
    pub fn outcome(&self) -> (outcome: Option<Result<(), StartupError>>)
        ensures
            outcome == self.ended(),
    {
        match self.phase {
            SetupPhase::Ready => Some(Ok(())),
            SetupPhase::Failed(error) => Some(Err(error)),
            _ => None,
        }
    }
}

/// Four operations that go well make the socket ready, and they are, in
/// this order: create, make non-blocking, join the group on the local
/// interface, bind to the group and port.
pub proof fn lemma_setup_order(setup: SocketSetup)
    requires
        setup.phase is Create,
    ensures
        setup.due() == Some(SocketAction::CreateUdp),
        setup.after(true).due() == Some(SocketAction::SetNonBlocking),
        setup.after(true).after(true).due() == Some(
            SocketAction::JoinGroup { group: setup.group, interface: setup.local },
        ),
        setup.after(true).after(true).after(true).due() == Some(
            SocketAction::Bind { group: setup.group, port: setup.port },
        ),
        setup.after(true).after(true).after(true).after(true).phase is Ready,
{
}

/// A step that goes well brings the setup one step on; a step that fails
/// ends it, and the failure bears status 1. So no operation is ever due a
/// second time: the socket is bound once.
pub proof fn lemma_setup_step(setup: SocketSetup, succeeded: bool)
    requires
        !setup.phase.is_final(),
    ensures
        succeeded ==> setup.after(succeeded).phase.steps_done() == setup.phase.steps_done() + 1,
        !succeeded ==> setup.after(succeeded).phase is Failed,
        !succeeded ==> setup.after(succeeded).phase->Failed_0.status() == 1,
        setup.after(succeeded).group == setup.group,
        setup.after(succeeded).port == setup.port,
        setup.after(succeeded).local == setup.local,
{
}

/// Once the setup has ended, further reports change nothing.
pub proof fn lemma_setup_final_stays(setup: SocketSetup, reports: Seq<bool>)
    requires
        setup.phase.is_final(),
    ensures
        setup.after_all(reports) == setup,
    decreases reports.len(),
{
    if reports.len() > 0 {
        lemma_setup_final_stays(setup, reports.drop_first());
    }
}

/// The socket becomes ready exactly where the first four reports are all
/// of success.
pub proof fn lemma_ready_iff_four_successes(setup: SocketSetup, reports: Seq<bool>)
    requires
        setup.phase is Create,
        reports.len() >= 4,
    ensures
        setup.after_all(reports).phase is Ready <==> reports[0] && reports[1] && reports[2]
            && reports[3],
{
    let rest = reports.drop_first().drop_first().drop_first().drop_first();
    let fourth = setup.after(reports[0]).after(reports[1]).after(reports[2]).after(reports[3]);
    assert(setup.after_all(reports) == fourth.after_all(rest)) by {
        reveal_with_fuel(SocketSetup::after_all, 5);
    }
    lemma_setup_final_stays(fourth, rest);
}

} // verus!
