//! How the notification socket is obtained: inherited from a process
//! supervisor, or created and subscribed by the process itself.

use vstd::prelude::*;
use crate::groups::{group_mask, subscribed, subscription_groups, subscription_mask_value,
    SUBSCRIPTION_MASK};

verus! {

/// The slot of the supervisor's descriptor table that holds the socket.
pub const ACTIVATION_SLOT: usize = 0;

/// Whether the socket came from a supervisor. Set once at startup.
#[derive(Clone, Copy, Debug, PartialEq, Eq, Structural)]
pub enum ActivationMode {
    /// The socket was inherited; the inactivity timeout is armed.
    Activated,
    /// The socket was created here; the process never exits for idleness.
    SelfBound,
}

/// What the supervisor's descriptor table gave for the activation slot.
#[derive(Clone, Debug, PartialEq, Eq)]
pub enum Handoff {
    /// A descriptor was handed over.
    Descriptor(i32),
    /// No descriptor was provided.
    Absent,
    /// The table could not be read; the words say why.
    Failed(String),
}

/// How to get the notification socket.
#[derive(Clone, Debug, PartialEq, Eq)]
pub enum SocketPlan {
    /// Adopt the inherited descriptor as it is. Nothing checks that it is
    /// a notification socket: a supervisor that hands over anything else
    /// is not detected here.
    Adopt { descriptor: i32, close_on_exec: bool, non_blocking: bool },
    /// Open a socket, bind it to an address of the kernel's choice and
    /// join `groups`; `mask` names the same groups as a bitmask, for the
    /// log. A `warning` tells that the descriptor table was unreadable.
    Bind { groups: Vec<u32>, mask: u32, warning: Option<String> },
}

/// The activation mode that a hand-off leads to: only a descriptor that
/// was handed over activates.
pub open spec fn mode_of(handoff: Handoff) -> ActivationMode {
    if handoff is Descriptor {
        ActivationMode::Activated
    } else {
        ActivationMode::SelfBound
    }
}

impl SocketPlan {
    /// The activation mode that the plan stands for.
    pub open spec fn activation(self) -> ActivationMode {
        match self {
            SocketPlan::Adopt { .. } => ActivationMode::Activated,
            SocketPlan::Bind { .. } => ActivationMode::SelfBound,
        }
    }

    /// The activation mode that the plan stands for.
    pub fn mode(&self) -> (mode: ActivationMode)
        ensures
            mode == self.activation(),
    {
        match self {
            SocketPlan::Adopt { .. } => ActivationMode::Activated,
            SocketPlan::Bind { .. } => ActivationMode::SelfBound,
        }
    }
}

/// Decides how to get the notification socket. A descriptor that was
/// handed over is adopted, marked close-on-exec and set non-blocking. With
/// no descriptor the process binds its own socket to the four interest
/// groups; so it does when the table could not be read, and then the plan
/// carries the reason as a warning.
pub fn plan_socket(handoff: Handoff) -> (plan: SocketPlan)
    ensures
        plan.activation() == mode_of(handoff),
        handoff matches Handoff::Descriptor(fd) ==> plan == (SocketPlan::Adopt {
            descriptor: fd,
            close_on_exec: true,
            non_blocking: true,
        }),
        !(handoff is Descriptor) ==> (plan matches SocketPlan::Bind { groups, mask, warning }
            && groups@ == subscribed() && mask == SUBSCRIPTION_MASK && warning == (match handoff {
            Handoff::Failed(reason) => Some(reason),
            _ => None,
        })),
{
    match handoff {
        Handoff::Descriptor(descriptor) => SocketPlan::Adopt {
            descriptor,
            close_on_exec: true,
            non_blocking: true,
        },
        Handoff::Absent => bind_plan(None),
        Handoff::Failed(reason) => bind_plan(Some(reason)),
    }
}

/// The plan of a process that binds its own socket.
fn bind_plan(warning: Option<String>) -> (plan: SocketPlan)
    ensures
        plan matches SocketPlan::Bind { groups, mask, warning: w } && groups@ == subscribed()
            && mask == SUBSCRIPTION_MASK && w == warning,
{
    let groups = subscription_groups();
    let mask = group_mask(&groups);
    proof {
        subscription_mask_value();
    }
    SocketPlan::Bind { groups, mask, warning }
}

} // verus!
