use vstd::prelude::*;

use crate::engine::Worker;
use crate::error::Error;

verus! {

/// Where a forwarding worker stands.
#[derive(Clone, Copy, Debug, PartialEq, Eq, Structural)]
pub enum WorkerState {
    /// Binding its listening socket.
    Binding,
    /// Waiting for an inbound connection.
    Accepting,
    /// Opening the outbound stream for an accepted connection.
    Connecting,
    /// Ended for good.
    Stopped,
}

/// What the worker's last operation came to.
#[derive(Clone, Copy, Debug, PartialEq, Eq, Structural)]
pub enum WorkerEvent {
    Bound,
    BindFailed(Error),
    Accepted,
    AcceptFailed,
    Connected,
    ConnectFailed,
}

/// What the worker does next.
#[derive(Clone, Copy, Debug, PartialEq, Eq, Structural)]
pub enum WorkerAction {
    /// Accept the next inbound connection.
    Accept,
    /// Open the outbound stream to the remote address and port.
    Connect,
    /// Start relaying the two streams on their own task, then accept again.
    RelayAndAccept,
    /// Drop the inbound stream, then accept again.
    DropAndAccept,
    /// Hand (rule id, error code) to the error callback, if one is
    /// registered, and stop.
    Report(i8, i8),
}

/// Whether `event` can follow an operation begun in `state`.
pub open spec fn event_fits(state: WorkerState, event: WorkerEvent) -> bool {
    match state {
        WorkerState::Binding => event is Bound || event is BindFailed,
        WorkerState::Accepting => event is Accepted || event is AcceptFailed,
        WorkerState::Connecting => event is Connected || event is ConnectFailed,
        WorkerState::Stopped => false,
    }
}

impl Worker {
    /// The address the worker listens on: all interfaces when the rule
    /// allows the local network, else the loopback address.
    pub open spec fn spec_bind_ip(&self) -> Seq<u8> {
        if self.allow_lan {
            seq![0u8, 0u8, 0u8, 0u8]
        } else {
            seq![127u8, 0u8, 0u8, 1u8]
        }
    }

    pub fn bind_ip(&self) -> (r: [u8; 4])
        ensures
            r@ == self.spec_bind_ip(),
    {
        let r: [u8; 4] = if self.allow_lan {
            [0, 0, 0, 0]
        } else {
            [127, 0, 0, 1]
        };
        assert(r@ =~= self.spec_bind_ip());
        r
    }

    /// The worker's protocol. A failed bind is reported once, under the
    /// rule's identifier, and ends the worker; a failed accept or connect
    /// touches only that one connection, and the worker accepts again.
    pub open spec fn spec_step(&self, state: WorkerState, event: WorkerEvent) -> (WorkerState, WorkerAction) {
        match event {
            WorkerEvent::Bound => (WorkerState::Accepting, WorkerAction::Accept),
            WorkerEvent::BindFailed(e) => (
                WorkerState::Stopped,
                WorkerAction::Report(self.rule_id, e.spec_code() as i8),
            ),
            WorkerEvent::Accepted => (WorkerState::Connecting, WorkerAction::Connect),
            WorkerEvent::AcceptFailed => (WorkerState::Accepting, WorkerAction::Accept),
            WorkerEvent::Connected => (WorkerState::Accepting, WorkerAction::RelayAndAccept),
            WorkerEvent::ConnectFailed => (WorkerState::Accepting, WorkerAction::DropAndAccept),
        }
    }

    /// The next state and action after `event`.
    pub fn step(&self, state: WorkerState, event: WorkerEvent) -> (r: (WorkerState, WorkerAction))
        requires
            event_fits(state, event),
        ensures
            r == self.spec_step(state, event),
    {
        match event {
            WorkerEvent::Bound => (WorkerState::Accepting, WorkerAction::Accept),
            WorkerEvent::BindFailed(e) => (WorkerState::Stopped, WorkerAction::Report(self.rule_id, e.code())),
            WorkerEvent::Accepted => (WorkerState::Connecting, WorkerAction::Connect),
            WorkerEvent::AcceptFailed => (WorkerState::Accepting, WorkerAction::Accept),
            WorkerEvent::Connected => (WorkerState::Accepting, WorkerAction::RelayAndAccept),
            WorkerEvent::ConnectFailed => (WorkerState::Accepting, WorkerAction::DropAndAccept),
        }
    }
}

} // verus!
