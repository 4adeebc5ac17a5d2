//! The listener loop of the control channel, as a state machine.
//!
//! One connection serves exactly one exchange: the listener accepts a peer,
//! reads one message, has it handled, disconnects, and starts over. A failure
//! to connect or to read is not fatal; only the shutdown that a handled
//! message asks for ends the loop.

use vstd::prelude::*;

verus! {

/// What the listener asks of its driver.
#[derive(Clone, Copy, Debug, PartialEq, Eq, Structural)]
pub enum ListenerAction {
    /// Wait for a peer to connect.
    Connect,
    /// Read one message from the peer and hand it to the controller.
    Read,
    /// Disconnect the peer.
    Disconnect,
    /// Leave the loop.
    Stop,
}

/// The driver's answer to an action.
#[derive(Clone, Copy, Debug, PartialEq, Eq, Structural)]
pub enum ListenerEvent {
    /// Answer to `Connect`: whether a peer is connected.
    Connected(bool),
    /// Answer to `Read`: a message was read and handled; `shutdown` says
    /// whether the controller asked for shutdown.
    Handled { shutdown: bool },
    /// Answer to `Read`: the read failed.
    ReadFailed,
    /// Answer to `Disconnect`, whether or not it went well.
    Disconnected,
}

/// The action that follows `pending` once it was answered with `event`. An
/// event that does not answer the pending action changes nothing.
pub open spec fn listener_next(pending: ListenerAction, event: ListenerEvent) -> ListenerAction {
    match (pending, event) {
        (ListenerAction::Connect, ListenerEvent::Connected(connected)) => if connected {
            ListenerAction::Read
        } else {
            ListenerAction::Connect
        },
        (ListenerAction::Read, ListenerEvent::Handled { shutdown }) => if shutdown {
            ListenerAction::Stop
        } else {
            ListenerAction::Disconnect
        },
        (ListenerAction::Read, ListenerEvent::ReadFailed) => ListenerAction::Disconnect,
        (ListenerAction::Disconnect, ListenerEvent::Disconnected) => ListenerAction::Connect,
        _ => pending,
    }
}

/// The first action of the loop: to connect, or to stop at once where
/// shutdown was asked for before the loop began.
pub fn listener_start(exit_requested: bool) -> (action: ListenerAction)
    ensures
        action == if exit_requested {
            ListenerAction::Stop
        } else {
            ListenerAction::Connect
        },
{
    if exit_requested {
        ListenerAction::Stop
    } else {
        ListenerAction::Connect
    }
}

/// Takes the driver's answer to `pending` and returns the next action.
pub fn listener_step(pending: ListenerAction, event: ListenerEvent) -> (action: ListenerAction)
    ensures
        action == listener_next(pending, event),
{
    match (pending, event) {
        (ListenerAction::Connect, ListenerEvent::Connected(connected)) => if connected {
            ListenerAction::Read
        } else {
            ListenerAction::Connect
        },
        (ListenerAction::Read, ListenerEvent::Handled { shutdown }) => if shutdown {
            ListenerAction::Stop
        } else {
            ListenerAction::Disconnect
        },
        (ListenerAction::Read, ListenerEvent::ReadFailed) => ListenerAction::Disconnect,
        (ListenerAction::Disconnect, ListenerEvent::Disconnected) => ListenerAction::Connect,
        _ => pending,
    }
}

/// One connection serves one exchange: a read is asked for only in answer to
/// a new connection, and whatever answers the read ends the connection.
pub proof fn lemma_one_exchange_per_connection(pending: ListenerAction, event: ListenerEvent)
    ensures
        pending != ListenerAction::Read && listener_next(pending, event) == ListenerAction::Read
            ==> pending == ListenerAction::Connect && event == ListenerEvent::Connected(true),
        pending == ListenerAction::Read && (event is Handled || event is ReadFailed)
            ==> listener_next(pending, event) != ListenerAction::Read,
{
}

/// Failures do not end the loop: only a handled message that asks for
/// shutdown leads to `Stop`, and `Stop` is final.
pub proof fn lemma_only_shutdown_stops(pending: ListenerAction, event: ListenerEvent)
    ensures
        pending != ListenerAction::Stop && listener_next(pending, event) == ListenerAction::Stop
            ==> pending == ListenerAction::Read && event == (ListenerEvent::Handled {
            shutdown: true,
        }),
        listener_next(ListenerAction::Stop, event) == ListenerAction::Stop,
{
}

} // verus!
