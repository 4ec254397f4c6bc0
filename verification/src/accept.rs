//! The connection-accept loop as a state machine.
//!
//! The loop alternates between two states: accepting on the TCP listener
//! and handshaking a freshly accepted socket. Each observed event maps to
//! the next state and to one action for the caller to perform. A failed
//! handshake only drops that one connection — it never terminates the
//! loop; only a failure of the listener itself is fatal.

use vstd::prelude::*;

use crate::tls::{spec_classify, classify_handshake_failure, FailureClass, HandshakeFault};

verus! {

/// Where the loop stands: blocked on the listener, or running a handshake
/// on a freshly accepted socket.
#[derive(Clone, Copy, Debug, PartialEq, Eq, Structural)]
pub enum AcceptState {
    Accepting,
    Handshaking,
}

/// What the outside world reported to the loop.
#[derive(Clone, Copy, Debug, PartialEq, Eq, Structural)]
pub enum AcceptEvent {
    /// The listener handed over a new raw socket.
    SocketAccepted,
    /// The listener itself failed; this is unrecoverable.
    ListenerFailed,
    /// The handshake completed; the encrypted connection is live.
    HandshakeSucceeded,
    /// The handshake failed with the given fault.
    HandshakeFailed(HandshakeFault),
}

/// What the loop's driver must do next.
#[derive(Clone, Copy, Debug, PartialEq, Eq, Structural)]
pub enum AcceptAction {
    /// Run the TLS handshake on the accepted socket.
    StartHandshake,
    /// Surface the completed connection to the HTTP multiplexer.
    YieldConnection,
    /// Discard the failed connection, logging it per its class, and keep
    /// accepting.
    DropConnection(FailureClass),
    /// Stop the loop: the listener is gone.
    Terminate,
}

/// One step of the loop: the next state and the action owed for an event.
/// Only `ListenerFailed` ever leads to `Terminate`; every handshake
/// outcome sends the loop back to accepting.
pub open spec fn spec_accept_step(state: AcceptState, event: AcceptEvent) -> (AcceptState,
    AcceptAction) {
    match event {
        AcceptEvent::SocketAccepted => (AcceptState::Handshaking, AcceptAction::StartHandshake),
        AcceptEvent::ListenerFailed => (AcceptState::Accepting, AcceptAction::Terminate),
        AcceptEvent::HandshakeSucceeded => (AcceptState::Accepting, AcceptAction::YieldConnection),
        AcceptEvent::HandshakeFailed(f) => (
            AcceptState::Accepting,
            AcceptAction::DropConnection(spec_classify(f)),
        ),
    }
}

/// Advance the accept loop by one observed event.
pub fn accept_step(state: AcceptState, event: AcceptEvent) -> (r: (AcceptState, AcceptAction))
    ensures
        r == spec_accept_step(state, event),
{
    match (state, event) {
        (_, AcceptEvent::SocketAccepted) => (
            AcceptState::Handshaking,
            AcceptAction::StartHandshake,
        ),
        (_, AcceptEvent::ListenerFailed) => (AcceptState::Accepting, AcceptAction::Terminate),
        (_, AcceptEvent::HandshakeSucceeded) => (
            AcceptState::Accepting,
            AcceptAction::YieldConnection,
        ),
        (_, AcceptEvent::HandshakeFailed(f)) => (
            AcceptState::Accepting,
            AcceptAction::DropConnection(classify_handshake_failure(&f)),
        ),
    }
}

/// The actions of a whole run of the loop over a sequence of events.
pub open spec fn spec_run_actions(state: AcceptState, events: Seq<AcceptEvent>) -> Seq<
    AcceptAction,
>
    decreases events.len(),
{
    if events.len() == 0 {
        seq![]
    } else {
        let (next, action) = spec_accept_step(state, events.first());
        seq![action] + spec_run_actions(next, events.drop_first())
    }
}

/// The accept loop survives bad clients: over any run, every handshake
/// failure only drops that connection, every completed handshake is still
/// surfaced, and the loop terminates only if the listener itself failed.
pub proof fn lemma_accept_loop_survives(state: AcceptState, events: Seq<AcceptEvent>)
    ensures
        spec_run_actions(state, events).len() == events.len(),
        forall|i: int|
            0 <= i < events.len() ==> ((#[trigger] events[i]) matches
            AcceptEvent::HandshakeFailed(f) ==> spec_run_actions(state, events)[i]
                == AcceptAction::DropConnection(spec_classify(f))),
        forall|i: int|
            0 <= i < events.len() && (#[trigger] events[i]) is HandshakeSucceeded
                ==> spec_run_actions(state, events)[i] is YieldConnection,
        forall|i: int|
            0 <= i < events.len() && (#[trigger] spec_run_actions(state, events)[i]) is Terminate
                ==> events[i] is ListenerFailed,
    decreases events.len(),
{
    if events.len() > 0 {
        let (next, action) = spec_accept_step(state, events.first());
        lemma_accept_loop_survives(next, events.drop_first());
        let actions = spec_run_actions(state, events);
        let rest = spec_run_actions(next, events.drop_first());
        assert(actions == seq![action] + rest);
        assert(forall|i: int|
            1 <= i < events.len() ==> #[trigger] events[i] == events.drop_first()[i - 1]);
        assert(forall|i: int| 1 <= i < actions.len() ==> #[trigger] actions[i] == rest[i - 1]);
    }
}

} // verus!
