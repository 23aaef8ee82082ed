//! The channel-open confirmation machine.
//!
//! After a channel open is requested, confirmation is driven by the side
//! that can mine blocks: it repeatedly fetches the next lifecycle event
//! from the node, mines confirmation blocks when the channel is pending,
//! and leaves the loop when the channel is ready. Every fetched event must
//! be acknowledged — acted upon or not — or the node's event stream would
//! stall all later events. The loop's side effects run in an unverified
//! driver; each decision is a call into [`handshake_step`], and the
//! acknowledge-everything discipline is proved of that rule.
use vstd::prelude::*;

verus! {

/// The node-emitted lifecycle events the machine distinguishes.
#[derive(Debug, Clone, Copy, PartialEq, Eq)]
pub enum NodeEvent {
    /// The requested channel is pending chain confirmation.
    ChannelPending,
    /// The requested channel is ready to use.
    ChannelReady,
    /// Any other lifecycle event: irrelevant here, but still acknowledged.
    Other,
}

/// Which lifecycle event has been observed so far for the channel-open
/// request; transient, per bootstrap call.
#[derive(Debug, Clone, Copy, PartialEq, Eq)]
pub enum ChannelHandshakeState {
    /// No relevant event observed yet.
    Waiting,
    /// A pending event has been observed; confirmations are under way.
    PendingSeen,
    /// The ready event has been observed; the handshake is complete.
    ReadySeen,
}

/// What the driver must do with the event it just fetched.
#[derive(Debug, Clone, Copy, PartialEq, Eq)]
pub struct HandshakeAction {
    /// Mine several confirmation blocks, wait until the chain indexer
    /// reports the new height, and resynchronize the node's wallet view.
    pub mine_and_sync: bool,
    /// Acknowledge the fetched event so the node's event stream advances.
    pub acknowledge: bool,
    /// Leave the loop: the channel has become ready.
    pub finish: bool,
}

/// The confirmation decision rule: a pending event triggers mining and a
/// resync, the ready event ends the loop, anything else is only
/// acknowledged; and each event advances the observed state.
pub open spec fn spec_handshake_step(
    state: ChannelHandshakeState,
    event: NodeEvent,
) -> (ChannelHandshakeState, HandshakeAction) {
    match event {
        NodeEvent::ChannelPending => (
            ChannelHandshakeState::PendingSeen,
            HandshakeAction { mine_and_sync: true, acknowledge: true, finish: false },
        ),
        NodeEvent::ChannelReady => (
            ChannelHandshakeState::ReadySeen,
            HandshakeAction { mine_and_sync: false, acknowledge: true, finish: true },
        ),
        NodeEvent::Other => (
            state,
            HandshakeAction { mine_and_sync: false, acknowledge: true, finish: false },
        ),
    }
}

/// Decides what to do with one fetched lifecycle event.
pub fn handshake_step(state: ChannelHandshakeState, event: NodeEvent) -> (r: (
    ChannelHandshakeState,
    HandshakeAction,
))
    ensures
        r == spec_handshake_step(state, event),
{
    match event {
        NodeEvent::ChannelPending => (
            ChannelHandshakeState::PendingSeen,
            HandshakeAction { mine_and_sync: true, acknowledge: true, finish: false },
        ),
        NodeEvent::ChannelReady => (
            ChannelHandshakeState::ReadySeen,
            HandshakeAction { mine_and_sync: false, acknowledge: true, finish: true },
        ),
        NodeEvent::Other => (
            state,
            HandshakeAction { mine_and_sync: false, acknowledge: true, finish: false },
        ),
    }
}

/// Every fetched event is acknowledged, whatever the state and whatever
/// the event; mining happens exactly on a pending event; and the loop ends
/// exactly on the ready event, which is also the only way to reach the
/// ready-seen state.
pub proof fn lemma_every_event_acknowledged(state: ChannelHandshakeState, event: NodeEvent)
    ensures
        spec_handshake_step(state, event).1.acknowledge,
        spec_handshake_step(state, event).1.mine_and_sync <==> event is ChannelPending,
        spec_handshake_step(state, event).1.finish <==> event is ChannelReady,
        spec_handshake_step(state, event).0 is ReadySeen <==> (event is ChannelReady || (state
            is ReadySeen && event is Other)),
{
}

/// Running the machine over a stream of events, starting in `state`:
/// yields the final state, how many events were fetched (and hence
/// acknowledged), and whether the loop finished.
pub open spec fn spec_run_handshake(state: ChannelHandshakeState, events: Seq<NodeEvent>) -> (
    ChannelHandshakeState,
    nat,
    bool,
)
    decreases events.len(),
{
    if events.len() == 0 {
        (state, 0, false)
    } else {
        let step = spec_handshake_step(state, events[0]);
        if step.1.finish {
            (step.0, 1, true)
        } else {
            let rest = spec_run_handshake(step.0, events.drop_first());
            (rest.0, rest.1 + 1, rest.2)
        }
    }
}

/// Over any stream of events the loop finishes exactly when the stream
/// holds a ready event; it then stops right after acknowledging the first
/// one, in the ready-seen state. When no ready event arrives it consumes —
/// and acknowledges — the whole stream and is still waiting for more.
pub proof fn lemma_run_finishes_on_first_ready(state: ChannelHandshakeState, events: Seq<NodeEvent>)
    ensures
        spec_run_handshake(state, events).2 <==> (exists|i: int|
            0 <= i < events.len() && events[i] is ChannelReady),
        spec_run_handshake(state, events).2 ==> {
            let consumed = spec_run_handshake(state, events).1;
            &&& 1 <= consumed <= events.len()
            &&& events[consumed - 1] is ChannelReady
            &&& (forall|j: int| 0 <= j < consumed - 1 ==> !(events[j] is ChannelReady))
            &&& spec_run_handshake(state, events).0 is ReadySeen
        },
        !spec_run_handshake(state, events).2 ==> spec_run_handshake(state, events).1
            == events.len(),
    decreases events.len(),
{
    if events.len() == 0 {
    } else {
        let step = spec_handshake_step(state, events[0]);
        if step.1.finish {
            assert(events[0] is ChannelReady);
        } else {
            lemma_run_finishes_on_first_ready(step.0, events.drop_first());
            assert(!(events[0] is ChannelReady));
            if spec_run_handshake(state, events).2 {
                let consumed = spec_run_handshake(state, events).1;
                let rest_consumed = spec_run_handshake(step.0, events.drop_first()).1;
                assert(consumed == rest_consumed + 1);
                assert(events.drop_first()[rest_consumed - 1] == events[consumed - 1]);
                assert(forall|j: int|
                    0 <= j < consumed - 1 ==> !(#[trigger] events[j] is ChannelReady)) by {
                    assert(forall|j: int|
                        1 <= j < consumed - 1 ==> events[j] == events.drop_first()[j - 1]);
                }
                let i = choose|i: int|
                    0 <= i < events.drop_first().len() && events.drop_first()[i] is ChannelReady;
                assert(events[i + 1] is ChannelReady);
            } else {
                assert(forall|i: int|
                    0 <= i < events.len() ==> !(#[trigger] events[i] is ChannelReady)) by {
                    assert(forall|i: int|
                        1 <= i < events.len() ==> events[i] == events.drop_first()[i - 1]);
                }
            }
        }
    }
}

} // verus!
