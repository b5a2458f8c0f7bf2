//! The subscriber session: one state machine for each connected peer.
//!
//! The caller owns the connection and the hub subscription. It reports what
//! happened as a `SessionEvent`, and `session_step` answers with the next
//! state and the one thing to do.

use crate::models::price::PriceUpdate;
use vstd::prelude::*;

verus! {

/// Where a session stands.
#[derive(Debug, Clone, Copy, PartialEq, Eq, Structural)]
pub enum SessionState {
    /// The peer has connected and nothing was sent yet.
    Join,
    /// The session relays the hub's ticks.
    Streaming,
    /// The session is over.
    Closed,
}

/// What the caller observed.
#[derive(Debug, Clone, PartialEq, Eq)]
pub enum SessionEvent {
    /// The hub's latest tick, read once on joining.
    Snapshot(Option<PriceUpdate>),
    /// The subscription delivered a tick.
    Tick(PriceUpdate),
    /// The subscription fell behind and missed this many ticks.
    Lagged(u64),
    /// The subscription ended: the hub is gone.
    HubClosed,
    /// A forwarded tick could not be sent to the peer.
    SendFailed,
    /// The peer closed the connection.
    PeerClosed,
    /// The peer sent a frame that asks for nothing.
    PeerFrame,
    /// Reading from the peer failed.
    PeerError,
}

/// What the caller does next.
#[derive(Debug, Clone, PartialEq, Eq)]
pub enum SessionAction {
    /// Send the tick that was current on joining. A failure to send it is not
    /// reported.
    Seed(PriceUpdate),
    /// Send a tick of the subscription, and report `SendFailed` if that fails.
    Forward(PriceUpdate),
    /// Nothing to send: wait for the next event.
    Wait,
    /// Give up the subscription and the connection.
    Release,
}

/// The next state and the action for an event.
///
/// On joining, a snapshot that holds a tick is sent at once, and with or
/// without one the session starts streaming; before the snapshot nothing else
/// is looked at. While streaming, a tick is forwarded, a lag or a frame of the
/// peer changes nothing, a second snapshot is not sent again, and the end of
/// the hub, a failed send, the peer's close or a failed read end the session.
/// A closed session stays closed.
pub open spec fn step_of(state: SessionState, event: SessionEvent) -> (SessionState, SessionAction) {
    match state {
        SessionState::Join => match event {
            SessionEvent::Snapshot(Some(tick)) => (
                SessionState::Streaming,
                SessionAction::Seed(tick),
            ),
            SessionEvent::Snapshot(None) => (SessionState::Streaming, SessionAction::Wait),
            _ => (SessionState::Join, SessionAction::Wait),
        },
        SessionState::Streaming => match event {
            SessionEvent::Tick(tick) => (SessionState::Streaming, SessionAction::Forward(tick)),
            SessionEvent::Snapshot(_) => (SessionState::Streaming, SessionAction::Wait),
            SessionEvent::Lagged(_) => (SessionState::Streaming, SessionAction::Wait),
            SessionEvent::PeerFrame => (SessionState::Streaming, SessionAction::Wait),
            SessionEvent::HubClosed => (SessionState::Closed, SessionAction::Release),
            SessionEvent::SendFailed => (SessionState::Closed, SessionAction::Release),
            SessionEvent::PeerClosed => (SessionState::Closed, SessionAction::Release),
            SessionEvent::PeerError => (SessionState::Closed, SessionAction::Release),
        },
        SessionState::Closed => (SessionState::Closed, SessionAction::Release),
    }
}

/// The state after a run of events.
pub open spec fn state_after(state: SessionState, events: Seq<SessionEvent>) -> SessionState
    decreases events.len(),
{
    if events.len() == 0 {
        state
    } else {
        step_of(state_after(state, events.drop_last()), events.last()).0
    }
}

/// The actions of a run of events, one for each event, in order.
pub open spec fn actions_of(state: SessionState, events: Seq<SessionEvent>) -> Seq<SessionAction>
    decreases events.len(),
{
    if events.len() == 0 {
        Seq::empty()
    } else {
        actions_of(state, events.drop_last()).push(
            step_of(state_after(state, events.drop_last()), events.last()).1,
        )
    }
}

/// The ticks that a run of actions sends to the peer, in order.
pub open spec fn sent_ticks(actions: Seq<SessionAction>) -> Seq<PriceUpdate>
    decreases actions.len(),
{
    if actions.len() == 0 {
        Seq::empty()
    } else {
        let before = sent_ticks(actions.drop_last());
        match actions.last() {
            SessionAction::Seed(tick) => before.push(tick),
            SessionAction::Forward(tick) => before.push(tick),
            _ => before,
        }
    }
}

/// The events of a subscription that delivers `ticks` one by one.
pub open spec fn tick_events(ticks: Seq<PriceUpdate>) -> Seq<SessionEvent> {
    Seq::new(ticks.len(), |i: int| SessionEvent::Tick(ticks[i]))
}

/// The state that a session starts in.
pub fn session_start() -> (state: SessionState)
    ensures
        state == SessionState::Join,
{
    SessionState::Join
}

/// Handles one event: the next state, and what to do.
pub fn session_step(state: SessionState, event: SessionEvent) -> (r: (SessionState, SessionAction))
    ensures
        r == step_of(state, event),
{
    match state {
        SessionState::Join => match event {
            SessionEvent::Snapshot(Some(tick)) => (
                SessionState::Streaming,
                SessionAction::Seed(tick),
            ),
            SessionEvent::Snapshot(None) => (SessionState::Streaming, SessionAction::Wait),
            _ => (SessionState::Join, SessionAction::Wait),
        },
        SessionState::Streaming => match event {
            SessionEvent::Tick(tick) => (SessionState::Streaming, SessionAction::Forward(tick)),
            SessionEvent::Snapshot(_) => (SessionState::Streaming, SessionAction::Wait),
            SessionEvent::Lagged(_) => (SessionState::Streaming, SessionAction::Wait),
            SessionEvent::PeerFrame => (SessionState::Streaming, SessionAction::Wait),
            SessionEvent::HubClosed => (SessionState::Closed, SessionAction::Release),
            SessionEvent::SendFailed => (SessionState::Closed, SessionAction::Release),
            SessionEvent::PeerClosed => (SessionState::Closed, SessionAction::Release),
            SessionEvent::PeerError => (SessionState::Closed, SessionAction::Release),
        },
        SessionState::Closed => (SessionState::Closed, SessionAction::Release),
    }
}

/// Whether the session is over.
pub fn is_closed(state: SessionState) -> (r: bool)
    ensures
        r == (state == SessionState::Closed),
{
    match state {
        SessionState::Closed => true,
        _ => false,
    }
}

/// A streaming session that is handed ticks, and nothing else, stays
/// streaming and forwards exactly those ticks, in their order: none is lost,
/// repeated or moved.
pub proof fn lemma_ticks_forwarded_in_order(ticks: Seq<PriceUpdate>)
    ensures
        state_after(SessionState::Streaming, tick_events(ticks)) == SessionState::Streaming,
        sent_ticks(actions_of(SessionState::Streaming, tick_events(ticks))) == ticks,
        actions_of(SessionState::Streaming, tick_events(ticks)).len() == ticks.len(),
    decreases ticks.len(),
{
    let events = tick_events(ticks);
    if ticks.len() == 0 {
        assert(sent_ticks(actions_of(SessionState::Streaming, events)) =~= ticks);
    } else {
        lemma_ticks_forwarded_in_order(ticks.drop_last());
        assert(events.drop_last() =~= tick_events(ticks.drop_last()));
        assert(events.last() == SessionEvent::Tick(ticks.last()));
        let actions = actions_of(SessionState::Streaming, events);
        let before = actions_of(SessionState::Streaming, events.drop_last());
        assert(actions == before.push(SessionAction::Forward(ticks.last())));
        assert(actions.drop_last() =~= before);
        assert(sent_ticks(actions) =~= ticks.drop_last().push(ticks.last()));
        assert(ticks.drop_last().push(ticks.last()) =~= ticks);
    }
}

/// A lag does not end a streaming session and sends nothing, whatever the
/// number of missed ticks; the tick that comes next is forwarded.
pub proof fn lemma_lag_is_survived(missed: u64, next: PriceUpdate)
    ensures
        step_of(SessionState::Streaming, SessionEvent::Lagged(missed)) == (
            SessionState::Streaming,
            SessionAction::Wait,
        ),
        state_after(
            SessionState::Streaming,
            seq![SessionEvent::Lagged(missed), SessionEvent::Tick(next)],
        ) == SessionState::Streaming,
        sent_ticks(
            actions_of(
                SessionState::Streaming,
                seq![SessionEvent::Lagged(missed), SessionEvent::Tick(next)],
            ),
        ) == seq![next],
{
    let events = seq![SessionEvent::Lagged(missed), SessionEvent::Tick(next)];
    let first = seq![SessionEvent::Lagged(missed)];
    assert(events.drop_last() =~= first);
    assert(first.drop_last() =~= Seq::<SessionEvent>::empty());
    assert(state_after(SessionState::Streaming, first.drop_last()) == SessionState::Streaming);
    assert(state_after(SessionState::Streaming, first) == SessionState::Streaming);
    assert(first.last() == SessionEvent::Lagged(missed));
    assert(events.last() == SessionEvent::Tick(next));
    assert(actions_of(SessionState::Streaming, first.drop_last()) =~= Seq::<
        SessionAction,
    >::empty());
    let a1 = actions_of(SessionState::Streaming, first);
    assert(a1 =~= seq![SessionAction::Wait]);
    let a2 = actions_of(SessionState::Streaming, events);
    assert(a2 =~= seq![SessionAction::Wait, SessionAction::Forward(next)]);
    assert(a2.drop_last() =~= a1);
    assert(a1.drop_last() =~= Seq::<SessionAction>::empty());
    assert(sent_ticks(a1.drop_last()) =~= Seq::<PriceUpdate>::empty());
    assert(sent_ticks(a1) =~= Seq::<PriceUpdate>::empty());
    assert(sent_ticks(a2) =~= seq![next]);
}

/// A session that joins when the hub holds a tick sends that tick first and
/// once: the action for the snapshot is to send it, and a snapshot that is
/// handed in again while streaming sends nothing.
pub proof fn lemma_join_seeds_once(tick: PriceUpdate, again: Option<PriceUpdate>)
    ensures
        step_of(SessionState::Join, SessionEvent::Snapshot(Some(tick))) == (
            SessionState::Streaming,
            SessionAction::Seed(tick),
        ),
        step_of(SessionState::Join, SessionEvent::Snapshot(None)) == (
            SessionState::Streaming,
            SessionAction::Wait,
        ),
        step_of(SessionState::Streaming, SessionEvent::Snapshot(again)) == (
            SessionState::Streaming,
            SessionAction::Wait,
        ),
{
}

/// A closed session stays closed and sends nothing, whatever happens.
pub proof fn lemma_closed_is_final(events: Seq<SessionEvent>)
    ensures
        state_after(SessionState::Closed, events) == SessionState::Closed,
        sent_ticks(actions_of(SessionState::Closed, events)) == Seq::<PriceUpdate>::empty(),
    decreases events.len(),
{
    if events.len() == 0 {
    } else {
        lemma_closed_is_final(events.drop_last());
        let actions = actions_of(SessionState::Closed, events);
        assert(actions.drop_last() =~= actions_of(SessionState::Closed, events.drop_last()));
        assert(actions.last() == SessionAction::Release);
    }
}

} // verus!
