//! The schedule on which the access token is fetched anew.
//!
//! The library decides and the caller acts: the caller hands over each
//! event as it happens (the timer fired, the exchange came back) and gets
//! the action to perform.

use crate::authentication::get_token::client_credentials_flow::{AccessToken, Response};
use vstd::prelude::*;

verus! {

/// The seconds between two fetches.
pub const REFRESH_PERIOD_SECS: u64 = 3600;

/// Where the schedule stands.
#[derive(Debug, Clone, Copy, PartialEq, Eq, Structural)]
pub enum RefreshState {
    /// The client was just built: the timer has not fired yet.
    Starting,
    /// Waiting for the timer.
    Idle,
    /// The timer fired and the exchange is under way.
    FetchInFlight,
    /// An exchange failed: nothing is fetched any more.
    Stopped,
}

/// What the caller reports.
#[derive(Debug)]
pub enum RefreshEvent {
    /// The timer fired.
    Tick,
    /// The exchange came back with a token.
    Fetched(Response),
    /// The exchange failed.
    Failed,
}

/// What the caller is to do next.
#[derive(Debug, Clone, Copy, PartialEq, Eq, Structural)]
pub enum RefreshAction {
    /// Wait for the timer to fire.
    Wait,
    /// Run the exchange and report how it ended.
    Fetch,
    /// Give up the schedule and make the failure known.
    Halt,
}

/// The state that follows `state` on `event`. The first firing of the timer
/// starts no exchange; each later one starts one, unless one is under way;
/// a failed exchange ends the schedule.
pub open spec fn next_state(state: RefreshState, event: RefreshEvent) -> RefreshState {
    match (state, event) {
        (RefreshState::Starting, RefreshEvent::Tick) => RefreshState::Idle,
        (RefreshState::Idle, RefreshEvent::Tick) => RefreshState::FetchInFlight,
        (RefreshState::FetchInFlight, RefreshEvent::Fetched(_)) => RefreshState::Idle,
        (RefreshState::FetchInFlight, RefreshEvent::Failed) => RefreshState::Stopped,
        _ => state,
    }
}

/// The action that answers `event` in `state`.
pub open spec fn action_on(state: RefreshState, event: RefreshEvent) -> RefreshAction {
    match (state, event) {
        (RefreshState::Idle, RefreshEvent::Tick) => RefreshAction::Fetch,
        (RefreshState::FetchInFlight, RefreshEvent::Failed) => RefreshAction::Halt,
        (RefreshState::Stopped, _) => RefreshAction::Halt,
        _ => RefreshAction::Wait,
    }
}

/// Whether `event` in `state` puts a new token in the cache.
pub open spec fn commits(state: RefreshState, event: RefreshEvent) -> bool {
    state == RefreshState::FetchInFlight && event is Fetched
}

/// Decides on one event: the state that follows and the action to perform.
pub fn step(state: RefreshState, event: &RefreshEvent) -> (decided: (RefreshState, RefreshAction))
    ensures
        decided.0 == next_state(state, *event),
        decided.1 == action_on(state, *event),
{
    match state {
        RefreshState::Starting => match event {
            RefreshEvent::Tick => (RefreshState::Idle, RefreshAction::Wait),
            _ => (RefreshState::Starting, RefreshAction::Wait),
        },
        RefreshState::Idle => match event {
            RefreshEvent::Tick => (RefreshState::FetchInFlight, RefreshAction::Fetch),
            _ => (RefreshState::Idle, RefreshAction::Wait),
        },
        RefreshState::FetchInFlight => match event {
            RefreshEvent::Tick => (RefreshState::FetchInFlight, RefreshAction::Wait),
            RefreshEvent::Fetched(_) => (RefreshState::Idle, RefreshAction::Wait),
            RefreshEvent::Failed => (RefreshState::Stopped, RefreshAction::Halt),
        },
        RefreshState::Stopped => (RefreshState::Stopped, RefreshAction::Halt),
    }
}

/// What the schedule is about: the cached token and the state.
pub struct ClientState {
    pub token: AccessToken,
    pub state: RefreshState,
}

/// The client as it is built on its first token: the timer has not fired.
pub open spec fn built_on(first: AccessToken) -> ClientState {
    ClientState { token: first, state: RefreshState::Starting }
}

/// The client after one event.
pub open spec fn after(client: ClientState, event: RefreshEvent) -> ClientState {
    ClientState {
        token: if commits(client.state, event) {
            event->Fetched_0@
        } else {
            client.token
        },
        state: next_state(client.state, event),
    }
}

/// The client after `events`, in their order.
pub open spec fn after_all(client: ClientState, events: Seq<RefreshEvent>) -> ClientState
    decreases events.len(),
{
    if events.len() == 0 {
        client
    } else {
        after(after_all(client, events.drop_last()), events.last())
    }
}

/// How many exchanges the caller is told to run while `events` happen.
pub open spec fn fetches(client: ClientState, events: Seq<RefreshEvent>) -> nat
    decreases events.len(),
{
    if events.len() == 0 {
        0
    } else {
        let before = events.drop_last();
        let told = action_on(after_all(client, before).state, events.last());
        fetches(client, before) + if told == RefreshAction::Fetch {
            1nat
        } else {
            0nat
        }
    }
}

/// How many exchanges have run for a client once `events` have happened
/// to it since it was built: the one that it was built on, and each that
/// the caller was told to run.
pub open spec fn exchanges(first: AccessToken, events: Seq<RefreshEvent>) -> nat {
    1 + fetches(built_on(first), events)
}

/// The token of the last of the exchanges that brought `first` and then
/// `tokens`.
pub open spec fn latest(first: AccessToken, tokens: Seq<Response>) -> AccessToken {
    if tokens.len() == 0 {
        first
    } else {
        tokens.last()@
    }
}

/// The events of a run in which the timer fires once at the start and once
/// after each of `tokens.len()` periods, and each exchange comes back with
/// the next of `tokens`.
pub open spec fn periods(tokens: Seq<Response>) -> Seq<RefreshEvent>
    decreases tokens.len(),
{
    if tokens.len() == 0 {
        seq![RefreshEvent::Tick]
    } else {
        periods(tokens.drop_last()) + seq![
            RefreshEvent::Tick,
            RefreshEvent::Fetched(tokens.last()),
        ]
    }
}

/// After the client was built on a first token, `tokens.len()` periods
/// bring exactly as many exchanges, one per period and none at the start,
/// which with the first makes one more than there were periods; the cache
/// then holds the token of the last exchange, and the schedule waits.
pub proof fn lemma_one_fetch_per_period(first: AccessToken, tokens: Seq<Response>)
    ensures
        exchanges(first, periods(tokens)) == tokens.len() + 1,
        after_all(built_on(first), periods(tokens)).token == latest(first, tokens),
        after_all(built_on(first), periods(tokens)).state == RefreshState::Idle,
    decreases tokens.len(),
{
    let start = built_on(first);
    if tokens.len() == 0 {
        let events = periods(tokens);
        assert(events.drop_last() == Seq::<RefreshEvent>::empty());
        assert(after_all(start, events.drop_last()) == start);
        assert(fetches(start, events.drop_last()) == 0);
    } else {
        let earlier = periods(tokens.drop_last());
        let tick = RefreshEvent::Tick;
        let fetched = RefreshEvent::Fetched(tokens.last());
        let events = periods(tokens);
        lemma_one_fetch_per_period(first, tokens.drop_last());
        assert(events == earlier + seq![tick, fetched]);
        assert(events.drop_last() == earlier.push(tick));
        assert(events.last() == fetched);
        assert(earlier.push(tick).drop_last() == earlier);
        assert(earlier.push(tick).last() == tick);
        assert(after_all(start, earlier).state == RefreshState::Idle);
        assert(after_all(start, earlier.push(tick)).state == RefreshState::FetchInFlight);
        assert(fetches(start, earlier.push(tick)) == fetches(start, earlier) + 1);
    }
}

/// The events of a period whose exchange fails.
pub open spec fn failed_period() -> Seq<RefreshEvent> {
    seq![RefreshEvent::Tick, RefreshEvent::Failed]
}

/// Where the exchange of the period after `tokens.len()` good ones fails,
/// the schedule stops, and the cache keeps the token of the last exchange
/// that succeeded.
pub proof fn lemma_failure_keeps_last_token(first: AccessToken, tokens: Seq<Response>)
    ensures
        exchanges(first, periods(tokens) + failed_period()) == tokens.len() + 2,
        after_all(built_on(first), periods(tokens) + failed_period()).token == latest(
            first,
            tokens,
        ),
        after_all(built_on(first), periods(tokens) + failed_period()).state
            == RefreshState::Stopped,
{
    let start = built_on(first);
    let earlier = periods(tokens);
    let tick = RefreshEvent::Tick;
    let events = earlier + failed_period();
    lemma_one_fetch_per_period(first, tokens);
    assert(events.drop_last() == earlier.push(tick));
    assert(events.last() == RefreshEvent::Failed);
    assert(earlier.push(tick).drop_last() == earlier);
    assert(earlier.push(tick).last() == tick);
    assert(after_all(start, earlier.push(tick)).state == RefreshState::FetchInFlight);
    assert(fetches(start, earlier.push(tick)) == fetches(start, earlier) + 1);
}

/// The client that holds `token` and whose schedule has stopped.
pub open spec fn stopped_with(token: AccessToken) -> ClientState {
    ClientState { token, state: RefreshState::Stopped }
}

/// Once an exchange has failed, whatever happens, no exchange is run and
/// the cached token stays as it was.
pub proof fn lemma_stopped_for_good(token: AccessToken, events: Seq<RefreshEvent>)
    ensures
        after_all(stopped_with(token), events) == stopped_with(token),
        fetches(stopped_with(token), events) == 0,
    decreases events.len(),
{
    if events.len() > 0 {
        lemma_stopped_for_good(token, events.drop_last());
    }
}

} // verus!
