use crate::item::FeedItem;
use vstd::prelude::*;

verus! {

// ---------------------------------------------------------------------------
// The dispatch loop's decision table. The loop itself multiplexes three
// asynchronous triggers (upstream change, timer tick, quit signal); what it
// decides on each observed trigger is pure and stands here.
// ---------------------------------------------------------------------------

/// The dispatch loop's state.
#[derive(Clone, Copy, Debug, PartialEq, Eq, Structural)]
pub enum DispatchState {
    /// Subscribed, but the very first timer tick has not elapsed yet; that
    /// tick is discarded, since an initial recompute is assumed already
    /// imminent from subscription setup. No other trigger is observed in
    /// this state.
    AwaitingFirstTick,
    /// Awaiting the next trigger.
    Idle,
    /// Terminal: the loop has exited and never dispatches again.
    Stopped,
}

/// One trigger observed by the dispatch loop.
#[derive(Clone, Copy, Debug, PartialEq, Eq, Structural)]
pub enum WatchEvent {
    /// The upstream preferences watch published a change.
    PrefsChanged,
    /// The upstream preferences watch closed its channel; fatal to this
    /// watcher.
    PrefsClosed,
    /// The periodic timer elapsed.
    Tick,
    /// The quit signal was received.
    Quit,
}

/// What the loop does in reaction to a trigger. A recompute always runs as
/// an independently scheduled task, so a slow fetch never blocks the loop.
#[derive(Clone, Copy, Debug, PartialEq, Eq, Structural)]
pub enum DispatchAction {
    /// Keep waiting.
    Nothing,
    /// Spawn a recompute using the newly observed preferences value.
    RecomputeWithFreshPrefs,
    /// Spawn a recompute using the current, possibly already seen,
    /// preferences value.
    RecomputeWithCurrentPrefs,
    /// Exit the dispatch loop.
    Exit,
}

/// The decision table: next state and action for each observed trigger.
pub open spec fn spec_dispatch_step(state: DispatchState, event: WatchEvent) -> (
    DispatchState,
    DispatchAction,
) {
    match state {
        DispatchState::Stopped => (DispatchState::Stopped, DispatchAction::Nothing),
        DispatchState::AwaitingFirstTick => match event {
            WatchEvent::Tick => (DispatchState::Idle, DispatchAction::Nothing),
            _ => (DispatchState::AwaitingFirstTick, DispatchAction::Nothing),
        },
        DispatchState::Idle => match event {
            WatchEvent::PrefsChanged => (DispatchState::Idle, DispatchAction::RecomputeWithFreshPrefs),
            WatchEvent::Tick => (DispatchState::Idle, DispatchAction::RecomputeWithCurrentPrefs),
            WatchEvent::PrefsClosed => (DispatchState::Stopped, DispatchAction::Exit),
            WatchEvent::Quit => (DispatchState::Stopped, DispatchAction::Exit),
        },
    }
}

/// Take one step of the dispatch loop. Stopped is terminal: once there, no
/// trigger ever produces another action.
pub fn dispatch_step(state: DispatchState, event: WatchEvent) -> (r: (
    DispatchState,
    DispatchAction,
))
    ensures
        r == spec_dispatch_step(state, event),
        state is Stopped ==> r.0 is Stopped && r.1 is Nothing,
{
    match state {
        DispatchState::Stopped => (DispatchState::Stopped, DispatchAction::Nothing),
        DispatchState::AwaitingFirstTick => match event {
            WatchEvent::Tick => (DispatchState::Idle, DispatchAction::Nothing),
            _ => (DispatchState::AwaitingFirstTick, DispatchAction::Nothing),
        },
        DispatchState::Idle => match event {
            WatchEvent::PrefsChanged => (
                DispatchState::Idle,
                DispatchAction::RecomputeWithFreshPrefs,
            ),
            WatchEvent::Tick => (DispatchState::Idle, DispatchAction::RecomputeWithCurrentPrefs),
            WatchEvent::PrefsClosed => (DispatchState::Stopped, DispatchAction::Exit),
            WatchEvent::Quit => (DispatchState::Stopped, DispatchAction::Exit),
        },
    }
}

/// A remote fetch that failed: recoverable, local to one recompute.
#[derive(Debug)]
pub struct FetchError {
    /// What went wrong, for the surrounding program's log.
    pub message: String,
}

/// What a finished recompute publishes: the merged-and-filtered feed on
/// success, nothing on failure — the previously published value then stays
/// visible to every subscriber, and no retry is scheduled beyond the next
/// normal trigger.
pub fn publish_decision(outcome: Result<Vec<FeedItem>, FetchError>) -> (r: Option<Vec<FeedItem>>)
    ensures
        (match outcome {
            Ok(feed) => r == Some(feed),
            Err(_) => r is None,
        }),
{
    match outcome {
        Ok(feed) => Some(feed),
        Err(_) => None,
    }
}

} // verus!
