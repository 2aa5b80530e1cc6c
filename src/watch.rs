//! Decisions of the configuration file watcher. The host registers the
//! watch and blocks on its notifications; this module says what each step
//! leads to.

use vstd::prelude::*;

verus! {

/// The phase a watcher is in.
#[derive(Debug, Clone, Copy, PartialEq, Eq, Structural)]
pub enum WatchState {
    /// The file did not exist when watching started: nothing is watched.
    Skipped,
    /// The file exists and the watch is being registered.
    Registering,
    /// Registration failed; watching stays off, with no retry.
    Failed,
    /// The file is watched and notifications are handled.
    Watching,
}

/// What the notification channel delivered.
#[derive(Debug, Clone, Copy, PartialEq, Eq, Structural)]
pub enum WatchEvent {
    /// The file changed (created, written, removed, ...).
    Changed,
    /// The watcher reported an error.
    Error,
}

/// What to do about one delivered notification.
#[derive(Debug, Clone, Copy, PartialEq, Eq, Structural)]
pub enum WatchReaction {
    /// Re-resolve the configuration, apply it and notify the frontend.
    Reload,
    /// Log the error and keep waiting.
    LogError,
    /// Nothing to do.
    Ignore,
}

pub open spec fn start_state(file_exists: bool) -> WatchState {
    if file_exists {
        WatchState::Registering
    } else {
        WatchState::Skipped
    }
}

pub open spec fn registration_state(s: WatchState, ok: bool) -> WatchState {
    match s {
        WatchState::Registering => if ok {
            WatchState::Watching
        } else {
            WatchState::Failed
        },
        _ => s,
    }
}

pub open spec fn reaction(s: WatchState, ev: WatchEvent) -> WatchReaction {
    match s {
        WatchState::Watching => match ev {
            WatchEvent::Changed => WatchReaction::Reload,
            WatchEvent::Error => WatchReaction::LogError,
        },
        _ => WatchReaction::Ignore,
    }
}

/// The reactions of a watcher in state `s` to a run of notifications;
/// handling one leaves the state as it is.
pub open spec fn reactions(s: WatchState, events: Seq<WatchEvent>) -> Seq<WatchReaction> {
    events.map_values(|ev: WatchEvent| reaction(s, ev))
}

impl WatchState {
    /// The state of a watcher started on a file that exists or not.
    pub fn start(file_exists: bool) -> (r: WatchState)
        ensures
            r == start_state(file_exists),
    {
        if file_exists {
            WatchState::Registering
        } else {
            WatchState::Skipped
        }
    }

    /// The state once registration succeeded (`ok`) or failed. Only a
    /// watcher that is registering changes.
    pub fn registered(self, ok: bool) -> (r: WatchState)
        ensures
            r == registration_state(self, ok),
    {
        match self {
            WatchState::Registering => if ok {
                WatchState::Watching
            } else {
                WatchState::Failed
            },
            _ => self,
        }
    }

    /// Whether a watch should be registered from this state.
    pub fn should_register(&self) -> (r: bool)
        ensures
            r == (*self == WatchState::Registering),
    {
        match self {
            WatchState::Registering => true,
            _ => false,
        }
    }

    /// What to do about one delivered notification.
    pub fn on_event(&self, ev: WatchEvent) -> (r: WatchReaction)
        ensures
            r == reaction(*self, ev),
    {
        match self {
            WatchState::Watching => match ev {
                WatchEvent::Changed => WatchReaction::Reload,
                WatchEvent::Error => WatchReaction::LogError,
            },
            _ => WatchReaction::Ignore,
        }
    }
}

/// A watcher started while the file is missing registers nothing, and no
/// later notification, the file's creation included, makes it reload,
/// whatever a registration attempt would have returned.
pub proof fn missing_file_never_reloads(ok: bool, events: Seq<WatchEvent>)
    ensures
        start_state(false) == WatchState::Skipped,
        registration_state(start_state(false), ok) == WatchState::Skipped,
        forall|i: int|
            0 <= i < events.len() ==> #[trigger] reactions(start_state(false), events)[i]
                != WatchReaction::Reload,
{
}

} // verus!
