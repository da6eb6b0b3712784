//! The continue workflow: stop, wait, fetch, select, create, wait, fetch,
//! report. The caller performs each action against the remote service, the
//! selection surface and the clock, and hands back what came of it.
use vstd::prelude::*;
use crate::entry::{running_copy, TimeEntry, TimeEntryDraft};
use crate::picker::{is_pick_list, to_pickable_items, PickError, PickableItem};
use crate::selection::{
    find_by_id, first_stopped, get_first_stopped_time_entry, lemma_find_by_id_shares_id, take_by_id,
};

verus! {

/// Seconds to wait after a call that changes remote state, so that the
/// service's rate limiter is not tripped by the fetch that follows.
pub const RATE_LIMIT_DELAY_SECS: u64 = 5;

/// Where the workflow stands.
#[derive(Debug, Clone, PartialEq, Eq)]
pub enum Phase {
    /// Not started.
    Ready,
    /// Waiting for the running entry, if any, to be stopped.
    Stopping,
    /// Waiting out the delay after the stop.
    AwaitingFetch { previously_running: Option<TimeEntry> },
    /// Waiting for the recent entries.
    Fetching { previously_running: Option<TimeEntry> },
    /// Waiting for the user's choice among these entries.
    Selecting { time_entries: Vec<TimeEntry> },
    /// Waiting for the service to create the new entry.
    Creating,
    /// Waiting out the delay after the creation.
    AwaitingConfirmation { created_id: u64 },
    /// Waiting for the entries that should hold the created one.
    Confirming { created_id: u64 },
    /// Finished, one way or another.
    Done,
}

/// What came of the last action.
#[derive(Debug, Clone, PartialEq, Eq)]
pub enum Event {
    /// Begin the workflow.
    Start,
    /// The running entry was stopped (or none was running).
    Stopped(Option<TimeEntry>),
    /// The delay has passed.
    Waited,
    /// The recent entries, newest first.
    Fetched(Vec<TimeEntry>),
    /// The selection surface returned this identity.
    Picked(u64),
    /// The selection surface gave no choice.
    PickFailed(PickError),
    /// The service created the new entry under this identity.
    Created(u64),
    /// A call to the service or the stop command failed, with its message.
    Failed(String),
}

/// How the workflow ended well.
#[derive(Debug, Clone, PartialEq, Eq)]
pub enum Outcome {
    /// The service holds no recent entries.
    NoEntries,
    /// There was no stopped entry to continue.
    NothingToContinue,
    /// This entry, as fetched after its creation, now runs.
    Continued(TimeEntry),
}

/// How the workflow ended badly.
#[derive(Debug, Clone, PartialEq, Eq)]
pub enum ContinueError {
    /// A call to the service or the stop command failed.
    Collaborator(String),
    /// The selection surface gave no choice.
    Picker(PickError),
    /// The selection surface returned an identity it was not shown.
    PickedEntryMissing(u64),
    /// The entry just created is not among the entries fetched after it.
    CreatedEntryMissing(u64),
    /// An event came that the current phase does not wait for.
    UnexpectedEvent,
}

/// What the caller is to do next.
#[derive(Debug, Clone, PartialEq, Eq)]
pub enum Action {
    /// Stop the running entry, and report it.
    Stop,
    /// Wait this many seconds.
    Wait(u64),
    /// Fetch the recent entries.
    FetchEntries,
    /// Let the user choose among these items.
    Pick(Vec<PickableItem>),
    /// Create this entry.
    Create(TimeEntryDraft),
    /// The workflow succeeded.
    Finish(Outcome),
    /// The workflow failed.
    Abort(ContinueError),
}

/// The continue workflow. With `interactive` the user chooses the entry to
/// continue; without it the newest stopped entry is taken.
#[derive(Debug, Clone, PartialEq, Eq)]
pub struct ContinueCommand {
    pub interactive: bool,
    pub delay_secs: u64,
    pub phase: Phase,
}

/// One step of the workflow: in `cmd`, `event` leads to phase `next` and to
/// `action`, with `now` as the start of an entry created in this step.
pub open spec fn is_transition(
    cmd: ContinueCommand,
    event: Event,
    now: i64,
    next: Phase,
    action: Action,
) -> bool {
    match (cmd.phase, event) {
        (_, Event::Failed(message)) => {
            next == Phase::Done && action == Action::Abort(ContinueError::Collaborator(message))
        },
        (Phase::Ready, Event::Start) => next == Phase::Stopping && action == Action::Stop,
        (Phase::Stopping, Event::Stopped(prev)) => {
            next == (Phase::AwaitingFetch { previously_running: prev })
                && action == Action::Wait(cmd.delay_secs)
        },
        (Phase::AwaitingFetch { previously_running }, Event::Waited) => {
            next == (Phase::Fetching { previously_running }) && action == Action::FetchEntries
        },
        (Phase::Fetching { previously_running }, Event::Fetched(entries)) => {
            if entries.len() == 0 {
                next == Phase::Done && action == Action::Finish(Outcome::NoEntries)
            } else if cmd.interactive {
                &&& next == (Phase::Selecting { time_entries: entries })
                &&& action is Pick
                &&& is_pick_list(action->Pick_0@, entries@)
            } else {
                match first_stopped(entries@, previously_running.is_some()) {
                    None => next == Phase::Done && action == Action::Finish(
                        Outcome::NothingToContinue,
                    ),
                    Some(e) => next == Phase::Creating && action == Action::Create(
                        running_copy(e, now),
                    ),
                }
            }
        },
        (Phase::Selecting { time_entries }, Event::Picked(id)) => {
            match find_by_id(time_entries@, id) {
                None => next == Phase::Done && action == Action::Abort(
                    ContinueError::PickedEntryMissing(id),
                ),
                Some(e) => next == Phase::Creating && action == Action::Create(running_copy(e, now)),
            }
        },
        (Phase::Selecting { .. }, Event::PickFailed(err)) => {
            next == Phase::Done && action == Action::Abort(ContinueError::Picker(err))
        },
        (Phase::Creating, Event::Created(id)) => {
            next == (Phase::AwaitingConfirmation { created_id: id })
                && action == Action::Wait(cmd.delay_secs)
        },
        (Phase::AwaitingConfirmation { created_id }, Event::Waited) => {
            next == (Phase::Confirming { created_id }) && action == Action::FetchEntries
        },
        (Phase::Confirming { created_id }, Event::Fetched(entries)) => {
            match find_by_id(entries@, created_id) {
                None => next == Phase::Done && action == Action::Abort(
                    ContinueError::CreatedEntryMissing(created_id),
                ),
                Some(e) => next == Phase::Done && action == Action::Finish(Outcome::Continued(e)),
            }
        },
        _ => next == Phase::Done && action == Action::Abort(ContinueError::UnexpectedEvent),
    }
}

/// In interactive mode the identity that the picker returns is resolved to
/// the entry of the shown list that carries it, and a running copy of that
/// entry is what gets created.
pub proof fn lemma_picked_entry_is_continued(
    cmd: ContinueCommand,
    id: u64,
    now: i64,
    next: Phase,
    action: Action,
)
    requires
        cmd.phase is Selecting,
        exists|i: int|
            0 <= i < cmd.phase->time_entries.len() && cmd.phase->time_entries@[i].id == id,
        is_transition(cmd, Event::Picked(id), now, next, action),
    ensures
        next == Phase::Creating,
        exists|e: TimeEntry|
            cmd.phase->time_entries@.contains(e) && e.id == id && action == Action::Create(
                running_copy(e, now),
            ),
{
    let entries = cmd.phase->time_entries@;
    lemma_find_by_id_shares_id(entries, id);
    let e = find_by_id(entries, id)->0;
    assert(entries.contains(e) && e.id == id && action == Action::Create(running_copy(e, now)));
}

/// Relies on chrono's `Utc::now`, read as whole seconds since the Unix epoch
/// by `DateTime::timestamp`. The clock decides the value: nothing is promised
/// of it.
#[verifier::external_body]
fn current_timestamp() -> (r: i64) {
    chrono::Utc::now().timestamp()
}

impl ContinueCommand {
    /// A workflow that has not started, waiting `delay_secs` after each call
    /// that changes remote state.
    pub fn new(interactive: bool, delay_secs: u64) -> (r: ContinueCommand)
        ensures
            r.interactive == interactive,
            r.delay_secs == delay_secs,
            r.phase == Phase::Ready,
    {
        ContinueCommand { interactive, delay_secs, phase: Phase::Ready }
    }

    /// Whether the workflow has finished.
    pub fn is_done(&self) -> (r: bool)
        ensures
            r == (self.phase == Phase::Done),
    {
        match self.phase {
            Phase::Done => true,
            _ => false,
        }
    }

    /// Takes `event` and returns what to do next; an entry created in this
    /// step starts at `now`.
    pub fn step_at(&mut self, event: Event, now: i64) -> (r: Action)
        ensures
            final(self).interactive == old(self).interactive,
            final(self).delay_secs == old(self).delay_secs,
            is_transition(*old(self), event, now, final(self).phase, r),
    {
        let mut phase = Phase::Done;
        std::mem::swap(&mut phase, &mut self.phase);
        match (phase, event) {
            (_, Event::Failed(message)) => Action::Abort(ContinueError::Collaborator(message)),
            (Phase::Ready, Event::Start) => {
                self.phase = Phase::Stopping;
                Action::Stop
            },
            (Phase::Stopping, Event::Stopped(prev)) => {
                self.phase = Phase::AwaitingFetch { previously_running: prev };
                Action::Wait(self.delay_secs)
            },
            (Phase::AwaitingFetch { previously_running }, Event::Waited) => {
                self.phase = Phase::Fetching { previously_running };
                Action::FetchEntries
            },
            (Phase::Fetching { previously_running }, Event::Fetched(time_entries)) => {
                if time_entries.len() == 0 {
                    Action::Finish(Outcome::NoEntries)
                } else if self.interactive {
                    let items = to_pickable_items(&time_entries);
                    self.phase = Phase::Selecting { time_entries };
                    Action::Pick(items)
                } else {
                    match get_first_stopped_time_entry(time_entries, previously_running) {
                        None => Action::Finish(Outcome::NothingToContinue),
                        Some(e) => {
                            self.phase = Phase::Creating;
                            Action::Create(e.as_running_time_entry(now))
                        },
                    }
                }
            },
            (Phase::Selecting { time_entries }, Event::Picked(id)) => {
                match take_by_id(time_entries, id) {
                    None => Action::Abort(ContinueError::PickedEntryMissing(id)),
                    Some(e) => {
                        self.phase = Phase::Creating;
                        Action::Create(e.as_running_time_entry(now))
                    },
                }
            },
            (Phase::Selecting { .. }, Event::PickFailed(err)) => {
                Action::Abort(ContinueError::Picker(err))
            },
            (Phase::Creating, Event::Created(id)) => {
                self.phase = Phase::AwaitingConfirmation { created_id: id };
                Action::Wait(self.delay_secs)
            },
            (Phase::AwaitingConfirmation { created_id }, Event::Waited) => {
                self.phase = Phase::Confirming { created_id };
                Action::FetchEntries
            },
            (Phase::Confirming { created_id }, Event::Fetched(time_entries)) => {
                match take_by_id(time_entries, created_id) {
                    None => Action::Abort(ContinueError::CreatedEntryMissing(created_id)),
                    Some(e) => Action::Finish(Outcome::Continued(e)),
                }
            },
            _ => Action::Abort(ContinueError::UnexpectedEvent),
        }
    }

    /// Takes `event` and returns what to do next; an entry created in this
    /// step starts at the current time, whatever the clock gives.
    pub fn step(&mut self, event: Event) -> (r: Action)
        ensures
            final(self).interactive == old(self).interactive,
            final(self).delay_secs == old(self).delay_secs,
            exists|now: i64| is_transition(*old(self), event, now, final(self).phase, r),
    {
        let now = current_timestamp();
        self.step_at(event, now)
    }
}

} // verus!
