//! Time entries and the draft that restarts one.
use vstd::prelude::*;

verus! {

/// A time entry as the remote service reports it. Timestamps are seconds
/// since the Unix epoch, in UTC; an entry without `stop` is running.
#[derive(Debug, Clone, PartialEq, Eq)]
pub struct TimeEntry {
    pub id: u64,
    pub description: String,
    pub project_id: Option<u64>,
    pub tags: Vec<String>,
    pub start: i64,
    pub stop: Option<i64>,
}

/// A new entry to be created: it has no identity until the service assigns one.
#[derive(Debug, Clone, PartialEq, Eq)]
pub struct TimeEntryDraft {
    pub description: String,
    pub project_id: Option<u64>,
    pub tags: Vec<String>,
    pub start: i64,
    pub stop: Option<i64>,
}

/// The running copy of `e`: same description, project and tags, started at
/// `start_time`, with no end.
pub open spec fn running_copy(e: TimeEntry, start_time: i64) -> TimeEntryDraft {
    TimeEntryDraft {
        description: e.description,
        project_id: e.project_id,
        tags: e.tags,
        start: start_time,
        stop: None,
    }
}

impl TimeEntry {
    /// Turns this entry into a draft of a new running entry that starts at
    /// `start_time`. The entry itself is consumed, never changed in place.
    pub fn as_running_time_entry(self, start_time: i64) -> (r: TimeEntryDraft)
        ensures
            r == running_copy(self, start_time),
            r.description == self.description,
            r.project_id == self.project_id,
            r.tags == self.tags,
            r.start == start_time,
            r.stop.is_none(),
    {
        TimeEntryDraft {
            description: self.description,
            project_id: self.project_id,
            tags: self.tags,
            start: start_time,
            stop: None,
        }
    }
}

} // verus!
