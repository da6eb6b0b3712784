//! Choosing which stopped entry to continue.
use vstd::prelude::*;
use crate::entry::TimeEntry;

verus! {

/// Where automatic selection looks: the newest entry, or the one after it
/// when an entry was running before the workflow stopped it (that entry is
/// now the newest, and continuing it again is not what the user wants).
pub open spec fn first_stopped_index(was_running: bool) -> int {
    if was_running { 1 } else { 0 }
}

/// The entry that automatic selection continues, if there is one.
pub open spec fn first_stopped(entries: Seq<TimeEntry>, was_running: bool) -> Option<TimeEntry> {
    let i = first_stopped_index(was_running);
    if i < entries.len() { Some(entries[i]) } else { None }
}

/// `i` is the first position of `entries` whose entry has identity `id`.
pub open spec fn is_first_with_id(entries: Seq<TimeEntry>, id: u64, i: int) -> bool {
    &&& 0 <= i < entries.len()
    &&& entries[i].id == id
    &&& forall|j: int| 0 <= j < i ==> entries[j].id != id
}

/// The first entry of `entries` with identity `id`, if any.
pub open spec fn find_by_id(entries: Seq<TimeEntry>, id: u64) -> Option<TimeEntry> {
    if exists|i: int| is_first_with_id(entries, id, i) {
        Some(entries[choose|i: int| is_first_with_id(entries, id, i)])
    } else {
        None
    }
}

/// Some entry carries `id` only if a first one does.
proof fn lemma_first_with_id_exists(entries: Seq<TimeEntry>, id: u64, i: int)
    requires
        0 <= i < entries.len(),
        entries[i].id == id,
    ensures
        exists|k: int| is_first_with_id(entries, id, k),
    decreases i,
{
    if exists|j: int| 0 <= j < i && entries[j].id == id {
        let j = choose|j: int| 0 <= j < i && entries[j].id == id;
        lemma_first_with_id_exists(entries, id, j);
    } else {
        assert(is_first_with_id(entries, id, i));
    }
}

/// Looking an identity up finds an entry exactly when the list holds one
/// that carries it, and what it finds is such an entry of the list.
pub proof fn lemma_find_by_id_shares_id(entries: Seq<TimeEntry>, id: u64)
    ensures
        find_by_id(entries, id).is_some() <==> exists|i: int|
            0 <= i < entries.len() && entries[i].id == id,
        find_by_id(entries, id) matches Some(e) ==> e.id == id && entries.contains(e),
{
    if exists|i: int| 0 <= i < entries.len() && entries[i].id == id {
        let i = choose|i: int| 0 <= i < entries.len() && entries[i].id == id;
        lemma_first_with_id_exists(entries, id, i);
        let k = choose|k: int| is_first_with_id(entries, id, k);
        assert(entries.contains(entries[k]));
    }
}

/// Automatic selection. `time_entries` is ordered newest first;
/// `running_time_entry` is what the workflow stopped before fetching them.
pub fn get_first_stopped_time_entry(
    time_entries: Vec<TimeEntry>,
    running_time_entry: Option<TimeEntry>,
) -> (r: Option<TimeEntry>)
    ensures
        r == first_stopped(time_entries@, running_time_entry.is_some()),
        running_time_entry.is_none() && time_entries.len() > 0 ==> r == Some(time_entries@[0]),
        running_time_entry.is_some() && time_entries.len() >= 2 ==> r == Some(time_entries@[1]),
        running_time_entry.is_some() && time_entries.len() <= 1 ==> r.is_none(),
        running_time_entry.is_none() && time_entries.len() == 0 ==> r.is_none(),
{
    // Don't continue the entry that was just stopped.
    let continue_entry_index: usize = match running_time_entry {
        None => 0,
        Some(_) => 1,
    };
    let mut time_entries = time_entries;
    if continue_entry_index < time_entries.len() {
        Some(time_entries.remove(continue_entry_index))
    } else {
        None
    }
}

/// The position of the first entry with identity `id`.
pub fn position_of_id(time_entries: &Vec<TimeEntry>, id: u64) -> (r: Option<usize>)
    ensures
        match r {
            Some(i) => is_first_with_id(time_entries@, id, i as int),
            None => forall|j: int| 0 <= j < time_entries.len() ==> time_entries@[j].id != id,
        },
{
    let mut i: usize = 0;
    while i < time_entries.len()
        invariant
            i <= time_entries.len(),
            forall|j: int| 0 <= j < i ==> time_entries@[j].id != id,
        decreases time_entries.len() - i,
    {
        if time_entries[i].id == id {
            return Some(i);
        }
        i = i + 1;
    }
    None
}

/// Takes out of `time_entries` the first entry with identity `id`: how a
/// choice made by identity is turned back into the entry it names.
pub fn take_by_id(time_entries: Vec<TimeEntry>, id: u64) -> (r: Option<TimeEntry>)
    ensures
        r == find_by_id(time_entries@, id),
        r.is_some() <==> exists|i: int| 0 <= i < time_entries.len() && time_entries@[i].id == id,
        r matches Some(e) ==> e.id == id,
{
    let ghost entries = time_entries@;
    let mut time_entries = time_entries;
    match position_of_id(&time_entries, id) {
        Some(i) => {
            proof {
                assert(is_first_with_id(entries, id, i as int));
                let k = choose|k: int| is_first_with_id(entries, id, k);
                assert(k == i as int) by {
                    if k < i as int {
                        assert(entries[k].id != id);
                    } else if k > i as int {
                        assert(entries[i as int].id != id);
                    }
                }
            }
            Some(time_entries.remove(i))
        },
        None => {
            proof {
                assert forall|k: int| !is_first_with_id(entries, id, k) by {
                    if 0 <= k < entries.len() {
                        assert(entries[k].id != id);
                    }
                }
            }
            None
        },
    }
}

} // verus!
