//! What a selection surface is shown of each entry.
use vstd::prelude::*;
use crate::entry::TimeEntry;

verus! {

/// One line of a selection list: the entry's identity, by which the choice
/// is resolved, and the text shown for it.
#[derive(Debug, Clone, PartialEq, Eq)]
pub struct PickableItem {
    pub id: u64,
    pub formatted: String,
}

/// Why a selection surface gave no choice.
#[derive(Debug, Clone, PartialEq, Eq)]
pub enum PickError {
    /// The user backed out.
    Cancelled,
    /// The surface itself failed, with its message.
    Failed(String),
}

/// The item shown for `e`.
pub open spec fn pickable_of(e: TimeEntry) -> PickableItem {
    PickableItem { id: e.id, formatted: e.description }
}

/// The items shown for `entries`, one each, in the same order.
pub open spec fn is_pick_list(items: Seq<PickableItem>, entries: Seq<TimeEntry>) -> bool {
    &&& items.len() == entries.len()
    &&& forall|i: int| 0 <= i < entries.len() ==> items[i] == pickable_of(entries[i])
}

impl PickableItem {
    /// The item shown for `time_entry`.
    pub fn from_time_entry(time_entry: &TimeEntry) -> (r: PickableItem)
        ensures
            r == pickable_of(*time_entry),
    {
        PickableItem { id: time_entry.id, formatted: time_entry.description.clone() }
    }
}

/// The items shown for `time_entries`, in their order.
pub fn to_pickable_items(time_entries: &Vec<TimeEntry>) -> (r: Vec<PickableItem>)
    ensures
        is_pick_list(r@, time_entries@),
{
    let mut items: Vec<PickableItem> = Vec::new();
    let mut i: usize = 0;
    while i < time_entries.len()
        invariant
            i <= time_entries.len(),
            is_pick_list(items@, time_entries@.take(i as int)),
        decreases time_entries.len() - i,
    {
        items.push(PickableItem::from_time_entry(&time_entries[i]));
        i = i + 1;
    }
    assert(time_entries@.take(i as int) =~= time_entries@);
    items
}

} // verus!
