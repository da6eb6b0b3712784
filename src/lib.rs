//! The "continue" workflow of a time-tracking client: stop what is running,
//! choose an earlier entry, and start it again as a new running entry.
use vstd::prelude::*;

pub mod cont;
pub mod entry;
pub mod picker;
pub mod selection;

verus! {

} // verus!
