//! The batch dispatcher: every entry of a directory gets a pipeline of its
//! own, which knows of no other entry.

use crate::pipeline::{begin_spec, Action, Pipeline};
use vstd::prelude::*;

verus! {

/// Starts one pipeline for each entry of a directory listing, in the order of
/// the listing.
///
/// Each pipeline is begun from its own entry alone, so what becomes of one
/// entry cannot depend on another; and since a pipeline is only ever advanced
/// by reports about its own actions, that stays so to the end.
pub fn dispatch(entries: &[String]) -> (started: Vec<(Pipeline, Action)>)
    ensures
        started.len() == entries.len(),
        forall|i: int|
            0 <= i < entries.len() ==> ((#[trigger] started[i]).0@, started[i].1@) == begin_spec(
                entries[i]@,
            ),
{
    let mut started: Vec<(Pipeline, Action)> = Vec::new();
    let mut i: usize = 0;
    while i < entries.len()
        invariant
            i <= entries.len(),
            started.len() == i,
            forall|j: int|
                0 <= j < i ==> ((#[trigger] started[j]).0@, started[j].1@) == begin_spec(
                    entries[j]@,
                ),
        decreases entries.len() - i,
    {
        started.push(Pipeline::begin(entries[i].as_str()));
        i += 1;
    }
    started
}

} // verus!
