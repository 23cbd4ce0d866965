use vstd::prelude::*;
use crate::decode::{Erc20Transfer, bytes_equal};
use crate::netflow::FlowEntry;

verus! {

/// Whether `a` is one of the watched addresses.
pub open spec fn watched_has(watched: Seq<Vec<u8>>, a: Seq<u8>) -> bool {
    exists|i: int| 0 <= i < watched.len() && (#[trigger] watched[i])@ == a
}

/// A transfer flows in when it reaches a watched address from an unwatched one.
pub open spec fn inflow(watched: Seq<Vec<u8>>, from: Seq<u8>, to: Seq<u8>) -> bool {
    watched_has(watched, to) && !watched_has(watched, from)
}

/// A transfer flows out when it leaves a watched address for an unwatched one.
pub open spec fn outflow(watched: Seq<Vec<u8>>, from: Seq<u8>, to: Seq<u8>) -> bool {
    watched_has(watched, from) && !watched_has(watched, to)
}

/// Whether `a` is one of the watched addresses (addresses are compared as
/// bytes, so hex case does not matter).
pub fn is_watched(watched: &Vec<Vec<u8>>, a: &Vec<u8>) -> (r: bool)
    ensures
        r == watched_has(watched@, a@),
{
    let mut i: usize = 0;
    while i < watched.len()
        invariant
            i <= watched@.len(),
            forall|j: int| 0 <= j < i ==> (#[trigger] watched@[j])@ != a@,
        decreases watched@.len() - i,
    {
        if bytes_equal(&watched[i], a) {
            return true;
        }
        i = i + 1;
    }
    false
}

/// Classifies a transfer against the watched set; the two flags are decided
/// independently, and a transfer between two watched (or two unwatched)
/// addresses has neither.
pub fn classify(watched: &Vec<Vec<u8>>, t: &Erc20Transfer) -> (r: (bool, bool))
    ensures
        r.0 == inflow(watched@, t.from@, t.to@),
        r.1 == outflow(watched@, t.from@, t.to@),
{
    let from_watched = is_watched(watched, &t.from);
    let to_watched = is_watched(watched, &t.to);
    (to_watched && !from_watched, from_watched && !to_watched)
}

/// The accumulator's view of a classified transfer; `newly_stored` says
/// whether storing it added a row.
pub fn flow_entry(watched: &Vec<Vec<u8>>, t: &Erc20Transfer, newly_stored: bool) -> (r: FlowEntry)
    ensures
        r.value == t.value,
        r.is_inflow == inflow(watched@, t.from@, t.to@),
        r.is_outflow == outflow(watched@, t.from@, t.to@),
        r.newly_stored == newly_stored,
{
    let (is_inflow, is_outflow) = classify(watched, t);
    FlowEntry { value: t.value, is_inflow, is_outflow, newly_stored }
}

} // verus!
