//! Data association: each observation, once placed in map coordinates, is
//! matched to the nearest visible landmark.

use vstd::prelude::*;
use crate::select::{first_min_index, is_first_min};

verus! {

/// `m` is what association gives for one observation. `visible` holds the map
/// indices of the landmarks in sensor range and `row[i]` the order key of the
/// observation's distance to landmark `visible[i]`. With no visible landmark
/// there is no match; otherwise the match is the first nearest landmark.
pub open spec fn is_nearest(visible: Seq<usize>, row: Seq<u64>, m: Option<usize>) -> bool {
    match m {
        None => row.len() == 0,
        Some(l) => exists|i: int| #[trigger] is_first_min(row, i) && visible[i] == l,
    }
}

/// `matches` associates every observation (one row of distance keys each).
pub open spec fn is_association(
    visible: Seq<usize>,
    rows: Seq<Seq<u64>>,
    matches: Seq<Option<usize>>,
) -> bool {
    &&& matches.len() == rows.len()
    &&& forall|k: int| 0 <= k < rows.len() ==> is_nearest(visible, #[trigger] rows[k], matches[k])
}

/// The rows of distance keys, as sequences.
pub open spec fn key_rows(rows: Seq<Vec<u64>>) -> Seq<Seq<u64>> {
    rows.map_values(|v: Vec<u64>| v@)
}

/// Some observation found no landmark.
pub open spec fn has_unmatched(matches: Seq<Option<usize>>) -> bool {
    exists|k: int| 0 <= k < matches.len() && #[trigger] matches[k] is None
}

/// The landmark associated to one observation.
pub fn nearest_landmark(visible: &Vec<usize>, row: &Vec<u64>) -> (r: Option<usize>)
    requires
        row@.len() == visible@.len(),
    ensures
        is_nearest(visible@, row@, r),
{
    match first_min_index(row) {
        None => None,
        Some(i) => {
            assert(is_first_min(row@, i as int));
            Some(visible[i])
        },
    }
}

/// The landmark associated to each observation, in the observations' order.
pub fn associate(visible: &Vec<usize>, rows: &Vec<Vec<u64>>) -> (r: Vec<Option<usize>>)
    requires
        forall|k: int| 0 <= k < rows@.len() ==> (#[trigger] rows@[k])@.len() == visible@.len(),
    ensures
        is_association(visible@, key_rows(rows@), r@),
{
    let mut out: Vec<Option<usize>> = Vec::new();
    let mut k: usize = 0;
    while k < rows.len()
        invariant
            0 <= k <= rows@.len(),
            out@.len() == k,
            forall|k: int| 0 <= k < rows@.len() ==> (#[trigger] rows@[k])@.len() == visible@.len(),
            forall|j: int| 0 <= j < k ==> is_nearest(visible@, (#[trigger] rows@[j])@, out@[j]),
        decreases rows@.len() - k,
    {
        let m = nearest_landmark(visible, &rows[k]);
        out.push(m);
        k += 1;
    }
    assert forall|j: int| 0 <= j < rows@.len() implies is_nearest(
        visible@,
        key_rows(rows@)[j],
        #[trigger] out@[j],
    ) by {
        assert(is_nearest(visible@, rows@[j]@, out@[j]));
    }
    out
}

/// With no landmark in sensor range, no observation finds a landmark, so a
/// particle that observed anything has an unmatched observation and is
/// floored as a whole.
pub proof fn lemma_nothing_visible_floors(
    visible: Seq<usize>,
    rows: Seq<Seq<u64>>,
    matches: Seq<Option<usize>>,
)
    requires
        visible.len() == 0,
        rows.len() > 0,
        forall|k: int| 0 <= k < rows.len() ==> (#[trigger] rows[k]).len() == visible.len(),
        is_association(visible, rows, matches),
    ensures
        has_unmatched(matches),
        forall|k: int| 0 <= k < matches.len() ==> (#[trigger] matches[k]) is None,
{
    assert forall|k: int| 0 <= k < matches.len() implies (#[trigger] matches[k]) is None by {
        assert(is_nearest(visible, rows[k], matches[k]));
        if let Some(l) = matches[k] {
            let i = choose|i: int| #[trigger] is_first_min(rows[k], i) && visible[i] == l;
            assert(false);
        }
    }
    assert(matches[0] is None);
}

/// With at least one landmark in sensor range every observation finds one:
/// no observation is left unmatched.
pub proof fn lemma_visible_never_floors(
    visible: Seq<usize>,
    rows: Seq<Seq<u64>>,
    matches: Seq<Option<usize>>,
)
    requires
        visible.len() > 0,
        forall|k: int| 0 <= k < rows.len() ==> (#[trigger] rows[k]).len() == visible.len(),
        is_association(visible, rows, matches),
    ensures
        !has_unmatched(matches),
{
    assert forall|k: int| 0 <= k < matches.len() implies !(#[trigger] matches[k] is None) by {
        assert(is_nearest(visible, rows[k], matches[k]));
    }
}

} // verus!
