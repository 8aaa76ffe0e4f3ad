//! Selection over order keys: first maximum, first minimum, bounded subset.

use vstd::prelude::*;

verus! {

/// `i` indexes a largest key of `s`, and no earlier key is as large.
pub open spec fn is_first_max(s: Seq<u64>, i: int) -> bool {
    &&& 0 <= i < s.len()
    &&& forall|j: int| 0 <= j < s.len() ==> #[trigger] s[j] <= s[i]
    &&& forall|j: int| 0 <= j < i ==> #[trigger] s[j] < s[i]
}

/// `i` indexes a smallest key of `s`, and no earlier key is as small.
pub open spec fn is_first_min(s: Seq<u64>, i: int) -> bool {
    &&& 0 <= i < s.len()
    &&& forall|j: int| 0 <= j < s.len() ==> s[i] <= #[trigger] s[j]
    &&& forall|j: int| 0 <= j < i ==> s[i] < #[trigger] s[j]
}

/// The indices of `s`, in increasing order, whose key is at most `bound`.
pub open spec fn indices_within(s: Seq<u64>, bound: u64) -> Seq<usize>
    decreases s.len(),
{
    if s.len() == 0 {
        Seq::empty()
    } else {
        let rest = indices_within(s.drop_last(), bound);
        if s.last() <= bound {
            rest.push((s.len() - 1) as usize)
        } else {
            rest
        }
    }
}

/// Index of the first largest key: a later key replaces the current best only
/// when it is strictly larger.
pub fn first_max_index(keys: &Vec<u64>) -> (r: Option<usize>)
    ensures
        r is None <==> keys@.len() == 0,
        r matches Some(i) ==> is_first_max(keys@, i as int),
{
    if keys.len() == 0 {
        return None;
    }
    let mut best: usize = 0;
    let mut i: usize = 1;
    while i < keys.len()
        invariant
            1 <= i <= keys@.len(),
            best < i,
            forall|j: int| 0 <= j < i ==> #[trigger] keys@[j] <= keys@[best as int],
            forall|j: int| 0 <= j < best ==> #[trigger] keys@[j] < keys@[best as int],
        decreases keys@.len() - i,
    {
        if keys[i] > keys[best] {
            best = i;
        }
        i += 1;
    }
    Some(best)
}

/// Index of the first smallest key: a later key replaces the current best only
/// when it is strictly smaller.
pub fn first_min_index(keys: &Vec<u64>) -> (r: Option<usize>)
    ensures
        r is None <==> keys@.len() == 0,
        r matches Some(i) ==> is_first_min(keys@, i as int),
{
    if keys.len() == 0 {
        return None;
    }
    let mut best: usize = 0;
    let mut i: usize = 1;
    while i < keys.len()
        invariant
            1 <= i <= keys@.len(),
            best < i,
            forall|j: int| 0 <= j < i ==> keys@[best as int] <= #[trigger] keys@[j],
            forall|j: int| 0 <= j < best ==> keys@[best as int] < #[trigger] keys@[j],
        decreases keys@.len() - i,
    {
        if keys[i] < keys[best] {
            best = i;
        }
        i += 1;
    }
    Some(best)
}

/// The indices whose key is at most `bound`, in increasing order.
pub fn select_within(keys: &Vec<u64>, bound: u64) -> (r: Vec<usize>)
    ensures
        r@ == indices_within(keys@, bound),
{
    let mut out: Vec<usize> = Vec::new();
    let mut i: usize = 0;
    while i < keys.len()
        invariant
            0 <= i <= keys@.len(),
            out@ == indices_within(keys@.subrange(0, i as int), bound),
        decreases keys@.len() - i,
    {
        assert(keys@.subrange(0, i + 1).drop_last() =~= keys@.subrange(0, i as int));
        if keys[i] <= bound {
            out.push(i);
        }
        i += 1;
    }
    assert(keys@.subrange(0, keys@.len() as int) =~= keys@);
    out
}

/// Whether some key is strictly positive.
pub fn any_positive(keys: &Vec<u64>) -> (r: bool)
    ensures
        r <==> exists|j: int| 0 <= j < keys@.len() && #[trigger] keys@[j] > 0,
{
    let mut i: usize = 0;
    while i < keys.len()
        invariant
            0 <= i <= keys@.len(),
            forall|j: int| 0 <= j < i ==> #[trigger] keys@[j] == 0,
        decreases keys@.len() - i,
    {
        if keys[i] > 0 {
            return true;
        }
        i += 1;
    }
    false
}

} // verus!
