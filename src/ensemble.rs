//! The ensemble's bookkeeping: labels and redraws. A particle's pose and
//! weight are the caller's values of type `T`; the library only moves them.

use vstd::prelude::*;

verus! {

/// The labels of an ensemble of `n` particles: `1, 2, ..., n`. They are given
/// at initialization and again after every redraw.
pub fn sequential_ids(n: u32) -> (r: Vec<u32>)
    ensures
        r@.len() == n,
        forall|i: int| 0 <= i < n ==> #[trigger] r@[i] == i + 1,
{
    let mut out: Vec<u32> = Vec::new();
    let mut i: u32 = 0;
    while i < n
        invariant
            i <= n,
            out@.len() == i,
            forall|j: int| 0 <= j < i ==> #[trigger] out@[j] == j + 1,
        decreases n - i,
    {
        i += 1;
        out.push(i);
    }
    out
}

/// The redrawn ensemble: the `i`-th new particle is a copy of the particle
/// that the `i`-th draw picked. Draws may repeat; the old ensemble is left as
/// it was.
pub fn draw_copies<T: Copy>(particles: &Vec<T>, draws: &Vec<usize>) -> (r: Vec<T>)
    requires
        forall|i: int| 0 <= i < draws@.len() ==> #[trigger] draws@[i] < particles@.len(),
    ensures
        r@.len() == draws@.len(),
        forall|i: int| 0 <= i < draws@.len() ==> #[trigger] r@[i] == particles@[draws@[i] as int],
{
    let mut out: Vec<T> = Vec::new();
    let mut i: usize = 0;
    while i < draws.len()
        invariant
            0 <= i <= draws@.len(),
            out@.len() == i,
            forall|j: int| 0 <= j < draws@.len() ==> #[trigger] draws@[j] < particles@.len(),
            forall|j: int| 0 <= j < i ==> #[trigger] out@[j] == particles@[draws@[j] as int],
        decreases draws@.len() - i,
    {
        let d = draws[i];
        out.push(particles[d]);
        i += 1;
    }
    out
}

/// Where every draw picks the same particle, the redrawn ensemble holds
/// nothing but copies of it.
pub proof fn lemma_single_pick_copies<T>(
    particles: Seq<T>,
    draws: Seq<usize>,
    redrawn: Seq<T>,
    pick: usize,
)
    requires
        pick < particles.len(),
        forall|i: int| 0 <= i < draws.len() ==> #[trigger] draws[i] == pick,
        redrawn.len() == draws.len(),
        forall|i: int| 0 <= i < draws.len() ==> #[trigger] redrawn[i] == particles[draws[i] as int],
    ensures
        forall|i: int| 0 <= i < redrawn.len() ==> #[trigger] redrawn[i] == particles[pick as int],
{
    assert forall|i: int| 0 <= i < redrawn.len() implies #[trigger] redrawn[i]
        == particles[pick as int] by {
        assert(draws[i] == pick);
    }
}

} // verus!
