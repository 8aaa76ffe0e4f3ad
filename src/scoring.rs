//! How a particle's weight is put together from its observations.

use vstd::prelude::*;
use crate::association::has_unmatched;

verus! {

/// One factor of a particle's weight.
#[derive(Debug, Clone, Copy, PartialEq, Eq, Structural)]
pub enum Factor {
    /// The observation's likelihood fell below the floor: multiply by the floor.
    Epsilon,
    /// Multiply by the observation's likelihood.
    Likelihood,
}

/// How a particle's weight is formed.
#[derive(Debug, Clone)]
pub enum WeightPlan {
    /// Some observation found no landmark: the weight is the floor itself,
    /// whatever the other observations gave.
    Floor,
    /// The weight is the product, from `1`, of one factor per observation.
    Product(Vec<Factor>),
}

/// The factor for one matched observation, from the order keys of its
/// likelihood and of the floor.
pub open spec fn factor_of(likelihood: u64, epsilon: u64) -> Factor {
    if likelihood < epsilon {
        Factor::Epsilon
    } else {
        Factor::Likelihood
    }
}

/// The weight of a particle. `matches[k]` is the landmark found for
/// observation `k`, and `likelihood_keys[k]` the order key of its likelihood
/// (read only where a landmark was found); `epsilon_key` is the floor's key.
pub fn weight_plan(
    matches: &Vec<Option<usize>>,
    likelihood_keys: &Vec<u64>,
    epsilon_key: u64,
) -> (r: WeightPlan)
    requires
        likelihood_keys@.len() == matches@.len(),
    ensures
        r is Floor <==> has_unmatched(matches@),
        r matches WeightPlan::Product(fs) ==> {
            &&& fs@.len() == matches@.len()
            &&& forall|k: int|
                0 <= k < fs@.len() ==> #[trigger] fs@[k] == factor_of(
                    likelihood_keys@[k],
                    epsilon_key,
                )
        },
{
    let mut fs: Vec<Factor> = Vec::new();
    let mut k: usize = 0;
    while k < matches.len()
        invariant
            0 <= k <= matches@.len(),
            likelihood_keys@.len() == matches@.len(),
            fs@.len() == k,
            forall|j: int| 0 <= j < k ==> (#[trigger] matches@[j]) is Some,
            forall|j: int|
                0 <= j < k ==> #[trigger] fs@[j] == factor_of(likelihood_keys@[j], epsilon_key),
        decreases matches@.len() - k,
    {
        if matches[k].is_none() {
            return WeightPlan::Floor;
        }
        if likelihood_keys[k] < epsilon_key {
            fs.push(Factor::Epsilon);
        } else {
            fs.push(Factor::Likelihood);
        }
        k += 1;
    }
    WeightPlan::Product(fs)
}

} // verus!
