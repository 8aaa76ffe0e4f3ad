//! The filter's lifecycle: it starts uninitialized, is initialized once with
//! a fixed particle count, and then runs one step per batch of observations.

use vstd::prelude::*;

verus! {

/// Why a filter cannot be configured or cannot go on.
#[derive(Debug, Clone, Copy, PartialEq, Eq, Structural)]
pub enum FilterError {
    /// The particle count is zero.
    NoParticles,
    /// The sensor range is not strictly positive.
    NonPositiveSensorRange,
    /// The weight floor is not strictly positive.
    NonPositiveEpsilon,
    /// A noise standard deviation is negative or not finite.
    InvalidDeviation,
    /// No particle has a strictly positive weight, so none can be redrawn.
    NoPositiveWeight,
}

/// What one step of the filter begins with.
#[derive(Debug, Clone, Copy, PartialEq, Eq, Structural)]
pub enum StepAction {
    /// Build the ensemble around the seed pose.
    Initialize,
    /// Score the ensemble as it stands: there is no control to apply.
    ScoreOnly,
    /// Move the ensemble with the control of this index, then score it.
    Predict(usize),
}

/// Whether a filter is initialized, and with how many particles.
#[derive(Debug)]
pub struct Lifecycle {
    count: u32,
    initialized: bool,
}

impl Lifecycle {
    pub closed spec fn spec_initialized(&self) -> bool {
        self.initialized
    }

    pub closed spec fn spec_count(&self) -> nat {
        self.count as nat
    }

    /// An initialized filter has at least one particle.
    pub closed spec fn wf(&self) -> bool {
        self.initialized ==> self.count > 0
    }

    /// A filter that is not initialized and holds no particles.
    pub fn new() -> (r: Lifecycle)
        ensures
            r.wf(),
            !r.spec_initialized(),
            r.spec_count() == 0,
    {
        Lifecycle { count: 0, initialized: false }
    }

    pub fn is_initialized(&self) -> (r: bool)
        ensures
            r == self.spec_initialized(),
    {
        self.initialized
    }

    pub fn particle_count(&self) -> (r: u32)
        ensures
            r == self.spec_count(),
    {
        self.count
    }

    /// Initializes the filter with `n` particles. On a filter that is already
    /// initialized this does nothing and returns `Ok(false)`; a count of zero
    /// is refused and leaves the filter as it was.
    pub fn start(&mut self, n: u32) -> (r: Result<bool, FilterError>)
        requires
            old(self).wf(),
        ensures
            final(self).wf(),
            old(self).spec_initialized() ==> r == Ok::<bool, FilterError>(false) && *final(self)
                == *old(self),
            !old(self).spec_initialized() && n == 0 ==> r == Err::<bool, FilterError>(
                FilterError::NoParticles,
            ) && *final(self) == *old(self),
            !old(self).spec_initialized() && n > 0 ==> r == Ok::<bool, FilterError>(true)
                && final(self).spec_initialized() && final(self).spec_count() == n,
    {
        if self.initialized {
            return Ok(false);
        }
        if n == 0 {
            return Err(FilterError::NoParticles);
        }
        self.count = n;
        self.initialized = true;
        Ok(true)
    }

    /// What step `step` (counted from zero) begins with. An uninitialized
    /// filter is initialized; afterwards step `i > 0` applies control `i - 1`.
    pub fn step_action(&self, step: usize) -> (r: StepAction)
        ensures
            !self.spec_initialized() ==> r == StepAction::Initialize,
            self.spec_initialized() && step == 0 ==> r == StepAction::ScoreOnly,
            self.spec_initialized() && step > 0 ==> r == StepAction::Predict((step - 1) as usize),
    {
        if !self.initialized {
            StepAction::Initialize
        } else if step == 0 {
            StepAction::ScoreOnly
        } else {
            StepAction::Predict(step - 1)
        }
    }
}

} // verus!
