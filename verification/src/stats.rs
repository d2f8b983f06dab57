//! The running tally of a run, and the summary drawn from it at the end.

use vstd::prelude::*;

verus! {

/// Counters of a run. `successful` starts at the number of resources that
/// were present before the run, so it can be held against the goal directly.
#[derive(Clone, Copy, Debug, PartialEq, Eq, Structural)]
pub struct AcquisitionStats {
    /// Resources at hand: those present before the run and those acquired in it.
    pub successful: usize,
    /// Attempts that did not yield a resource.
    pub failed: usize,
    /// Attempts made in the run, whatever came of them.
    pub total_attempted: usize,
    /// Resources present before the run.
    pub existing: usize,
}

/// The figures reported when a run is over.
#[derive(Clone, Copy, Debug, PartialEq, Eq, Structural)]
pub struct Summary {
    /// Resources present before the run.
    pub existing: usize,
    /// Resources acquired in the run.
    pub newly_acquired: usize,
    /// Attempts that did not yield a resource.
    pub failed: usize,
    /// Attempts made in the run, whatever came of them.
    pub total_attempted: usize,
}

impl AcquisitionStats {
    /// The tally never counts fewer resources than were present at the start.
    pub open spec fn wf(&self) -> bool {
        self.existing <= self.successful
    }

    /// Every attempt is counted as exactly one of success and failure, and
    /// beside the attempts only the resources found in place count as
    /// successes.
    pub open spec fn accounted(&self) -> bool {
        self.successful + self.failed == self.total_attempted + self.existing
    }

    /// Successes and failures add up to the attempts. This holds of a run
    /// that found no resource in place.
    pub open spec fn balanced(&self) -> bool {
        self.successful + self.failed == self.total_attempted
    }

    /// Resources that are still missing for `goal`.
    pub open spec fn missing(&self, goal: usize) -> nat {
        if self.successful >= goal {
            0
        } else {
            (goal - self.successful) as nat
        }
    }

    /// Resources acquired in the run.
    pub open spec fn gained(&self) -> nat {
        if self.existing <= self.successful {
            (self.successful - self.existing) as nat
        } else {
            0
        }
    }

    /// The tally at the start of a run that found `existing` resources in place.
    pub open spec fn new_spec(existing: usize) -> AcquisitionStats {
        AcquisitionStats { successful: existing, failed: 0, total_attempted: 0, existing }
    }

    /// The tally at the start of a run that found `existing` resources in
    /// place: they count as at hand, and nothing was attempted.
    #[verifier::when_used_as_spec(new_spec)]
    pub fn new(existing: usize) -> (stats: AcquisitionStats)
        ensures
            stats == Self::new_spec(existing),
            stats.wf(),
            stats.accounted(),
            stats.gained() == 0,
    {
        AcquisitionStats { successful: existing, failed: 0, total_attempted: 0, existing }
    }

    /// Counts one retrieval that yielded a resource.
    pub fn record_acquired(&mut self)
        requires
            old(self).successful < usize::MAX,
            old(self).total_attempted < usize::MAX,
        ensures
            *final(self) == (AcquisitionStats {
                successful: (old(self).successful + 1) as usize,
                total_attempted: (old(self).total_attempted + 1) as usize,
                ..*old(self)
            }),
    {
        self.successful = self.successful + 1;
        self.total_attempted = self.total_attempted + 1;
    }

    /// Counts one attempt that yielded nothing: a retrieval that ran and
    /// failed, or a unit of work that was lost.
    pub fn record_failed(&mut self)
        requires
            old(self).failed < usize::MAX,
            old(self).total_attempted < usize::MAX,
        ensures
            *final(self) == (AcquisitionStats {
                failed: (old(self).failed + 1) as usize,
                total_attempted: (old(self).total_attempted + 1) as usize,
                ..*old(self)
            }),
    {
        self.failed = self.failed + 1;
        self.total_attempted = self.total_attempted + 1;
    }

    /// Resources that are still missing for `goal`: none where the goal is
    /// reached or passed.
    pub fn remaining(&self, goal: usize) -> (n: usize)
        ensures
            n == self.missing(goal),
    {
        if self.successful >= goal {
            0
        } else {
            goal - self.successful
        }
    }

    /// Resources acquired in the run.
    pub fn newly_acquired(&self) -> (n: usize)
        ensures
            n == self.gained(),
    {
        if self.existing <= self.successful {
            self.successful - self.existing
        } else {
            0
        }
    }

    /// The figures of the final report.
    pub fn summary(&self) -> (summary: Summary)
        ensures
            summary == (Summary {
                existing: self.existing,
                newly_acquired: self.gained() as usize,
                failed: self.failed,
                total_attempted: self.total_attempted,
            }),
    {
        Summary {
            existing: self.existing,
            newly_acquired: self.newly_acquired(),
            failed: self.failed,
            total_attempted: self.total_attempted,
        }
    }
}

} // verus!
