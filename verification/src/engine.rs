//! The run as a state machine: what is done next, and when it is over.
//!
//! The engine decides; its caller acts. The caller scans what is in place
//! and tells the engine, takes a batch of identifiers, runs the retrievals
//! of the batch to their end, hands the results back, rests for the time
//! the engine names, and asks whether to go on.

use crate::config::Config;
use crate::coordinator::{fold_batch, pairs_with, released_ids, tally_after, tally_can_take, tally_fits};
use crate::outcome::BatchItem;
use crate::sampler::{FatalExhaustion, IdentifierSampler};
use crate::stats::{AcquisitionStats, Summary};
use vstd::prelude::*;

verus! {

/// Where a run stands.
#[derive(Clone, Copy, Debug, PartialEq, Eq, Structural)]
pub enum Phase {
    /// Nothing is known yet of what is in place.
    Scanning,
    /// A batch of fresh identifiers is due.
    Sampling,
    /// A batch is out, and its results are awaited.
    Fetching,
    /// The results of a batch were folded, and the rest before the next
    /// round is due.
    Reconciling,
    /// The run is over.
    Done,
}

/// Why the engine did not do what it was asked.
#[derive(Clone, Copy, Debug, PartialEq, Eq, Structural)]
pub enum EngineError {
    /// The configuration is not usable.
    InvalidConfig,
    /// The step does not belong to the phase in which the run stands.
    OutOfSequence,
    /// The results do not pair with the batch that is out.
    BatchMismatch,
    /// The counters cannot take the results.
    CounterOverflow,
    /// The range could not yield a batch of fresh identifiers.
    FatalExhaustion(FatalExhaustion),
}

/// The owner of the goal, the tally and the set of identifiers that are
/// spoken for.
pub struct AcquisitionEngine {
    config: Config,
    phase: Phase,
    stats: AcquisitionStats,
    sampler: IdentifierSampler,
    pending: Vec<u32>,
}

impl AcquisitionEngine {
    /// The settings of the run.
    pub closed spec fn config(&self) -> Config {
        self.config
    }

    /// Where the run stands.
    pub closed spec fn phase(&self) -> Phase {
        self.phase
    }

    /// The tally.
    pub closed spec fn stats(&self) -> AcquisitionStats {
        self.stats
    }

    /// The identifiers that are spoken for.
    pub closed spec fn attempted(&self) -> Set<u32> {
        self.sampler.attempted()
    }

    /// The batch that is out, in the order in which it was handed out.
    pub closed spec fn pending(&self) -> Seq<u32> {
        self.pending@
    }

    /// `id` lies in the probed range.
    pub open spec fn in_range(&self, id: u32) -> bool {
        self.config().min_id <= id <= self.config().max_id
    }

    /// `id` may be handed out in a batch.
    pub open spec fn eligible(&self, id: u32) -> bool {
        self.in_range(id) && !self.attempted().contains(id)
    }

    /// Number of identifiers of the range that are not spoken for.
    pub open spec fn free_count(&self) -> nat {
        if self.attempted().len() >= self.config().range_size() {
            0
        } else {
            (self.config().range_size() - self.attempted().len()) as nat
        }
    }

    /// Resources that are still missing.
    pub open spec fn remaining(&self) -> nat {
        if self.stats().successful >= self.config().goal {
            0
        } else {
            (self.config().goal - self.stats().successful) as nat
        }
    }

    /// The engine's sampler is sound and draws from the range, and with
    /// the limit, that the settings name.
    pub closed spec fn sampler_agrees(&self) -> bool {
        &&& self.sampler.wf()
        &&& self.sampler.min_id() == self.config.min_id
        &&& self.sampler.max_id() == self.config.max_id
        &&& self.sampler.draw_limit() == self.config.draw_limit
    }

    /// What holds of an engine between any two steps.
    pub open spec fn wf(&self) -> bool {
        &&& self.config().valid()
        &&& self.sampler_agrees()
        &&& self.attempted().finite()
        &&& forall|id: u32| #[trigger] self.attempted().contains(id) ==> self.in_range(id)
        &&& self.stats().wf()
        &&& self.stats().accounted()
        &&& (self.stats().successful <= self.stats().existing || self.stats().successful
            < self.config().goal + self.config().batch_size)
        &&& (self.phase() is Scanning ==> self.stats() == AcquisitionStats::new_spec(0)
            && self.attempted() == Set::<u32>::empty())
        &&& (self.phase() is Sampling || self.phase() is Fetching ==> self.stats().successful
            < self.config().goal)
        &&& (self.phase() is Fetching ==> {
            &&& self.pending().len() == self.config().batch_size
            &&& self.pending().no_duplicates()
            &&& forall|i: int|
                0 <= i < self.pending().len() ==> self.in_range(#[trigger] self.pending()[i])
                    && self.attempted().contains(self.pending()[i])
        })
        &&& (!(self.phase() is Fetching) ==> self.pending().len() == 0)
    }

    /// The results pair with the batch that is out.
    pub open spec fn paired(&self, results: Seq<BatchItem>) -> bool {
        &&& results.len() == self.pending().len()
        &&& forall|i: int| 0 <= i < self.pending().len() ==> (#[trigger] results[i]).id == self.pending()[i]
    }

    /// The engine takes the results: a batch is out, they pair with it,
    /// and the counters can take them.
    pub open spec fn accepts(&self, results: Seq<BatchItem>) -> bool {
        &&& self.phase() is Fetching
        &&& self.paired(results)
        &&& tally_fits(self.stats(), results)
    }

    /// The reason for which results that the engine does not take are
    /// turned down.
    pub open spec fn refusal(&self, results: Seq<BatchItem>) -> EngineError {
        if !(self.phase() is Fetching) {
            EngineError::OutOfSequence
        } else if !self.paired(results) {
            EngineError::BatchMismatch
        } else {
            EngineError::CounterOverflow
        }
    }

    /// The two engines stand alike: same settings, phase, tally, batch out
    /// and identifiers spoken for.
    pub open spec fn same_state(&self, other: &AcquisitionEngine) -> bool {
        &&& self.config() == other.config()
        &&& self.phase() == other.phase()
        &&& self.stats() == other.stats()
        &&& self.attempted() == other.attempted()
        &&& self.pending() == other.pending()
    }

    /// An engine that has yet to learn what is in place, or `InvalidConfig`
    /// where the settings are not usable.
    pub fn new(config: Config) -> (made: Result<AcquisitionEngine, EngineError>)
        ensures
            made is Ok <==> config.valid(),
            made matches Ok(engine) ==> {
                &&& engine.wf()
                &&& engine.config() == config
                &&& engine.phase() is Scanning
            },
            made matches Err(error) ==> error is InvalidConfig,
    {
        if !config.is_valid() {
            return Err(EngineError::InvalidConfig);
        }
        match IdentifierSampler::new(config.min_id, config.max_id, config.draw_limit) {
            Some(sampler) => Ok(
                AcquisitionEngine {
                    config,
                    phase: Phase::Scanning,
                    stats: AcquisitionStats::new(0),
                    sampler,
                    pending: Vec::new(),
                },
            ),
            None => Err(EngineError::InvalidConfig),
        }
    }

    /// Where the run stands.
    pub fn current_phase(&self) -> (phase: Phase)
        ensures
            phase == self.phase(),
    {
        self.phase
    }

    /// The tally as it stands.
    pub fn current_stats(&self) -> (stats: AcquisitionStats)
        ensures
            stats == self.stats(),
    {
        self.stats
    }

    /// The settings of the run.
    pub fn settings(&self) -> (config: Config)
        ensures
            config == self.config(),
    {
        self.config
    }

    /// Resources that are still missing: the goal less what is at hand,
    /// and none where the goal is reached or passed.
    pub fn remaining_needed(&self) -> (n: usize)
        ensures
            n == self.remaining(),
    {
        self.stats.remaining(self.config.goal)
    }

    /// Tells whether the run is over.
    pub fn is_done(&self) -> (done: bool)
        ensures
            done == (self.phase() is Done),
    {
        match self.phase {
            Phase::Done => true,
            _ => false,
        }
    }

    /// Tells whether `id` is spoken for.
    pub fn is_attempted(&self, id: u32) -> (held: bool)
        ensures
            held == self.attempted().contains(id),
    {
        self.sampler.is_attempted(id)
    }

    /// The figures of the final report, drawn from the tally as it stands.
    pub fn summary(&self) -> (summary: Summary)
        ensures
            summary == (Summary {
                existing: self.stats().existing,
                newly_acquired: self.stats().gained() as usize,
                failed: self.stats().failed,
                total_attempted: self.stats().total_attempted,
            }),
    {
        self.stats.summary()
    }

    /// Ends the scan: `existing` resources are in place. They count
    /// towards the goal. Where they reach it the run is over before it
    /// began, else a batch is due.
    pub fn begin(&mut self, existing: usize) -> (entered: Result<Phase, EngineError>)
        requires
            old(self).wf(),
        ensures
            final(self).wf(),
            final(self).config() == old(self).config(),
            final(self).attempted() == old(self).attempted(),
            final(self).pending() == old(self).pending(),
            final(self).stats().successful >= old(self).stats().successful,
            entered is Ok <==> old(self).phase() is Scanning,
            entered matches Ok(phase) ==> {
                &&& phase == final(self).phase()
                &&& phase == if existing >= old(self).config().goal {
                    Phase::Done
                } else {
                    Phase::Sampling
                }
                &&& final(self).stats() == AcquisitionStats::new_spec(existing)
                &&& final(self).attempted() == Set::<u32>::empty()
                &&& final(self).stats().gained() == 0
            },
            entered matches Err(error) ==> error is OutOfSequence && final(self).same_state(old(self)),
    {
        match self.phase {
            Phase::Scanning => {},
            _ => {
                return Err(EngineError::OutOfSequence);
            },
        }
        self.stats = AcquisitionStats::new(existing);
        if existing >= self.config.goal {
            self.phase = Phase::Done;
        } else {
            self.phase = Phase::Sampling;
        }
        Ok(self.phase)
    }

    /// Hands out the next batch: as many identifiers as a batch holds, each
    /// from the range, each distinct from the others and from every
    /// identifier that is spoken for. They are spoken for from now on.
    ///
    /// Where the range cannot yield the batch the run is over.
    pub fn next_batch(&mut self) -> (handed: Result<Vec<u32>, EngineError>)
        requires
            old(self).wf(),
        ensures
            final(self).wf(),
            final(self).config() == old(self).config(),
            final(self).stats() == old(self).stats(),
            !(old(self).phase() is Sampling) ==> handed == Err::<Vec<u32>, EngineError>(
                EngineError::OutOfSequence,
            ) && final(self).same_state(old(self)),
            old(self).phase() is Sampling ==> match handed {
                Ok(batch) => {
                    &&& final(self).phase() is Fetching
                    &&& final(self).pending() == batch@
                    &&& batch@.len() == old(self).config().batch_size
                    &&& batch@.no_duplicates()
                    &&& forall|i: int|
                        0 <= i < batch@.len() ==> old(self).eligible(#[trigger] batch@[i])
                    &&& final(self).attempted() == old(self).attempted().union(batch@.to_set())
                },
                Err(error) => {
                    &&& error matches EngineError::FatalExhaustion(failure)
                    &&& failure.requested == old(self).config().batch_size
                    &&& failure.collected < failure.requested
                    &&& final(self).phase() is Done
                    &&& final(self).attempted() == old(self).attempted()
                    &&& final(self).pending() == old(self).pending()
                },
            },
            old(self).phase() is Sampling && (old(self).config().batch_size > old(self).free_count()
                || old(self).config().batch_size > old(self).config().draw_limit) ==> handed == Err::<
                Vec<u32>,
                EngineError,
            >(
                EngineError::FatalExhaustion(
                    FatalExhaustion { requested: old(self).config().batch_size, collected: 0 },
                ),
            ),
            old(self).phase() is Sampling && old(self).config().batch_size == 1 && old(
                self,
            ).attempted() == Set::<u32>::empty() && old(self).config().draw_limit >= 1
                ==> handed is Ok,
    {
        match self.phase {
            Phase::Sampling => {},
            _ => {
                return Err(EngineError::OutOfSequence);
            },
        }
        match self.sampler.sample_batch(self.config.batch_size) {
            Ok(batch) => {
                self.pending = batch.clone();
                assert(self.pending@ =~= batch@);
                self.phase = Phase::Fetching;
                proof {
                    assert forall|i: int| 0 <= i < batch@.len() implies self.attempted().contains(
                        #[trigger] batch@[i],
                    ) by {
                        assert(batch@.to_set().contains(batch@[i]));
                    }
                    assert forall|id: u32| #[trigger]
                        self.attempted().contains(id) implies self.in_range(id) by {
                        if batch@.to_set().contains(id) {
                            let i = choose|i: int| 0 <= i < batch@.len() && batch@[i] == id;
                            assert(old(self).eligible(batch@[i]));
                        }
                    }
                }
                Ok(batch)
            },
            Err(failure) => {
                self.phase = Phase::Done;
                Err(EngineError::FatalExhaustion(failure))
            },
        }
    }

    /// Takes the results of the batch that is out and folds them into the
    /// tally and into the set of identifiers that are spoken for. The
    /// results are taken only when every unit of work of the batch has
    /// ended: one item for each identifier, in the order of the batch. What
    /// comes back is the rest, in milliseconds, that is due before the next
    /// round.
    pub fn reconcile(&mut self, results: &Vec<BatchItem>) -> (rest: Result<u64, EngineError>)
        requires
            old(self).wf(),
        ensures
            final(self).wf(),
            final(self).config() == old(self).config(),
            final(self).stats().successful >= old(self).stats().successful,
            rest is Ok <==> old(self).accepts(results@),
            rest matches Ok(millis) ==> {
                &&& millis == old(self).config().pause_millis
                &&& final(self).phase() is Reconciling
                &&& final(self).stats() == tally_after(old(self).stats(), results@)
                &&& final(self).attempted() == old(self).attempted().difference(
                    released_ids(results@),
                )
                &&& final(self).pending().len() == 0
                &&& forall|i: int|
                    0 <= i < results@.len() && (#[trigger] results@[i]).released()
                        ==> final(self).eligible(results@[i].id)
            },
            rest matches Err(error) ==> {
                &&& final(self).same_state(old(self))
                &&& error == old(self).refusal(results@)
            },
    {
        match self.phase {
            Phase::Fetching => {},
            _ => {
                return Err(EngineError::OutOfSequence);
            },
        }
        if !pairs_with(results, &self.pending) {
            return Err(EngineError::BatchMismatch);
        }
        if !tally_can_take(&self.stats, results) {
            return Err(EngineError::CounterOverflow);
        }
        proof {
            crate::coordinator::lemma_counts_bounded(results@);
            crate::coordinator::lemma_accounting(self.stats, results@);
        }
        fold_batch(&mut self.stats, &mut self.sampler, results);
        self.pending = Vec::new();
        self.phase = Phase::Reconciling;
        proof {
            assert forall|i: int|
                0 <= i < results@.len() && (#[trigger] results@[i]).released() implies self.eligible(
                results@[i].id,
            ) by {
                assert(released_ids(results@).contains(results@[i].id));
                assert(results@[i].id == old(self).pending()[i]);
            }
        }
        Ok(self.config.pause_millis)
    }

    /// Ends the rest after a round: where resources are still missing a
    /// batch is due, else the run is over.
    pub fn resume(&mut self) -> (entered: Result<Phase, EngineError>)
        requires
            old(self).wf(),
        ensures
            final(self).wf(),
            final(self).config() == old(self).config(),
            final(self).stats() == old(self).stats(),
            final(self).attempted() == old(self).attempted(),
            final(self).pending() == old(self).pending(),
            entered is Ok <==> old(self).phase() is Reconciling,
            entered matches Ok(phase) ==> {
                &&& phase == final(self).phase()
                &&& phase == if old(self).remaining() > 0 {
                    Phase::Sampling
                } else {
                    Phase::Done
                }
            },
            entered matches Err(error) ==> error is OutOfSequence && final(self).same_state(old(self)),
    {
        match self.phase {
            Phase::Reconciling => {},
            _ => {
                return Err(EngineError::OutOfSequence);
            },
        }
        if self.stats.successful < self.config.goal {
            self.phase = Phase::Sampling;
        } else {
            self.phase = Phase::Done;
        }
        Ok(self.phase)
    }

    /// Overshoot: the resources at hand pass the goal by less than one
    /// batch, unless more than that were found in place.
    pub proof fn lemma_overshoot_bounded(&self)
        requires
            self.wf(),
            self.stats().existing < self.config().goal + self.config().batch_size,
        ensures
            self.stats().successful <= self.config().goal + (self.config().batch_size - 1),
    {
    }

    /// Balance: between any two steps successes and failures add up to the
    /// attempts and the resources found in place, and so to the attempts
    /// alone in a run that found nothing in place.
    pub proof fn lemma_balanced(&self)
        requires
            self.wf(),
        ensures
            self.stats().successful + self.stats().failed == self.stats().total_attempted
                + self.stats().existing,
            self.stats().existing == 0 ==> self.stats().balanced(),
    {
    }
}

} // verus!
