//! Drawing fresh identifiers from the probed range.

use crate::attempted::AttemptedSet;
use rand::rngs::ThreadRng;
use rand::Rng;
use vstd::prelude::*;

verus! {

/// The thread-local generator of `rand`. Nothing is known of its state.
#[verifier::external_type_specification]
#[verifier::external_body]
pub struct ExThreadRng(ThreadRng);

/// `rand::thread_rng`: a handle to the calling thread's generator. Nothing
/// is claimed of the handle. The call panics where the system cannot seed
/// the generator, which no argument decides.
pub assume_specification[ rand::thread_rng ]() -> (rng: ThreadRng)
;

/// `Rng::gen_range` on an inclusive range of `u32`. The call panics on an
/// empty range, which `requires` leaves out; of the number that comes back
/// only this is claimed: it lies in the range. The call also panics where
/// the generator cannot be seeded anew from the system, which no argument
/// decides.
#[verifier::external_body]
fn draw(rng: &mut ThreadRng, low: u32, high: u32) -> (id: u32)
    requires
        low <= high,
    ensures
        low <= id <= high,
{
    rng.gen_range(low..=high)
}

/// The identifiers from `low` to `high`, both included.
pub open spec fn id_range(low: u32, high: u32) -> Set<u32> {
    Set::new(|id: u32| low <= id <= high)
}

/// A closed range that is not empty holds one identifier more than its
/// ends are apart.
pub proof fn lemma_id_range_len(low: u32, high: u32)
    requires
        low <= high,
    ensures
        id_range(low, high).finite(),
        id_range(low, high).len() == high - low + 1,
    decreases high - low,
{
    if low == high {
        assert(id_range(low, high) =~= set![low]);
    } else {
        let below = (high - 1) as u32;
        lemma_id_range_len(low, below);
        assert(id_range(low, high) =~= id_range(low, below).insert(high));
    }
}

/// The range cannot yield the fresh identifiers that were asked for, or
/// the draws allowed for one batch were spent before it was full.
#[derive(Clone, Copy, Debug, PartialEq, Eq, Structural)]
pub struct FatalExhaustion {
    /// Number of identifiers that were asked for.
    pub requested: usize,
    /// Number of fresh identifiers that had been found when the batch was
    /// given up. They were released again.
    pub collected: usize,
}

/// How the gathering of a batch goes on after one draw.
#[derive(Clone, Copy, Debug, PartialEq, Eq, Structural)]
pub enum Step {
    /// The batch is not full, and another draw is allowed.
    More,
    /// The batch is full.
    Full,
    /// The batch is not full, and the draws allowed for it are spent.
    Spent,
}

/// Draws identifiers at random from a closed range and keeps track of those
/// that are spoken for, so that none is handed out twice.
pub struct IdentifierSampler {
    rng: ThreadRng,
    attempted: AttemptedSet,
    min_id: u32,
    max_id: u32,
    draw_limit: usize,
}

impl IdentifierSampler {
    /// The identifiers that are spoken for.
    pub closed spec fn attempted(&self) -> Set<u32> {
        self.attempted@
    }

    /// Lowest identifier of the range.
    pub closed spec fn min_id(&self) -> u32 {
        self.min_id
    }

    /// Highest identifier of the range.
    pub closed spec fn max_id(&self) -> u32 {
        self.max_id
    }

    /// Draws that one batch may spend.
    pub closed spec fn draw_limit(&self) -> usize {
        self.draw_limit
    }

    /// `id` lies in the range.
    pub open spec fn in_range(&self, id: u32) -> bool {
        self.min_id() <= id <= self.max_id()
    }

    /// `id` may be handed out: it lies in the range and is not spoken for.
    pub open spec fn eligible(&self, id: u32) -> bool {
        self.in_range(id) && !self.attempted().contains(id)
    }

    /// Number of identifiers in the range.
    pub open spec fn range_size(&self) -> nat {
        (self.max_id() - self.min_id() + 1) as nat
    }

    /// Number of identifiers of the range that are not spoken for.
    pub open spec fn free_count(&self) -> nat {
        if self.attempted().len() >= self.range_size() {
            0
        } else {
            (self.range_size() - self.attempted().len()) as nat
        }
    }

    /// The range is not empty, and the identifiers that are spoken for are
    /// finitely many and lie in it.
    pub open spec fn wf(&self) -> bool {
        &&& self.min_id() <= self.max_id()
        &&& self.attempted().finite()
        &&& forall|id: u32| #[trigger] self.attempted().contains(id) ==> self.in_range(id)
    }

    /// A sampler over `min_id ..= max_id` with nothing spoken for, or `None`
    /// where that range is empty.
    pub fn new(min_id: u32, max_id: u32, draw_limit: usize) -> (made: Option<IdentifierSampler>)
        ensures
            made is Some <==> min_id <= max_id,
            made matches Some(sampler) ==> {
                &&& sampler.wf()
                &&& sampler.min_id() == min_id
                &&& sampler.max_id() == max_id
                &&& sampler.draw_limit() == draw_limit
                &&& sampler.attempted() == Set::<u32>::empty()
            },
    {
        if min_id <= max_id {
            Some(
                IdentifierSampler {
                    rng: rand::thread_rng(),
                    attempted: AttemptedSet::new(),
                    min_id,
                    max_id,
                    draw_limit,
                },
            )
        } else {
            None
        }
    }

    /// Tells whether `id` is spoken for.
    pub fn is_attempted(&self, id: u32) -> (held: bool)
        ensures
            held == self.attempted().contains(id),
    {
        self.attempted.contains(id)
    }

    /// Number of identifiers that are spoken for.
    pub fn attempted_count(&self) -> (n: usize)
        ensures
            n == self.attempted().len(),
    {
        self.attempted.len()
    }

    /// Takes `candidate` if it may be handed out, and tells whether it did.
    /// This is the judgement passed on every number that was drawn.
    pub fn claim(&mut self, candidate: u32) -> (taken: bool)
        requires
            old(self).wf(),
        ensures
            final(self).wf(),
            final(self).min_id() == old(self).min_id(),
            final(self).max_id() == old(self).max_id(),
            final(self).draw_limit() == old(self).draw_limit(),
            taken == old(self).eligible(candidate),
            taken ==> final(self).attempted() == old(self).attempted().insert(candidate),
            !taken ==> final(self).attempted() == old(self).attempted(),
    {
        if candidate < self.min_id || candidate > self.max_id {
            return false;
        }
        if self.attempted.contains(candidate) {
            return false;
        }
        self.attempted.mark(candidate);
        true
    }

    /// Gives `id` back, so that a later draw may hand it out again, and
    /// tells whether it was spoken for.
    pub fn release(&mut self, id: u32) -> (held: bool)
        requires
            old(self).wf(),
        ensures
            final(self).wf(),
            final(self).min_id() == old(self).min_id(),
            final(self).max_id() == old(self).max_id(),
            final(self).draw_limit() == old(self).draw_limit(),
            final(self).attempted() == old(self).attempted().remove(id),
            held == old(self).attempted().contains(id),
    {
        self.attempted.release(id)
    }

    /// Number of identifiers of the range that are not spoken for.
    pub fn free(&self) -> (n: u64)
        requires
            self.wf(),
        ensures
            n == self.free_count(),
    {
        let room: u64 = (self.max_id - self.min_id) as u64 + 1;
        let held: usize = self.attempted.len();
        if held as u64 >= room {
            0
        } else {
            room - held as u64
        }
    }

    /// Gives back the identifiers of a batch that was begun and given up.
    fn roll_back(&mut self, batch: &Vec<u32>, Ghost(before): Ghost<Set<u32>>)
        requires
            old(self).wf(),
            batch@.no_duplicates(),
            forall|i: int| 0 <= i < batch@.len() ==> !before.contains(#[trigger] batch@[i]),
            old(self).attempted() == before.union(batch@.to_set()),
        ensures
            final(self).wf(),
            final(self).min_id() == old(self).min_id(),
            final(self).max_id() == old(self).max_id(),
            final(self).draw_limit() == old(self).draw_limit(),
            final(self).attempted() == before,
    {
        let mut k: usize = 0;
        assert(batch@.subrange(0, batch@.len() as int) =~= batch@);
        while k < batch.len()
            invariant
                k <= batch@.len(),
                self.wf(),
                self.min_id() == old(self).min_id(),
                self.max_id() == old(self).max_id(),
                self.draw_limit() == old(self).draw_limit(),
                batch@.no_duplicates(),
                forall|i: int| 0 <= i < batch@.len() ==> !before.contains(#[trigger] batch@[i]),
                self.attempted() == before.union(batch@.subrange(k as int, batch@.len() as int).to_set()),
            decreases batch@.len() - k,
        {
            let ghost held = self.attempted();
            let id = batch[k];
            self.release(id);
            proof {
                let rest = batch@.subrange(k as int, batch@.len() as int);
                let next = batch@.subrange(k as int + 1, batch@.len() as int);
                assert forall|x: u32| #[trigger]
                    before.union(next.to_set()).contains(x) == held.remove(id).contains(x) by {
                    if next.contains(x) {
                        let j = choose|j: int| 0 <= j < next.len() && next[j] == x;
                        assert(rest[j + 1] == x);
                        assert(batch@[k as int + 1 + j] == x);
                    }
                    if rest.contains(x) && x != id {
                        let j = choose|j: int| 0 <= j < rest.len() && rest[j] == x;
                        assert(j != 0);
                        assert(next[j - 1] == x);
                    }
                    assert(rest[0] == id);
                }
                assert(self.attempted() =~= before.union(next.to_set()));
            }
            k = k + 1;
        }
        assert(self.attempted() =~= before);
    }

    /// Passes judgement on one drawn number while a batch of `size` is
    /// being gathered: `candidate` is the number drawn after `spent` draws
    /// were made for this batch. A candidate that may be handed out joins
    /// the batch and is spoken for from now on; any other changes nothing.
    /// What comes back tells how the gathering goes on: the batch is full,
    /// or the draws allowed for it are spent, or another draw is due.
    pub fn take_draw(
        &mut self,
        batch: &mut Vec<u32>,
        size: usize,
        spent: usize,
        candidate: u32,
    ) -> (step: Step)
        requires
            old(self).wf(),
            old(batch)@.len() < size,
            spent < old(self).draw_limit(),
        ensures
            final(self).wf(),
            final(self).min_id() == old(self).min_id(),
            final(self).max_id() == old(self).max_id(),
            final(self).draw_limit() == old(self).draw_limit(),
            final(batch)@ == if old(self).eligible(candidate) {
                old(batch)@.push(candidate)
            } else {
                old(batch)@
            },
            final(self).attempted() == if old(self).eligible(candidate) {
                old(self).attempted().insert(candidate)
            } else {
                old(self).attempted()
            },
            step == if final(batch)@.len() == size {
                Step::Full
            } else if spent + 1 == old(self).draw_limit() {
                Step::Spent
            } else {
                Step::More
            },
    {
        if self.claim(candidate) {
            batch.push(candidate);
        }
        if batch.len() == size {
            Step::Full
        } else if spent + 1 == self.draw_limit {
            Step::Spent
        } else {
            Step::More
        }
    }

    /// Draws `size` identifiers, each from the range, each distinct from
    /// the others and from every identifier that is spoken for, and marks
    /// them as spoken for before anything is known of their fate.
    ///
    /// Chance decides how many draws a batch takes. A batch that is larger
    /// than the number of free identifiers, or than the draws allowed, fails
    /// without a draw; one that is not full when the draws are spent fails
    /// too. A failed batch leaves nothing marked. A single identifier from
    /// a range of which nothing is spoken for is found at the first draw.
    pub fn sample_batch(&mut self, size: usize) -> (drawn: Result<Vec<u32>, FatalExhaustion>)
        requires
            old(self).wf(),
        ensures
            final(self).wf(),
            final(self).min_id() == old(self).min_id(),
            final(self).max_id() == old(self).max_id(),
            final(self).draw_limit() == old(self).draw_limit(),
            match drawn {
                Ok(batch) => {
                    &&& batch@.len() == size
                    &&& batch@.no_duplicates()
                    &&& forall|i: int| 0 <= i < batch@.len() ==> old(self).eligible(#[trigger] batch@[i])
                    &&& final(self).attempted() == old(self).attempted().union(batch@.to_set())
                },
                Err(failure) => {
                    &&& failure.requested == size
                    &&& failure.collected < size
                    &&& final(self).attempted() == old(self).attempted()
                },
            },
            size == 0 ==> drawn is Ok,
            size > old(self).free_count() || size > old(self).draw_limit() ==> drawn == Err::<
                Vec<u32>,
                FatalExhaustion,
            >(FatalExhaustion { requested: size, collected: 0 }),
            size == 1 && old(self).attempted() == Set::<u32>::empty() && old(self).draw_limit() >= 1
                ==> drawn is Ok,
    {
        let ghost before = self.attempted();
        let mut batch: Vec<u32> = Vec::new();
        assert(self.attempted() =~= before.union(batch@.to_set()));
        if size == 0 {
            return Ok(batch);
        }
        if size as u64 > self.free() || size > self.draw_limit {
            return Err(FatalExhaustion { requested: size, collected: 0 });
        }
        let mut spent: usize = 0;
        loop
            invariant
                self.wf(),
                self.min_id() == old(self).min_id(),
                self.max_id() == old(self).max_id(),
                self.draw_limit() == old(self).draw_limit(),
                before == old(self).attempted(),
                size <= old(self).free_count(),
                size <= old(self).draw_limit(),
                spent < self.draw_limit(),
                batch@.len() < size,
                batch@.no_duplicates(),
                forall|i: int| 0 <= i < batch@.len() ==> old(self).eligible(#[trigger] batch@[i]),
                self.attempted() == before.union(batch@.to_set()),
            decreases self.draw_limit() - spent,
        {
            let candidate = draw(&mut self.rng, self.min_id, self.max_id);
            let ghost held = self.attempted();
            let ghost prior = batch@;
            let ghost taken = self.eligible(candidate);
            proof {
                if size == 1 && before =~= Set::<u32>::empty() {
                    assert(prior.len() == 0);
                    assert(held =~= Set::<u32>::empty());
                    assert(taken);
                }
            }
            let step = self.take_draw(&mut batch, size, spent, candidate);
            proof {
                if taken {
                    assert(!prior.contains(candidate)) by {
                        if prior.contains(candidate) {
                            assert(prior.to_set().contains(candidate));
                        }
                    }
                    assert forall|x: u32| #[trigger]
                        before.union(batch@.to_set()).contains(x) == held.insert(candidate).contains(x) by {
                        if batch@.contains(x) && x != candidate {
                            let j = choose|j: int| 0 <= j < batch@.len() && batch@[j] == x;
                            assert(prior[j] == x);
                        }
                        if prior.contains(x) {
                            let j = choose|j: int| 0 <= j < prior.len() && prior[j] == x;
                            assert(batch@[j] == x);
                        }
                        assert(batch@[prior.len() as int] == candidate);
                    }
                    assert(self.attempted() =~= before.union(batch@.to_set()));
                }
            }
            match step {
                Step::Full => {
                    return Ok(batch);
                },
                Step::Spent => {
                    let collected = batch.len();
                    self.roll_back(&batch, Ghost(before));
                    return Err(FatalExhaustion { requested: size, collected });
                },
                Step::More => {
                    spent = spent + 1;
                },
            }
        }
    }

    /// The identifiers that are spoken for never outnumber the range, so
    /// `free_count` is the number of identifiers that may still be handed
    /// out. No batch of distinct identifiers that may be handed out is
    /// larger than that: where a batch fails for want of free identifiers,
    /// there was none to be had.
    pub proof fn lemma_batch_fits_free(&self, batch: Seq<u32>)
        requires
            self.wf(),
            batch.no_duplicates(),
            forall|i: int| 0 <= i < batch.len() ==> self.eligible(#[trigger] batch[i]),
        ensures
            self.attempted().len() <= self.range_size(),
            self.attempted().len() + self.free_count() == self.range_size(),
            batch.len() <= self.free_count(),
    {
        broadcast use vstd::seq_lib::seq_to_set_is_finite;

        let held = self.attempted();
        let fresh = batch.to_set();
        let all = id_range(self.min_id(), self.max_id());
        lemma_id_range_len(self.min_id(), self.max_id());
        batch.unique_seq_to_set();
        assert(held.disjoint(fresh)) by {
            assert forall|id: u32| held.contains(id) implies !fresh.contains(id) by {
                if fresh.contains(id) {
                    let i = choose|i: int| 0 <= i < batch.len() && batch[i] == id;
                    assert(self.eligible(batch[i]));
                }
            }
        }
        vstd::set_lib::lemma_set_disjoint_lens(held, fresh);
        assert((held + fresh).subset_of(all)) by {
            assert forall|id: u32| (held + fresh).contains(id) implies all.contains(id) by {
                if fresh.contains(id) {
                    let i = choose|i: int| 0 <= i < batch.len() && batch[i] == id;
                    assert(self.eligible(batch[i]));
                }
            }
        }
        vstd::set_lib::lemma_len_subset(held + fresh, all);
        vstd::set_lib::lemma_len_subset(held, all);
    }
}

} // verus!
