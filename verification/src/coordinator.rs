//! Folding the results of a finished batch into the tally and into the set
//! of identifiers that are spoken for.
//!
//! The retrievals of a batch run side by side and touch neither. Only when
//! every unit of work of the batch has ended are their results folded, one
//! after the other, by the single owner of both.

use crate::outcome::BatchItem;
use crate::sampler::IdentifierSampler;
use crate::stats::AcquisitionStats;
use vstd::prelude::*;

verus! {

/// Number of items that count as a success.
pub open spec fn count_acquired(items: Seq<BatchItem>) -> nat
    decreases items.len(),
{
    if items.len() == 0 {
        0
    } else {
        count_acquired(items.drop_last()) + if items.last().acquired() {
            1nat
        } else {
            0nat
        }
    }
}

/// The identifiers that the items free: those of the retrievals that ran
/// and failed.
pub open spec fn released_ids(items: Seq<BatchItem>) -> Set<u32> {
    Set::new(|id: u32| exists|i: int| 0 <= i < items.len() && #[trigger] items[i].released() && items[i].id == id)
}

/// The figures by which the items raise the three counters do not pass the
/// largest number that a counter holds.
pub open spec fn tally_fits(stats: AcquisitionStats, items: Seq<BatchItem>) -> bool {
    &&& stats.successful + count_acquired(items) <= usize::MAX
    &&& stats.failed + (items.len() - count_acquired(items)) <= usize::MAX
    &&& stats.total_attempted + items.len() <= usize::MAX
}

/// The tally after the items were folded into `stats`: every item raises
/// `total_attempted`, a success raises `successful`, and every other item,
/// one whose unit of work was lost included, raises `failed`.
pub open spec fn tally_after(stats: AcquisitionStats, items: Seq<BatchItem>) -> AcquisitionStats {
    AcquisitionStats {
        successful: (stats.successful + count_acquired(items)) as usize,
        failed: (stats.failed + (items.len() - count_acquired(items))) as usize,
        total_attempted: (stats.total_attempted + items.len()) as usize,
        existing: stats.existing,
    }
}

/// The successes do not outnumber the items.
pub proof fn lemma_counts_bounded(items: Seq<BatchItem>)
    ensures
        count_acquired(items) <= items.len(),
    decreases items.len(),
{
    if items.len() > 0 {
        lemma_counts_bounded(items.drop_last());
    }
}

/// The counters that `item` raises are below the largest number that a
/// counter holds.
pub open spec fn item_fits(stats: AcquisitionStats, item: BatchItem) -> bool {
    &&& stats.total_attempted < usize::MAX
    &&& item.acquired() ==> stats.successful < usize::MAX
    &&& !item.acquired() ==> stats.failed < usize::MAX
}

/// The tally after `item` was folded into `stats`.
pub open spec fn tally_with(stats: AcquisitionStats, item: BatchItem) -> AcquisitionStats {
    if item.acquired() {
        AcquisitionStats {
            successful: (stats.successful + 1) as usize,
            total_attempted: (stats.total_attempted + 1) as usize,
            ..stats
        }
    } else {
        AcquisitionStats {
            failed: (stats.failed + 1) as usize,
            total_attempted: (stats.total_attempted + 1) as usize,
            ..stats
        }
    }
}

/// Folds one item. Every item is one attempt. A success is counted as
/// such and keeps its identifier spoken for; a retrieval that ran and
/// failed is counted as a failure and frees its identifier; a unit of work
/// that was lost is counted as a failure too, but keeps its identifier
/// spoken for.
pub fn fold_item(stats: &mut AcquisitionStats, sampler: &mut IdentifierSampler, item: &BatchItem)
    requires
        old(sampler).wf(),
        item_fits(*old(stats), *item),
    ensures
        *final(stats) == tally_with(*old(stats), *item),
        final(sampler).wf(),
        final(sampler).min_id() == old(sampler).min_id(),
        final(sampler).max_id() == old(sampler).max_id(),
        final(sampler).draw_limit() == old(sampler).draw_limit(),
        final(sampler).attempted() == if item.released() {
            old(sampler).attempted().remove(item.id)
        } else {
            old(sampler).attempted()
        },
{
    if item.is_acquired() {
        stats.record_acquired();
    } else {
        stats.record_failed();
        if !item.is_aborted() {
            sampler.release(item.id);
        }
    }
}

/// Folds the results of a finished batch, in their order.
pub fn fold_batch(
    stats: &mut AcquisitionStats,
    sampler: &mut IdentifierSampler,
    results: &Vec<BatchItem>,
)
    requires
        old(sampler).wf(),
        tally_fits(*old(stats), results@),
    ensures
        *final(stats) == tally_after(*old(stats), results@),
        final(sampler).wf(),
        final(sampler).min_id() == old(sampler).min_id(),
        final(sampler).max_id() == old(sampler).max_id(),
        final(sampler).draw_limit() == old(sampler).draw_limit(),
        final(sampler).attempted() == old(sampler).attempted().difference(released_ids(results@)),
{
    let mut k: usize = 0;
    assert(old(sampler).attempted() =~= old(sampler).attempted().difference(
        released_ids(results@.take(0)),
    ));
    proof {
        lemma_counts_bounded(results@);
    }
    while k < results.len()
        invariant
            k <= results@.len(),
            tally_fits(*old(stats), results@),
            *stats == tally_after(*old(stats), results@.take(k as int)),
            sampler.wf(),
            sampler.min_id() == old(sampler).min_id(),
            sampler.max_id() == old(sampler).max_id(),
            sampler.draw_limit() == old(sampler).draw_limit(),
            sampler.attempted() == old(sampler).attempted().difference(
                released_ids(results@.take(k as int)),
            ),
        decreases results@.len() - k,
    {
        let ghost held = sampler.attempted();
        let ghost done = results@.take(k as int);
        let ghost next = results@.take(k as int + 1);
        let item = &results[k];
        proof {
            assert(next.drop_last() =~= done);
            assert(next.last() == *item);
            lemma_counts_monotone(results@, k as int + 1);
            lemma_counts_bounded(done);
            lemma_counts_bounded(next);
        }
        fold_item(stats, sampler, item);
        proof {
            let gone = released_ids(next);
            assert forall|x: u32| #[trigger]
                old(sampler).attempted().difference(gone).contains(x) == sampler.attempted().contains(
                    x,
                ) by {
                if released_ids(done).contains(x) {
                    let i = choose|i: int| 0 <= i < done.len() && #[trigger] done[i].released() && done[i].id == x;
                    assert(next[i].released() && next[i].id == x);
                }
                if gone.contains(x) {
                    let i = choose|i: int| 0 <= i < next.len() && #[trigger] next[i].released() && next[i].id == x;
                    if i < k {
                        assert(done[i].released() && done[i].id == x);
                    }
                }
                if item.released() {
                    assert(next[k as int].released() && next[k as int].id == item.id);
                }
            }
            assert(sampler.attempted() =~= old(sampler).attempted().difference(gone));
        }
        k = k + 1;
    }
    assert(results@.take(k as int) =~= results@);
}

/// The successes among a prefix do not outnumber those among the whole,
/// and the same holds of the items that are no success.
pub proof fn lemma_counts_monotone(items: Seq<BatchItem>, n: int)
    requires
        0 <= n <= items.len(),
    ensures
        count_acquired(items.take(n)) <= count_acquired(items),
        n - count_acquired(items.take(n)) <= items.len() - count_acquired(items),
    decreases items.len(),
{
    if n == items.len() {
        assert(items.take(n) =~= items);
    } else {
        assert(items.drop_last().take(n) =~= items.take(n));
        lemma_counts_monotone(items.drop_last(), n);
    }
}

/// Counts the successes among the results.
pub fn count_successes(results: &Vec<BatchItem>) -> (acquired: usize)
    ensures
        acquired == count_acquired(results@),
{
    let mut acquired: usize = 0;
    let mut k: usize = 0;
    while k < results.len()
        invariant
            k <= results@.len(),
            acquired == count_acquired(results@.take(k as int)),
            acquired <= k,
        decreases results@.len() - k,
    {
        proof {
            let next = results@.take(k as int + 1);
            assert(next.drop_last() =~= results@.take(k as int));
            assert(next.last() == results@[k as int]);
        }
        if results[k].is_acquired() {
            acquired = acquired + 1;
        }
        k = k + 1;
    }
    assert(results@.take(k as int) =~= results@);
    acquired
}

/// Tells whether the counters can take the results.
pub fn tally_can_take(stats: &AcquisitionStats, results: &Vec<BatchItem>) -> (fits: bool)
    ensures
        fits == tally_fits(*stats, results@),
{
    let acquired = count_successes(results);
    proof {
        lemma_counts_bounded(results@);
    }
    let others: usize = results.len() - acquired;
    acquired <= usize::MAX - stats.successful && others <= usize::MAX - stats.failed
        && results.len() <= usize::MAX - stats.total_attempted
}

/// Tells whether the results pair with the batch: as many items as the
/// batch has identifiers, each with the identifier at its place.
pub fn pairs_with(results: &Vec<BatchItem>, batch: &Vec<u32>) -> (paired: bool)
    ensures
        paired == (results@.len() == batch@.len() && forall|i: int|
            0 <= i < batch@.len() ==> (#[trigger] results@[i]).id == batch@[i]),
{
    if results.len() != batch.len() {
        return false;
    }
    let mut k: usize = 0;
    while k < results.len()
        invariant
            k <= results@.len(),
            results@.len() == batch@.len(),
            forall|i: int| 0 <= i < k ==> (#[trigger] results@[i]).id == batch@[i],
        decreases results@.len() - k,
    {
        if results[k].id != batch[k] {
            return false;
        }
        k = k + 1;
    }
    true
}

/// Accounting: over any fold, the attempts grow by the number of items,
/// and so do successes and failures together. Every attempt is counted as
/// exactly one of the two.
pub proof fn lemma_accounting(stats: AcquisitionStats, items: Seq<BatchItem>)
    requires
        tally_fits(stats, items),
    ensures
        tally_after(stats, items).successful + tally_after(stats, items).failed == stats.successful
            + stats.failed + items.len(),
        tally_after(stats, items).total_attempted == stats.total_attempted + items.len(),
        tally_after(stats, items).existing == stats.existing,
{
    lemma_counts_bounded(items);
}

/// Balance: the tally at the start of a run is accounted for, and that of
/// a run that found nothing in place is balanced; every fold keeps both.
/// So successes and failures add up to the attempts and the resources
/// found in place after every fold, and to the attempts alone where
/// nothing was found in place.
pub proof fn lemma_balance_kept(stats: AcquisitionStats, items: Seq<BatchItem>, existing: usize)
    requires
        tally_fits(stats, items),
    ensures
        AcquisitionStats::new_spec(existing).accounted(),
        AcquisitionStats::new_spec(0).balanced(),
        stats.accounted() ==> tally_after(stats, items).accounted(),
        stats.balanced() ==> tally_after(stats, items).balanced(),
{
    lemma_accounting(stats, items);
}

/// Growth: a fold never lowers the number of resources at hand, and raises
/// it by no more than the number of items.
pub proof fn lemma_successful_grows(stats: AcquisitionStats, items: Seq<BatchItem>)
    requires
        tally_fits(stats, items),
    ensures
        stats.successful <= tally_after(stats, items).successful <= stats.successful + items.len(),
{
    lemma_counts_bounded(items);
}

/// Progress: a fold brings the goal closer by the number of its successes,
/// so a round with a success leaves fewer resources missing than before.
pub proof fn lemma_round_progress(stats: AcquisitionStats, items: Seq<BatchItem>, goal: usize)
    requires
        tally_fits(stats, items),
    ensures
        tally_after(stats, items).missing(goal) == if count_acquired(items) >= stats.missing(goal) {
            0
        } else {
            stats.missing(goal) - count_acquired(items)
        },
{
}

/// Retry: the identifier of a retrieval that ran and failed is not spoken
/// for after the fold, so a later draw may hand it out again. This holds
/// even where another item of the same fold bears the same identifier.
pub proof fn lemma_failed_is_released(held: Set<u32>, items: Seq<BatchItem>, i: int)
    requires
        0 <= i < items.len(),
        items[i].released(),
    ensures
        !held.difference(released_ids(items)).contains(items[i].id),
        forall|id: u32| !held.contains(id) ==> !held.difference(released_ids(items)).contains(id),
{
    assert(released_ids(items).contains(items[i].id));
}

} // verus!
