use resource_harvest::attempted::AttemptedSet;
use resource_harvest::sampler::{FatalExhaustion, IdentifierSampler, Step};
use std::collections::HashSet;

#[test]
fn empty_range_is_refused() {
    assert!(IdentifierSampler::new(5, 4, 100).is_none());
    assert!(IdentifierSampler::new(5, 5, 100).is_some());
}

#[test]
fn batch_is_distinct_and_in_range() {
    let mut sampler = IdentifierSampler::new(1, 4_000_000, 100_000).unwrap();
    let batch = sampler.sample_batch(10).unwrap();
    assert_eq!(batch.len(), 10);
    let distinct: HashSet<u32> = batch.iter().copied().collect();
    assert_eq!(distinct.len(), 10);
    for id in &batch {
        assert!(*id >= 1 && *id <= 4_000_000);
        assert!(sampler.is_attempted(*id));
    }
    assert_eq!(sampler.attempted_count(), 10);
}

#[test]
fn later_batches_avoid_earlier_ones() {
    let mut sampler = IdentifierSampler::new(1, 40, 100_000).unwrap();
    let mut seen: HashSet<u32> = HashSet::new();
    for _ in 0..4 {
        let batch = sampler.sample_batch(10).unwrap();
        for id in batch {
            assert!(seen.insert(id), "identifier {} was handed out twice", id);
        }
    }
    assert_eq!(seen.len(), 40);
    assert_eq!(sampler.free(), 0);
}

#[test]
fn small_range_is_drawn_whole() {
    let mut sampler = IdentifierSampler::new(7, 9, 10_000).unwrap();
    let mut batch = sampler.sample_batch(3).unwrap();
    batch.sort();
    assert_eq!(batch, vec![7, 8, 9]);
}

#[test]
fn empty_batch_always_succeeds() {
    let mut sampler = IdentifierSampler::new(1, 1, 0).unwrap();
    assert_eq!(sampler.sample_batch(0), Ok(vec![]));
    assert_eq!(sampler.attempted_count(), 0);
}

#[test]
fn saturated_range_is_fatal() {
    let mut sampler = IdentifierSampler::new(1, 3, 10_000).unwrap();
    assert_eq!(
        sampler.sample_batch(5),
        Err(FatalExhaustion { requested: 5, collected: 0 })
    );
    assert_eq!(sampler.attempted_count(), 0);
    assert!(sampler.sample_batch(3).is_ok());
    assert_eq!(
        sampler.sample_batch(1),
        Err(FatalExhaustion { requested: 1, collected: 0 })
    );
    assert_eq!(sampler.attempted_count(), 3);
}

#[test]
fn draw_limit_bounds_a_batch() {
    let mut sampler = IdentifierSampler::new(1, 1_000, 4).unwrap();
    assert_eq!(
        sampler.sample_batch(5),
        Err(FatalExhaustion { requested: 5, collected: 0 })
    );
    assert_eq!(sampler.attempted_count(), 0);
}

#[test]
fn spent_draws_leave_nothing_marked() {
    // One identifier is free among a thousand and a single draw is allowed:
    // whether the draw hits it or not, a failure marks nothing.
    let mut sampler = IdentifierSampler::new(1, 1_000, 1).unwrap();
    for id in 1..1_000u32 {
        assert!(sampler.claim(id));
    }
    let mut failures = 0;
    for _ in 0..50 {
        match sampler.sample_batch(1) {
            Ok(batch) => {
                assert_eq!(batch, vec![1_000]);
                assert!(sampler.release(1_000));
            }
            Err(failure) => {
                assert_eq!(failure, FatalExhaustion { requested: 1, collected: 0 });
                failures += 1;
            }
        }
        assert_eq!(sampler.attempted_count(), 999);
    }
    assert!(failures > 0);
}

#[test]
fn claim_takes_only_what_is_eligible() {
    let mut sampler = IdentifierSampler::new(10, 20, 100).unwrap();
    assert!(!sampler.claim(9));
    assert!(!sampler.claim(21));
    assert!(sampler.claim(10));
    assert!(sampler.claim(20));
    assert!(!sampler.claim(10));
    assert_eq!(sampler.attempted_count(), 2);
    assert_eq!(sampler.free(), 9);
}

#[test]
fn released_identifier_can_be_drawn_again() {
    let mut sampler = IdentifierSampler::new(1, 3, 10_000).unwrap();
    assert!(sampler.sample_batch(3).is_ok());
    assert!(sampler.sample_batch(1).is_err());
    assert!(sampler.release(2));
    assert!(!sampler.release(2));
    assert!(!sampler.is_attempted(2));
    assert_eq!(sampler.sample_batch(1), Ok(vec![2]));
    assert!(sampler.is_attempted(2));
}

#[test]
fn attempted_set_marks_and_releases() {
    let mut set = AttemptedSet::new();
    assert_eq!(set.len(), 0);
    assert!(set.mark(5));
    assert!(!set.mark(5));
    assert!(set.contains(5));
    assert!(!set.contains(6));
    assert_eq!(set.len(), 1);
    assert!(set.release(5));
    assert!(!set.release(5));
    assert!(!set.contains(5));
    assert_eq!(set.len(), 0);
}

#[test]
fn single_identifier_needs_one_draw() {
    for _ in 0..200 {
        let mut sampler = IdentifierSampler::new(1, 5, 1).unwrap();
        let batch = sampler.sample_batch(1).unwrap();
        assert_eq!(batch.len(), 1);
        assert!(sampler.is_attempted(batch[0]));
    }
}

#[test]
fn taken_draw_joins_the_batch() {
    let mut sampler = IdentifierSampler::new(10, 20, 5).unwrap();
    let mut batch: Vec<u32> = Vec::new();
    assert_eq!(sampler.take_draw(&mut batch, 3, 0, 12), Step::More);
    assert_eq!(batch, vec![12]);
    assert!(sampler.is_attempted(12));
    assert_eq!(sampler.take_draw(&mut batch, 3, 1, 20), Step::More);
    assert_eq!(batch, vec![12, 20]);
    assert_eq!(sampler.take_draw(&mut batch, 3, 2, 10), Step::Full);
    assert_eq!(batch, vec![12, 20, 10]);
    assert_eq!(sampler.attempted_count(), 3);
}

#[test]
fn repeated_draw_changes_nothing() {
    let mut sampler = IdentifierSampler::new(10, 20, 5).unwrap();
    let mut batch: Vec<u32> = Vec::new();
    assert_eq!(sampler.take_draw(&mut batch, 2, 0, 15), Step::More);
    assert_eq!(sampler.take_draw(&mut batch, 2, 1, 15), Step::More);
    assert_eq!(batch, vec![15]);
    assert_eq!(sampler.attempted_count(), 1);
    assert!(sampler.claim(16));
    assert_eq!(sampler.take_draw(&mut batch, 2, 2, 16), Step::More);
    assert_eq!(batch, vec![15]);
}

#[test]
fn draw_outside_the_range_changes_nothing() {
    let mut sampler = IdentifierSampler::new(10, 20, 5).unwrap();
    let mut batch: Vec<u32> = Vec::new();
    assert_eq!(sampler.take_draw(&mut batch, 1, 0, 9), Step::More);
    assert_eq!(sampler.take_draw(&mut batch, 1, 1, 21), Step::More);
    assert!(batch.is_empty());
    assert_eq!(sampler.attempted_count(), 0);
    assert!(!sampler.is_attempted(9));
    assert!(!sampler.is_attempted(21));
}

#[test]
fn last_draw_allowed_ends_the_gathering() {
    let mut sampler = IdentifierSampler::new(10, 20, 3).unwrap();
    let mut batch: Vec<u32> = Vec::new();
    assert_eq!(sampler.take_draw(&mut batch, 2, 0, 11), Step::More);
    assert_eq!(sampler.take_draw(&mut batch, 2, 1, 11), Step::More);
    // the third draw is the last one allowed: a miss spends the draws,
    let mut missed = vec![11];
    let mut other = IdentifierSampler::new(10, 20, 3).unwrap();
    assert!(other.claim(11));
    assert_eq!(other.take_draw(&mut missed, 2, 2, 11), Step::Spent);
    assert_eq!(missed, vec![11]);
    // and a hit that fills the batch still counts as full.
    assert_eq!(sampler.take_draw(&mut batch, 2, 2, 12), Step::Full);
    assert_eq!(batch, vec![11, 12]);
    // a hit that does not fill it spends the draws too
    let mut wide = IdentifierSampler::new(10, 20, 1).unwrap();
    let mut begun: Vec<u32> = Vec::new();
    assert_eq!(wide.take_draw(&mut begun, 2, 0, 13), Step::Spent);
    assert_eq!(begun, vec![13]);
    assert!(wide.is_attempted(13));
}
