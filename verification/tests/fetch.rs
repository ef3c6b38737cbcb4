//! Behaviour of the two-phase enumeration fetch against in-memory sources.

use vk_profiles_rs::fetch::{fetch_all, ForeignSource, QueryStatus};
use vk_profiles_rs::sources::{AuditSource, FaultySource, FixedSource, GrowingSource};

fn sentinels(n: u64) -> Vec<u64> {
    (0..n).map(|i| 1000 + 7 * i).collect()
}

#[test]
fn fetch_returns_every_element_of_a_fixed_source() {
    for n in [0u64, 1, 2, 3, 17, 1000] {
        let items = sentinels(n);
        let mut source = FixedSource::new(items.clone());
        let fetched = fetch_all(&mut source).expect("a steady source must succeed");
        assert_eq!(fetched.len(), n as usize);
        assert_eq!(fetched, items);
    }
}

#[test]
fn fetch_of_an_empty_source_is_empty() {
    let mut source = FixedSource::new(Vec::new());
    let fetched = fetch_all(&mut source).expect("an empty source must succeed");
    assert!(fetched.is_empty());
}

#[test]
fn growth_between_calls_is_retried_until_complete() {
    let first = vec![10, 11];
    let grown = vec![10, 11, 12, 13, 14];
    let mut source = GrowingSource::new(first, grown.clone());
    let fetched = fetch_all(&mut source).expect("a growing source that settles must succeed");
    assert_eq!(fetched, grown);
    // One sizing call and one failed fill, then at least one more full round.
    assert!(source.call_count() > 2);
    assert_eq!(source.call_count(), 4);
}

#[test]
fn a_shrunken_set_is_returned_whole_without_a_retry() {
    // The set changes between the two calls but still fits the offered
    // capacity, so the first fill already returns it completely.
    let first = vec![1, 2, 3];
    let shrunken = vec![9];
    let mut source = GrowingSource::new(first, shrunken.clone());
    let fetched = fetch_all(&mut source).expect("a settled source must succeed");
    assert_eq!(fetched, shrunken);
    assert_eq!(source.call_count(), 2);
}

#[test]
fn hard_error_on_the_sizing_call_is_returned_verbatim() {
    let mut source = FaultySource::new(vec![1, 2, 3], 1, -4);
    assert_eq!(fetch_all(&mut source), Err(-4));
}

#[test]
fn hard_error_on_the_fill_call_is_returned_verbatim() {
    let mut source = FaultySource::new(vec![1, 2, 3], 2, -11);
    assert_eq!(fetch_all(&mut source), Err(-11));
}

#[test]
fn the_failure_schedule_is_exact_at_the_query_level() {
    let mut source = FaultySource::new(vec![1, 2, 3], 1, -4);
    assert_eq!(source.query_count(), (QueryStatus::Error(-4), 0));
    let (status, count) = source.query_count();
    assert_eq!(status, QueryStatus::Success);
    assert_eq!(count, 3);
    let (status, data) = source.query_fill(count);
    assert_eq!(status, QueryStatus::Success);
    assert_eq!(data, vec![1, 2, 3]);
}

#[test]
fn error_after_the_failing_call_has_passed_does_not_recur() {
    // The chosen call never comes: the fetch needs only two calls.
    let mut source = FaultySource::new(vec![5, 6], 3, -4);
    assert_eq!(fetch_all(&mut source), Ok(vec![5, 6]));
}

#[test]
fn repeated_fetches_return_the_same_elements() {
    for n in [0u64, 1, 1000] {
        let items = sentinels(n);
        let mut source = FixedSource::new(items.clone());
        let first = fetch_all(&mut source).expect("a steady source must succeed");
        let second = fetch_all(&mut source).expect("a steady source must succeed");
        let third = fetch_all(&mut source).expect("a steady source must succeed");
        assert_eq!(first, items);
        assert_eq!(second, items);
        assert_eq!(third, items);
    }
}

#[test]
fn no_fill_ever_asks_beyond_the_reported_count() {
    for n in [0u64, 1, 64, 1000] {
        let mut source = AuditSource::new(sentinels(n));
        let fetched = fetch_all(&mut source).expect("a steady source must succeed");
        assert_eq!(fetched.len(), n as usize);
        assert!(!source.was_over_asked());
    }
}
