use blockfree::version::{is_consistent, next, settle};

#[test]
fn next_counts_up_and_wraps() {
    assert_eq!(next(0), 1);
    assert_eq!(next(41), 42);
    assert_eq!(next(usize::MAX - 1), usize::MAX);
    assert_eq!(next(usize::MAX), 0);
}

#[test]
fn consistency_needs_equal_even_samples() {
    assert!(is_consistent(0, 0));
    assert!(is_consistent(8, 8));
    assert!(!is_consistent(1, 1));
    assert!(!is_consistent(2, 4));
    assert!(!is_consistent(2, 3));
    assert!(!is_consistent(usize::MAX, usize::MAX));
}

#[test]
fn settle_keeps_a_vouched_copy() {
    assert_eq!(settle(0, Some(5), 0), Some(5));
    assert_eq!(settle(6, Some("x"), 6), Some("x"));
}

#[test]
fn settle_drops_a_copy_taken_during_a_write() {
    assert_eq!(settle(0, Some(5), 1), None);
    assert_eq!(settle(1, Some(5), 1), None);
    assert_eq!(settle(1, Some(5), 2), None);
    assert_eq!(settle(0, Some(5), 2), None);
}

#[test]
fn settle_reports_a_busy_cell() {
    assert_eq!(settle::<u8>(4, None, 4), None);
}

#[test]
fn write_cycle_across_the_wrap() {
    let start = usize::MAX - 1;
    let entering = next(start);
    let done = next(entering);
    assert_eq!(done, 0);
    assert!(!is_consistent(start, entering));
    assert!(!is_consistent(entering, entering));
    assert!(!is_consistent(start, done));
    assert!(is_consistent(done, done));
}
