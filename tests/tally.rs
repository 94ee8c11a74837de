use kepler::tally::entry_count;

#[test]
fn absent_count_adds_one() {
    assert_eq!(entry_count(0, None), Some(1));
    assert_eq!(entry_count(41, None), Some(42));
}

#[test]
fn given_count_is_added() {
    assert_eq!(entry_count(10, Some(5)), Some(15));
    assert_eq!(entry_count(10, Some(0)), Some(10));
}

#[test]
fn largest_count_fits() {
    assert_eq!(entry_count(u64::MAX - 1, None), Some(u64::MAX));
    assert_eq!(entry_count(0, Some(u64::MAX)), Some(u64::MAX));
}

#[test]
fn overflowing_count_is_refused() {
    assert_eq!(entry_count(u64::MAX, None), None);
    assert_eq!(entry_count(u64::MAX - 2, Some(3)), None);
}
