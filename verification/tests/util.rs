//! Tests of the general-purpose numeric helper.

use organelle::command::constrain;

#[test]
fn constrain_below_range() {
    assert_eq!(constrain(&-5, &0, &10), 0);
}

#[test]
fn constrain_above_range() {
    assert_eq!(constrain(&15, &0, &10), 10);
}

#[test]
fn constrain_within_range() {
    assert_eq!(constrain(&7, &0, &10), 7);
}

#[test]
fn constrain_at_bounds() {
    assert_eq!(constrain(&0, &0, &10), 0);
    assert_eq!(constrain(&10, &0, &10), 10);
}
