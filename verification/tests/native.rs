use slimefun::native::{sum_saturating, ABI_VERSION};

#[test]
fn sums_regular_values() {
    assert_eq!(sum_saturating(&[10, 20, 30]), 60);
}

#[test]
fn saturates_overflow_and_underflow() {
    assert_eq!(sum_saturating(&[i32::MAX, 1]), i32::MAX);
    assert_eq!(sum_saturating(&[i32::MIN, -1]), i32::MIN);
    assert_eq!(sum_saturating(&[i32::MAX, 1, -1]), i32::MAX - 1);
}

#[test]
fn an_empty_list_sums_to_zero() {
    assert_eq!(sum_saturating(&[]), 0);
}

#[test]
fn negative_values_are_summed_exactly_in_range() {
    assert_eq!(sum_saturating(&[-5, 3, -10]), -12);
}

#[test]
fn the_interface_version_is_one() {
    assert_eq!(ABI_VERSION, 1);
}
