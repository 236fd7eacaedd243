use fibonacci::fibonacci;
use fibonacci::fibonacci_checked;

#[test]
fn base_case_zero() {
    assert_eq!(fibonacci(0), 0);
}

#[test]
fn base_case_one() {
    assert_eq!(fibonacci(1), 1);
}

#[test]
fn recurrence_holds_on_small_indices() {
    for n in 2u32..=40u32 {
        assert_eq!(fibonacci(n), fibonacci(n - 1) + fibonacci(n - 2));
    }
}

#[test]
fn repeated_calls_return_the_same_value() {
    let first: u32 = fibonacci(30);
    let second: u32 = fibonacci(30);
    let third: u32 = fibonacci(30);
    assert_eq!(first, second);
    assert_eq!(second, third);
}

#[test]
fn boundary_values() {
    assert_eq!(fibonacci(0), 0);
    assert_eq!(fibonacci(1), 1);
    assert_eq!(fibonacci(46), 1836311903);
}

#[test]
fn never_decreasing_up_to_the_width_limit() {
    for n in 1u32..=47u32 {
        assert!(fibonacci(n) >= fibonacci(n - 1));
    }
}

#[test]
fn checked_agrees_where_the_value_fits() {
    for n in 0u32..=47u32 {
        assert_eq!(fibonacci_checked(n), Some(fibonacci(n)));
    }
}

#[test]
fn checked_value_at_the_last_fitting_index() {
    assert_eq!(fibonacci_checked(47), Some(2971215073));
}

#[test]
fn checked_overflows_first_at_index_48() {
    assert_eq!(fibonacci_checked(48), None);
}

#[test]
fn checked_overflows_consistently_beyond_48() {
    assert_eq!(fibonacci_checked(49), None);
    assert_eq!(fibonacci_checked(100), None);
    assert_eq!(fibonacci_checked(u32::MAX), None);
}

#[test]
fn reported_value_at_index_46() {
    assert_eq!(fibonacci_checked(46), Some(1836311903));
}
