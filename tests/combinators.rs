use function::binary;
use function::unary;
use function::{Binary, Unary};

fn add(a: u32, b: u32) -> u32 {
    a + b
}

fn halve(n: u32) -> u32 {
    n / 2
}

fn is_even(n: u32) -> bool {
    n % 2 == 0
}

fn double(n: i64) -> i64 {
    n * 2
}

fn is_send<T: Send>(_: &T) -> bool {
    true
}

#[test]
fn with_binds_first_argument() {
    let add2 = binary::with(add, 2);
    assert_eq!(add2(3), 5);
}

#[test]
fn with_over_signed_integers() {
    let sum = |a: i64, b: i64| a + b;
    let add2 = binary::with(sum, 2);
    assert_eq!(add2(3), 5);
    assert_eq!(add2(-7), -5);
}

#[test]
fn binary_chain_tests_parity_of_sum() {
    let is_sum_even = binary::chain(add, is_even);
    assert!(is_sum_even(1, 1));
    assert!(!is_sum_even(3, 4));
}

#[test]
fn unary_chain_tests_parity_of_half() {
    let is_half_even = unary::chain(halve, is_even);
    assert!(is_half_even(4));
    assert!(!is_half_even(3));
}

#[test]
fn with_then_unary_chain() {
    let sum = |a: i64, b: i64| a + b;
    let pipeline = unary::chain(binary::with(sum, 10), double);
    assert_eq!(pipeline(5), 30);
}

#[test]
fn unary_chain_is_g_after_f() {
    let inc = |n: i32| n + 1;
    let square = |n: i32| n * n;
    let h = unary::chain(inc, square);
    for x in -5..5 {
        assert_eq!(h(x), square(inc(x)));
    }
    // the order matters: f first, then g
    assert_eq!(h(3), 16);
    assert_eq!(unary::chain(square, inc)(3), 10);
}

#[test]
fn binary_chain_is_g_after_f() {
    let sub = |a: i32, b: i32| a - b;
    let neg = |n: i32| -n;
    let h = binary::chain(sub, neg);
    for x in -3..3 {
        for y in -3..3 {
            assert_eq!(h(x, y), neg(sub(x, y)));
        }
    }
    assert_eq!(h(10, 4), -6);
}

#[test]
fn with_is_f_on_fixed_first() {
    let sub = |a: i32, b: i32| a - b;
    let from_ten = binary::with(sub, 10);
    for b in -4..4 {
        assert_eq!(from_ten(b), sub(10, b));
    }
    assert_eq!(from_ten(4), 6);
}

#[test]
fn with_reuse_keeps_captured_value() {
    let join = |a: String, b: &str| a + b;
    let greet = binary::with(join, String::from("hello, "));
    assert_eq!(greet("ann"), "hello, ann");
    assert_eq!(greet("bo"), "hello, bo");
    assert_eq!(greet("ann"), "hello, ann");
}

#[test]
fn chain_reuse_depends_only_on_input() {
    let is_half_even = unary::chain(halve, is_even);
    let first: Vec<bool> = (0..8).map(|n| is_half_even(n)).collect();
    let second: Vec<bool> = (0..8).rev().map(|n| is_half_even(n)).collect();
    let mut second_fwd = second.clone();
    second_fwd.reverse();
    assert_eq!(first, second_fwd);
    assert_eq!(first, vec![true, true, false, false, true, true, false, false]);

    let is_sum_even = binary::chain(add, is_even);
    assert!(is_sum_even(1, 1));
    assert!(!is_sum_even(3, 4));
    assert!(is_sum_even(1, 1));
}

#[test]
fn produced_callables_clone_and_send() {
    let add2 = binary::with(add, 2);
    let copy = add2.clone();
    assert_eq!(copy(40), 42);
    assert_eq!(add2(1), 3);
    assert!(is_send(&add2));

    let is_half_even = unary::chain(halve, is_even);
    let copy = is_half_even.clone();
    assert!(copy(4));
    assert!(is_send(&is_half_even));

    let is_sum_even = binary::chain(add, is_even);
    let copy = is_sum_even.clone();
    assert!(!copy(2, 3));
    assert!(is_send(&is_sum_even));
}

#[test]
fn produced_callables_compose_further() {
    let add2 = binary::with(add, 2);
    let add4 = unary::chain(add2.clone(), add2);
    assert_eq!(add4(1), 5);
    let is_add4_even = unary::chain(add4, is_even);
    assert!(is_add4_even(2));
    assert!(!is_add4_even(3));
}

#[test]
fn apply_invokes_the_callable() {
    assert_eq!(Unary::apply(&halve, 9), 4);
    assert_eq!(Binary::apply(&add, 20, 22), 42);
}
