use std::cell::Cell;

use lisp::eval;
use lisp::run;

fn greet(name: String) -> String {
    format!("Hello, {}!", name)
}

#[test]
fn literal_char_evaluates_to_itself() {
    assert_eq!(eval('q'), 'q');
}

#[test]
fn literal_signed_integers_evaluate_to_themselves() {
    assert_eq!(eval(-5i8), -5i8);
    assert_eq!(eval(-500i16), -500i16);
    assert_eq!(eval(-70_000i32), -70_000i32);
    assert_eq!(eval(-5_000_000_000i64), -5_000_000_000i64);
    assert_eq!(eval(-1i128 << 100), -1i128 << 100);
}

#[test]
fn literal_unsigned_integers_evaluate_to_themselves() {
    assert_eq!(eval(5u8), 5u8);
    assert_eq!(eval(500u16), 500u16);
    assert_eq!(eval(70_000u32), 70_000u32);
    assert_eq!(eval(5_000_000_000u64), 5_000_000_000u64);
    assert_eq!(eval(1u128 << 100), 1u128 << 100);
}

#[test]
fn literal_string_evaluates_to_itself() {
    assert_eq!(eval("hold the door".to_string()), "hold the door".to_string());
}

#[test]
fn nullary_call_invokes_and_returns_unit() {
    let called = Cell::new(false);
    let f = || called.set(true);
    let out = eval((f,));
    assert_eq!(out, ());
    assert!(called.get());
}

#[test]
fn nullary_call_returns_value() {
    let f = || 42u64;
    assert_eq!(eval((f,)), 42);
}

#[test]
fn unary_call_evaluates_argument_then_applies() {
    let f = |x: i64| x + 1;
    assert_eq!(eval((f, 41i64)), 42);
}

#[test]
fn binary_call_applies_left_to_right() {
    let order = Cell::new(0u32);
    let left = || {
        assert_eq!(order.get(), 0);
        order.set(1);
        2u64
    };
    let right = || {
        assert_eq!(order.get(), 1);
        order.set(2);
        3u64
    };
    let f = |a: u64, b: u64| 10 * a + b;
    assert_eq!(eval((f, (left,), (right,))), 23);
}

#[test]
fn ternary_call_mixes_kinds() {
    let f = |c: char, n: u8, s: String| format!("{}{}{}", c, n, s);
    assert_eq!(eval((f, 'a', 7u8, "z".to_string())), "a7z");
}

#[test]
fn nested_calls_evaluate_depth_first() {
    let mul = |a: i64, b: i64| a * b;
    let add = |a: i64, b: i64| a + b;
    let tree = (mul, (add, 1i64, 2i64), (add, 3i64, (mul, 2i64, 2i64)));
    assert_eq!(eval(tree), 21);
}

#[test]
fn five_argument_call() {
    let f = |a: u32, b: u32, c: u32, d: u32, e: u32| a + b + c + d + e;
    assert_eq!(eval((f, 1u32, 2u32, 3u32, 4u32, 5u32)), 15);
}

#[test]
fn ten_argument_call() {
    let f = |a: u64, b: u64, c: u64, d: u64, e: u64, g: u64, h: u64, i: u64, j: u64, k: u64| {
        a + b + c + d + e + g + h + i + j + k
    };
    assert_eq!(
        eval((f, 1u64, 2u64, 3u64, 4u64, 5u64, 6u64, 7u64, 8u64, 9u64, 10u64)),
        55
    );
}

#[test]
fn thirty_argument_call_at_the_arity_ceiling() {
    let f = |a1: u64,
             a2: u64,
             a3: u64,
             a4: u64,
             a5: u64,
             a6: u64,
             a7: u64,
             a8: u64,
             a9: u64,
             a10: u64,
             a11: u64,
             a12: u64,
             a13: u64,
             a14: u64,
             a15: u64,
             a16: u64,
             a17: u64,
             a18: u64,
             a19: u64,
             a20: u64,
             a21: u64,
             a22: u64,
             a23: u64,
             a24: u64,
             a25: u64,
             a26: u64,
             a27: u64,
             a28: u64,
             a29: u64,
             a30: u64| {
        a1 + a2 + a3 + a4 + a5 + a6 + a7 + a8 + a9 + a10 + a11 + a12 + a13 + a14 + a15 + a16
            + a17 + a18 + a19 + a20 + a21 + a22 + a23 + a24 + a25 + a26 + a27 + a28 + a29 + a30
    };
    let tree = (
        f, 1u64, 2u64, 3u64, 4u64, 5u64, 6u64, 7u64, 8u64, 9u64, 10u64, 11u64, 12u64, 13u64,
        14u64, 15u64, 16u64, 17u64, 18u64, 19u64, 20u64, 21u64, 22u64, 23u64, 24u64, 25u64,
        26u64, 27u64, 28u64, 29u64, 30u64,
    );
    assert_eq!(eval(tree), 465);
}

#[test]
fn thirty_argument_call_with_nested_arguments() {
    let f = |a1: u64,
             a2: u64,
             a3: u64,
             a4: u64,
             a5: u64,
             a6: u64,
             a7: u64,
             a8: u64,
             a9: u64,
             a10: u64,
             a11: u64,
             a12: u64,
             a13: u64,
             a14: u64,
             a15: u64,
             a16: u64,
             a17: u64,
             a18: u64,
             a19: u64,
             a20: u64,
             a21: u64,
             a22: u64,
             a23: u64,
             a24: u64,
             a25: u64,
             a26: u64,
             a27: u64,
             a28: u64,
             a29: u64,
             a30: u64| {
        a1 + a2 + a3 + a4 + a5 + a6 + a7 + a8 + a9 + a10 + a11 + a12 + a13 + a14 + a15 + a16
            + a17 + a18 + a19 + a20 + a21 + a22 + a23 + a24 + a25 + a26 + a27 + a28 + a29 + a30
    };
    let inc = |x: u64| x + 1;
    let tree = (
        f,
        (inc, 0u64),
        2u64,
        3u64,
        4u64,
        5u64,
        6u64,
        7u64,
        8u64,
        9u64,
        10u64,
        11u64,
        12u64,
        13u64,
        14u64,
        15u64,
        16u64,
        17u64,
        18u64,
        19u64,
        20u64,
        21u64,
        22u64,
        23u64,
        24u64,
        25u64,
        26u64,
        27u64,
        28u64,
        29u64,
        (inc, 29u64),
    );
    assert_eq!(eval(tree), 465);
}

#[test]
fn boxed_value_unwraps_to_contained_value() {
    assert_eq!(eval(Box::new(9i32)), 9);
    assert_eq!(eval(Box::new("boxed".to_string())), "boxed");
}

#[test]
fn boxed_node_is_not_evaluated_further() {
    let called = Cell::new(false);
    let inner = (|| {
        called.set(true);
        5i32
    },);
    let unwrapped = eval(Box::new(inner));
    assert!(!called.get());
    assert_eq!(eval(unwrapped), 5);
    assert!(called.get());
}

#[test]
fn lifted_callable_is_returned_not_invoked() {
    let called = Cell::new(false);
    let f = |x: i32| {
        called.set(true);
        x + 1
    };
    let lifted = eval(Box::new(f));
    assert!(!called.get());
    assert_eq!(lifted(1), 2);
    assert!(called.get());
}

#[test]
fn run_applies_a_callable_to_its_argument() {
    assert_eq!(run(greet, "Sam".to_string()), "Hello, Sam!");
}

#[test]
fn higher_order_call_passes_lifted_callable_to_run() {
    let out = eval((run, Box::new(greet), "Sam".to_string()));
    assert_eq!(out, "Hello, Sam!");
}

#[test]
fn float_squares_scale_through_a_call_tree() {
    let mul = |a: f64, b: f64| a * b;
    for r in [0.5f64, 1.0, 2.25, 3.0, 10.0] {
        let tree = (mul, Box::new(3.0f64), (mul, Box::new(r), Box::new(r)));
        assert_eq!(eval(tree), 3.0 * r * r);
    }
}

#[test]
fn circle_area_from_a_nested_float_tree() {
    let mul = |a: f64, b: f64| a * b;
    let r = 3.0f64;
    let area = eval((mul, Box::new(std::f64::consts::PI), (mul, Box::new(r), Box::new(r))));
    assert!((area - 28.274333882308138).abs() < 1e-12);
    assert_eq!(area, std::f64::consts::PI * 9.0);
}

#[test]
fn four_argument_call() {
    let f = |a: i32, b: i32, c: i32, d: i32| a - b + c - d;
    assert_eq!(eval((f, 10i32, 3i32, 2i32, 1i32)), 8);
}

#[test]
fn arguments_of_a_wide_call_evaluate_left_to_right() {
    let seen = Cell::new(0u32);
    let first = || {
        assert_eq!(seen.get(), 0);
        seen.set(1);
        1u32
    };
    let second = || {
        assert_eq!(seen.get(), 1);
        seen.set(2);
        2u32
    };
    let third = || {
        assert_eq!(seen.get(), 2);
        seen.set(3);
        3u32
    };
    let f = |a: u32, b: u32, c: u32| 100 * a + 10 * b + c;
    assert_eq!(eval((f, (first,), (second,), (third,))), 123);
    assert_eq!(seen.get(), 3);
}
