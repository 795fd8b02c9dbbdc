use lisp::eval;

#[test]
fn add_is_exact_on_each_kind() {
    assert_eq!(lisp::add(2u8, 3u8), 5);
    assert_eq!(lisp::add(2u64, 3u64), 5);
    assert_eq!(lisp::add(200u128, 300u128), 500);
    assert_eq!(lisp::add(-2i8, 3i8), 1);
    assert_eq!(lisp::add(-200i64, -300i64), -500);
}

#[test]
fn sub_is_exact_on_each_kind() {
    assert_eq!(lisp::sub(5u16, 3u16), 2);
    assert_eq!(lisp::sub(5u32, 5u32), 0);
    assert_eq!(lisp::sub(3i32, 5i32), -2);
    assert_eq!(lisp::sub(-3i128, -5i128), 2);
}

#[test]
fn mul_is_exact_on_each_kind() {
    assert_eq!(lisp::mul(7u8, 6u8), 42);
    assert_eq!(lisp::mul(7u64, 6u64), 42);
    assert_eq!(lisp::mul(-7i16, 6i16), -42);
    assert_eq!(lisp::mul(-7i64, -6i64), 42);
}

#[test]
fn div_truncates_toward_zero() {
    assert_eq!(lisp::div(7u32, 2u32), 3);
    assert_eq!(lisp::div(7i32, 2i32), 3);
    assert_eq!(lisp::div(-7i32, 2i32), -3);
    assert_eq!(lisp::div(7i32, -2i32), -3);
    assert_eq!(lisp::div(-7i32, -2i32), 3);
    assert_eq!(lisp::div(0i64, 5i64), 0);
}

#[test]
fn arithmetic_at_the_kind_bounds() {
    assert_eq!(lisp::add(u8::MAX - 1, 1u8), u8::MAX);
    assert_eq!(lisp::sub(i8::MIN + 1, 1i8), i8::MIN);
    assert_eq!(lisp::mul(i64::MIN / 2, 2i64), i64::MIN);
    assert_eq!(lisp::div(i32::MIN, 1i32), i32::MIN);
}

#[test]
fn nested_arithmetic_call_tree_squares_and_scales() {
    let r = 3u64;
    let res = eval((lisp::mul, 3u64, (lisp::mul, r, r)));
    assert_eq!(res, 27);
}

#[test]
fn arithmetic_helpers_compose_in_one_tree() {
    let tree = (
        lisp::add,
        (lisp::mul, 4i64, 5i64),
        (lisp::div, (lisp::sub, 3i64, 10i64), 2i64),
    );
    assert_eq!(eval(tree), 20 + (-7) / 2);
    assert_eq!(eval((
        lisp::add,
        (lisp::mul, 4i64, 5i64),
        (lisp::div, (lisp::sub, 3i64, 10i64), 2i64),
    )), 17);
}
