use lisp::reduce;
use lisp::to_vec;

#[test]
fn map_applies_in_order_to_every_element() {
    let xs = vec![1i64, 2, 3, 4];
    let doubled = lisp::combinators::map(|x: i64| x * 2, xs);
    assert_eq!(doubled, vec![2, 4, 6, 8]);
}

#[test]
fn map_on_empty_sequence_is_empty() {
    let xs: Vec<u8> = Vec::new();
    let out = lisp::combinators::map(|x: u8| x + 1, xs);
    assert_eq!(out, Vec::<u8>::new());
}

#[test]
fn map_changes_element_kind() {
    let xs = vec![1u8, 2, 3];
    let out = lisp::combinators::map(|x: u8| format!("<{}>", x), xs);
    assert_eq!(out, vec!["<1>", "<2>", "<3>"]);
}

#[test]
fn to_vec_of_map_is_the_elementwise_image() {
    let xs = vec![10u64, 20, 30];
    let out = to_vec(lisp::combinators::map(|x: u64| x + 1, xs));
    assert_eq!(out, vec![11, 21, 31]);
}

#[test]
fn to_vec_keeps_order_and_length() {
    let xs = vec!['c', 'b', 'a'];
    assert_eq!(to_vec(xs), vec!['c', 'b', 'a']);
}

#[test]
fn reduce_is_the_left_fold() {
    let xs = vec![1u64, 2, 3, 4];
    assert_eq!(reduce(0u64, |a: u64, x: u64| a + x, xs), 10);
}

#[test]
fn reduce_folds_left_to_right() {
    let xs = vec!["a".to_string(), "b".to_string(), "c".to_string()];
    let folded = reduce(String::from(">"), |mut acc: String, x: String| {
        acc.push_str(&x);
        acc
    }, xs);
    assert_eq!(folded, ">abc");
}

#[test]
fn reduce_of_empty_sequence_is_the_initial_value() {
    let xs: Vec<i32> = Vec::new();
    assert_eq!(reduce(7i32, |a: i32, x: i32| a + x, xs), 7);
}

#[test]
fn reduce_is_not_a_right_fold() {
    let xs = vec![8i64, 2, 2];
    let folded = reduce(1024i64, |a: i64, x: i64| a / x, xs);
    assert_eq!(folded, 1024 / 8 / 2 / 2);
    assert_eq!(folded, 32);
}

#[test]
fn combinators_serve_as_call_node_functions() {
    let tree = (
        |v: Vec<u64>| reduce(0u64, |a: u64, x: u64| a + x, v),
        Box::new(vec![1u64, 2, 3]),
    );
    assert_eq!(lisp::eval(tree), 6);
}
