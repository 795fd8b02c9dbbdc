//! The evaluation contract and the leaf node forms: identity evaluation
//! for the primitive value kinds, and unwrapping of owned boxes (which
//! also lifts a boxed callable through evaluation without invoking it).

use vstd::prelude::*;

verus! {

/// A node of a call tree. Evaluating a node consumes it and produces a
/// value of its declared result type.
///
/// `may_eval` says when the node may be evaluated, and `result_is`
/// relates the node to every value its evaluation may produce; `eval`
/// is bound by both.
pub trait Node: Sized {
    type Return;

    /// When this node may be evaluated.
    spec fn may_eval(self) -> bool;

    /// Holds of exactly the values that evaluating this node may return.
    spec fn result_is(self, r: Self::Return) -> bool;

    fn eval(self) -> (r: Self::Return)
        requires
            self.may_eval(),
        ensures
            self.result_is(r),
    ;
}

/// Evaluate a call tree from its root.
pub fn eval<N, R>(n: N) -> (r: R) where N: Node<Return = R>
    requires
        n.may_eval(),
    ensures
        n.result_is(r),
{
    n.eval()
}

/// Apply a callable to one argument.
pub fn run<F, A, R>(f: F, a: A) -> (r: R) where F: Fn(A) -> R
    requires
        call_requires(f, (a,)),
    ensures
        call_ensures(f, (a,), r),
{
    f(a)
}

impl Node for char {
    type Return = char;

    open spec fn may_eval(self) -> bool {
        true
    }

    open spec fn result_is(self, r: char) -> bool {
        r == self
    }

    fn eval(self) -> (r: char) {
        self
    }
}

impl Node for u64 {
    type Return = u64;

    open spec fn may_eval(self) -> bool {
        true
    }

    open spec fn result_is(self, r: u64) -> bool {
        r == self
    }

    fn eval(self) -> (r: u64) {
        self
    }
}

impl Node for i8 {
    type Return = i8;

    open spec fn may_eval(self) -> bool {
        true
    }

    open spec fn result_is(self, r: i8) -> bool {
        r == self
    }

    fn eval(self) -> (r: i8) {
        self
    }
}

impl Node for i16 {
    type Return = i16;

    open spec fn may_eval(self) -> bool {
        true
    }

    open spec fn result_is(self, r: i16) -> bool {
        r == self
    }

    fn eval(self) -> (r: i16) {
        self
    }
}

impl Node for i32 {
    type Return = i32;

    open spec fn may_eval(self) -> bool {
        true
    }

    open spec fn result_is(self, r: i32) -> bool {
        r == self
    }

    fn eval(self) -> (r: i32) {
        self
    }
}

impl Node for i64 {
    type Return = i64;

    open spec fn may_eval(self) -> bool {
        true
    }

    open spec fn result_is(self, r: i64) -> bool {
        r == self
    }

    fn eval(self) -> (r: i64) {
        self
    }
}

impl Node for i128 {
    type Return = i128;

    open spec fn may_eval(self) -> bool {
        true
    }

    open spec fn result_is(self, r: i128) -> bool {
        r == self
    }

    fn eval(self) -> (r: i128) {
        self
    }
}

impl Node for u8 {
    type Return = u8;

    open spec fn may_eval(self) -> bool {
        true
    }

    open spec fn result_is(self, r: u8) -> bool {
        r == self
    }

    fn eval(self) -> (r: u8) {
        self
    }
}

impl Node for u16 {
    type Return = u16;

    open spec fn may_eval(self) -> bool {
        true
    }

    open spec fn result_is(self, r: u16) -> bool {
        r == self
    }

    fn eval(self) -> (r: u16) {
        self
    }
}

impl Node for u32 {
    type Return = u32;

    open spec fn may_eval(self) -> bool {
        true
    }

    open spec fn result_is(self, r: u32) -> bool {
        r == self
    }

    fn eval(self) -> (r: u32) {
        self
    }
}

impl Node for u128 {
    type Return = u128;

    open spec fn may_eval(self) -> bool {
        true
    }

    open spec fn result_is(self, r: u128) -> bool {
        r == self
    }

    fn eval(self) -> (r: u128) {
        self
    }
}

impl Node for String {
    type Return = String;

    open spec fn may_eval(self) -> bool {
        true
    }

    open spec fn result_is(self, r: String) -> bool {
        r == self
    }

    fn eval(self) -> (r: String) {
        self
    }
}

/// An owned box evaluates to the contained value as stored: one layer of
/// indirection is removed and nothing inside is evaluated further. In
/// particular a boxed callable evaluates to the callable itself,
/// unchanged and never invoked, so it can pass through a call tree as an
/// ordinary value.
impl<T> Node for Box<T> {
    type Return = T;

    open spec fn may_eval(self) -> bool {
        true
    }

    open spec fn result_is(self, r: T) -> bool {
        r == *self
    }

    fn eval(self) -> (r: T) {
        *self
    }
}

/// Lift law: evaluating a boxed callable yields the callable itself.
/// Any value such an evaluation may return equals the wrapped
/// callable, so it behaves exactly as the wrapped one on every input;
/// evaluation only hands it on and never invokes it.
pub proof fn lemma_lift_callable<F, A, R>(b: Box<F>, e: F, a: A, r: R) where F: Fn(A) -> R
    requires
        b.result_is(e),
    ensures
        e == *b,
        call_ensures(e, (a,), r) == call_ensures(*b, (a,), r),
{
}

/// Unwrap law: evaluating an owned box yields exactly the stored
/// contained value, as stored, with no further evaluation step taken
/// on it.
pub proof fn lemma_unwrap_stored<T>(b: Box<T>, e: T)
    requires
        b.result_is(e),
    ensures
        e == *b,
{
}

} // verus!
