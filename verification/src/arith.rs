//! Arithmetic helpers: add, subtract, multiply, divide, usable as the
//! function of a call node or on their own. They are generic over the
//! integer kinds through the `Arith` trait, which views each kind as a
//! mathematical integer; division truncates toward zero, as the
//! underlying kinds do.

use vstd::prelude::*;

verus! {

/// The quotient of `x / d` rounded toward zero, which is how the
/// integer kinds divide.
pub open spec fn trunc_div(x: int, d: int) -> int
    recommends
        d != 0,
{
    if x == 0 {
        0
    } else if x > 0 && d > 0 {
        x / d
    } else if x < 0 && d < 0 {
        (x * -1) / (d * -1)
    } else if x < 0 {
        ((x * -1) / d) * -1
    } else {
        (x / (d * -1)) * -1
    }
}

/// An integer kind seen as a range of mathematical integers, with the
/// four arithmetic operations exact on that view. Overflow is ruled
/// out by each operation's precondition rather than redefined.
pub trait Arith: Sized + Copy {
    /// The mathematical value of this number.
    spec fn val(self) -> int;

    /// Whether a mathematical integer is representable in this kind.
    spec fn fits(x: int) -> bool;

    fn add_val(self, b: Self) -> (c: Self)
        requires
            Self::fits(self.val() + b.val()),
        ensures
            c.val() == self.val() + b.val(),
    ;

    fn sub_val(self, b: Self) -> (c: Self)
        requires
            Self::fits(self.val() - b.val()),
        ensures
            c.val() == self.val() - b.val(),
    ;

    fn mul_val(self, b: Self) -> (c: Self)
        requires
            Self::fits(self.val() * b.val()),
        ensures
            c.val() == self.val() * b.val(),
    ;

    fn div_val(self, b: Self) -> (c: Self)
        requires
            b.val() != 0,
            Self::fits(trunc_div(self.val(), b.val())),
        ensures
            c.val() == trunc_div(self.val(), b.val()),
    ;
}

/// The sum of two numbers of one integer kind.
pub fn add<A: Arith>(a: A, b: A) -> (c: A)
    requires
        A::fits(a.val() + b.val()),
    ensures
        c.val() == a.val() + b.val(),
{
    a.add_val(b)
}

/// The difference of two numbers of one integer kind.
pub fn sub<A: Arith>(a: A, b: A) -> (c: A)
    requires
        A::fits(a.val() - b.val()),
    ensures
        c.val() == a.val() - b.val(),
{
    a.sub_val(b)
}

/// The product of two numbers of one integer kind.
pub fn mul<A: Arith>(a: A, b: A) -> (c: A)
    requires
        A::fits(a.val() * b.val()),
    ensures
        c.val() == a.val() * b.val(),
{
    a.mul_val(b)
}

/// The quotient, truncated toward zero, of two numbers of one integer
/// kind.
pub fn div<A: Arith>(a: A, b: A) -> (c: A)
    requires
        b.val() != 0,
        A::fits(trunc_div(a.val(), b.val())),
    ensures
        c.val() == trunc_div(a.val(), b.val()),
{
    a.div_val(b)
}

impl Arith for u8 {
    open spec fn val(self) -> int {
        self as int
    }

    open spec fn fits(x: int) -> bool {
        0 <= x <= u8::MAX
    }

    fn add_val(self, b: u8) -> (c: u8) {
        self + b
    }

    fn sub_val(self, b: u8) -> (c: u8) {
        self - b
    }

    fn mul_val(self, b: u8) -> (c: u8) {
        self * b
    }

    fn div_val(self, b: u8) -> (c: u8) {
        self / b
    }
}

impl Arith for i8 {
    open spec fn val(self) -> int {
        self as int
    }

    open spec fn fits(x: int) -> bool {
        i8::MIN <= x <= i8::MAX
    }

    fn add_val(self, b: i8) -> (c: i8) {
        self + b
    }

    fn sub_val(self, b: i8) -> (c: i8) {
        self - b
    }

    fn mul_val(self, b: i8) -> (c: i8) {
        self * b
    }

    fn div_val(self, b: i8) -> (c: i8) {
        match self.checked_div(b) {
            Some(c) => c,
            None => 0,
        }
    }
}

impl Arith for u16 {
    open spec fn val(self) -> int {
        self as int
    }

    open spec fn fits(x: int) -> bool {
        0 <= x <= u16::MAX
    }

    fn add_val(self, b: u16) -> (c: u16) {
        self + b
    }

    fn sub_val(self, b: u16) -> (c: u16) {
        self - b
    }

    fn mul_val(self, b: u16) -> (c: u16) {
        self * b
    }

    fn div_val(self, b: u16) -> (c: u16) {
        self / b
    }
}

impl Arith for u32 {
    open spec fn val(self) -> int {
        self as int
    }

    open spec fn fits(x: int) -> bool {
        0 <= x <= u32::MAX
    }

    fn add_val(self, b: u32) -> (c: u32) {
        self + b
    }

    fn sub_val(self, b: u32) -> (c: u32) {
        self - b
    }

    fn mul_val(self, b: u32) -> (c: u32) {
        self * b
    }

    fn div_val(self, b: u32) -> (c: u32) {
        self / b
    }
}

impl Arith for u64 {
    open spec fn val(self) -> int {
        self as int
    }

    open spec fn fits(x: int) -> bool {
        0 <= x <= u64::MAX
    }

    fn add_val(self, b: u64) -> (c: u64) {
        self + b
    }

    fn sub_val(self, b: u64) -> (c: u64) {
        self - b
    }

    fn mul_val(self, b: u64) -> (c: u64) {
        self * b
    }

    fn div_val(self, b: u64) -> (c: u64) {
        self / b
    }
}

impl Arith for u128 {
    open spec fn val(self) -> int {
        self as int
    }

    open spec fn fits(x: int) -> bool {
        0 <= x <= u128::MAX
    }

    fn add_val(self, b: u128) -> (c: u128) {
        self + b
    }

    fn sub_val(self, b: u128) -> (c: u128) {
        self - b
    }

    fn mul_val(self, b: u128) -> (c: u128) {
        self * b
    }

    fn div_val(self, b: u128) -> (c: u128) {
        self / b
    }
}

impl Arith for i16 {
    open spec fn val(self) -> int {
        self as int
    }

    open spec fn fits(x: int) -> bool {
        i16::MIN <= x <= i16::MAX
    }

    fn add_val(self, b: i16) -> (c: i16) {
        self + b
    }

    fn sub_val(self, b: i16) -> (c: i16) {
        self - b
    }

    fn mul_val(self, b: i16) -> (c: i16) {
        self * b
    }

    fn div_val(self, b: i16) -> (c: i16) {
        match self.checked_div(b) {
            Some(c) => c,
            None => 0,
        }
    }
}

impl Arith for i32 {
    open spec fn val(self) -> int {
        self as int
    }

    open spec fn fits(x: int) -> bool {
        i32::MIN <= x <= i32::MAX
    }

    fn add_val(self, b: i32) -> (c: i32) {
        self + b
    }

    fn sub_val(self, b: i32) -> (c: i32) {
        self - b
    }

    fn mul_val(self, b: i32) -> (c: i32) {
        self * b
    }

    fn div_val(self, b: i32) -> (c: i32) {
        match self.checked_div(b) {
            Some(c) => c,
            None => 0,
        }
    }
}

impl Arith for i64 {
    open spec fn val(self) -> int {
        self as int
    }

    open spec fn fits(x: int) -> bool {
        i64::MIN <= x <= i64::MAX
    }

    fn add_val(self, b: i64) -> (c: i64) {
        self + b
    }

    fn sub_val(self, b: i64) -> (c: i64) {
        self - b
    }

    fn mul_val(self, b: i64) -> (c: i64) {
        self * b
    }

    fn div_val(self, b: i64) -> (c: i64) {
        match self.checked_div(b) {
            Some(c) => c,
            None => 0,
        }
    }
}

impl Arith for i128 {
    open spec fn val(self) -> int {
        self as int
    }

    open spec fn fits(x: int) -> bool {
        i128::MIN <= x <= i128::MAX
    }

    fn add_val(self, b: i128) -> (c: i128) {
        self + b
    }

    fn sub_val(self, b: i128) -> (c: i128) {
        self - b
    }

    fn mul_val(self, b: i128) -> (c: i128) {
        self * b
    }

    fn div_val(self, b: i128) -> (c: i128) {
        match self.checked_div(b) {
            Some(c) => c,
            None => 0,
        }
    }
}

} // verus!
