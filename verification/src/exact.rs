//! Scalars that compute exactly.
//!
//! The algebraic laws of complex arithmetic hold of a scalar whose operators
//! make no rounding error. [`ExactScalar`] says what that means: every scalar
//! stands for one integer, and wherever an operator may be applied its result
//! stands for the true result. The signed machine integers wider than a byte
//! are such scalars: for them an operator may be applied exactly where the true
//! result fits the type.
use vstd::prelude::*;
use vstd::std_specs::convert::FromSpec;
use vstd::std_specs::ops::AddSpec;
use vstd::std_specs::ops::DivSpec;
use vstd::std_specs::ops::MulSpec;
use vstd::std_specs::ops::NegSpec;
use vstd::std_specs::ops::SubSpec;
use crate::compare::comparisons_obey;
use crate::compare::is_at_least;
use crate::compare::is_equal;
use crate::compare::is_less;
use crate::complex::Complex;
use crate::scalar::Scalar;

verus! {

/// A scalar whose comparisons, conversion from small integers, negation,
/// addition, subtraction and multiplication are exact, and whose division is
/// exact wherever it leaves no remainder.
pub trait ExactScalar: Scalar {
    /// The integer that the scalar stands for.
    spec fn value(self) -> int;

    /// The conversion and the operators return what their specifications name.
    proof fn lemma_operators_obey()
        ensures
            Self::obeys_from_spec(),
            Self::obeys_neg_spec(),
            Self::obeys_add_spec(),
            Self::obeys_sub_spec(),
            Self::obeys_mul_spec(),
            Self::obeys_div_spec(),
    ;

    /// The comparisons compare the integers that the scalars stand for.
    proof fn lemma_comparisons_are_exact(a: Self, b: Self)
        ensures
            comparisons_obey::<Self>(),
            is_equal(a, b) <==> a.value() == b.value(),
            is_less(a, b) <==> a.value() < b.value(),
            is_at_least(a, b) <==> a.value() >= b.value(),
    ;

    /// Two scalars that stand for the same integer are the same scalar.
    proof fn lemma_value_is_injective(a: Self, b: Self)
        requires
            a.value() == b.value(),
        ensures
            a == b,
    ;

    /// A small integer converts to the scalar that stands for it.
    proof fn lemma_from_is_exact(n: i8)
        ensures
            Self::from_spec(n).value() == n,
    ;

    /// Negation is exact.
    proof fn lemma_neg_is_exact(a: Self)
        requires
            a.neg_req(),
        ensures
            a.neg_spec().value() == -a.value(),
    ;

    /// Addition is exact.
    proof fn lemma_add_is_exact(a: Self, b: Self)
        requires
            a.add_req(b),
        ensures
            a.add_spec(b).value() == a.value() + b.value(),
    ;

    /// Subtraction is exact.
    proof fn lemma_sub_is_exact(a: Self, b: Self)
        requires
            a.sub_req(b),
        ensures
            a.sub_spec(b).value() == a.value() - b.value(),
    ;

    /// Multiplication is exact.
    proof fn lemma_mul_is_exact(a: Self, b: Self)
        requires
            a.mul_req(b),
        ensures
            a.mul_spec(b).value() == a.value() * b.value(),
    ;

    /// Division is exact where the dividend is a multiple of the divisor.
    proof fn lemma_div_is_exact(a: Self, b: Self, q: int)
        requires
            a.div_req(b),
            b.value() != 0,
            a.value() == q * b.value(),
        ensures
            a.div_spec(b).value() == q,
    ;
}

/// A multiple of a nonzero integer, divided by it, gives the factor back, and
/// the factor is no larger in magnitude than the multiple.
proof fn lemma_multiple_divides(n: int, q: int, d: int)
    requires
        d != 0,
        n == q * d,
    ensures
        n / d == q,
        (-n) / d == -q,
        n >= 0 ==> -n <= q <= n,
        n <= 0 ==> n <= q <= -n,
        n != 0 && q == -n ==> d == -1,
{
    assert(n != 0 && q == -n ==> d == -1) by (nonlinear_arith)
        requires
            n == q * d,
    ;
    assert((q * d) / d == q) by (nonlinear_arith)
        requires
            d != 0,
    ;
    assert(((-q) * d) / d == -q) by (nonlinear_arith)
        requires
            d != 0,
    ;
    assert(-n == (-q) * d) by (nonlinear_arith)
        requires
            n == q * d,
    ;
    assert(n >= 0 ==> -n <= q <= n) by (nonlinear_arith)
        requires
            d != 0,
            n == q * d,
    ;
    assert(n <= 0 ==> n <= q <= -n) by (nonlinear_arith)
        requires
            d != 0,
            n == q * d,
    ;
}

impl ExactScalar for i16 {
    open spec fn value(self) -> int {
        self as int
    }

    proof fn lemma_operators_obey() {
    }

    proof fn lemma_comparisons_are_exact(a: i16, b: i16) {
    }

    proof fn lemma_value_is_injective(a: i16, b: i16) {
    }

    proof fn lemma_from_is_exact(n: i8) {
    }

    proof fn lemma_neg_is_exact(a: i16) {
    }

    proof fn lemma_add_is_exact(a: i16, b: i16) {
    }

    proof fn lemma_sub_is_exact(a: i16, b: i16) {
    }

    proof fn lemma_mul_is_exact(a: i16, b: i16) {
    }

    proof fn lemma_div_is_exact(a: i16, b: i16, q: int) {
        lemma_multiple_divides(a as int, q, b as int);
        if a >= 0 {
            assert(a / b == q);
        } else {
            assert((-a) / (b as int) == -q);
        }
    }
}

impl ExactScalar for i32 {
    open spec fn value(self) -> int {
        self as int
    }

    proof fn lemma_operators_obey() {
    }

    proof fn lemma_comparisons_are_exact(a: i32, b: i32) {
    }

    proof fn lemma_value_is_injective(a: i32, b: i32) {
    }

    proof fn lemma_from_is_exact(n: i8) {
    }

    proof fn lemma_neg_is_exact(a: i32) {
    }

    proof fn lemma_add_is_exact(a: i32, b: i32) {
    }

    proof fn lemma_sub_is_exact(a: i32, b: i32) {
    }

    proof fn lemma_mul_is_exact(a: i32, b: i32) {
    }

    proof fn lemma_div_is_exact(a: i32, b: i32, q: int) {
        lemma_multiple_divides(a as int, q, b as int);
        if a >= 0 {
            assert(a / b == q);
        } else {
            assert((-a) / (b as int) == -q);
        }
    }
}

impl ExactScalar for i64 {
    open spec fn value(self) -> int {
        self as int
    }

    proof fn lemma_operators_obey() {
    }

    proof fn lemma_comparisons_are_exact(a: i64, b: i64) {
    }

    proof fn lemma_value_is_injective(a: i64, b: i64) {
    }

    proof fn lemma_from_is_exact(n: i8) {
    }

    proof fn lemma_neg_is_exact(a: i64) {
    }

    proof fn lemma_add_is_exact(a: i64, b: i64) {
    }

    proof fn lemma_sub_is_exact(a: i64, b: i64) {
    }

    proof fn lemma_mul_is_exact(a: i64, b: i64) {
    }

    proof fn lemma_div_is_exact(a: i64, b: i64, q: int) {
        lemma_multiple_divides(a as int, q, b as int);
        if a >= 0 {
            assert(a / b == q);
        } else {
            assert((-a) / (b as int) == -q);
        }
    }
}

impl ExactScalar for i128 {
    open spec fn value(self) -> int {
        self as int
    }

    proof fn lemma_operators_obey() {
    }

    proof fn lemma_comparisons_are_exact(a: i128, b: i128) {
    }

    proof fn lemma_value_is_injective(a: i128, b: i128) {
    }

    proof fn lemma_from_is_exact(n: i8) {
    }

    proof fn lemma_neg_is_exact(a: i128) {
    }

    proof fn lemma_add_is_exact(a: i128, b: i128) {
    }

    proof fn lemma_sub_is_exact(a: i128, b: i128) {
    }

    proof fn lemma_mul_is_exact(a: i128, b: i128) {
    }

    proof fn lemma_div_is_exact(a: i128, b: i128, q: int) {
        lemma_multiple_divides(a as int, q, b as int);
        if a >= 0 {
            assert(a / b == q);
        } else {
            assert((-a) / (b as int) == -q);
        }
    }
}

impl ExactScalar for isize {
    open spec fn value(self) -> int {
        self as int
    }

    proof fn lemma_operators_obey() {
    }

    proof fn lemma_comparisons_are_exact(a: isize, b: isize) {
    }

    proof fn lemma_value_is_injective(a: isize, b: isize) {
    }

    proof fn lemma_from_is_exact(n: i8) {
    }

    proof fn lemma_neg_is_exact(a: isize) {
    }

    proof fn lemma_add_is_exact(a: isize, b: isize) {
    }

    proof fn lemma_sub_is_exact(a: isize, b: isize) {
    }

    proof fn lemma_mul_is_exact(a: isize, b: isize) {
    }

    proof fn lemma_div_is_exact(a: isize, b: isize, q: int) {
        lemma_multiple_divides(a as int, q, b as int);
        if a >= 0 {
            assert(a / b == q);
        } else {
            assert((-a) / (b as int) == -q);
        }
    }
}

impl<T: ExactScalar> Complex<T> {
    /// The pair of integers that the two components stand for.
    pub open spec fn value(self) -> (int, int) {
        (self.r.value(), self.i.value())
    }

    /// Two complex numbers whose components stand for the same integers are
    /// the same complex number.
    pub proof fn lemma_value_is_injective(a: Complex<T>, b: Complex<T>)
        requires
            a.value() == b.value(),
        ensures
            a == b,
    {
        T::lemma_value_is_injective(a.r, b.r);
        T::lemma_value_is_injective(a.i, b.i);
    }
}

} // verus!
