//! The quadratic equation by the quadratic formula.
use vstd::prelude::*;
use vstd::std_specs::convert::FromSpec;
use vstd::std_specs::ops::AddSpec;
use vstd::std_specs::ops::DivSpec;
use vstd::std_specs::ops::MulSpec;
use vstd::std_specs::ops::NegSpec;
use vstd::std_specs::ops::SubSpec;
use crate::compare::comparisons_obey;
use crate::complex::Complex;
use crate::elementary::Elementary;
use crate::of_real::mirrored_req;
use crate::of_real::sqrt;
use crate::of_real::sqrt_is;
use crate::scalar::arithmetic_obeys;
use crate::scalar::Scalar;
use crate::solve::validate;
use crate::solve::verdict;
use crate::solve::InvalidCoefficients;

verus! {

/// Whether the discriminant of `a*x^2 + b*x + c` can be computed.
pub open spec fn discriminant_req<T: Scalar>(a: T, b: T, c: T) -> bool {
    &&& T::obeys_from_spec() && T::obeys_mul_spec()
    &&& b.mul_req(b)
    &&& T::from_spec(4i8).mul_req(a)
    &&& T::from_spec(4i8).mul_spec(a).mul_req(c)
    &&& b.mul_spec(b).sub_req(T::from_spec(4i8).mul_spec(a).mul_spec(c))
}

/// The discriminant `b*b - 4*a*c` of `a*x^2 + b*x + c`.
pub open spec fn discriminant_spec<T: Scalar>(a: T, b: T, c: T) -> T {
    b.mul_spec(b).sub_spec(T::from_spec(4i8).mul_spec(a).mul_spec(c))
}

/// Computes the discriminant `b*b - 4*a*c` of `a*x^2 + b*x + c`.
pub fn discriminant<T: Scalar>(a: T, b: T, c: T) -> (d: T)
    requires
        discriminant_req(a, b, c),
    ensures
        T::obeys_sub_spec() ==> d == discriminant_spec(a, b, c),
{
    b * b - T::from(4i8) * a * c
}

/// Whether the two roots can be computed from a square root `s` of the
/// discriminant.
pub open spec fn quad_roots_req<T: Scalar>(a: T, b: T, s: Complex<T>) -> bool {
    &&& arithmetic_obeys::<T>()
    &&& b.neg_req()
    &&& T::from_spec(2i8).mul_req(a)
    &&& Complex::scalar_add_req(b.neg_spec(), s)
    &&& Complex::scalar_sub_req(b.neg_spec(), s)
    &&& Complex::scalar_add_spec(b.neg_spec(), s).div_req(T::from_spec(2i8).mul_spec(a))
    &&& Complex::scalar_sub_spec(b.neg_spec(), s).div_req(T::from_spec(2i8).mul_spec(a))
}

/// The roots `(-b + s) / (2*a)` and `(-b - s) / (2*a)`.
pub open spec fn quad_roots_spec<T: Scalar>(a: T, b: T, s: Complex<T>) -> Seq<Complex<T>> {
    seq![
        Complex::scalar_add_spec(b.neg_spec(), s).div_spec(T::from_spec(2i8).mul_spec(a)),
        Complex::scalar_sub_spec(b.neg_spec(), s).div_spec(T::from_spec(2i8).mul_spec(a)),
    ]
}

/// The two roots of `a*x^2 + b*x + c`, given a square root `s` of its
/// discriminant: `(-b + s) / (2*a)` and `(-b - s) / (2*a)`.
pub fn quad_roots<T: Scalar>(a: T, b: T, s: Complex<T>) -> (roots: [Complex<T>; 2])
    requires
        quad_roots_req(a, b, s),
    ensures
        roots@ == quad_roots_spec(a, b, s),
{
    let minus_b = b.neg();
    let twice_a = T::from(2i8) * a;
    let roots = [Complex::scalar_add(minus_b, s) / twice_a, Complex::scalar_sub(minus_b, s) / twice_a];
    assert(roots@ =~= quad_roots_spec(a, b, s));
    roots
}

/// Whether [`quad`] can run: the scalar obeys its specifications, and for
/// valid coefficients the discriminant can be computed, its complex square
/// root can be taken, and the roots can be computed from whatever that gives.
pub open spec fn quad_req<T: Scalar, E: Elementary<T>>(a: T, b: T, c: T) -> bool {
    &&& comparisons_obey::<T>()
    &&& arithmetic_obeys::<T>()
    &&& verdict(seq![a, b, c]) is Ok ==> {
        &&& discriminant_req(a, b, c)
        &&& mirrored_req(discriminant_spec(a, b, c))
        &&& forall|s: Complex<T>| #[trigger]
            sqrt_is::<T, E>(discriminant_spec(a, b, c), s) ==> quad_roots_req(a, b, s)
    }
}

/// Whether `r` is what [`quad`] returns: the reason why the coefficients are
/// invalid, or else the roots that [`quad_roots`] computes from a complex
/// square root of the discriminant.
pub open spec fn quad_is<T: Scalar, E: Elementary<T>>(
    a: T,
    b: T,
    c: T,
    r: Result<[Complex<T>; 2], InvalidCoefficients>,
) -> bool {
    match r {
        Ok(roots) => {
            &&& verdict(seq![a, b, c]) is Ok
            &&& exists|s: Complex<T>| #[trigger]
                sqrt_is::<T, E>(discriminant_spec(a, b, c), s) && roots@ == quad_roots_spec(
                    a,
                    b,
                    s,
                )
        },
        Err(e) => verdict(seq![a, b, c]) == Err::<(), InvalidCoefficients>(e),
    }
}

/// Solves `a*x^2 + b*x + c = 0` over the complex numbers.
///
/// The coefficients are refused if one of them is not a number or if `a` is
/// zero. Otherwise the roots are `(-b + s) / (2*a)` and `(-b - s) / (2*a)`,
/// where `s` is the complex square root of the discriminant `b*b - 4*a*c`.
pub fn quad<T: Scalar, E: Elementary<T>>(a: T, b: T, c: T) -> (r: Result<
    [Complex<T>; 2],
    InvalidCoefficients,
>)
    requires
        quad_req::<T, E>(a, b, c),
    ensures
        quad_is::<T, E>(a, b, c, r),
{
    let coefficients = [a, b, c];
    assert(coefficients@ =~= seq![a, b, c]);
    match validate(coefficients.as_slice()) {
        Err(e) => Err(e),
        Ok(_) => {
            let s = sqrt::<T, E>(discriminant(a, b, c));
            Ok(quad_roots(a, b, s))
        },
    }
}

} // verus!
