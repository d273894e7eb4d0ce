//! Complex functions of a real argument, and a complex constant.
use vstd::prelude::*;
use vstd::std_specs::convert::FromSpec;
use vstd::std_specs::ops::DivSpec;
use vstd::std_specs::ops::MulSpec;
use vstd::std_specs::ops::NegSpec;
use crate::compare::comparisons_obey;
use crate::compare::is_at_least;
use crate::complex::Complex;
use crate::elementary::Elementary;
use crate::roots::half_spec;
use crate::scalar::arithmetic_obeys;
use crate::scalar::Scalar;

verus! {

/// Euler's formula: the point `cos(theta) + i*sin(theta)` on the unit circle.
pub fn cis<T: Scalar, E: Elementary<T>>(theta: T) -> (z: Complex<T>)
    ensures
        Complex::cis_is::<E>(theta, z),
{
    Complex::cis::<E>(theta)
}

/// Whether the function of `x` and `-x` below can be applied to `x`: the
/// comparisons obey their specifications, and `x` can be negated if it is
/// below zero.
pub open spec fn mirrored_req<T: Scalar>(x: T) -> bool {
    &&& comparisons_obey::<T>()
    &&& T::obeys_neg_spec()
    &&& is_at_least(x, T::from_spec(0i8)) || x.neg_req()
}

/// Whether `z` is the principal complex logarithm of the real scalar `x`:
/// `(ln(x), 0)` if `x` is at least zero, and `(ln(-x), pi)` if not.
pub open spec fn ln_is<T: Scalar, E: Elementary<T>>(x: T, z: Complex<T>) -> bool {
    if is_at_least(x, T::from_spec(0i8)) {
        call_ensures(E::ln, (x,), z.r) && z.i == T::from_spec(0i8)
    } else {
        call_ensures(E::ln, (x.neg_spec(),), z.r) && call_ensures(E::pi, (), z.i)
    }
}

/// The principal complex logarithm of any real scalar: for a negative one
/// the imaginary part is pi.
pub fn ln<T: Scalar, E: Elementary<T>>(x: T) -> (z: Complex<T>)
    requires
        mirrored_req(x),
    ensures
        ln_is::<T, E>(x, z),
{
    let zero = T::from(0i8);
    if x >= zero {
        Complex::new(E::ln(x), zero)
    } else {
        Complex::new(E::ln(x.neg()), E::pi())
    }
}

/// Whether `z` is the principal complex square root of the real scalar `x`:
/// `(sqrt(x), 0)` if `x` is at least zero, and `(0, sqrt(-x))` if not.
pub open spec fn sqrt_is<T: Scalar, E: Elementary<T>>(x: T, z: Complex<T>) -> bool {
    if is_at_least(x, T::from_spec(0i8)) {
        call_ensures(E::sqrt, (x,), z.r) && z.i == T::from_spec(0i8)
    } else {
        z.r == T::from_spec(0i8) && call_ensures(E::sqrt, (x.neg_spec(),), z.i)
    }
}

/// The principal complex square root of any real scalar: real for one that
/// is at least zero, imaginary for a negative one.
pub fn sqrt<T: Scalar, E: Elementary<T>>(x: T) -> (z: Complex<T>)
    requires
        mirrored_req(x),
    ensures
        sqrt_is::<T, E>(x, z),
{
    let zero = T::from(0i8);
    if x >= zero {
        Complex::new(E::sqrt(x), zero)
    } else {
        Complex::new(zero, E::sqrt(x.neg()))
    }
}

/// Whether the cube root of one can be computed.
pub open spec fn cbrt_1_req<T: Scalar, E: Elementary<T>>() -> bool {
    &&& arithmetic_obeys::<T>()
    &&& T::from_spec(-1i8).div_req(T::from_spec(2i8))
    &&& T::from_spec(1i8).div_req(T::from_spec(2i8))
    &&& forall|rt: T| #[trigger]
        call_ensures(E::sqrt, (T::from_spec(3i8),), rt) ==> half_spec::<T>().mul_req(rt)
}

/// Whether `z` is the complex cube root of one with positive imaginary part:
/// `-1/2 + (1/2)*sqrt(3)*i`.
pub open spec fn cbrt_1_is<T: Scalar, E: Elementary<T>>(z: Complex<T>) -> bool {
    &&& z.r == T::from_spec(-1i8).div_spec(T::from_spec(2i8))
    &&& exists|rt: T| #[trigger]
        call_ensures(E::sqrt, (T::from_spec(3i8),), rt) && z.i == half_spec::<T>().mul_spec(rt)
}

/// The complex cube root of one with positive imaginary part, whose cube is
/// one: `-1/2 + sqrt(3)/2 * i`.
pub fn cbrt_1<T: Scalar, E: Elementary<T>>() -> (z: Complex<T>)
    requires
        cbrt_1_req::<T, E>(),
    ensures
        cbrt_1_is::<T, E>(z),
{
    let half = T::from(1i8) / T::from(2i8);
    assert(half == half_spec::<T>());
    Complex::new(T::from(-1i8) / T::from(2i8), half * E::sqrt(T::from(3i8)))
}

} // verus!
