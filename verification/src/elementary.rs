//! The elementary functions of a scalar.
//!
//! Roots, exponentials and the circular and hyperbolic functions are not
//! operators: a scalar type has them or has them not, and how they round is
//! its own affair. [`Elementary`] names the ones that complex arithmetic
//! calls. The library asks for them through a second type, so that they can
//! be supplied for a scalar type that is defined elsewhere, and specifies
//! each of its own functions over whatever they return.
use vstd::prelude::*;

verus! {

/// The elementary functions of the scalar `T`, as the type that implements
/// the trait supplies them.
pub trait Elementary<T> {
    /// The ratio of a circle's circumference to its diameter.
    fn pi() -> T;

    /// The absolute value of `x`.
    fn abs(x: T) -> T;

    /// The magnitude of `x` with the sign of `sign`.
    fn copysign(x: T, sign: T) -> T;

    /// The square root of `x`.
    fn sqrt(x: T) -> T;

    /// The cube root of `x`.
    fn cbrt(x: T) -> T;

    /// The length of the hypotenuse over the legs `x` and `y`, computed
    /// without undue overflow.
    fn hypot(x: T, y: T) -> T;

    /// The angle of the point `(x, y)` from the positive real axis, in
    /// `(-pi, pi]`.
    fn atan2(y: T, x: T) -> T;

    /// The exponential function of `x`.
    fn exp(x: T) -> T;

    /// The natural logarithm of `x`.
    fn ln(x: T) -> T;

    /// `x` raised to the power `n`.
    fn powf(x: T, n: T) -> T;

    /// The cosine of `x`.
    fn cos(x: T) -> T;

    /// The sine of `x`.
    fn sin(x: T) -> T;

    /// The tangent of `x`.
    fn tan(x: T) -> T;

    /// The hyperbolic cosine of `x`.
    fn cosh(x: T) -> T;

    /// The hyperbolic sine of `x`.
    fn sinh(x: T) -> T;

    /// The hyperbolic tangent of `x`.
    fn tanh(x: T) -> T;
}

} // verus!
