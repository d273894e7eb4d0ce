//! Complex numbers over a generic scalar.
//!
//! [`Complex`] pairs a real and an imaginary component of one scalar type and
//! carries the usual algebra: negation, conjugate, the four operations between
//! complex numbers and between a complex number and a scalar, the compound
//! assignments and the reciprocal. Every operation asks of the scalar only the
//! operators it uses, and is specified by the scalar's own operator
//! specifications, so that for an integer scalar each result is known exactly
//! wherever nothing overflows.
//!
//! On top of the algebra stand
//! - the text form of a complex number ([`notation`]);
//! - polar form, exponential, logarithm and powers ([`polar`]), the square and
//!   the cube root ([`roots`]), and the trigonometric and hyperbolic functions
//!   ([`trig`]);
//! - the complex functions of a real argument ([`of_real`]);
//! - the closed-form solvers of the quadratic and the cubic equation
//!   ([`quadratic`], [`cubic`]).
//!
//! What no operator can compute, a root or a sine, comes from the elementary
//! functions that a second type supplies for the scalar
//! ([`elementary::Elementary`]). They may round as they like: every function
//! built on them is specified by a relation between its argument, its result
//! and what they return.
//!
//! The laws of the algebra are proved in [`laws`] for every scalar that
//! computes exactly ([`exact::ExactScalar`]): the signed machine integers do,
//! floating-point numbers do not.
pub mod arith;
pub mod compare;
pub mod complex;
pub mod cubic;
pub mod elementary;
pub mod exact;
pub mod laws;
pub mod mixed;
pub mod notation;
pub mod of_real;
pub mod polar;
pub mod quadratic;
pub mod roots;
pub mod scalar;
pub mod solve;
pub mod trig;

pub use complex::Complex;
pub use cubic::cubic;
pub use notation::Notation;
pub use quadratic::quad;
pub use solve::InvalidCoefficients;
