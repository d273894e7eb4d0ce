//! The full set of capabilities that a scalar can be asked for.
use core::ops::Add;
use core::ops::Div;
use core::ops::Mul;
use core::ops::Neg;
use core::ops::Sub;
use vstd::prelude::*;
use vstd::std_specs::convert::FromSpec;
use vstd::std_specs::ops::AddSpec;
use vstd::std_specs::ops::DivSpec;
use vstd::std_specs::ops::MulSpec;
use vstd::std_specs::ops::NegSpec;
use vstd::std_specs::ops::SubSpec;

verus! {

/// A scalar with everything the arithmetic of this library can ask for:
/// copies, comparisons, the conversion from small integers, negation and the
/// four operations. Every type that has them all is a `Scalar`.
pub trait Scalar: Copy + PartialOrd + From<i8> + Neg<Output = Self> + Add<Output = Self> + Sub<
    Output = Self,
> + Mul<Output = Self> + Div<Output = Self> {

}

impl<T: Copy + PartialOrd + From<i8> + Neg<Output = T> + Add<Output = T> + Sub<Output = T> + Mul<
    Output = T,
> + Div<Output = T>> Scalar for T {

}

/// Whether the scalar's conversion from small integers and its operators
/// return what their specifications name.
pub open spec fn arithmetic_obeys<T: Scalar>() -> bool {
    &&& T::obeys_from_spec()
    &&& T::obeys_neg_spec()
    &&& T::obeys_add_spec()
    &&& T::obeys_sub_spec()
    &&& T::obeys_mul_spec()
    &&& T::obeys_div_spec()
}

} // verus!
