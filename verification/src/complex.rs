//! The value type, its constructors and its conversions.
use core::ops::Neg;
use vstd::prelude::*;
use vstd::std_specs::convert::FromSpec;
use vstd::std_specs::ops::NegSpec;

verus! {

/// A complex number `r + i*i` over the scalar `T`.
///
/// Any pair of scalars is a complex number: the type has no invariant.
#[derive(Copy, Debug, PartialEq)]
pub struct Complex<T: Copy> {
    /// The real component.
    pub r: T,
    /// The imaginary component.
    pub i: T,
}

impl<T: Copy> Clone for Complex<T> {
    fn clone(&self) -> (z: Complex<T>)
        ensures
            z == *self,
    {
        *self
    }
}

impl<T: Copy> Complex<T> {
    /// The complex number with real component `re` and imaginary component `im`.
    pub fn new(re: T, im: T) -> (z: Complex<T>)
        ensures
            z == (Complex { r: re, i: im }),
    {
        Complex { r: re, i: im }
    }
}

/// Whether `T::default()` can only ever return one value.
pub open spec fn default_is_unique<T: Default>() -> bool {
    forall|a: T, b: T| call_ensures(T::default, (), a) && call_ensures(T::default, (), b) ==> a == b
}

/// A value that `T::default()` returns, if it returns any.
pub open spec fn default_value<T: Default>() -> T {
    choose|z: T| call_ensures(T::default, (), z)
}

impl<T: Copy + Default> Default for Complex<T> {
    /// Both components are the scalar's default.
    fn default() -> (z: Complex<T>)
        ensures
            call_ensures(T::default, (), z.r),
            call_ensures(T::default, (), z.i),
    {
        Complex { r: T::default(), i: T::default() }
    }
}

impl<T: Copy + Default> vstd::std_specs::convert::FromSpecImpl<T> for Complex<T> {
    open spec fn obeys_from_spec() -> bool {
        default_is_unique::<T>()
    }

    open spec fn from_spec(v: T) -> Complex<T> {
        Complex { r: v, i: default_value::<T>() }
    }
}

impl<T: Copy + Default> From<T> for Complex<T> {
    /// The scalar as a complex number: the imaginary component is the scalar's
    /// default, which is zero for the number types.
    fn from(value: T) -> (z: Complex<T>)
        ensures
            z.r == value,
            call_ensures(T::default, (), z.i),
    {
        Complex { r: value, i: T::default() }
    }
}

impl<T: Copy> vstd::std_specs::convert::FromSpecImpl<(T, T)> for Complex<T> {
    open spec fn obeys_from_spec() -> bool {
        true
    }

    open spec fn from_spec(v: (T, T)) -> Complex<T> {
        Complex { r: v.0, i: v.1 }
    }
}

impl<T: Copy> From<(T, T)> for Complex<T> {
    /// The pair `(real, imaginary)` as a complex number.
    fn from(value: (T, T)) -> (z: Complex<T>)
        ensures
            z == (Complex { r: value.0, i: value.1 }),
    {
        let (re, im) = value;
        Complex { r: re, i: im }
    }
}

impl<T: Copy> vstd::std_specs::convert::FromSpecImpl<Complex<T>> for (T, T) {
    open spec fn obeys_from_spec() -> bool {
        true
    }

    open spec fn from_spec(v: Complex<T>) -> (T, T) {
        (v.r, v.i)
    }
}

impl<T: Copy> From<Complex<T>> for (T, T) {
    /// The complex number as the pair `(real, imaginary)`.
    fn from(value: Complex<T>) -> (pair: (T, T))
        ensures
            pair == (value.r, value.i),
    {
        (value.r, value.i)
    }
}

impl<T: Copy + From<i8>> Complex<T> {
    /// The imaginary unit as the scalar's conversion from small integers
    /// names it.
    pub open spec fn i_spec() -> Complex<T> {
        Complex { r: T::from_spec(0i8), i: T::from_spec(1i8) }
    }

    /// The imaginary unit `i`, the number `(0, 1)`, whose square is minus one.
    pub fn i() -> (z: Complex<T>)
        ensures
            call_ensures(T::from, (0i8,), z.r),
            call_ensures(T::from, (1i8,), z.i),
            T::obeys_from_spec() ==> z == Self::i_spec(),
    {
        Complex { r: T::from(0i8), i: T::from(1i8) }
    }
}

impl<T: Copy + Neg<Output = T>> Complex<T> {
    /// The conjugate as the scalar's negation specifies it.
    pub open spec fn conj_spec(self) -> Complex<T> {
        Complex { r: self.r, i: self.i.neg_spec() }
    }

    /// The complex conjugate: the imaginary component changes sign.
    pub fn conj(self) -> (z: Complex<T>)
        requires
            self.i.neg_req(),
        ensures
            z.r == self.r,
            call_ensures(T::neg, (self.i,), z.i),
            T::obeys_neg_spec() ==> z == self.conj_spec(),
    {
        Complex { r: self.r, i: self.i.neg() }
    }
}

} // verus!
