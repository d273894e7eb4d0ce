//! Arithmetic between a complex number and a scalar, in both operand orders,
//! and the reciprocal.
//!
//! With the complex number on the left the operators `+ - * /` apply. A scalar
//! on the left takes an associated function, because no operator can be given
//! to every scalar type at once.
use core::ops::Add;
use core::ops::Div;
use core::ops::Mul;
use core::ops::Neg;
use core::ops::Sub;
use vstd::prelude::*;
use vstd::std_specs::ops::AddSpec;
use vstd::std_specs::ops::DivSpec;
use vstd::std_specs::ops::MulSpec;
use vstd::std_specs::ops::NegSpec;
use vstd::std_specs::ops::SubSpec;
use crate::complex::Complex;

verus! {

impl<T: Copy + Add<Output = T>> vstd::std_specs::ops::AddSpecImpl<T> for Complex<T> {
    open spec fn obeys_add_spec() -> bool {
        T::obeys_add_spec()
    }

    open spec fn add_req(self, rhs: T) -> bool {
        self.r.add_req(rhs)
    }

    open spec fn add_spec(self, rhs: T) -> Complex<T> {
        Complex { r: self.r.add_spec(rhs), i: self.i }
    }
}

impl<T: Copy + Add<Output = T>> Add<T> for Complex<T> {
    type Output = Complex<T>;

    /// `z + x`: the scalar is added to the real component. It may be applied
    /// where `add_req` holds.
    fn add(self, rhs: T) -> (z: Complex<T>)
        ensures
            call_ensures(T::add, (self.r, rhs), z.r),
            z.i == self.i,
            T::obeys_add_spec() ==> z.r == self.r.add_spec(rhs),
    {
        Complex { r: self.r + rhs, i: self.i }
    }
}

impl<T: Copy + Sub<Output = T>> vstd::std_specs::ops::SubSpecImpl<T> for Complex<T> {
    open spec fn obeys_sub_spec() -> bool {
        T::obeys_sub_spec()
    }

    open spec fn sub_req(self, rhs: T) -> bool {
        self.r.sub_req(rhs)
    }

    open spec fn sub_spec(self, rhs: T) -> Complex<T> {
        Complex { r: self.r.sub_spec(rhs), i: self.i }
    }
}

impl<T: Copy + Sub<Output = T>> Sub<T> for Complex<T> {
    type Output = Complex<T>;

    /// `z - x`: the scalar is subtracted from the real component. It may be
    /// applied where `sub_req` holds.
    fn sub(self, rhs: T) -> (z: Complex<T>)
        ensures
            call_ensures(T::sub, (self.r, rhs), z.r),
            z.i == self.i,
            T::obeys_sub_spec() ==> z.r == self.r.sub_spec(rhs),
    {
        Complex { r: self.r - rhs, i: self.i }
    }
}

impl<T: Copy + Mul<Output = T>> vstd::std_specs::ops::MulSpecImpl<T> for Complex<T> {
    open spec fn obeys_mul_spec() -> bool {
        T::obeys_mul_spec()
    }

    open spec fn mul_req(self, rhs: T) -> bool {
        self.r.mul_req(rhs) && self.i.mul_req(rhs)
    }

    open spec fn mul_spec(self, rhs: T) -> Complex<T> {
        Complex { r: self.r.mul_spec(rhs), i: self.i.mul_spec(rhs) }
    }
}

impl<T: Copy + Mul<Output = T>> Mul<T> for Complex<T> {
    type Output = Complex<T>;

    /// `z * x`: both components are multiplied by the scalar. It may be
    /// applied where `mul_req` holds.
    fn mul(self, rhs: T) -> (z: Complex<T>)
        ensures
            call_ensures(T::mul, (self.r, rhs), z.r),
            call_ensures(T::mul, (self.i, rhs), z.i),
            T::obeys_mul_spec() ==> z == (Complex {
                r: self.r.mul_spec(rhs),
                i: self.i.mul_spec(rhs),
            }),
    {
        Complex { r: self.r * rhs, i: self.i * rhs }
    }
}

impl<T: Copy + Div<Output = T>> vstd::std_specs::ops::DivSpecImpl<T> for Complex<T> {
    open spec fn obeys_div_spec() -> bool {
        T::obeys_div_spec()
    }

    open spec fn div_req(self, rhs: T) -> bool {
        self.r.div_req(rhs) && self.i.div_req(rhs)
    }

    open spec fn div_spec(self, rhs: T) -> Complex<T> {
        Complex { r: self.r.div_spec(rhs), i: self.i.div_spec(rhs) }
    }
}

impl<T: Copy + Div<Output = T>> Div<T> for Complex<T> {
    type Output = Complex<T>;

    /// `z / x`: both components are divided by the scalar. It may be applied
    /// where `div_req` holds.
    fn div(self, rhs: T) -> (z: Complex<T>)
        ensures
            call_ensures(T::div, (self.r, rhs), z.r),
            call_ensures(T::div, (self.i, rhs), z.i),
            T::obeys_div_spec() ==> z == (Complex {
                r: self.r.div_spec(rhs),
                i: self.i.div_spec(rhs),
            }),
    {
        Complex { r: self.r / rhs, i: self.i / rhs }
    }
}

impl<T: Copy + Add<Output = T>> Complex<T> {
    /// Whether `lhs + rhs` can be computed for a scalar `lhs`.
    pub open spec fn scalar_add_req(lhs: T, rhs: Complex<T>) -> bool {
        lhs.add_req(rhs.r)
    }

    /// `lhs + rhs` for a scalar `lhs`.
    pub open spec fn scalar_add_spec(lhs: T, rhs: Complex<T>) -> Complex<T> {
        Complex { r: lhs.add_spec(rhs.r), i: rhs.i }
    }

    /// `lhs + rhs` for a scalar `lhs`: the scalar is added to the real
    /// component.
    pub fn scalar_add(lhs: T, rhs: Complex<T>) -> (z: Complex<T>)
        requires
            Self::scalar_add_req(lhs, rhs),
        ensures
            call_ensures(T::add, (lhs, rhs.r), z.r),
            z.i == rhs.i,
            T::obeys_add_spec() ==> z == Self::scalar_add_spec(lhs, rhs),
    {
        Complex { r: lhs + rhs.r, i: rhs.i }
    }
}

impl<T: Copy + Sub<Output = T> + Neg<Output = T>> Complex<T> {
    /// Whether `lhs - rhs` can be computed for a scalar `lhs`.
    pub open spec fn scalar_sub_req(lhs: T, rhs: Complex<T>) -> bool {
        lhs.sub_req(rhs.r) && rhs.i.neg_req()
    }

    /// `lhs - rhs` for a scalar `lhs`.
    pub open spec fn scalar_sub_spec(lhs: T, rhs: Complex<T>) -> Complex<T> {
        Complex { r: lhs.sub_spec(rhs.r), i: rhs.i.neg_spec() }
    }

    /// `lhs - rhs` for a scalar `lhs`: the real component is subtracted from
    /// the scalar and the imaginary component changes sign.
    pub fn scalar_sub(lhs: T, rhs: Complex<T>) -> (z: Complex<T>)
        requires
            Self::scalar_sub_req(lhs, rhs),
        ensures
            call_ensures(T::sub, (lhs, rhs.r), z.r),
            call_ensures(T::neg, (rhs.i,), z.i),
            T::obeys_sub_spec() && T::obeys_neg_spec() ==> z == Self::scalar_sub_spec(lhs, rhs),
    {
        Complex { r: lhs - rhs.r, i: rhs.i.neg() }
    }
}

impl<T: Copy + Mul<Output = T>> Complex<T> {
    /// Whether `lhs * rhs` can be computed for a scalar `lhs`.
    pub open spec fn scalar_mul_req(lhs: T, rhs: Complex<T>) -> bool {
        lhs.mul_req(rhs.r) && lhs.mul_req(rhs.i)
    }

    /// `lhs * rhs` for a scalar `lhs`.
    pub open spec fn scalar_mul_spec(lhs: T, rhs: Complex<T>) -> Complex<T> {
        Complex { r: lhs.mul_spec(rhs.r), i: lhs.mul_spec(rhs.i) }
    }

    /// `lhs * rhs` for a scalar `lhs`: both components are multiplied by the
    /// scalar, which stands on the left of each product.
    pub fn scalar_mul(lhs: T, rhs: Complex<T>) -> (z: Complex<T>)
        requires
            Self::scalar_mul_req(lhs, rhs),
        ensures
            call_ensures(T::mul, (lhs, rhs.r), z.r),
            call_ensures(T::mul, (lhs, rhs.i), z.i),
            T::obeys_mul_spec() ==> z == Self::scalar_mul_spec(lhs, rhs),
    {
        Complex { r: lhs * rhs.r, i: lhs * rhs.i }
    }
}

impl<T: Copy + Add<Output = T> + Mul<Output = T> + Div<Output = T> + Neg<Output = T>> Complex<T> {
    /// Whether `lhs / rhs` can be computed for a scalar `lhs`.
    pub open spec fn scalar_div_req(lhs: T, rhs: Complex<T>) -> bool {
        &&& T::obeys_add_spec() && T::obeys_mul_spec() && T::obeys_neg_spec()
        &&& rhs.norm_sqr_req()
        &&& lhs.mul_req(rhs.r)
        &&& lhs.mul_spec(rhs.r).div_req(rhs.norm_sqr_spec())
        &&& lhs.neg_req()
        &&& lhs.neg_spec().mul_req(rhs.i)
        &&& lhs.neg_spec().mul_spec(rhs.i).div_req(rhs.norm_sqr_spec())
    }

    /// `lhs / rhs` for a scalar `lhs`.
    pub open spec fn scalar_div_spec(lhs: T, rhs: Complex<T>) -> Complex<T> {
        Complex {
            r: lhs.mul_spec(rhs.r).div_spec(rhs.norm_sqr_spec()),
            i: lhs.neg_spec().mul_spec(rhs.i).div_spec(rhs.norm_sqr_spec()),
        }
    }

    /// `lhs / rhs` for a scalar `lhs`: the scalar times the conjugate of `rhs`,
    /// each component divided by the squared magnitude of `rhs`.
    pub fn scalar_div(lhs: T, rhs: Complex<T>) -> (z: Complex<T>)
        requires
            Self::scalar_div_req(lhs, rhs),
        ensures
            T::obeys_div_spec() ==> z == Self::scalar_div_spec(lhs, rhs),
    {
        let denom = rhs.r * rhs.r + rhs.i * rhs.i;
        Complex { r: lhs * rhs.r / denom, i: lhs.neg() * rhs.i / denom }
    }

    /// Whether the reciprocal can be computed.
    pub open spec fn recip_req(self) -> bool {
        &&& T::obeys_add_spec() && T::obeys_mul_spec() && T::obeys_neg_spec()
        &&& self.i.neg_req()
        &&& self.norm_sqr_req()
        &&& self.r.div_req(self.norm_sqr_spec())
        &&& self.i.neg_spec().div_req(self.norm_sqr_spec())
    }

    /// The reciprocal: the conjugate divided by the squared magnitude.
    pub open spec fn recip_spec(self) -> Complex<T> {
        Complex {
            r: self.r.div_spec(self.norm_sqr_spec()),
            i: self.i.neg_spec().div_spec(self.norm_sqr_spec()),
        }
    }

    /// The multiplicative inverse `1 / z` by the textbook formula.
    pub fn recip(self) -> (z: Complex<T>)
        requires
            self.recip_req(),
        ensures
            T::obeys_div_spec() ==> z == self.recip_spec(),
            T::obeys_div_spec() ==> z == self.conj_spec().div_spec(self.norm_sqr_spec()),
    {
        self.conj() / (self.r * self.r + self.i * self.i)
    }
}

} // verus!
