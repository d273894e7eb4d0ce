//! Arithmetic between complex numbers: negation, the four operations and the
//! compound assignments.
//!
//! Each operator is specified by its three specification functions. The
//! precondition collects the preconditions of the scalar operations that the
//! formula performs, on the values that the scalar's specifications give to the
//! intermediate results; where a formula feeds one scalar result into another
//! operation, it also asks that the scalar obeys those specifications. Where
//! one scalar operation makes a component, the result is also stated for a
//! scalar that obeys none: the component is what the scalar's operator
//! returns.
use core::ops::Add;
use core::ops::AddAssign;
use core::ops::Div;
use core::ops::DivAssign;
use core::ops::Mul;
use core::ops::MulAssign;
use core::ops::Neg;
use core::ops::Sub;
use core::ops::SubAssign;
use vstd::prelude::*;
use vstd::std_specs::ops::AddSpec;
use vstd::std_specs::ops::DivSpec;
use vstd::std_specs::ops::MulSpec;
use vstd::std_specs::ops::NegSpec;
use vstd::std_specs::ops::SubSpec;
use crate::complex::Complex;

verus! {

impl<T: Copy + Add<Output = T> + Mul<Output = T>> Complex<T> {
    /// Whether the squared magnitude can be computed.
    pub open spec fn norm_sqr_req(self) -> bool {
        &&& self.r.mul_req(self.r)
        &&& self.i.mul_req(self.i)
        &&& self.r.mul_spec(self.r).add_req(self.i.mul_spec(self.i))
    }

    /// The squared magnitude `r*r + i*i`.
    pub open spec fn norm_sqr_spec(self) -> T {
        self.r.mul_spec(self.r).add_spec(self.i.mul_spec(self.i))
    }
}

impl<T: Copy + Neg<Output = T>> vstd::std_specs::ops::NegSpecImpl for Complex<T> {
    open spec fn obeys_neg_spec() -> bool {
        T::obeys_neg_spec()
    }

    open spec fn neg_req(self) -> bool {
        self.r.neg_req() && self.i.neg_req()
    }

    open spec fn neg_spec(self) -> Complex<T> {
        Complex { r: self.r.neg_spec(), i: self.i.neg_spec() }
    }
}

impl<T: Copy + Neg<Output = T>> Neg for Complex<T> {
    type Output = Complex<T>;

    /// `-z`: both components change sign. It may be applied where `neg_req`
    /// holds.
    fn neg(self) -> (z: Complex<T>)
        ensures
            call_ensures(T::neg, (self.r,), z.r),
            call_ensures(T::neg, (self.i,), z.i),
            T::obeys_neg_spec() ==> z == (Complex { r: self.r.neg_spec(), i: self.i.neg_spec() }),
    {
        Complex { r: self.r.neg(), i: self.i.neg() }
    }
}

impl<T: Copy + Add<Output = T>> vstd::std_specs::ops::AddSpecImpl for Complex<T> {
    open spec fn obeys_add_spec() -> bool {
        T::obeys_add_spec()
    }

    open spec fn add_req(self, rhs: Complex<T>) -> bool {
        self.r.add_req(rhs.r) && self.i.add_req(rhs.i)
    }

    open spec fn add_spec(self, rhs: Complex<T>) -> Complex<T> {
        Complex { r: self.r.add_spec(rhs.r), i: self.i.add_spec(rhs.i) }
    }
}

impl<T: Copy + Add<Output = T>> Add for Complex<T> {
    type Output = Complex<T>;

    /// `a + b`, component by component. It may be applied where `add_req`
    /// holds.
    fn add(self, rhs: Complex<T>) -> (z: Complex<T>)
        ensures
            call_ensures(T::add, (self.r, rhs.r), z.r),
            call_ensures(T::add, (self.i, rhs.i), z.i),
            T::obeys_add_spec() ==> z == (Complex {
                r: self.r.add_spec(rhs.r),
                i: self.i.add_spec(rhs.i),
            }),
    {
        Complex { r: self.r + rhs.r, i: self.i + rhs.i }
    }
}

impl<T: Copy + Sub<Output = T>> vstd::std_specs::ops::SubSpecImpl for Complex<T> {
    open spec fn obeys_sub_spec() -> bool {
        T::obeys_sub_spec()
    }

    open spec fn sub_req(self, rhs: Complex<T>) -> bool {
        self.r.sub_req(rhs.r) && self.i.sub_req(rhs.i)
    }

    open spec fn sub_spec(self, rhs: Complex<T>) -> Complex<T> {
        Complex { r: self.r.sub_spec(rhs.r), i: self.i.sub_spec(rhs.i) }
    }
}

impl<T: Copy + Sub<Output = T>> Sub for Complex<T> {
    type Output = Complex<T>;

    /// `a - b`, component by component. It may be applied where `sub_req`
    /// holds.
    fn sub(self, rhs: Complex<T>) -> (z: Complex<T>)
        ensures
            call_ensures(T::sub, (self.r, rhs.r), z.r),
            call_ensures(T::sub, (self.i, rhs.i), z.i),
            T::obeys_sub_spec() ==> z == (Complex {
                r: self.r.sub_spec(rhs.r),
                i: self.i.sub_spec(rhs.i),
            }),
    {
        Complex { r: self.r - rhs.r, i: self.i - rhs.i }
    }
}

impl<T: Copy + Add<Output = T> + Sub<Output = T> + Mul<Output = T>> vstd::std_specs::ops::MulSpecImpl for Complex<T> {
    open spec fn obeys_mul_spec() -> bool {
        T::obeys_add_spec() && T::obeys_sub_spec() && T::obeys_mul_spec()
    }

    open spec fn mul_req(self, rhs: Complex<T>) -> bool {
        &&& T::obeys_mul_spec()
        &&& self.r.mul_req(rhs.r)
        &&& self.i.mul_req(rhs.i)
        &&& self.r.mul_spec(rhs.r).sub_req(self.i.mul_spec(rhs.i))
        &&& self.r.mul_req(rhs.i)
        &&& self.i.mul_req(rhs.r)
        &&& self.r.mul_spec(rhs.i).add_req(self.i.mul_spec(rhs.r))
    }

    open spec fn mul_spec(self, rhs: Complex<T>) -> Complex<T> {
        Complex {
            r: self.r.mul_spec(rhs.r).sub_spec(self.i.mul_spec(rhs.i)),
            i: self.r.mul_spec(rhs.i).add_spec(self.i.mul_spec(rhs.r)),
        }
    }
}

impl<T: Copy + Add<Output = T> + Sub<Output = T> + Mul<Output = T>> Mul for Complex<T> {
    type Output = Complex<T>;

    /// `a * b`: the product `(a.r*b.r - a.i*b.i) + (a.r*b.i + a.i*b.r)*i`. It
    /// may be applied where `mul_req` holds.
    fn mul(self, rhs: Complex<T>) -> (z: Complex<T>)
        ensures
            T::obeys_add_spec() && T::obeys_sub_spec() && T::obeys_mul_spec() ==> z == (Complex {
                r: self.r.mul_spec(rhs.r).sub_spec(self.i.mul_spec(rhs.i)),
                i: self.r.mul_spec(rhs.i).add_spec(self.i.mul_spec(rhs.r)),
            }),
    {
        Complex {
            r: self.r * rhs.r - self.i * rhs.i,
            i: self.r * rhs.i + self.i * rhs.r,
        }
    }
}

impl<T: Copy + Add<Output = T> + Sub<Output = T> + Mul<Output = T> + Div<Output = T>> vstd::std_specs::ops::DivSpecImpl for Complex<T> {
    open spec fn obeys_div_spec() -> bool {
        T::obeys_add_spec() && T::obeys_sub_spec() && T::obeys_mul_spec() && T::obeys_div_spec()
    }

    open spec fn div_req(self, rhs: Complex<T>) -> bool {
        &&& T::obeys_add_spec() && T::obeys_sub_spec() && T::obeys_mul_spec()
        &&& rhs.norm_sqr_req()
        &&& self.r.mul_req(rhs.r)
        &&& self.i.mul_req(rhs.i)
        &&& self.r.mul_spec(rhs.r).add_req(self.i.mul_spec(rhs.i))
        &&& self.r.mul_spec(rhs.r).add_spec(self.i.mul_spec(rhs.i)).div_req(rhs.norm_sqr_spec())
        &&& self.i.mul_req(rhs.r)
        &&& self.r.mul_req(rhs.i)
        &&& self.i.mul_spec(rhs.r).sub_req(self.r.mul_spec(rhs.i))
        &&& self.i.mul_spec(rhs.r).sub_spec(self.r.mul_spec(rhs.i)).div_req(rhs.norm_sqr_spec())
    }

    open spec fn div_spec(self, rhs: Complex<T>) -> Complex<T> {
        Complex {
            r: self.r.mul_spec(rhs.r).add_spec(self.i.mul_spec(rhs.i)).div_spec(rhs.norm_sqr_spec()),
            i: self.i.mul_spec(rhs.r).sub_spec(self.r.mul_spec(rhs.i)).div_spec(rhs.norm_sqr_spec()),
        }
    }
}

impl<T: Copy + Add<Output = T> + Sub<Output = T> + Mul<Output = T> + Div<Output = T>> Div for Complex<T> {
    type Output = Complex<T>;

    /// `a / b` by the textbook formula: `a * conj(b)`, each component divided
    /// by the squared magnitude of `b`. What a zero divisor gives is the
    /// scalar's own affair: the precondition `div_req` passes the scalar's on.
    fn div(self, rhs: Complex<T>) -> (z: Complex<T>)
        ensures
            T::obeys_add_spec() && T::obeys_sub_spec() && T::obeys_mul_spec()
                && T::obeys_div_spec() ==> z == (Complex {
                r: self.r.mul_spec(rhs.r).add_spec(self.i.mul_spec(rhs.i)).div_spec(
                    rhs.norm_sqr_spec(),
                ),
                i: self.i.mul_spec(rhs.r).sub_spec(self.r.mul_spec(rhs.i)).div_spec(
                    rhs.norm_sqr_spec(),
                ),
            }),
    {
        let denom = rhs.r * rhs.r + rhs.i * rhs.i;
        Complex {
            r: (self.r * rhs.r + self.i * rhs.i) / denom,
            i: (self.i * rhs.r - self.r * rhs.i) / denom,
        }
    }
}

impl<T: Copy + Add<Output = T>> AddAssign for Complex<T> {
    /// `a += b` leaves `a + b` in `a`.
    fn add_assign(&mut self, rhs: Complex<T>)
        requires
            old(self).add_req(rhs),
        ensures
            call_ensures(T::add, (old(self).r, rhs.r), final(self).r),
            call_ensures(T::add, (old(self).i, rhs.i), final(self).i),
            T::obeys_add_spec() ==> *final(self) == old(self).add_spec(rhs),
    {
        *self = *self + rhs;
    }
}

impl<T: Copy + Sub<Output = T>> SubAssign for Complex<T> {
    /// `a -= b` leaves `a - b` in `a`.
    fn sub_assign(&mut self, rhs: Complex<T>)
        requires
            old(self).sub_req(rhs),
        ensures
            call_ensures(T::sub, (old(self).r, rhs.r), final(self).r),
            call_ensures(T::sub, (old(self).i, rhs.i), final(self).i),
            T::obeys_sub_spec() ==> *final(self) == old(self).sub_spec(rhs),
    {
        *self = *self - rhs;
    }
}

impl<T: Copy + Add<Output = T> + Sub<Output = T> + Mul<Output = T>> MulAssign for Complex<T> {
    /// `a *= b` leaves `a * b` in `a`.
    fn mul_assign(&mut self, rhs: Complex<T>)
        requires
            old(self).mul_req(rhs),
        ensures
            T::obeys_add_spec() && T::obeys_sub_spec() && T::obeys_mul_spec() ==> *final(self)
                == old(self).mul_spec(rhs),
    {
        *self = *self * rhs;
    }
}

impl<T: Copy + Add<Output = T> + Sub<Output = T> + Mul<Output = T> + Div<Output = T>> DivAssign for Complex<T> {
    /// `a /= b` leaves `a / b` in `a`.
    fn div_assign(&mut self, rhs: Complex<T>)
        requires
            old(self).div_req(rhs),
        ensures
            T::obeys_add_spec() && T::obeys_sub_spec() && T::obeys_mul_spec()
                && T::obeys_div_spec() ==> *final(self) == old(self).div_spec(rhs),
    {
        *self = *self / rhs;
    }
}

} // verus!
