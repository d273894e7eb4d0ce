//! The principal square root and the principal cube root.
use vstd::prelude::*;
use vstd::std_specs::convert::FromSpec;
use vstd::std_specs::ops::AddSpec;
use vstd::std_specs::ops::DivSpec;
use vstd::std_specs::ops::MulSpec;
use vstd::std_specs::ops::NegSpec;
use vstd::std_specs::ops::SubSpec;
use crate::compare::comparisons_obey;
use crate::compare::equals_small;
use crate::compare::is_at_least;
use crate::complex::Complex;
use crate::elementary::Elementary;
use crate::scalar::arithmetic_obeys;
use crate::scalar::Scalar;

verus! {

/// The scalar one half, as the quotient of one and two.
pub open spec fn half_spec<T: Scalar>() -> T {
    T::from_spec(1i8).div_spec(T::from_spec(2i8))
}

impl<T: Scalar> Complex<T> {
    /// Whether the square root can be computed, branch by branch.
    pub open spec fn sqrt_req<E: Elementary<T>>(self) -> bool {
        let x = self.r;
        let y = self.i;
        &&& comparisons_obey::<T>()
        &&& arithmetic_obeys::<T>()
        &&& T::from_spec(1i8).div_req(T::from_spec(2i8))
        &&& if equals_small(y, 0i8) {
            is_at_least(x, T::from_spec(0i8)) || x.neg_req()
        } else {
            forall|m: T| #[trigger]
                self.abs_is::<E>(m) ==> {
                    &&& m.add_req(x)
                    &&& if !equals_small(m.add_spec(x), 0i8) {
                        forall|rt: T| #[trigger]
                            call_ensures(E::sqrt, (m.add_spec(x),), rt) ==> {
                                &&& y.div_req(rt)
                                &&& forall|scale: T| #[trigger]
                                    call_ensures(E::sqrt, (half_spec::<T>(),), scale) ==> (Complex {
                                        r: rt,
                                        i: y.div_spec(rt),
                                    }).mul_req(scale)
                            }
                    } else {
                        &&& x.neg_req()
                        &&& forall|size: T| #[trigger]
                            call_ensures(E::abs, (y,), size) ==> {
                                &&& half_spec::<T>().mul_req(size)
                                &&& forall|rt: T| #[trigger]
                                    call_ensures(E::sqrt, (x.neg_spec(),), rt)
                                        ==> half_spec::<T>().mul_spec(size).div_req(rt)
                            }
                    }
                }
        }
    }

    /// Whether `z` is the principal square root of `x + y*i`.
    ///
    /// - For `y` zero and `x` at least zero: `(sqrt(x), y)`.
    /// - For `y` zero and `x` below zero: `(0, sqrt(-x))`, the imaginary part
    ///   with the sign of `y`, so that the root is continuous up to the
    ///   negative real axis from either side.
    /// - Else, with `m` the absolute value: where `m + x` is not zero,
    ///   `(rt, y/rt) * sqrt(1/2)` for `rt = sqrt(m + x)`, which loses no
    ///   digits for `x` far below zero;
    /// - and where `m + x` is zero, `((1/2)*abs(y)/rt, rt)` for
    ///   `rt = sqrt(-x)`, the imaginary part with the sign of `y`.
    pub open spec fn sqrt_is<E: Elementary<T>>(self, z: Complex<T>) -> bool {
        let x = self.r;
        let y = self.i;
        if equals_small(y, 0i8) {
            if is_at_least(x, T::from_spec(0i8)) {
                call_ensures(E::sqrt, (x,), z.r) && z.i == y
            } else {
                &&& z.r == T::from_spec(0i8)
                &&& exists|rt: T| #[trigger]
                    call_ensures(E::sqrt, (x.neg_spec(),), rt) && call_ensures(
                        E::copysign,
                        (rt, y),
                        z.i,
                    )
            }
        } else {
            exists|m: T|
                {
                    &&& #[trigger] self.abs_is::<E>(m)
                    &&& if !equals_small(m.add_spec(x), 0i8) {
                        exists|rt: T, scale: T|
                            #![trigger call_ensures(E::sqrt, (m.add_spec(x),), rt), call_ensures(E::sqrt, (half_spec::<T>(),), scale)]
                            {
                                &&& call_ensures(E::sqrt, (m.add_spec(x),), rt)
                                &&& call_ensures(E::sqrt, (half_spec::<T>(),), scale)
                                &&& z == (Complex { r: rt, i: y.div_spec(rt) }).mul_spec(scale)
                            }
                    } else {
                        exists|rt: T, size: T|
                            #![trigger call_ensures(E::sqrt, (x.neg_spec(),), rt), call_ensures(E::abs, (y,), size)]
                            {
                                &&& call_ensures(E::sqrt, (x.neg_spec(),), rt)
                                &&& call_ensures(E::abs, (y,), size)
                                &&& z.r == half_spec::<T>().mul_spec(size).div_spec(rt)
                                &&& call_ensures(E::copysign, (rt, y), z.i)
                            }
                    }
                }
        }
    }

    /// The principal square root.
    pub fn sqrt<E: Elementary<T>>(self) -> (z: Complex<T>)
        requires
            self.sqrt_req::<E>(),
        ensures
            self.sqrt_is::<E>(z),
    {
        let zero = T::from(0i8);
        let half = T::from(1i8) / T::from(2i8);
        assert(half == half_spec::<T>());
        let x = self.r;
        let y = self.i;
        if y == zero {
            if x >= zero {
                Complex::new(E::sqrt(x), y)
            } else {
                Complex::new(zero, E::copysign(E::sqrt(x.neg()), y))
            }
        } else {
            let m = self.abs::<E>();
            let x_num = m + x;
            if x_num != zero {
                let rt = E::sqrt(x_num);
                Complex::new(rt, y / rt) * E::sqrt(half)
            } else {
                let rt = E::sqrt(x.neg());
                Complex::new(half * E::abs(y) / rt, E::copysign(rt, y))
            }
        }
    }

    /// Whether the step of Newton's method from the estimate to a cube root
    /// of `z` can be taken.
    pub open spec fn cbrt_step_req(self, z: Complex<T>) -> bool {
        let square = self.mul_spec(self);
        let slope = Complex::scalar_mul_spec(T::from_spec(3i8), square);
        let f = self.mul_spec(square).sub_spec(z);
        &&& arithmetic_obeys::<T>()
        &&& self.mul_req(self)
        &&& self.mul_req(square)
        &&& self.mul_spec(square).sub_req(z)
        &&& Complex::scalar_mul_req(T::from_spec(3i8), square)
        &&& f.div_req(slope)
        &&& self.sub_req(f.div_spec(slope))
    }

    /// The end of the step of Newton's method on `w^3 - z = 0` from the
    /// estimate `w`: `w - (w^3 - z) / (3*w^2)`.
    pub open spec fn cbrt_step_spec(self, z: Complex<T>) -> Complex<T> {
        let square = self.mul_spec(self);
        let slope = Complex::scalar_mul_spec(T::from_spec(3i8), square);
        let f = self.mul_spec(square).sub_spec(z);
        self.sub_spec(f.div_spec(slope))
    }

    /// Takes one step of Newton's method from the estimate `self` towards a
    /// cube root of `z`.
    pub fn cbrt_step(self, z: Complex<T>) -> (w: Complex<T>)
        requires
            self.cbrt_step_req(z),
        ensures
            w == self.cbrt_step_spec(z),
    {
        let square = self * self;
        self - (self * square - z) / Complex::scalar_mul(T::from(3i8), square)
    }

    /// Whether the cube root can be computed.
    pub open spec fn cbrt_req<E: Elementary<T>>(self) -> bool {
        &&& comparisons_obey::<T>()
        &&& arithmetic_obeys::<T>()
        &&& forall|m: T, r: T|
            #![trigger self.abs_is::<E>(m), call_ensures(E::cbrt, (m,), r)]
            self.abs_is::<E>(m) && call_ensures(E::cbrt, (m,), r) && !equals_small(r, 0i8)
                ==> forall|a: T| #[trigger]
                self.angle_is::<E>(a) ==> {
                    &&& a.div_req(T::from_spec(3i8))
                    &&& forall|c: Complex<T>| #[trigger]
                        Self::cis_is::<E>(a.div_spec(T::from_spec(3i8)), c) ==> {
                            &&& Complex::scalar_mul_req(r, c)
                            &&& Complex::scalar_mul_spec(r, c).cbrt_step_req(self)
                        }
                }
    }

    /// Whether `z` is the principal cube root: zero where the cube root of
    /// the absolute value is zero; else the estimate
    /// `cbrt(abs) * cis(angle / 3)`, improved by one step of Newton's method.
    pub open spec fn cbrt_is<E: Elementary<T>>(self, z: Complex<T>) -> bool {
        exists|m: T, r: T|
            #![trigger self.abs_is::<E>(m), call_ensures(E::cbrt, (m,), r)]
            {
                &&& self.abs_is::<E>(m)
                &&& call_ensures(E::cbrt, (m,), r)
                &&& if equals_small(r, 0i8) {
                    z == (Complex { r: T::from_spec(0i8), i: T::from_spec(0i8) })
                } else {
                    exists|a: T, c: Complex<T>|
                        #![trigger self.angle_is::<E>(a), Self::cis_is::<E>(a.div_spec(T::from_spec(3i8)), c)]
                        {
                            &&& self.angle_is::<E>(a)
                            &&& Self::cis_is::<E>(a.div_spec(T::from_spec(3i8)), c)
                            &&& z == Complex::scalar_mul_spec(r, c).cbrt_step_spec(self)
                        }
                }
            }
    }

    /// The principal cube root.
    pub fn cbrt<E: Elementary<T>>(self) -> (z: Complex<T>)
        requires
            self.cbrt_req::<E>(),
        ensures
            self.cbrt_is::<E>(z),
    {
        let zero = T::from(0i8);
        let r = E::cbrt(self.abs::<E>());
        if r == zero {
            return Complex::new(zero, zero);
        }
        let theta = self.angle::<E>() / T::from(3i8);
        let estimate = Complex::scalar_mul(r, Self::cis::<E>(theta));
        estimate.cbrt_step(self)
    }
}

} // verus!
