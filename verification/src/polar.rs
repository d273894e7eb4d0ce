//! Polar form, exponential, logarithm and powers.
//!
//! Each function is specified by a relation between its argument and its
//! result, over what the elementary functions return: they are free to round
//! as they like, and to return different values on different calls.
use vstd::prelude::*;
use vstd::std_specs::ops::DivSpec;
use vstd::std_specs::ops::MulSpec;
use crate::complex::Complex;
use crate::elementary::Elementary;
use crate::scalar::arithmetic_obeys;
use crate::scalar::Scalar;

verus! {

impl<T: Scalar> Complex<T> {
    /// Whether `m` is the absolute value: what `hypot` returns for the two
    /// components.
    pub open spec fn abs_is<E: Elementary<T>>(self, m: T) -> bool {
        call_ensures(E::hypot, (self.r, self.i), m)
    }

    /// The absolute value, also known as the modulus, magnitude or norm.
    pub fn abs<E: Elementary<T>>(self) -> (m: T)
        ensures
            self.abs_is::<E>(m),
    {
        E::hypot(self.r, self.i)
    }

    /// Whether the number can be divided by its absolute value.
    pub open spec fn sign_req<E: Elementary<T>>(self) -> bool {
        &&& T::obeys_div_spec()
        &&& forall|m: T| #[trigger] self.abs_is::<E>(m) ==> self.div_req(m)
    }

    /// Whether `z` is the number divided by its absolute value.
    pub open spec fn sign_is<E: Elementary<T>>(self, z: Complex<T>) -> bool {
        exists|m: T| #[trigger] self.abs_is::<E>(m) && z == self.div_spec(m)
    }

    /// The number of absolute value one in the same direction: the number
    /// divided by its absolute value.
    pub fn sign<E: Elementary<T>>(self) -> (z: Complex<T>)
        requires
            self.sign_req::<E>(),
        ensures
            self.sign_is::<E>(z),
    {
        self / self.abs::<E>()
    }

    /// Whether `a` is the phase angle: what `atan2` returns for the imaginary
    /// and the real component.
    pub open spec fn angle_is<E: Elementary<T>>(self, a: T) -> bool {
        call_ensures(E::atan2, (self.i, self.r), a)
    }

    /// The phase angle or argument, in radians from the real axis.
    pub fn angle<E: Elementary<T>>(self) -> (a: T)
        ensures
            self.angle_is::<E>(a),
    {
        E::atan2(self.i, self.r)
    }

    /// Whether `z` is the point on the unit circle at the angle `theta`: its
    /// components are the cosine and the sine of `theta`.
    pub open spec fn cis_is<E: Elementary<T>>(theta: T, z: Complex<T>) -> bool {
        call_ensures(E::cos, (theta,), z.r) && call_ensures(E::sin, (theta,), z.i)
    }

    /// Euler's formula: `cos(theta) + i*sin(theta)`.
    pub fn cis<E: Elementary<T>>(theta: T) -> (z: Complex<T>)
        ensures
            Self::cis_is::<E>(theta, z),
    {
        Complex::new(E::cos(theta), E::sin(theta))
    }

    /// Whether the exponential can be computed.
    pub open spec fn exp_req<E: Elementary<T>>(self) -> bool {
        &&& T::obeys_mul_spec()
        &&& forall|e: T, c: Complex<T>|
            #![trigger call_ensures(E::exp, (self.r,), e), Self::cis_is::<E>(self.i, c)]
            call_ensures(E::exp, (self.r,), e) && Self::cis_is::<E>(self.i, c)
                ==> Complex::scalar_mul_req(e, c)
    }

    /// Whether `z` is the exponential: the exponential of the real component
    /// times the point on the unit circle at the imaginary component.
    pub open spec fn exp_is<E: Elementary<T>>(self, z: Complex<T>) -> bool {
        exists|e: T, c: Complex<T>|
            #![trigger call_ensures(E::exp, (self.r,), e), Self::cis_is::<E>(self.i, c)]
            call_ensures(E::exp, (self.r,), e) && Self::cis_is::<E>(self.i, c) && z
                == Complex::scalar_mul_spec(e, c)
    }

    /// The exponential function: `exp(z.r) * cis(z.i)`.
    pub fn exp<E: Elementary<T>>(self) -> (z: Complex<T>)
        requires
            self.exp_req::<E>(),
        ensures
            self.exp_is::<E>(z),
    {
        let e = E::exp(self.r);
        Complex::scalar_mul(e, Self::cis::<E>(self.i))
    }

    /// Whether `z` is the principal natural logarithm: the logarithm of the
    /// absolute value, and the phase angle.
    pub open spec fn ln_is<E: Elementary<T>>(self, z: Complex<T>) -> bool {
        &&& exists|m: T| #[trigger] self.abs_is::<E>(m) && call_ensures(E::ln, (m,), z.r)
        &&& self.angle_is::<E>(z.i)
    }

    /// The principal natural logarithm: `(ln(abs(z)), angle(z))`.
    pub fn ln<E: Elementary<T>>(self) -> (z: Complex<T>)
        ensures
            self.ln_is::<E>(z),
    {
        Complex::new(E::ln(self.abs::<E>()), self.angle::<E>())
    }

    /// Whether the power with the scalar exponent `n` can be computed.
    pub open spec fn powf_req<E: Elementary<T>>(self, n: T) -> bool {
        &&& T::obeys_mul_spec()
        &&& forall|a: T| #[trigger]
            self.angle_is::<E>(a) ==> {
                &&& n.mul_req(a)
                &&& forall|m: T, p: T, c: Complex<T>|
                    #![trigger self.abs_is::<E>(m), call_ensures(E::powf, (m, n), p), Self::cis_is::<E>(n.mul_spec(a), c)]
                    self.abs_is::<E>(m) && call_ensures(E::powf, (m, n), p) && Self::cis_is::<E>(
                        n.mul_spec(a),
                        c,
                    ) ==> Complex::scalar_mul_req(p, c)
            }
    }

    /// Whether `z` is the power with the scalar exponent `n`: the absolute
    /// value raised to `n`, times the point on the unit circle at `n` times
    /// the phase angle.
    pub open spec fn powf_is<E: Elementary<T>>(self, n: T, z: Complex<T>) -> bool {
        exists|m: T, a: T, p: T, c: Complex<T>|
            #![trigger self.abs_is::<E>(m), call_ensures(E::powf, (m, n), p), Self::cis_is::<E>(n.mul_spec(a), c)]
            {
                &&& self.abs_is::<E>(m)
                &&& self.angle_is::<E>(a)
                &&& call_ensures(E::powf, (m, n), p)
                &&& Self::cis_is::<E>(n.mul_spec(a), c)
                &&& z == Complex::scalar_mul_spec(p, c)
            }
    }

    /// The power with a scalar exponent: `abs(z)^n * cis(n * angle(z))`.
    pub fn powf<E: Elementary<T>>(self, n: T) -> (z: Complex<T>)
        requires
            self.powf_req::<E>(n),
        ensures
            self.powf_is::<E>(n, z),
    {
        let r = E::powf(self.abs::<E>(), n);
        let theta = n * self.angle::<E>();
        Complex::scalar_mul(r, Self::cis::<E>(theta))
    }

    /// Whether the power with the complex exponent `n` can be computed.
    pub open spec fn powc_req<E: Elementary<T>>(self, n: Complex<T>) -> bool {
        &&& arithmetic_obeys::<T>()
        &&& forall|l: Complex<T>| #[trigger]
            self.ln_is::<E>(l) ==> n.mul_req(l) && n.mul_spec(l).exp_req::<E>()
    }

    /// Whether `z` is the power with the complex exponent `n`: the
    /// exponential of `n` times the logarithm.
    pub open spec fn powc_is<E: Elementary<T>>(self, n: Complex<T>, z: Complex<T>) -> bool {
        exists|l: Complex<T>| #[trigger] self.ln_is::<E>(l) && n.mul_spec(l).exp_is::<E>(z)
    }

    /// The power with a complex exponent: `exp(n * ln(z))`.
    pub fn powc<E: Elementary<T>>(self, n: Complex<T>) -> (z: Complex<T>)
        requires
            self.powc_req::<E>(n),
        ensures
            self.powc_is::<E>(n, z),
    {
        (n * self.ln::<E>()).exp::<E>()
    }
}

} // verus!
