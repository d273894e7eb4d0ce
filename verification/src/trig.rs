//! The trigonometric and the hyperbolic functions.
//!
//! Cosine and sine, circular and hyperbolic, have components that are
//! products of two elementary functions, one of the real and one of the
//! imaginary component. The four tangents are quotients of two complex
//! numbers made of two elementary tangents. The secants and cosecants are
//! reciprocals.
use vstd::prelude::*;
use vstd::std_specs::convert::FromSpec;
use vstd::std_specs::ops::DivSpec;
use vstd::std_specs::ops::MulSpec;
use vstd::std_specs::ops::NegSpec;
use crate::complex::Complex;
use crate::elementary::Elementary;
use crate::scalar::arithmetic_obeys;
use crate::scalar::Scalar;

verus! {

/// Whether every product `f(x) * g(y)` can be computed.
pub open spec fn product_req<T: Scalar, F: Fn(T) -> T, G: Fn(T) -> T>(f: F, x: T, g: G, y: T) -> bool {
    forall|u: T, v: T|
        #![trigger call_ensures(f, (x,), u), call_ensures(g, (y,), v)]
        call_ensures(f, (x,), u) && call_ensures(g, (y,), v) ==> u.mul_req(v)
}

/// Whether `p` is a product `f(x) * g(y)`.
pub open spec fn product_is<T: Scalar, F: Fn(T) -> T, G: Fn(T) -> T>(
    f: F,
    x: T,
    g: G,
    y: T,
    p: T,
) -> bool {
    exists|u: T, v: T|
        #![trigger call_ensures(f, (x,), u), call_ensures(g, (y,), v)]
        call_ensures(f, (x,), u) && call_ensures(g, (y,), v) && p == u.mul_spec(v)
}

/// Whether every product `-f(x) * g(y)` can be computed.
pub open spec fn negated_product_req<T: Scalar, F: Fn(T) -> T, G: Fn(T) -> T>(
    f: F,
    x: T,
    g: G,
    y: T,
) -> bool {
    forall|u: T| #[trigger]
        call_ensures(f, (x,), u) ==> {
            &&& u.neg_req()
            &&& forall|v: T| #[trigger] call_ensures(g, (y,), v) ==> u.neg_spec().mul_req(v)
        }
}

/// Whether `p` is a product `-f(x) * g(y)`, the first factor negated.
pub open spec fn negated_product_is<T: Scalar, F: Fn(T) -> T, G: Fn(T) -> T>(
    f: F,
    x: T,
    g: G,
    y: T,
    p: T,
) -> bool {
    exists|u: T, v: T|
        #![trigger call_ensures(f, (x,), u), call_ensures(g, (y,), v)]
        call_ensures(f, (x,), u) && call_ensures(g, (y,), v) && p == u.neg_spec().mul_spec(v)
}

/// The numerator and the denominator of a tangent: `(t, u)` over
/// `(1, -t*u)` for the circular one, `(t, u)` over `(1, t*u)` for the
/// hyperbolic one.
pub open spec fn tangent_parts<T: Scalar>(t: T, u: T, circular: bool) -> (Complex<T>, Complex<T>) {
    let product = if circular {
        t.neg_spec().mul_spec(u)
    } else {
        t.mul_spec(u)
    };
    (Complex { r: t, i: u }, Complex { r: T::from_spec(1i8), i: product })
}

/// Whether the parts of a tangent can be computed and divided, the first by
/// the second for a tangent and the second by the first for a cotangent.
pub open spec fn tangent_req<T: Scalar>(t: T, u: T, circular: bool, inverted: bool) -> bool {
    let (num, dom) = tangent_parts(t, u, circular);
    &&& if circular {
        t.neg_req() && t.neg_spec().mul_req(u)
    } else {
        t.mul_req(u)
    }
    &&& if inverted {
        dom.div_req(num)
    } else {
        num.div_req(dom)
    }
}

/// The quotient of the parts of a tangent.
pub open spec fn tangent_spec<T: Scalar>(t: T, u: T, circular: bool, inverted: bool) -> Complex<T> {
    let (num, dom) = tangent_parts(t, u, circular);
    if inverted {
        dom.div_spec(num)
    } else {
        num.div_spec(dom)
    }
}

impl<T: Scalar> Complex<T> {
    /// Whether the cosine can be computed.
    pub open spec fn cos_req<E: Elementary<T>>(self) -> bool {
        &&& arithmetic_obeys::<T>()
        &&& product_req(E::cos, self.r, E::cosh, self.i)
        &&& negated_product_req(E::sin, self.r, E::sinh, self.i)
    }

    /// Whether `z` is the cosine: `(cos(x)*cosh(y), -sin(x)*sinh(y))`.
    pub open spec fn cos_is<E: Elementary<T>>(self, z: Complex<T>) -> bool {
        &&& product_is(E::cos, self.r, E::cosh, self.i, z.r)
        &&& negated_product_is(E::sin, self.r, E::sinh, self.i, z.i)
    }

    /// Cosine.
    pub fn cos<E: Elementary<T>>(self) -> (z: Complex<T>)
        requires
            self.cos_req::<E>(),
        ensures
            self.cos_is::<E>(z),
    {
        Complex::new(E::cos(self.r) * E::cosh(self.i), E::sin(self.r).neg() * E::sinh(self.i))
    }

    /// Whether the sine can be computed.
    pub open spec fn sin_req<E: Elementary<T>>(self) -> bool {
        &&& arithmetic_obeys::<T>()
        &&& product_req(E::sin, self.r, E::cosh, self.i)
        &&& product_req(E::cos, self.r, E::sinh, self.i)
    }

    /// Whether `z` is the sine: `(sin(x)*cosh(y), cos(x)*sinh(y))`.
    pub open spec fn sin_is<E: Elementary<T>>(self, z: Complex<T>) -> bool {
        &&& product_is(E::sin, self.r, E::cosh, self.i, z.r)
        &&& product_is(E::cos, self.r, E::sinh, self.i, z.i)
    }

    /// Sine.
    pub fn sin<E: Elementary<T>>(self) -> (z: Complex<T>)
        requires
            self.sin_req::<E>(),
        ensures
            self.sin_is::<E>(z),
    {
        Complex::new(E::sin(self.r) * E::cosh(self.i), E::cos(self.r) * E::sinh(self.i))
    }

    /// Whether the hyperbolic cosine can be computed.
    pub open spec fn cosh_req<E: Elementary<T>>(self) -> bool {
        &&& arithmetic_obeys::<T>()
        &&& product_req(E::cosh, self.r, E::cos, self.i)
        &&& product_req(E::sinh, self.r, E::sin, self.i)
    }

    /// Whether `z` is the hyperbolic cosine:
    /// `(cosh(x)*cos(y), sinh(x)*sin(y))`.
    pub open spec fn cosh_is<E: Elementary<T>>(self, z: Complex<T>) -> bool {
        &&& product_is(E::cosh, self.r, E::cos, self.i, z.r)
        &&& product_is(E::sinh, self.r, E::sin, self.i, z.i)
    }

    /// Hyperbolic cosine.
    pub fn cosh<E: Elementary<T>>(self) -> (z: Complex<T>)
        requires
            self.cosh_req::<E>(),
        ensures
            self.cosh_is::<E>(z),
    {
        Complex::new(E::cosh(self.r) * E::cos(self.i), E::sinh(self.r) * E::sin(self.i))
    }

    /// Whether the hyperbolic sine can be computed.
    pub open spec fn sinh_req<E: Elementary<T>>(self) -> bool {
        &&& arithmetic_obeys::<T>()
        &&& product_req(E::sinh, self.r, E::cos, self.i)
        &&& product_req(E::cosh, self.r, E::sin, self.i)
    }

    /// Whether `z` is the hyperbolic sine:
    /// `(sinh(x)*cos(y), cosh(x)*sin(y))`.
    pub open spec fn sinh_is<E: Elementary<T>>(self, z: Complex<T>) -> bool {
        &&& product_is(E::sinh, self.r, E::cos, self.i, z.r)
        &&& product_is(E::cosh, self.r, E::sin, self.i, z.i)
    }

    /// Hyperbolic sine.
    pub fn sinh<E: Elementary<T>>(self) -> (z: Complex<T>)
        requires
            self.sinh_req::<E>(),
        ensures
            self.sinh_is::<E>(z),
    {
        Complex::new(E::sinh(self.r) * E::cos(self.i), E::cosh(self.r) * E::sin(self.i))
    }

    /// Whether the tangent or, if `inverted`, the cotangent can be computed.
    pub open spec fn tan_req<E: Elementary<T>>(self, inverted: bool) -> bool {
        &&& arithmetic_obeys::<T>()
        &&& forall|t: T, u: T|
            #![trigger call_ensures(E::tan, (self.r,), t), call_ensures(E::tanh, (self.i,), u)]
            call_ensures(E::tan, (self.r,), t) && call_ensures(E::tanh, (self.i,), u)
                ==> tangent_req(t, u, true, inverted)
    }

    /// Whether `z` is the tangent, `(t, u) / (1, -t*u)` for `t = tan(x)` and
    /// `u = tanh(y)`, or, if `inverted`, the cotangent, `(1, -t*u) / (t, u)`.
    pub open spec fn tan_is<E: Elementary<T>>(self, inverted: bool, z: Complex<T>) -> bool {
        exists|t: T, u: T|
            #![trigger call_ensures(E::tan, (self.r,), t), call_ensures(E::tanh, (self.i,), u)]
            call_ensures(E::tan, (self.r,), t) && call_ensures(E::tanh, (self.i,), u) && z
                == tangent_spec(t, u, true, inverted)
    }

    /// Tangent.
    pub fn tan<E: Elementary<T>>(self) -> (z: Complex<T>)
        requires
            self.tan_req::<E>(false),
        ensures
            self.tan_is::<E>(false, z),
    {
        let t = E::tan(self.r);
        let u = E::tanh(self.i);
        let num = Complex::new(t, u);
        let dom = Complex::new(T::from(1i8), t.neg() * u);
        num / dom
    }

    /// Cotangent.
    pub fn cot<E: Elementary<T>>(self) -> (z: Complex<T>)
        requires
            self.tan_req::<E>(true),
        ensures
            self.tan_is::<E>(true, z),
    {
        let t = E::tan(self.r);
        let u = E::tanh(self.i);
        let num = Complex::new(T::from(1i8), t.neg() * u);
        let dom = Complex::new(t, u);
        num / dom
    }

    /// Whether the hyperbolic tangent or, if `inverted`, the hyperbolic
    /// cotangent can be computed.
    pub open spec fn tanh_req<E: Elementary<T>>(self, inverted: bool) -> bool {
        &&& arithmetic_obeys::<T>()
        &&& forall|t: T, u: T|
            #![trigger call_ensures(E::tanh, (self.r,), t), call_ensures(E::tan, (self.i,), u)]
            call_ensures(E::tanh, (self.r,), t) && call_ensures(E::tan, (self.i,), u)
                ==> tangent_req(t, u, false, inverted)
    }

    /// Whether `z` is the hyperbolic tangent, `(t, u) / (1, t*u)` for
    /// `t = tanh(x)` and `u = tan(y)`, or, if `inverted`, the hyperbolic
    /// cotangent, `(1, t*u) / (t, u)`.
    pub open spec fn tanh_is<E: Elementary<T>>(self, inverted: bool, z: Complex<T>) -> bool {
        exists|t: T, u: T|
            #![trigger call_ensures(E::tanh, (self.r,), t), call_ensures(E::tan, (self.i,), u)]
            call_ensures(E::tanh, (self.r,), t) && call_ensures(E::tan, (self.i,), u) && z
                == tangent_spec(t, u, false, inverted)
    }

    /// Hyperbolic tangent.
    pub fn tanh<E: Elementary<T>>(self) -> (z: Complex<T>)
        requires
            self.tanh_req::<E>(false),
        ensures
            self.tanh_is::<E>(false, z),
    {
        let t = E::tanh(self.r);
        let u = E::tan(self.i);
        let num = Complex::new(t, u);
        let dom = Complex::new(T::from(1i8), t * u);
        num / dom
    }

    /// Hyperbolic cotangent.
    pub fn coth<E: Elementary<T>>(self) -> (z: Complex<T>)
        requires
            self.tanh_req::<E>(true),
        ensures
            self.tanh_is::<E>(true, z),
    {
        let t = E::tanh(self.r);
        let u = E::tan(self.i);
        let num = Complex::new(T::from(1i8), t * u);
        let dom = Complex::new(t, u);
        num / dom
    }

    /// Secant: the reciprocal of the cosine.
    pub fn sec<E: Elementary<T>>(self) -> (z: Complex<T>)
        requires
            self.cos_req::<E>(),
            forall|c: Complex<T>| #[trigger] self.cos_is::<E>(c) ==> c.recip_req(),
        ensures
            exists|c: Complex<T>| #[trigger] self.cos_is::<E>(c) && z == c.recip_spec(),
    {
        self.cos::<E>().recip()
    }

    /// Cosecant: the reciprocal of the sine.
    pub fn csc<E: Elementary<T>>(self) -> (z: Complex<T>)
        requires
            self.sin_req::<E>(),
            forall|s: Complex<T>| #[trigger] self.sin_is::<E>(s) ==> s.recip_req(),
        ensures
            exists|s: Complex<T>| #[trigger] self.sin_is::<E>(s) && z == s.recip_spec(),
    {
        self.sin::<E>().recip()
    }

    /// Hyperbolic secant: the reciprocal of the hyperbolic cosine.
    pub fn sech<E: Elementary<T>>(self) -> (z: Complex<T>)
        requires
            self.cosh_req::<E>(),
            forall|c: Complex<T>| #[trigger] self.cosh_is::<E>(c) ==> c.recip_req(),
        ensures
            exists|c: Complex<T>| #[trigger] self.cosh_is::<E>(c) && z == c.recip_spec(),
    {
        self.cosh::<E>().recip()
    }

    /// Hyperbolic cosecant: the reciprocal of the hyperbolic sine.
    pub fn csch<E: Elementary<T>>(self) -> (z: Complex<T>)
        requires
            self.sinh_req::<E>(),
            forall|s: Complex<T>| #[trigger] self.sinh_is::<E>(s) ==> s.recip_req(),
        ensures
            exists|s: Complex<T>| #[trigger] self.sinh_is::<E>(s) && z == s.recip_spec(),
    {
        self.sinh::<E>().recip()
    }
}

} // verus!
