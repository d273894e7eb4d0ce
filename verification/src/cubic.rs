//! The cubic equation by Cardano's method, with one step of Newton's method on
//! each root.
//!
//! The equation is brought to leading coefficient one and to its depressed
//! form `t^3 + p*t = q`. With `w` a cube root of `(q + sqrt(q^2 + 4/27*p^3)) / 2`
//! and `u` a primitive cube root of one, the three candidates `w`, `w*u` and
//! `w/u` each give a root `w - p/(3*w) - a_2/3`, which one Newton step then
//! polishes.
use vstd::prelude::*;
use vstd::std_specs::convert::FromSpec;
use vstd::std_specs::ops::AddSpec;
use vstd::std_specs::ops::DivSpec;
use vstd::std_specs::ops::MulSpec;
use vstd::std_specs::ops::SubSpec;
use crate::compare::comparisons_obey;
use crate::compare::equals_small;
use crate::compare::is_less;
use crate::complex::Complex;
use crate::elementary::Elementary;
use crate::of_real::cbrt_1;
use crate::of_real::cbrt_1_is;
use crate::of_real::cbrt_1_req;
use crate::of_real::mirrored_req;
use crate::of_real::sqrt;
use crate::of_real::sqrt_is;
use crate::scalar::arithmetic_obeys;
use crate::scalar::Scalar;
use crate::solve::validate;
use crate::solve::verdict;
use crate::solve::InvalidCoefficients;

verus! {

/// The cubic `x^3 + a_2*x^2 + a_1*x + a_0` together with the coefficients of
/// its depressed form `t^3 + p*t = q`, where `x = t - a_2/3`.
#[derive(Copy, Debug, PartialEq)]
pub struct Depressed<T: Copy> {
    /// The coefficient of `x^2`.
    pub a_2: T,
    /// The coefficient of `x`.
    pub a_1: T,
    /// The constant term.
    pub a_0: T,
    /// The coefficient of `t` in the depressed form.
    pub p: T,
    /// The right-hand side of the depressed form.
    pub q: T,
}

impl<T: Copy> Clone for Depressed<T> {
    fn clone(&self) -> (cubic: Depressed<T>)
        ensures
            cubic == *self,
    {
        *self
    }
}

/// Whether `a*x^3 + b*x^2 + c*x + d` can be depressed.
pub open spec fn depress_req<T: Scalar>(a: T, b: T, c: T, d: T) -> bool {
    let a_2 = b.div_spec(a);
    let a_1 = c.div_spec(a);
    let a_0 = d.div_spec(a);
    let square = a_2.mul_spec(a_2);
    let left = T::from_spec(9i8).mul_spec(a_1);
    let right = T::from_spec(2i8).mul_spec(a_2);
    let difference = left.mul_spec(a_2).sub_spec(right.mul_spec(a_2).mul_spec(a_2));
    &&& arithmetic_obeys::<T>()
    &&& b.div_req(a)
    &&& c.div_req(a)
    &&& d.div_req(a)
    &&& a_2.mul_req(a_2)
    &&& square.div_req(T::from_spec(3i8))
    &&& a_1.sub_req(square.div_spec(T::from_spec(3i8)))
    &&& T::from_spec(9i8).mul_req(a_1)
    &&& left.mul_req(a_2)
    &&& T::from_spec(2i8).mul_req(a_2)
    &&& right.mul_req(a_2)
    &&& right.mul_spec(a_2).mul_req(a_2)
    &&& left.mul_spec(a_2).sub_req(right.mul_spec(a_2).mul_spec(a_2))
    &&& difference.div_req(T::from_spec(27i8))
    &&& difference.div_spec(T::from_spec(27i8)).sub_req(a_0)
}

/// The cubic divided by its leading coefficient, with
/// `p = a_1 - a_2^2/3` and `q = (9*a_1*a_2 - 2*a_2^3)/27 - a_0`.
pub open spec fn depress_spec<T: Scalar>(a: T, b: T, c: T, d: T) -> Depressed<T> {
    let a_2 = b.div_spec(a);
    let a_1 = c.div_spec(a);
    let a_0 = d.div_spec(a);
    let left = T::from_spec(9i8).mul_spec(a_1);
    let right = T::from_spec(2i8).mul_spec(a_2);
    let difference = left.mul_spec(a_2).sub_spec(right.mul_spec(a_2).mul_spec(a_2));
    Depressed {
        a_2,
        a_1,
        a_0,
        p: a_1.sub_spec(a_2.mul_spec(a_2).div_spec(T::from_spec(3i8))),
        q: difference.div_spec(T::from_spec(27i8)).sub_spec(a_0),
    }
}

/// Divides `a*x^3 + b*x^2 + c*x + d` by its leading coefficient and computes
/// the coefficients of its depressed form.
pub fn depress<T: Scalar>(a: T, b: T, c: T, d: T) -> (cubic: Depressed<T>)
    requires
        depress_req(a, b, c, d),
    ensures
        cubic == depress_spec(a, b, c, d),
{
    let a_2 = b / a;
    let a_1 = c / a;
    let a_0 = d / a;
    let p = a_1 - (a_2 * a_2) / T::from(3i8);
    let q = (T::from(9i8) * a_1 * a_2 - T::from(2i8) * a_2 * a_2 * a_2) / T::from(27i8) - a_0;
    Depressed { a_2, a_1, a_0, p, q }
}

impl<T: Scalar> Depressed<T> {
    /// Whether the number under the square root can be computed.
    pub open spec fn radicand_req(self) -> bool {
        let factor = T::from_spec(4i8).div_spec(T::from_spec(27i8));
        &&& arithmetic_obeys::<T>()
        &&& self.q.mul_req(self.q)
        &&& T::from_spec(4i8).div_req(T::from_spec(27i8))
        &&& factor.mul_req(self.p)
        &&& factor.mul_spec(self.p).mul_req(self.p)
        &&& factor.mul_spec(self.p).mul_spec(self.p).mul_req(self.p)
        &&& self.q.mul_spec(self.q).add_req(
            factor.mul_spec(self.p).mul_spec(self.p).mul_spec(self.p),
        )
    }

    /// The number under the square root: `q^2 + 4/27*p^3`.
    pub open spec fn radicand_spec(self) -> T {
        let factor = T::from_spec(4i8).div_spec(T::from_spec(27i8));
        self.q.mul_spec(self.q).add_spec(factor.mul_spec(self.p).mul_spec(self.p).mul_spec(self.p))
    }

    /// Computes the number under the square root: `q^2 + 4/27*p^3`.
    pub fn radicand(&self) -> (x: T)
        requires
            self.radicand_req(),
        ensures
            x == self.radicand_spec(),
    {
        self.q * self.q + T::from(4i8) / T::from(27i8) * self.p * self.p * self.p
    }

    /// Whether the number under the cube root can be computed from a square
    /// root `s` of the radicand.
    pub open spec fn cardano_req(self, s: Complex<T>) -> bool {
        let half = T::from_spec(1i8).div_spec(T::from_spec(2i8));
        &&& arithmetic_obeys::<T>()
        &&& T::from_spec(1i8).div_req(T::from_spec(2i8))
        &&& Complex::scalar_add_req(self.q, s)
        &&& Complex::scalar_mul_req(half, Complex::scalar_add_spec(self.q, s))
    }

    /// The number under the cube root: `(q + s) / 2`, computed as the half
    /// times the sum.
    pub open spec fn cardano_spec(self, s: Complex<T>) -> Complex<T> {
        let half = T::from_spec(1i8).div_spec(T::from_spec(2i8));
        Complex::scalar_mul_spec(half, Complex::scalar_add_spec(self.q, s))
    }

    /// Computes the number under the cube root from a square root `s` of the
    /// radicand.
    pub fn cardano(&self, s: Complex<T>) -> (z: Complex<T>)
        requires
            self.cardano_req(s),
        ensures
            z == self.cardano_spec(s),
    {
        let half = T::from(1i8) / T::from(2i8);
        Complex::scalar_mul(half, Complex::scalar_add(self.q, s))
    }

    /// Whether the candidate `w` can be turned into a root.
    pub open spec fn restore_req(self, w: Complex<T>) -> bool {
        let third_p = self.p.div_spec(T::from_spec(3i8));
        let third_a = self.a_2.div_spec(T::from_spec(3i8));
        &&& arithmetic_obeys::<T>()
        &&& self.p.div_req(T::from_spec(3i8))
        &&& self.a_2.div_req(T::from_spec(3i8))
        &&& Complex::scalar_div_req(third_p, w)
        &&& w.sub_req(Complex::scalar_div_spec(third_p, w))
        &&& w.sub_spec(Complex::scalar_div_spec(third_p, w)).sub_req(third_a)
    }

    /// The root that the candidate `w` gives: `w - (p/3)/w - a_2/3`.
    pub open spec fn restore_spec(self, w: Complex<T>) -> Complex<T> {
        let third_p = self.p.div_spec(T::from_spec(3i8));
        let third_a = self.a_2.div_spec(T::from_spec(3i8));
        w.sub_spec(Complex::scalar_div_spec(third_p, w)).sub_spec(third_a)
    }

    /// Turns the candidate `w` into a root of the cubic:
    /// `w - (p/3)/w - a_2/3`.
    pub fn restore(&self, w: Complex<T>) -> (z: Complex<T>)
        requires
            self.restore_req(w),
        ensures
            z == self.restore_spec(w),
    {
        let third_p = self.p / T::from(3i8);
        let third_a = self.a_2 / T::from(3i8);
        w - Complex::scalar_div(third_p, w) - third_a
    }

    /// Whether the cubic can be evaluated at `z`.
    pub open spec fn value_at_req(self, z: Complex<T>) -> bool {
        let square = z.mul_spec(z);
        let cube = z.mul_spec(square);
        let second = Complex::scalar_mul_spec(self.a_2, square);
        let first = Complex::scalar_mul_spec(self.a_1, z);
        &&& arithmetic_obeys::<T>()
        &&& z.mul_req(z)
        &&& z.mul_req(square)
        &&& Complex::scalar_mul_req(self.a_2, square)
        &&& cube.add_req(second)
        &&& Complex::scalar_mul_req(self.a_1, z)
        &&& cube.add_spec(second).add_req(first)
        &&& cube.add_spec(second).add_spec(first).add_req(self.a_0)
    }

    /// The value `z^3 + a_2*z^2 + a_1*z + a_0` of the cubic at `z`.
    pub open spec fn value_at_spec(self, z: Complex<T>) -> Complex<T> {
        let square = z.mul_spec(z);
        z.mul_spec(square).add_spec(Complex::scalar_mul_spec(self.a_2, square)).add_spec(
            Complex::scalar_mul_spec(self.a_1, z),
        ).add_spec(self.a_0)
    }

    /// Evaluates the cubic at `z`: `z^3 + a_2*z^2 + a_1*z + a_0`.
    pub fn value_at(&self, z: Complex<T>) -> (f: Complex<T>)
        requires
            self.value_at_req(z),
        ensures
            f == self.value_at_spec(z),
    {
        let square = z * z;
        z * square + Complex::scalar_mul(self.a_2, square) + Complex::scalar_mul(self.a_1, z)
            + self.a_0
    }

    /// Whether the derivative of the cubic can be evaluated at `z`.
    pub open spec fn slope_at_req(self, z: Complex<T>) -> bool {
        let square = z.mul_spec(z);
        let second = Complex::scalar_mul_spec(T::from_spec(3i8), square);
        let first = Complex::scalar_mul_spec(T::from_spec(2i8).mul_spec(self.a_2), z);
        &&& arithmetic_obeys::<T>()
        &&& z.mul_req(z)
        &&& Complex::scalar_mul_req(T::from_spec(3i8), square)
        &&& T::from_spec(2i8).mul_req(self.a_2)
        &&& Complex::scalar_mul_req(T::from_spec(2i8).mul_spec(self.a_2), z)
        &&& second.add_req(first)
        &&& second.add_spec(first).add_req(self.a_1)
    }

    /// The value `3*z^2 + 2*a_2*z + a_1` of the derivative at `z`.
    pub open spec fn slope_at_spec(self, z: Complex<T>) -> Complex<T> {
        Complex::scalar_mul_spec(T::from_spec(3i8), z.mul_spec(z)).add_spec(
            Complex::scalar_mul_spec(T::from_spec(2i8).mul_spec(self.a_2), z),
        ).add_spec(self.a_1)
    }

    /// Evaluates the derivative of the cubic at `z`: `3*z^2 + 2*a_2*z + a_1`.
    pub fn slope_at(&self, z: Complex<T>) -> (slope: Complex<T>)
        requires
            self.slope_at_req(z),
        ensures
            slope == self.slope_at_spec(z),
    {
        let square = z * z;
        Complex::scalar_mul(T::from(3i8), square) + Complex::scalar_mul(
            T::from(2i8) * self.a_2,
            z,
        ) + self.a_1
    }
}

/// Whether the three candidates can be computed from the cube root `w` and
/// the cube root of one `u`.
pub open spec fn candidates_req<T: Scalar>(w: Complex<T>, u: Complex<T>) -> bool {
    arithmetic_obeys::<T>() && w.mul_req(u) && w.div_req(u)
}

/// The three candidates `w`, `w*u` and `w/u`.
pub open spec fn candidates_spec<T: Scalar>(w: Complex<T>, u: Complex<T>) -> Seq<Complex<T>> {
    seq![w, w.mul_spec(u), w.div_spec(u)]
}

/// The three cube roots that follow from one: `w`, `w*u` and `w/u`, where `u`
/// is a primitive cube root of one.
pub fn candidates<T: Scalar>(w: Complex<T>, u: Complex<T>) -> (all: [Complex<T>; 3])
    requires
        candidates_req(w, u),
    ensures
        all@ == candidates_spec(w, u),
{
    let all = [w, w * u, w / u];
    assert(all@ =~= candidates_spec(w, u));
    all
}

/// Whether the Newton step from `z` can be taken, where the cubic has the
/// value `f` and the slope `slope` at `z`.
pub open spec fn newton_req<T: Scalar>(z: Complex<T>, f: Complex<T>, slope: Complex<T>) -> bool {
    arithmetic_obeys::<T>() && f.div_req(slope) && z.sub_req(f.div_spec(slope))
}

/// The Newton step `z - f/slope`.
pub open spec fn newton_spec<T: Scalar>(z: Complex<T>, f: Complex<T>, slope: Complex<T>) -> Complex<
    T,
> {
    z.sub_spec(f.div_spec(slope))
}

/// Takes the Newton step from `z`, where the function has the value `f` and
/// the slope `slope`: `z - f/slope`.
pub fn newton<T: Scalar>(z: Complex<T>, f: Complex<T>, slope: Complex<T>) -> (next: Complex<T>)
    requires
        newton_req(z, f, slope),
    ensures
        next == newton_spec(z, f, slope),
{
    z - f / slope
}

impl<T: Scalar> Depressed<T> {
    /// Whether the root `z` can be polished: the cubic can be evaluated at
    /// `z`; if its value there is not of magnitude zero, so can the slope;
    /// and if the slope is not of magnitude zero either, the Newton step can
    /// be taken and the cubic be evaluated at its end.
    pub open spec fn polish_req<E: Elementary<T>>(self, z: Complex<T>) -> bool {
        let f = self.value_at_spec(z);
        let slope = self.slope_at_spec(z);
        let next = newton_spec(z, f, slope);
        &&& comparisons_obey::<T>()
        &&& arithmetic_obeys::<T>()
        &&& self.value_at_req(z)
        &&& forall|size: T| #[trigger]
            f.abs_is::<E>(size) && !equals_small(size, 0i8) ==> {
                &&& self.slope_at_req(z)
                &&& forall|steep: T| #[trigger]
                    slope.abs_is::<E>(steep) && !equals_small(steep, 0i8) ==> {
                        &&& newton_req(z, f, slope)
                        &&& self.value_at_req(next)
                    }
            }
    }

    /// Which of the root `z` and the end of its Newton step is kept, where
    /// `size`, `steep` and `size_next` are the magnitudes of the cubic's value
    /// at `z`, of its slope at `z`, and of its value at the end of the step:
    /// `z` if the value or the slope at `z` is of magnitude zero, or if the
    /// value at `z` is smaller than the one at the end of the step; else that
    /// end.
    pub open spec fn kept(self, z: Complex<T>, size: T, steep: T, size_next: T) -> Complex<T> {
        if equals_small(size, 0i8) || equals_small(steep, 0i8) || is_less(size, size_next) {
            z
        } else {
            newton_spec(z, self.value_at_spec(z), self.slope_at_spec(z))
        }
    }

    /// Whether `out` is the root `z` polished. A magnitude that the rule in
    /// [`Self::kept`] does not come to ask for is not taken.
    pub open spec fn polish_is<E: Elementary<T>>(self, z: Complex<T>, out: Complex<T>) -> bool {
        let f = self.value_at_spec(z);
        let slope = self.slope_at_spec(z);
        let g = self.value_at_spec(newton_spec(z, f, slope));
        exists|size: T|
            {
                &&& #[trigger] f.abs_is::<E>(size)
                &&& if equals_small(size, 0i8) {
                    out == z
                } else {
                    exists|steep: T|
                        {
                            &&& #[trigger] slope.abs_is::<E>(steep)
                            &&& if equals_small(steep, 0i8) {
                                out == z
                            } else {
                                exists|size_next: T| #[trigger]
                                    g.abs_is::<E>(size_next) && out == self.kept(
                                        z,
                                        size,
                                        steep,
                                        size_next,
                                    )
                            }
                        }
                }
            }
    }

    /// Polishes the root `z` by one step of Newton's method.
    ///
    /// The root is returned as it is if the cubic's value at it, or else the
    /// cubic's slope at it, is of magnitude zero. Otherwise the step is taken,
    /// and of `z` and the end of the step the one with the smaller value is
    /// returned: the end of the step where the two are as large.
    pub fn polish<E: Elementary<T>>(&self, z: Complex<T>) -> (out: Complex<T>)
        requires
            self.polish_req::<E>(z),
        ensures
            self.polish_is::<E>(z, out),
    {
        let zero = T::from(0i8);
        let f = self.value_at(z);
        let size = f.abs::<E>();
        if size == zero {
            return z;
        }
        let slope = self.slope_at(z);
        let steep = slope.abs::<E>();
        if steep == zero {
            return z;
        }
        let next = newton(z, f, slope);
        let size_next = self.value_at(next).abs::<E>();
        if size < size_next {
            z
        } else {
            next
        }
    }

    /// Whether the three roots can be computed from the cube root `w`.
    pub open spec fn roots_req<E: Elementary<T>>(self, w: Complex<T>, u: Complex<T>) -> bool {
        &&& candidates_req(w, u)
        &&& forall|k: int|
            0 <= k < 3 ==> {
                &&& self.restore_req(#[trigger] candidates_spec(w, u)[k])
                &&& self.polish_req::<E>(self.restore_spec(candidates_spec(w, u)[k]))
            }
    }

    /// Whether `roots` are the three roots that the cube root `w` gives: the
    /// candidates `w`, `w*u` and `w/u`, each turned into a root and polished.
    pub open spec fn roots_are<E: Elementary<T>>(
        self,
        w: Complex<T>,
        u: Complex<T>,
        roots: Seq<Complex<T>>,
    ) -> bool {
        &&& roots.len() == 3
        &&& forall|k: int|
            0 <= k < 3 ==> self.polish_is::<E>(
                self.restore_spec(candidates_spec(w, u)[k]),
                #[trigger] roots[k],
            )
    }

    /// Computes the three roots from the cube root `w` and a primitive cube
    /// root of one `u`.
    pub fn roots<E: Elementary<T>>(&self, w: Complex<T>, u: Complex<T>) -> (roots: [Complex<T>; 3])
        requires
            self.roots_req::<E>(w, u),
        ensures
            self.roots_are::<E>(w, u, roots@),
    {
        let mut roots = candidates(w, u);
        let mut k: usize = 0;
        while k < 3
            invariant
                k <= 3,
                self.roots_req::<E>(w, u),
                forall|j: int| k <= j < 3 ==> roots@[j] == candidates_spec(w, u)[j],
                forall|j: int|
                    0 <= j < k ==> self.polish_is::<E>(
                        self.restore_spec(candidates_spec(w, u)[j]),
                        #[trigger] roots@[j],
                    ),
            decreases 3 - k,
        {
            let z = self.restore(roots[k]);
            let out = self.polish::<E>(z);
            roots[k] = out;
            k += 1;
        }
        roots
    }
}

/// Whether [`cubic`] can run: the scalar obeys its specifications, and for
/// valid coefficients each step can be computed from whatever the step before
/// it gave.
pub open spec fn cubic_req<T: Scalar, E: Elementary<T>>(a: T, b: T, c: T, d: T) -> bool {
    let cubic = depress_spec(a, b, c, d);
    &&& comparisons_obey::<T>()
    &&& arithmetic_obeys::<T>()
    &&& verdict(seq![a, b, c, d]) is Ok ==> {
        &&& depress_req(a, b, c, d)
        &&& cubic.radicand_req()
        &&& mirrored_req(cubic.radicand_spec())
        &&& cbrt_1_req::<T, E>()
        &&& forall|s: Complex<T>| #[trigger]
            sqrt_is::<T, E>(cubic.radicand_spec(), s) ==> {
                &&& cubic.cardano_req(s)
                &&& cubic.cardano_spec(s).cbrt_req::<E>()
                &&& forall|w: Complex<T>, u: Complex<T>|
                    #![trigger cubic.cardano_spec(s).cbrt_is::<E>(w), cbrt_1_is::<T, E>(u)]
                    cubic.cardano_spec(s).cbrt_is::<E>(w) && cbrt_1_is::<T, E>(u)
                        ==> cubic.roots_req::<E>(w, u)
            }
    }
}

/// Whether `r` is what [`cubic`] returns: the reason why the coefficients are
/// invalid, or else the roots that [`Depressed::roots`] computes from a cube
/// root of the number that [`Depressed::cardano`] computes from a complex
/// square root of the radicand.
pub open spec fn cubic_is<T: Scalar, E: Elementary<T>>(
    a: T,
    b: T,
    c: T,
    d: T,
    r: Result<[Complex<T>; 3], InvalidCoefficients>,
) -> bool {
    match r {
        Ok(roots) => {
            &&& verdict(seq![a, b, c, d]) is Ok
            &&& exists|s: Complex<T>, w: Complex<T>, u: Complex<T>|
                #![trigger depress_spec(a, b, c, d).cardano_spec(s).cbrt_is::<E>(w), cbrt_1_is::<T, E>(u)]
                {
                    &&& sqrt_is::<T, E>(depress_spec(a, b, c, d).radicand_spec(), s)
                    &&& depress_spec(a, b, c, d).cardano_spec(s).cbrt_is::<E>(w)
                    &&& cbrt_1_is::<T, E>(u)
                    &&& depress_spec(a, b, c, d).roots_are::<E>(w, u, roots@)
                }
        },
        Err(e) => verdict(seq![a, b, c, d]) == Err::<(), InvalidCoefficients>(e),
    }
}

/// Solves `a*x^3 + b*x^2 + c*x + d = 0` over the complex numbers.
///
/// The coefficients are refused if one of them is not a number or if `a` is
/// zero. Otherwise the cubic is depressed, the complex square root of its
/// radicand and the cube root of what [`Depressed::cardano`] makes of it are
/// taken, and [`Depressed::roots`] computes the roots from that cube root and
/// the cube root of one.
pub fn cubic<T: Scalar, E: Elementary<T>>(a: T, b: T, c: T, d: T) -> (r: Result<
    [Complex<T>; 3],
    InvalidCoefficients,
>)
    requires
        cubic_req::<T, E>(a, b, c, d),
    ensures
        cubic_is::<T, E>(a, b, c, d, r),
{
    let coefficients = [a, b, c, d];
    assert(coefficients@ =~= seq![a, b, c, d]);
    match validate(coefficients.as_slice()) {
        Err(e) => Err(e),
        Ok(_) => {
            let cubic = depress(a, b, c, d);
            let s = sqrt::<T, E>(cubic.radicand());
            let w = cubic.cardano(s).cbrt::<E>();
            let u = cbrt_1::<T, E>();
            Ok(cubic.roots::<E>(w, u))
        },
    }
}

} // verus!
