//! The laws of complex arithmetic, and of the roots and solvers built on it,
//! over an exact scalar.
//!
//! Each law is stated over the specification functions of the operations it
//! names, for every operand on which they may be applied: for a machine
//! integer, wherever no intermediate result overflows.
use vstd::prelude::*;
use vstd::std_specs::convert::FromSpec;
use vstd::std_specs::ops::AddSpec;
use vstd::std_specs::ops::DivSpec;
use vstd::std_specs::ops::MulSpec;
use vstd::std_specs::ops::NegSpec;
use vstd::std_specs::ops::SubSpec;
use crate::compare::is_at_least;
use crate::complex::Complex;
use crate::cubic::newton_req;
use crate::cubic::newton_spec;
use crate::cubic::Depressed;
use crate::elementary::Elementary;
use crate::exact::ExactScalar;
use crate::quadratic::discriminant_req;
use crate::quadratic::discriminant_spec;
use crate::quadratic::quad_roots_req;
use crate::of_real::mirrored_req;
use crate::quadratic::quad_roots_spec;

verus! {

/// Converting a pair to a complex number and back gives the pair again, and
/// converting a complex number to a pair and back gives the number again.
pub proof fn law_pair_round_trip<T: Copy>(pair: (T, T), z: Complex<T>)
    ensures
        <(T, T) as FromSpec<Complex<T>>>::from_spec(<Complex<T> as FromSpec<(T, T)>>::from_spec(pair)) == pair,
        <Complex<T> as FromSpec<(T, T)>>::from_spec(<(T, T) as FromSpec<Complex<T>>>::from_spec(z)) == z,
{
}

/// Adding a complex number to itself doubles it: `a + a == 2 * a`.
pub proof fn law_add_self_doubles<T: ExactScalar>(a: Complex<T>)
    requires
        a.add_req(a),
        Complex::scalar_mul_req(T::from_spec(2i8), a),
    ensures
        a.add_spec(a) == Complex::scalar_mul_spec(T::from_spec(2i8), a),
{
    let two = T::from_spec(2i8);
    T::lemma_from_is_exact(2i8);
    T::lemma_add_is_exact(a.r, a.r);
    T::lemma_add_is_exact(a.i, a.i);
    T::lemma_mul_is_exact(two, a.r);
    T::lemma_mul_is_exact(two, a.i);
    Complex::lemma_value_is_injective(a.add_spec(a), Complex::scalar_mul_spec(two, a));
}

/// Subtracting a complex number from itself gives zero: `a - a == 0`.
pub proof fn law_sub_self_is_zero<T: ExactScalar>(a: Complex<T>)
    requires
        a.sub_req(a),
    ensures
        a.sub_spec(a) == (Complex { r: T::from_spec(0i8), i: T::from_spec(0i8) }),
{
    T::lemma_from_is_exact(0i8);
    T::lemma_sub_is_exact(a.r, a.r);
    T::lemma_sub_is_exact(a.i, a.i);
    Complex::lemma_value_is_injective(
        a.sub_spec(a),
        Complex { r: T::from_spec(0i8), i: T::from_spec(0i8) },
    );
}

/// The conjugate of the conjugate is the number itself: `conj(conj(a)) == a`.
pub proof fn law_conj_is_involution<T: ExactScalar>(a: Complex<T>)
    requires
        a.i.neg_req(),
        a.i.neg_spec().neg_req(),
    ensures
        a.conj_spec().conj_spec() == a,
{
    T::lemma_neg_is_exact(a.i);
    T::lemma_neg_is_exact(a.i.neg_spec());
    Complex::lemma_value_is_injective(a.conj_spec().conj_spec(), a);
}

/// A complex number times its conjugate is its squared magnitude, a real
/// number: `a * conj(a) == (a.r*a.r + a.i*a.i, 0)`.
pub proof fn law_mul_conj_is_norm_sqr<T: ExactScalar>(a: Complex<T>)
    requires
        a.i.neg_req(),
        a.mul_req(a.conj_spec()),
        a.norm_sqr_req(),
    ensures
        a.mul_spec(a.conj_spec()) == (Complex { r: a.norm_sqr_spec(), i: T::from_spec(0i8) }),
        a.norm_sqr_spec().value() == a.r.value() * a.r.value() + a.i.value() * a.i.value(),
{
    let x = a.r.value();
    let y = a.i.value();
    T::lemma_from_is_exact(0i8);
    T::lemma_neg_is_exact(a.i);
    lemma_product_value(a, a.conj_spec());
    lemma_norm_sqr_value(a);
    assert(x * x - y * (-y) == x * x + y * y) by (nonlinear_arith);
    assert(x * (-y) + y * x == 0) by (nonlinear_arith);
    Complex::lemma_value_is_injective(
        a.mul_spec(a.conj_spec()),
        Complex { r: a.norm_sqr_spec(), i: T::from_spec(0i8) },
    );
}

/// Addition is associative: `a + (b + c) == (a + b) + c`.
pub proof fn law_add_is_associative<T: ExactScalar>(a: Complex<T>, b: Complex<T>, c: Complex<T>)
    requires
        b.add_req(c),
        a.add_req(b.add_spec(c)),
        a.add_req(b),
        a.add_spec(b).add_req(c),
    ensures
        a.add_spec(b.add_spec(c)) == a.add_spec(b).add_spec(c),
{
    T::lemma_add_is_exact(b.r, c.r);
    T::lemma_add_is_exact(b.i, c.i);
    T::lemma_add_is_exact(a.r, b.r.add_spec(c.r));
    T::lemma_add_is_exact(a.i, b.i.add_spec(c.i));
    T::lemma_add_is_exact(a.r, b.r);
    T::lemma_add_is_exact(a.i, b.i);
    T::lemma_add_is_exact(a.r.add_spec(b.r), c.r);
    T::lemma_add_is_exact(a.i.add_spec(b.i), c.i);
    Complex::lemma_value_is_injective(a.add_spec(b.add_spec(c)), a.add_spec(b).add_spec(c));
}

/// The integers that a product stands for.
pub proof fn lemma_product_value<T: ExactScalar>(a: Complex<T>, b: Complex<T>)
    requires
        a.mul_req(b),
    ensures
        a.mul_spec(b).value() == (
            a.r.value() * b.r.value() - a.i.value() * b.i.value(),
            a.r.value() * b.i.value() + a.i.value() * b.r.value(),
        ),
{
    T::lemma_mul_is_exact(a.r, b.r);
    T::lemma_mul_is_exact(a.i, b.i);
    T::lemma_mul_is_exact(a.r, b.i);
    T::lemma_mul_is_exact(a.i, b.r);
    T::lemma_sub_is_exact(a.r.mul_spec(b.r), a.i.mul_spec(b.i));
    T::lemma_add_is_exact(a.r.mul_spec(b.i), a.i.mul_spec(b.r));
}

/// Multiplication is associative: `a * (b * c) == (a * b) * c`.
pub proof fn law_mul_is_associative<T: ExactScalar>(a: Complex<T>, b: Complex<T>, c: Complex<T>)
    requires
        b.mul_req(c),
        a.mul_req(b.mul_spec(c)),
        a.mul_req(b),
        a.mul_spec(b).mul_req(c),
    ensures
        a.mul_spec(b.mul_spec(c)) == a.mul_spec(b).mul_spec(c),
{
    lemma_product_value(b, c);
    lemma_product_value(a, b.mul_spec(c));
    lemma_product_value(a, b);
    lemma_product_value(a.mul_spec(b), c);
    let (ar, ai) = a.value();
    let (br, bi) = b.value();
    let (cr, ci) = c.value();
    vstd::arithmetic::mul::lemma_mul_is_distributive_sub(ar, br * cr, bi * ci);
    vstd::arithmetic::mul::lemma_mul_is_distributive_add(ai, br * ci, bi * cr);
    vstd::arithmetic::mul::lemma_mul_is_distributive_add(ar, br * ci, bi * cr);
    vstd::arithmetic::mul::lemma_mul_is_distributive_sub(ai, br * cr, bi * ci);
    vstd::arithmetic::mul::lemma_mul_is_distributive_sub_other_way(cr, ar * br, ai * bi);
    vstd::arithmetic::mul::lemma_mul_is_distributive_add_other_way(ci, ar * bi, ai * br);
    vstd::arithmetic::mul::lemma_mul_is_distributive_sub_other_way(ci, ar * br, ai * bi);
    vstd::arithmetic::mul::lemma_mul_is_distributive_add_other_way(cr, ar * bi, ai * br);
    vstd::arithmetic::mul::lemma_mul_is_associative(ar, br, cr);
    vstd::arithmetic::mul::lemma_mul_is_associative(ar, bi, ci);
    vstd::arithmetic::mul::lemma_mul_is_associative(ai, br, ci);
    vstd::arithmetic::mul::lemma_mul_is_associative(ai, bi, cr);
    vstd::arithmetic::mul::lemma_mul_is_associative(ar, br, ci);
    vstd::arithmetic::mul::lemma_mul_is_associative(ar, bi, cr);
    vstd::arithmetic::mul::lemma_mul_is_associative(ai, br, cr);
    vstd::arithmetic::mul::lemma_mul_is_associative(ai, bi, ci);
    Complex::lemma_value_is_injective(a.mul_spec(b.mul_spec(c)), a.mul_spec(b).mul_spec(c));
}

/// The integers that a squared magnitude stands for.
pub proof fn lemma_norm_sqr_value<T: ExactScalar>(a: Complex<T>)
    requires
        a.norm_sqr_req(),
    ensures
        a.norm_sqr_spec().value() == a.r.value() * a.r.value() + a.i.value() * a.i.value(),
{
    T::lemma_mul_is_exact(a.r, a.r);
    T::lemma_mul_is_exact(a.i, a.i);
    T::lemma_add_is_exact(a.r.mul_spec(a.r), a.i.mul_spec(a.i));
}

/// Division undoes multiplication: `(q * b) / b == q` for `b` other than
/// zero, so that `(a / b) * b == a` wherever `a` is a multiple of `b`.
pub proof fn law_div_undoes_mul<T: ExactScalar>(q: Complex<T>, b: Complex<T>)
    requires
        b.value() != (0int, 0int),
        q.mul_req(b),
        q.mul_spec(b).div_req(b),
    ensures
        q.mul_spec(b).div_spec(b) == q,
        q.mul_spec(b).div_spec(b).mul_spec(b) == q.mul_spec(b),
{
    let a = q.mul_spec(b);
    let (qr, qi) = q.value();
    let (br, bi) = b.value();
    let (ar, ai) = a.value();
    let n = br * br + bi * bi;
    lemma_product_value(q, b);
    lemma_norm_sqr_value(b);
    T::lemma_mul_is_exact(a.r, b.r);
    T::lemma_mul_is_exact(a.i, b.i);
    T::lemma_add_is_exact(a.r.mul_spec(b.r), a.i.mul_spec(b.i));
    T::lemma_mul_is_exact(a.i, b.r);
    T::lemma_mul_is_exact(a.r, b.i);
    T::lemma_sub_is_exact(a.i.mul_spec(b.r), a.r.mul_spec(b.i));
    assert(n != 0) by (nonlinear_arith)
        requires
            n == br * br + bi * bi,
            br != 0 || bi != 0,
    ;
    assert(ar * br + ai * bi == qr * n) by (nonlinear_arith)
        requires
            ar == qr * br - qi * bi,
            ai == qr * bi + qi * br,
            n == br * br + bi * bi,
    ;
    assert(ai * br - ar * bi == qi * n) by (nonlinear_arith)
        requires
            ar == qr * br - qi * bi,
            ai == qr * bi + qi * br,
            n == br * br + bi * bi,
    ;
    T::lemma_div_is_exact(a.r.mul_spec(b.r).add_spec(a.i.mul_spec(b.i)), b.norm_sqr_spec(), qr);
    T::lemma_div_is_exact(a.i.mul_spec(b.r).sub_spec(a.r.mul_spec(b.i)), b.norm_sqr_spec(), qi);
    Complex::lemma_value_is_injective(a.div_spec(b), q);
}

/// One is the identity of multiplication: `(1, 0) * a == a`.
pub proof fn law_one_is_identity<T: ExactScalar>(a: Complex<T>)
    requires
        (Complex { r: T::from_spec(1i8), i: T::from_spec(0i8) }).mul_req(a),
    ensures
        (Complex { r: T::from_spec(1i8), i: T::from_spec(0i8) }).mul_spec(a) == a,
{
    let one = Complex { r: T::from_spec(1i8), i: T::from_spec(0i8) };
    T::lemma_from_is_exact(1i8);
    T::lemma_from_is_exact(0i8);
    lemma_product_value(one, a);
    let (ar, ai) = a.value();
    assert(1 * ar - 0 * ai == ar) by (nonlinear_arith);
    assert(1 * ai + 0 * ar == ai) by (nonlinear_arith);
    Complex::lemma_value_is_injective(one.mul_spec(a), a);
}

/// The imaginary unit squares to minus one: `i * i == -1`.
pub proof fn law_unit_squares_to_minus_one<T: ExactScalar>()
    requires
        Complex::<T>::i_spec().mul_req(Complex::<T>::i_spec()),
    ensures
        Complex::<T>::i_spec().mul_spec(Complex::<T>::i_spec()) == (Complex {
            r: T::from_spec(-1i8),
            i: T::from_spec(0i8),
        }),
{
    let unit = Complex::<T>::i_spec();
    T::lemma_from_is_exact(0i8);
    T::lemma_from_is_exact(1i8);
    T::lemma_from_is_exact(-1i8);
    lemma_product_value(unit, unit);
    Complex::lemma_value_is_injective(
        unit.mul_spec(unit),
        Complex { r: T::from_spec(-1i8), i: T::from_spec(0i8) },
    );
}

/// A scalar and a complex number add to the same sum in either order:
/// `x + z == z + x`.
pub proof fn law_scalar_add_commutes<T: ExactScalar>(x: T, z: Complex<T>)
    requires
        Complex::scalar_add_req(x, z),
        z.add_req(x),
    ensures
        Complex::scalar_add_spec(x, z) == z.add_spec(x),
{
    T::lemma_add_is_exact(x, z.r);
    T::lemma_add_is_exact(z.r, x);
    Complex::lemma_value_is_injective(Complex::scalar_add_spec(x, z), z.add_spec(x));
}

/// A scalar and a complex number multiply to the same product in either
/// order: `x * z == z * x`.
pub proof fn law_scalar_mul_commutes<T: ExactScalar>(x: T, z: Complex<T>)
    requires
        Complex::scalar_mul_req(x, z),
        z.mul_req(x),
    ensures
        Complex::scalar_mul_spec(x, z) == z.mul_spec(x),
{
    T::lemma_mul_is_exact(x, z.r);
    T::lemma_mul_is_exact(x, z.i);
    T::lemma_mul_is_exact(z.r, x);
    T::lemma_mul_is_exact(z.i, x);
    assert(x.value() * z.r.value() == z.r.value() * x.value()) by (nonlinear_arith);
    assert(x.value() * z.i.value() == z.i.value() * x.value()) by (nonlinear_arith);
    Complex::lemma_value_is_injective(Complex::scalar_mul_spec(x, z), z.mul_spec(x));
}

/// Exchanging the operands of a subtraction negates the difference:
/// `x - z == -(z - x)`.
pub proof fn law_scalar_sub_negates<T: ExactScalar>(x: T, z: Complex<T>)
    requires
        Complex::scalar_sub_req(x, z),
        z.sub_req(x),
        z.sub_spec(x).neg_req(),
    ensures
        Complex::scalar_sub_spec(x, z) == z.sub_spec(x).neg_spec(),
{
    T::lemma_sub_is_exact(x, z.r);
    T::lemma_neg_is_exact(z.i);
    T::lemma_sub_is_exact(z.r, x);
    T::lemma_neg_is_exact(z.r.sub_spec(x));
    Complex::lemma_value_is_injective(Complex::scalar_sub_spec(x, z), z.sub_spec(x).neg_spec());
}

/// The value of `a*z^2 + b*z + c` at the complex integer `z`.
pub open spec fn quadratic_at(a: int, b: int, c: int, z: (int, int)) -> (int, int) {
    (a * (z.0 * z.0 - z.1 * z.1) + b * z.0 + c, a * (2 * z.0 * z.1) + b * z.1)
}

/// Whether the complex integer `s` is a square root of the integer `d`.
pub open spec fn squares_to(s: (int, int), d: int) -> bool {
    s.0 * s.0 - s.1 * s.1 == d && 2 * s.0 * s.1 == 0
}

/// The complex square root of a real scalar squares to it, wherever the real
/// square root squares to its argument.
pub proof fn law_sqrt_of_real_squares<T: ExactScalar, E: Elementary<T>>(x: T, s: Complex<T>)
    requires
        mirrored_req(x),
        crate::of_real::sqrt_is::<T, E>(x, s),
        forall|y: T, r: T| #[trigger] call_ensures(E::sqrt, (y,), r) ==> r.value() * r.value() == y.value(),
    ensures
        squares_to(s.value(), x.value()),
{
    let zero = T::from_spec(0i8);
    T::lemma_from_is_exact(0i8);
    T::lemma_comparisons_are_exact(x, zero);
    if is_at_least(x, zero) {
        assert(s.r.value() * s.r.value() - 0 * 0 == x.value());
        assert(2 * s.r.value() * 0 == 0);
    } else {
        T::lemma_neg_is_exact(x);
        assert(0 * 0 - s.i.value() * s.i.value() == x.value());
        assert(2 * 0 * s.i.value() == 0) by (nonlinear_arith);
    }
}

/// A complex integer whose double product with `a` is `-b + s`, for a square
/// root `s` of the discriminant, solves the quadratic equation.
proof fn lemma_quadratic_formula(a: int, b: int, c: int, s: (int, int), z: (int, int))
    requires
        a != 0,
        squares_to(s, b * b - 4 * a * c),
        2 * a * z.0 == -b + s.0,
        2 * a * z.1 == s.1,
    ensures
        quadratic_at(a, b, c, z) == (0int, 0int),
{
    let (x, y) = z;
    let u = 2 * a * x;
    let v = 2 * a * y;
    let g = a * (x * x - y * y) + b * x + c;
    let h = a * (2 * x * y) + b * y;
    assert(u * u - v * v + 2 * (b * u) + 4 * (a * c) == 0) by (nonlinear_arith)
        requires
            u == -b + s.0,
            v == s.1,
            s.0 * s.0 - s.1 * s.1 == b * b - 4 * a * c,
    ;
    assert(2 * (u * v) + 2 * (b * v) == 0) by (nonlinear_arith)
        requires
            u == -b + s.0,
            v == s.1,
            2 * s.0 * s.1 == 0,
    ;
    let xx = a * (a * (x * x));
    let yy = a * (a * (y * y));
    let bx = a * (b * x);
    let xy = a * (a * (x * y));
    let by = a * (b * y);
    assert(u * u == 4 * xx) by (nonlinear_arith)
        requires
            u == 2 * a * x,
            xx == a * (a * (x * x)),
    ;
    assert(v * v == 4 * yy) by (nonlinear_arith)
        requires
            v == 2 * a * y,
            yy == a * (a * (y * y)),
    ;
    assert(b * u == 2 * bx) by (nonlinear_arith)
        requires
            u == 2 * a * x,
            bx == a * (b * x),
    ;
    assert(u * v == 4 * xy) by (nonlinear_arith)
        requires
            u == 2 * a * x,
            v == 2 * a * y,
            xy == a * (a * (x * y)),
    ;
    assert(b * v == 2 * by) by (nonlinear_arith)
        requires
            v == 2 * a * y,
            by == a * (b * y),
    ;
    assert(a * g == xx - yy + bx + a * c) by (nonlinear_arith)
        requires
            g == a * (x * x - y * y) + b * x + c,
            xx == a * (a * (x * x)),
            yy == a * (a * (y * y)),
            bx == a * (b * x),
    ;
    assert(a * h == 2 * xy + by) by (nonlinear_arith)
        requires
            h == a * (2 * x * y) + b * y,
            xy == a * (a * (x * y)),
            by == a * (b * y),
    ;
    assert(4 * (a * g) == 0);
    assert(4 * (a * h) == 0);
    assert(4 * a * g == 4 * (a * g)) by (nonlinear_arith);
    assert(4 * a * h == 4 * (a * h)) by (nonlinear_arith);
    assert(g == 0) by (nonlinear_arith)
        requires
            4 * a * g == 0,
            a != 0,
    ;
    assert(h == 0) by (nonlinear_arith)
        requires
            4 * a * h == 0,
            a != 0,
    ;
}

/// The integer that a discriminant stands for.
pub proof fn lemma_discriminant_value<T: ExactScalar>(a: T, b: T, c: T)
    requires
        discriminant_req(a, b, c),
    ensures
        discriminant_spec(a, b, c).value() == b.value() * b.value() - 4 * a.value() * c.value(),
{
    let four = T::from_spec(4i8);
    T::lemma_from_is_exact(4i8);
    T::lemma_mul_is_exact(b, b);
    T::lemma_mul_is_exact(four, a);
    T::lemma_mul_is_exact(four.mul_spec(a), c);
    T::lemma_sub_is_exact(b.mul_spec(b), four.mul_spec(a).mul_spec(c));
}

/// The quadratic formula is right: where `s` squares to the discriminant and
/// both divisions by `2*a` leave no remainder, each root
/// that [`quad_roots`](crate::quadratic::quad_roots) returns solves
/// `a*x^2 + b*x + c = 0`.
pub proof fn law_quad_roots_solve<T: ExactScalar>(a: T, b: T, c: T, s: Complex<T>, k: int)
    requires
        a.value() != 0,
        discriminant_req(a, b, c),
        squares_to(s.value(), discriminant_spec(a, b, c).value()),
        quad_roots_req(a, b, s),
        (-b.value() + s.r.value()) % (2 * a.value()) == 0,
        (-b.value() - s.r.value()) % (2 * a.value()) == 0,
        s.i.value() % (2 * a.value()) == 0,
        0 <= k < 2,
    ensures
        quadratic_at(a.value(), b.value(), c.value(), quad_roots_spec(a, b, s)[k].value()) == (
            0int,
            0int,
        ),
{
    let two_a = T::from_spec(2i8).mul_spec(a);
    let minus_b = b.neg_spec();
    let d = 2 * a.value();
    lemma_discriminant_value(a, b, c);
    T::lemma_from_is_exact(2i8);
    T::lemma_mul_is_exact(T::from_spec(2i8), a);
    T::lemma_neg_is_exact(b);
    T::lemma_neg_is_exact(s.i);
    T::lemma_add_is_exact(minus_b, s.r);
    T::lemma_sub_is_exact(minus_b, s.r);
    let root = quad_roots_spec(a, b, s)[k];
    let num = if k == 0 {
        Complex::scalar_add_spec(minus_b, s)
    } else {
        Complex::scalar_sub_spec(minus_b, s)
    };
    assert(root == num.div_spec(two_a));
    let (nr, ni) = num.value();
    vstd::arithmetic::div_mod::lemma_fundamental_div_mod(nr, d);
    vstd::arithmetic::div_mod::lemma_fundamental_div_mod(s.i.value(), d);
    let x = nr / d;
    let w = s.i.value() / d;
    let y = if k == 0 {
        w
    } else {
        -w
    };
    assert(nr == x * d) by (nonlinear_arith)
        requires
            nr == d * x + 0,
    ;
    assert(ni == y * d) by (nonlinear_arith)
        requires
            s.i.value() == d * w + 0,
            (ni == s.i.value() && y == w) || (ni == -s.i.value() && y == -w),
    ;
    T::lemma_div_is_exact(num.r, two_a, x);
    T::lemma_div_is_exact(num.i, two_a, y);
    assert(root.value() == (x, y));
    let t = if k == 0 {
        s.value()
    } else {
        (-s.r.value(), -s.i.value())
    };
    assert(squares_to(t, b.value() * b.value() - 4 * a.value() * c.value())) by (nonlinear_arith)
        requires
            squares_to(s.value(), b.value() * b.value() - 4 * a.value() * c.value()),
            t == s.value() || t == (-s.r.value(), -s.i.value()),
    ;
    assert(2 * a.value() * x == -b.value() + t.0) by (nonlinear_arith)
        requires
            nr == x * d,
            d == 2 * a.value(),
            nr == -b.value() + t.0,
    ;
    assert(2 * a.value() * y == t.1) by (nonlinear_arith)
        requires
            ni == y * d,
            d == 2 * a.value(),
            ni == t.1,
    ;
    lemma_quadratic_formula(a.value(), b.value(), c.value(), t, (x, y));
}

/// The product of two complex integers.
pub open spec fn times(a: (int, int), b: (int, int)) -> (int, int) {
    (a.0 * b.0 - a.1 * b.1, a.0 * b.1 + a.1 * b.0)
}

/// The value of `x^3 + a_2*x^2 + a_1*x + a_0` at the complex integer `z`.
pub open spec fn cubic_at(a_2: int, a_1: int, a_0: int, z: (int, int)) -> (int, int) {
    let square = times(z, z);
    let cube = times(z, square);
    (cube.0 + a_2 * square.0 + a_1 * z.0 + a_0, cube.1 + a_2 * square.1 + a_1 * z.1)
}

/// The value of the derivative `3*x^2 + 2*a_2*x + a_1` at the complex integer
/// `z`.
pub open spec fn cubic_slope_at(a_2: int, a_1: int, z: (int, int)) -> (int, int) {
    let square = times(z, z);
    (3 * square.0 + (2 * a_2) * z.0 + a_1, 3 * square.1 + (2 * a_2) * z.1)
}

/// What [`Depressed::value_at`] computes is the value of the cubic.
pub proof fn law_value_at_is_the_cubic<T: ExactScalar>(cubic: Depressed<T>, z: Complex<T>)
    requires
        cubic.value_at_req(z),
    ensures
        cubic.value_at_spec(z).value() == cubic_at(
            cubic.a_2.value(),
            cubic.a_1.value(),
            cubic.a_0.value(),
            z.value(),
        ),
{
    let square = z.mul_spec(z);
    let cube = z.mul_spec(square);
    let second = Complex::scalar_mul_spec(cubic.a_2, square);
    let first = Complex::scalar_mul_spec(cubic.a_1, z);
    lemma_product_value(z, z);
    lemma_product_value(z, square);
    T::lemma_mul_is_exact(cubic.a_2, square.r);
    T::lemma_mul_is_exact(cubic.a_2, square.i);
    T::lemma_mul_is_exact(cubic.a_1, z.r);
    T::lemma_mul_is_exact(cubic.a_1, z.i);
    T::lemma_add_is_exact(cube.r, second.r);
    T::lemma_add_is_exact(cube.i, second.i);
    T::lemma_add_is_exact(cube.add_spec(second).r, first.r);
    T::lemma_add_is_exact(cube.add_spec(second).i, first.i);
    T::lemma_add_is_exact(cube.add_spec(second).add_spec(first).r, cubic.a_0);
}

/// What [`Depressed::slope_at`] computes is the value of the cubic's
/// derivative.
pub proof fn law_slope_at_is_the_derivative<T: ExactScalar>(cubic: Depressed<T>, z: Complex<T>)
    requires
        cubic.slope_at_req(z),
    ensures
        cubic.slope_at_spec(z).value() == cubic_slope_at(
            cubic.a_2.value(),
            cubic.a_1.value(),
            z.value(),
        ),
{
    let square = z.mul_spec(z);
    let three = T::from_spec(3i8);
    let twice = T::from_spec(2i8).mul_spec(cubic.a_2);
    let second = Complex::scalar_mul_spec(three, square);
    let first = Complex::scalar_mul_spec(twice, z);
    T::lemma_from_is_exact(3i8);
    T::lemma_from_is_exact(2i8);
    lemma_product_value(z, z);
    T::lemma_mul_is_exact(three, square.r);
    T::lemma_mul_is_exact(three, square.i);
    T::lemma_mul_is_exact(T::from_spec(2i8), cubic.a_2);
    T::lemma_mul_is_exact(twice, z.r);
    T::lemma_mul_is_exact(twice, z.i);
    T::lemma_add_is_exact(second.r, first.r);
    T::lemma_add_is_exact(second.i, first.i);
    T::lemma_add_is_exact(second.add_spec(first).r, cubic.a_1);
}

/// A root is a fixed point of the Newton step: where the function's value is
/// zero and its slope is not, the step ends where it began.
pub proof fn law_newton_keeps_a_root<T: ExactScalar>(z: Complex<T>, f: Complex<T>, slope: Complex<T>)
    requires
        f.value() == (0int, 0int),
        slope.value() != (0int, 0int),
        newton_req(z, f, slope),
    ensures
        newton_spec(z, f, slope) == z,
{
    let (sr, si) = slope.value();
    let n = sr * sr + si * si;
    lemma_norm_sqr_value(slope);
    T::lemma_mul_is_exact(f.r, slope.r);
    T::lemma_mul_is_exact(f.i, slope.i);
    T::lemma_add_is_exact(f.r.mul_spec(slope.r), f.i.mul_spec(slope.i));
    T::lemma_mul_is_exact(f.i, slope.r);
    T::lemma_mul_is_exact(f.r, slope.i);
    T::lemma_sub_is_exact(f.i.mul_spec(slope.r), f.r.mul_spec(slope.i));
    assert(n != 0) by (nonlinear_arith)
        requires
            n == sr * sr + si * si,
            sr != 0 || si != 0,
    ;
    assert(0 * sr + 0 * si == 0 * n) by (nonlinear_arith);
    assert(0 * sr - 0 * si == 0 * n) by (nonlinear_arith);
    T::lemma_div_is_exact(
        f.r.mul_spec(slope.r).add_spec(f.i.mul_spec(slope.i)),
        slope.norm_sqr_spec(),
        0,
    );
    T::lemma_div_is_exact(
        f.i.mul_spec(slope.r).sub_spec(f.r.mul_spec(slope.i)),
        slope.norm_sqr_spec(),
        0,
    );
    T::lemma_sub_is_exact(z.r, f.div_spec(slope).r);
    T::lemma_sub_is_exact(z.i, f.div_spec(slope).i);
    Complex::lemma_value_is_injective(newton_spec(z, f, slope), z);
}

/// A cube root is a fixed point of the step towards it: where `w^3 == z` and
/// `w` is not zero, the step from `w` towards a cube root of `z` ends at `w`.
pub proof fn law_cbrt_step_keeps_a_cube_root<T: ExactScalar>(w: Complex<T>, z: Complex<T>)
    requires
        w.value() != (0int, 0int),
        w.cbrt_step_req(z),
        w.mul_spec(w.mul_spec(w)) == z,
    ensures
        w.cbrt_step_spec(z) == w,
{
    let (x, y) = w.value();
    let square = w.mul_spec(w);
    let slope = Complex::scalar_mul_spec(T::from_spec(3i8), square);
    let f = w.mul_spec(square).sub_spec(z);
    lemma_product_value(w, w);
    T::lemma_from_is_exact(3i8);
    T::lemma_mul_is_exact(T::from_spec(3i8), square.r);
    T::lemma_mul_is_exact(T::from_spec(3i8), square.i);
    T::lemma_sub_is_exact(z.r, z.r);
    T::lemma_sub_is_exact(z.i, z.i);
    assert(x * x - y * y != 0 || x * y + y * x != 0) by (nonlinear_arith)
        requires
            x != 0 || y != 0,
    ;
    law_newton_keeps_a_root(w, f, slope);
}

} // verus!
