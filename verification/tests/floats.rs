use imaginary::cubic::cubic;
use imaginary::cubic::newton;
use imaginary::cubic::Depressed;
use imaginary::elementary::Elementary;
use imaginary::of_real::cbrt_1;
use imaginary::of_real::cis;
use imaginary::of_real::ln;
use imaginary::of_real::sqrt;
use imaginary::quadratic::quad;
use imaginary::solve::InvalidCoefficients;
use imaginary::Complex;

/// The elementary functions as the standard library has them.
struct Std;

impl Elementary<f32> for Std {
    fn pi() -> f32 {
        std::f32::consts::PI
    }

    fn abs(x: f32) -> f32 {
        x.abs()
    }

    fn copysign(x: f32, sign: f32) -> f32 {
        x.copysign(sign)
    }

    fn sqrt(x: f32) -> f32 {
        x.sqrt()
    }

    fn cbrt(x: f32) -> f32 {
        x.cbrt()
    }

    fn hypot(x: f32, y: f32) -> f32 {
        x.hypot(y)
    }

    fn atan2(y: f32, x: f32) -> f32 {
        y.atan2(x)
    }

    fn exp(x: f32) -> f32 {
        x.exp()
    }

    fn ln(x: f32) -> f32 {
        x.ln()
    }

    fn powf(x: f32, n: f32) -> f32 {
        x.powf(n)
    }

    fn cos(x: f32) -> f32 {
        x.cos()
    }

    fn sin(x: f32) -> f32 {
        x.sin()
    }

    fn tan(x: f32) -> f32 {
        x.tan()
    }

    fn cosh(x: f32) -> f32 {
        x.cosh()
    }

    fn sinh(x: f32) -> f32 {
        x.sinh()
    }

    fn tanh(x: f32) -> f32 {
        x.tanh()
    }
}

impl Elementary<f64> for Std {
    fn pi() -> f64 {
        std::f64::consts::PI
    }

    fn abs(x: f64) -> f64 {
        x.abs()
    }

    fn copysign(x: f64, sign: f64) -> f64 {
        x.copysign(sign)
    }

    fn sqrt(x: f64) -> f64 {
        x.sqrt()
    }

    fn cbrt(x: f64) -> f64 {
        x.cbrt()
    }

    fn hypot(x: f64, y: f64) -> f64 {
        x.hypot(y)
    }

    fn atan2(y: f64, x: f64) -> f64 {
        y.atan2(x)
    }

    fn exp(x: f64) -> f64 {
        x.exp()
    }

    fn ln(x: f64) -> f64 {
        x.ln()
    }

    fn powf(x: f64, n: f64) -> f64 {
        x.powf(n)
    }

    fn cos(x: f64) -> f64 {
        x.cos()
    }

    fn sin(x: f64) -> f64 {
        x.sin()
    }

    fn tan(x: f64) -> f64 {
        x.tan()
    }

    fn cosh(x: f64) -> f64 {
        x.cosh()
    }

    fn sinh(x: f64) -> f64 {
        x.sinh()
    }

    fn tanh(x: f64) -> f64 {
        x.tanh()
    }
}

/// A measure that reports the number `(30, 0)` as smaller than any other.
struct Biased;

impl Elementary<f64> for Biased {
    fn pi() -> f64 {
        std::f64::consts::PI
    }

    fn abs(x: f64) -> f64 {
        x.abs()
    }

    fn copysign(x: f64, sign: f64) -> f64 {
        x.copysign(sign)
    }

    fn sqrt(x: f64) -> f64 {
        x.sqrt()
    }

    fn cbrt(x: f64) -> f64 {
        x.cbrt()
    }

    fn hypot(x: f64, y: f64) -> f64 {
        if x == 30.0 && y == 0.0 {
            1.0
        } else {
            2.0
        }
    }

    fn atan2(y: f64, x: f64) -> f64 {
        y.atan2(x)
    }

    fn exp(x: f64) -> f64 {
        x.exp()
    }

    fn ln(x: f64) -> f64 {
        x.ln()
    }

    fn powf(x: f64, n: f64) -> f64 {
        x.powf(n)
    }

    fn cos(x: f64) -> f64 {
        x.cos()
    }

    fn sin(x: f64) -> f64 {
        x.sin()
    }

    fn tan(x: f64) -> f64 {
        x.tan()
    }

    fn cosh(x: f64) -> f64 {
        x.cosh()
    }

    fn sinh(x: f64) -> f64 {
        x.sinh()
    }

    fn tanh(x: f64) -> f64 {
        x.tanh()
    }
}

#[test]
fn float_fn() {
    const PI: f32 = std::f32::consts::PI;
    let a: Complex<f32> = Complex::new(3.0, -4.0);
    assert_eq!(a.abs::<Std>(), 5.0);
    let e_pi_i = Complex::new(0.0, PI).exp::<Std>();
    assert!((e_pi_i + Complex::new(1.0, 0.0)).abs::<Std>() <= f32::EPSILON);
    let a_sqrt = a.sqrt::<Std>();
    assert!((a_sqrt * a_sqrt - a).abs::<Std>() <= 2.0 * a.abs::<Std>() * f32::EPSILON);
    assert_eq!(Complex::<f32>::new(4.0, 0.0).sqrt::<Std>(), Complex::new(2.0, 0.0));
    assert_eq!(Complex::<f32>::new(-4.0, 0.0).sqrt::<Std>(), Complex::new(0.0, 2.0));
}

#[test]
fn check_cis_c32() {
    let i: Complex<f32> = Complex::i();
    let z: Complex<f32> = cis::<f32, Std>(3.1);
    assert_eq!(z, Complex::scalar_add(f32::cos(3.1), Complex::scalar_mul(f32::sin(3.1), i)));
    assert_eq!(2.0 * f32::cos(3.1), Complex::scalar_mul(2.0, z).r);
}

#[test]
fn check_cis_c64() {
    let i: Complex<f64> = Complex::i();
    let z: Complex<f64> = cis::<f64, Std>(3.1);
    assert_eq!(z, Complex::scalar_add(f64::cos(3.1), Complex::scalar_mul(f64::sin(3.1), i)));
    assert_eq!(z, Complex::<f64>::cis::<Std>(3.1));
    assert_eq!(z, Complex::new(f64::cos(3.1), f64::sin(3.1)));
}

#[test]
fn cis_lies_on_the_unit_circle() {
    for k in -20..=20 {
        let theta = 0.37 * f64::from(k);
        let size = Complex::<f64>::cis::<Std>(theta).abs::<Std>();
        assert!((size - 1.0).abs() <= 2.0 * f64::EPSILON);
    }
}

#[test]
fn check_sqrt_c64() {
    let squares = [
        Complex::new(-2.5, -2.5),
        Complex::new(0.5, -0.5),
        Complex::new(-2.5, 2.5),
        Complex::new(0.5, 0.5),
        Complex::new(-5.0, 0.0),
        Complex::new(5.0, 0.0),
        Complex::new(-1.0, 0.5 * f64::EPSILON.sqrt()),
        Complex::new(-1.0, 0.5 * -f64::EPSILON.sqrt()),
        Complex::new(-1.0, 2.0 * f64::EPSILON.sqrt()),
        Complex::new(-1.0, 2.0 * -f64::EPSILON.sqrt()),
        Complex::new(1.0, 0.5 * f64::EPSILON.sqrt()),
        Complex::new(1.0, 0.5 * -f64::EPSILON.sqrt()),
        Complex::new(1.0, 2.0 * f64::EPSILON.sqrt()),
        Complex::new(1.0, 2.0 * -f64::EPSILON.sqrt()),
    ];
    for &sq in squares.iter() {
        let sqrt = sq.sqrt::<Std>();
        let ep = sq.abs::<Std>() * f64::EPSILON;
        let diff = ((sqrt * sqrt) - sq).abs::<Std>();
        assert!(diff <= 2.0 * ep);
    }
}

#[test]
fn check_sqrt_c32() {
    let squares = [
        Complex::new(-2.5, -2.5),
        Complex::new(0.5, -0.5),
        Complex::new(-2.5, 2.5),
        Complex::new(0.5, 0.5),
        Complex::new(-5.0, 0.0),
        Complex::new(5.0, 0.0),
        Complex::new(-1.0, 0.5 * f32::EPSILON.sqrt()),
        Complex::new(-1.0, 0.5 * -f32::EPSILON.sqrt()),
        Complex::new(-1.0, 2.0 * f32::EPSILON.sqrt()),
        Complex::new(-1.0, 2.0 * -f32::EPSILON.sqrt()),
        Complex::new(1.0, 0.5 * f32::EPSILON.sqrt()),
        Complex::new(1.0, 0.5 * -f32::EPSILON.sqrt()),
        Complex::new(1.0, 2.0 * f32::EPSILON.sqrt()),
        Complex::new(1.0, 2.0 * -f32::EPSILON.sqrt()),
    ];
    for &sq in squares.iter() {
        let sqrt = sq.sqrt::<Std>();
        let ep = sq.abs::<Std>() * f32::EPSILON;
        let diff = ((sqrt * sqrt) - sq).abs::<Std>();
        assert!(diff <= 2.0 * ep);
    }
}

#[test]
fn sqrt_on_its_branches() {
    // on the real axis
    assert_eq!(Complex::new(9.0_f64, 0.0).sqrt::<Std>(), Complex::new(3.0, 0.0));
    assert_eq!(Complex::new(0.0_f64, 0.0).sqrt::<Std>(), Complex::new(0.0, 0.0));
    // on the negative real axis the sign of the zero decides the side
    let above = Complex::new(-9.0_f64, 0.0).sqrt::<Std>();
    let below = Complex::new(-9.0_f64, -0.0).sqrt::<Std>();
    assert_eq!(above, Complex::new(0.0, 3.0));
    assert_eq!(below, Complex::new(0.0, -3.0));
    assert_eq!(Complex::new(-1.0_f32, 0.0).sqrt::<Std>(), Complex::<f32>::i());
    // off the axis
    let rt = 8.0_f64.sqrt();
    let scale = std::f64::consts::FRAC_1_SQRT_2;
    assert_eq!(Complex::new(3.0_f64, 4.0).sqrt::<Std>(), Complex::new(rt * scale, 4.0 / rt * scale));
    assert_eq!(Complex::new(3.0_f64, -4.0).sqrt::<Std>(), Complex::new(rt * scale, -4.0 / rt * scale));
    let z = Complex::new(0.0_f64, 2.0).sqrt::<Std>();
    assert!((z.r - 1.0).abs() <= f64::EPSILON && (z.i - 1.0).abs() <= f64::EPSILON);
    // so close to the negative real axis that the magnitude and the real
    // part cancel
    let y = 1.0e-200_f64;
    let z = Complex::new(-4.0_f64, y).sqrt::<Std>();
    assert_eq!(z, Complex::new(0.5 * y / 2.0, 2.0));
    let z = Complex::new(-4.0_f64, -y).sqrt::<Std>();
    assert_eq!(z, Complex::new(0.5 * y / 2.0, -2.0));
}

#[test]
fn check_cbrt_c64() {
    let cubes = [
        Complex::new(-2.5, -2.5),
        Complex::new(0.5, -0.5),
        Complex::new(-2.5, 2.5),
        Complex::new(0.5, 0.5),
        Complex::new(-5.0, 0.0),
        Complex::new(5.0, 0.0),
        Complex::new(-1.0, 0.5 * f64::EPSILON.cbrt()),
        Complex::new(-1.0, 0.5 * -f64::EPSILON.cbrt()),
        Complex::new(-1.0, 2.0 * f64::EPSILON.cbrt()),
        Complex::new(-1.0, 2.0 * -f64::EPSILON.cbrt()),
        Complex::new(1.0, 0.5 * f64::EPSILON.cbrt()),
        Complex::new(1.0, 0.5 * -f64::EPSILON.cbrt()),
        Complex::new(1.0, 2.0 * f64::EPSILON.cbrt()),
        Complex::new(1.0, 2.0 * -f64::EPSILON.cbrt()),
    ];
    for cb in cubes {
        let cbrt = cb.cbrt::<Std>();
        let ep = cb.abs::<Std>() * f64::EPSILON;
        let diff = ((cbrt * cbrt * cbrt) - cb).abs::<Std>();
        assert!(diff <= 1.5 * ep);
    }
}

#[test]
fn check_cbrt_c32() {
    let cubes = [
        Complex::new(-2.5, -2.5),
        Complex::new(0.5, -0.5),
        Complex::new(-2.5, 2.5),
        Complex::new(0.5, 0.5),
        Complex::new(-5.0, 0.0),
        Complex::new(5.0, 0.0),
        Complex::new(-1.0, 0.5 * f32::EPSILON.cbrt()),
        Complex::new(-1.0, 0.5 * -f32::EPSILON.cbrt()),
        Complex::new(-1.0, 2.0 * f32::EPSILON.cbrt()),
        Complex::new(-1.0, 2.0 * -f32::EPSILON.cbrt()),
        Complex::new(1.0, 0.5 * f32::EPSILON.cbrt()),
        Complex::new(1.0, 0.5 * -f32::EPSILON.cbrt()),
        Complex::new(1.0, 2.0 * f32::EPSILON.cbrt()),
        Complex::new(1.0, 2.0 * -f32::EPSILON.cbrt()),
    ];
    for cb in cubes {
        let cbrt = cb.cbrt::<Std>();
        let ep = cb.abs::<Std>() * f32::EPSILON;
        let diff = ((cbrt * cbrt * cbrt) - cb).abs::<Std>();
        assert!(diff <= 1.5 * ep);
    }
}

#[test]
fn cbrt_of_zero_is_zero() {
    assert_eq!(Complex::new(0.0_f64, 0.0).cbrt::<Std>(), Complex::new(0.0, 0.0));
    assert_eq!(Complex::new(0.0_f32, -0.0).cbrt::<Std>(), Complex::new(0.0, 0.0));
    assert_eq!(Complex::new(8.0_f64, 0.0).cbrt::<Std>(), Complex::new(2.0, 0.0));
}

#[test]
fn check_quad_c64() {
    let coeffs = [[1.0, -4.0, 13.0], [1.0, -2.0, 2.0], [2.0, -2.0, 0.0], [4.0, 0.0, -36.0]];
    for [a, b, c] in coeffs {
        for root in quad::<f64, Std>(a, b, c).unwrap() {
            let sum = Complex::scalar_mul(a, root) * root + Complex::scalar_mul(b, root) + c;
            assert!(sum.abs::<Std>() <= f64::EPSILON);
        }
    }
}

#[test]
fn check_quad_c32() {
    let coeffs = [[1.0, -4.0, 13.0], [1.0, -2.0, 2.0], [2.0, -2.0, 0.0], [4.0, 0.0, -36.0]];
    for [a, b, c] in coeffs {
        for root in quad::<f32, Std>(a, b, c).unwrap() {
            let sum = Complex::scalar_mul(a, root) * root + Complex::scalar_mul(b, root) + c;
            assert!(sum.abs::<Std>() <= f32::EPSILON);
        }
    }
}

#[test]
fn quad_roots_are_exact_here() {
    assert_eq!(
        quad::<f64, Std>(1.0, -4.0, 13.0),
        Ok([Complex::new(2.0, 3.0), Complex::new(2.0, -3.0)])
    );
    assert_eq!(
        quad::<f64, Std>(4.0, 0.0, -36.0),
        Ok([Complex::new(3.0, 0.0), Complex::new(-3.0, 0.0)])
    );
}

#[test]
fn quad_refuses_bad_coefficients() {
    let nan = f64::NAN;
    assert_eq!(quad::<f64, Std>(0.0, -4.0, 13.0), Err(InvalidCoefficients::ZeroLeading));
    assert_eq!(quad::<f64, Std>(nan, -2.0, 2.0), Err(InvalidCoefficients::NotANumber));
    assert_eq!(quad::<f64, Std>(1.0, nan, 2.0), Err(InvalidCoefficients::NotANumber));
    assert_eq!(quad::<f64, Std>(1.0, -2.0, nan), Err(InvalidCoefficients::NotANumber));
    assert_eq!(quad::<f64, Std>(nan, nan, nan), Err(InvalidCoefficients::NotANumber));
    assert_eq!(quad::<f64, Std>(0.0, nan, 1.0), Err(InvalidCoefficients::NotANumber));
    assert!(quad::<f64, Std>(1.0, -2.0, 2.0).is_ok());
    assert_eq!(quad::<f32, Std>(0.0, 1.0, 1.0), Err(InvalidCoefficients::ZeroLeading));
    assert_eq!(quad::<f32, Std>(1.0, f32::NAN, 1.0), Err(InvalidCoefficients::NotANumber));
}

#[test]
fn check_cubic_c64() {
    let coeffs = [
        [1.0, 0.0, -7.0, -6.0],
        [1.0, -4.0, 1.0, 6.0],
        [1.0, -6.0, 11.0, -6.0],
        [4.0, 6.0, -16.0, 6.0],
    ];
    for [a, b, c, d] in coeffs {
        for root in cubic::<f64, Std>(a, b, c, d).unwrap() {
            let sum = Complex::scalar_mul(a, root) * root * root
                + Complex::scalar_mul(b, root) * root
                + Complex::scalar_mul(c, root)
                + d;
            let ep = root.abs::<Std>() * f64::EPSILON;
            assert!(sum.abs::<Std>() <= 1.0 * ep);
        }
    }
}

#[test]
fn check_cubic_c32() {
    let coeffs = [
        [1.0, 0.0, -7.0, -6.0],
        [1.0, -4.0, 1.0, 6.0],
        [1.0, -6.0, 11.0, -6.0],
        [4.0, 6.0, -16.0, 6.0],
    ];
    for [a, b, c, d] in coeffs {
        for root in cubic::<f32, Std>(a, b, c, d).unwrap() {
            let sum = Complex::scalar_mul(a, root) * root * root
                + Complex::scalar_mul(b, root) * root
                + Complex::scalar_mul(c, root)
                + d;
            let ep = root.abs::<Std>() * f32::EPSILON;
            assert!(sum.abs::<Std>() <= 1.0 * ep);
        }
    }
}

#[test]
fn cubic_finds_the_three_roots() {
    let mut found: Vec<f64> = cubic::<f64, Std>(1.0, 0.0, -7.0, -6.0)
        .unwrap()
        .iter()
        .map(|z| {
            assert!(z.i.abs() <= 4.0 * f64::EPSILON);
            z.r
        })
        .collect();
    found.sort_by(|x, y| x.partial_cmp(y).unwrap());
    for (x, want) in found.iter().zip([-2.0, -1.0, 3.0]) {
        assert!((x - want).abs() <= 4.0 * f64::EPSILON);
    }
}

#[test]
fn cubic_refuses_bad_coefficients() {
    let nan = f64::NAN;
    let solve = |a, b, c, d| cubic::<f64, Std>(a, b, c, d);
    assert_eq!(solve(0.0, -4.0, 13.0, 1.0), Err(InvalidCoefficients::ZeroLeading));
    assert_eq!(solve(nan, -2.0, 2.0, 1.0), Err(InvalidCoefficients::NotANumber));
    assert_eq!(solve(1.0, nan, 2.0, 1.0), Err(InvalidCoefficients::NotANumber));
    assert_eq!(solve(1.0, -2.0, nan, 1.0), Err(InvalidCoefficients::NotANumber));
    assert_eq!(solve(1.0, -2.0, 2.0, nan), Err(InvalidCoefficients::NotANumber));
    assert_eq!(solve(nan, nan, nan, nan), Err(InvalidCoefficients::NotANumber));
    assert!(solve(1.0, -2.0, 2.0, 1.0).is_ok());
}

#[test]
fn polishing_keeps_the_better_root() {
    let cubic = Depressed { a_2: 0.0_f64, a_1: -7.0, a_0: -6.0, p: -7.0, q: 6.0 };
    // an exact root stays
    assert_eq!(cubic.polish::<Std>(Complex::new(3.0, 0.0)), Complex::new(3.0, 0.0));
    // a stationary point stays: the slope of x^3 + 1 is zero at zero
    let flat = Depressed { a_2: 0.0_f64, a_1: 0.0, a_0: 1.0, p: 0.0, q: 0.0 };
    assert_eq!(flat.polish::<Std>(Complex::new(0.0, 0.0)), Complex::new(0.0, 0.0));
    // near a root the step is taken
    let start = Complex::new(3.1, 0.0);
    let out = cubic.polish::<Std>(start);
    assert_eq!(out, newton(start, cubic.value_at(start), cubic.slope_at(start)));
    assert!((out.r - 3.004_214_383_875_4).abs() < 1e-12);
    assert!(cubic.value_at(out).abs::<Std>() < cubic.value_at(start).abs::<Std>());
    // a step that makes the value larger is not taken: at 4 the value is 30,
    // which this measure reports as smaller than the value after the step
    let start = Complex::new(4.0, 0.0);
    assert_eq!(cubic.value_at(start), Complex::new(30.0, 0.0));
    assert_eq!(cubic.polish::<Biased>(start), start);
    assert_eq!(cubic.polish::<Std>(start), newton(start, cubic.value_at(start), cubic.slope_at(start)));
}

#[test]
fn functions_of_a_real_argument() {
    assert_eq!(sqrt::<f64, Std>(4.0), Complex::new(2.0, 0.0));
    assert_eq!(sqrt::<f64, Std>(-4.0), Complex::new(0.0, 2.0));
    assert_eq!(sqrt::<f32, Std>(0.0), Complex::new(0.0, 0.0));
    assert_eq!(sqrt::<f32, Std>(-0.25), Complex::new(0.0, 0.5));
    let s = sqrt::<f64, Std>(f64::NAN);
    assert_eq!(s.r, 0.0);
    assert!(s.i.is_nan());
    assert_eq!(ln::<f64, Std>(1.0), Complex::new(0.0, 0.0));
    assert_eq!(ln::<f64, Std>(-1.0), Complex::new(0.0, std::f64::consts::PI));
    assert_eq!(ln::<f32, Std>(-1.0), Complex::new(0.0, std::f32::consts::PI));
    assert_eq!(ln::<f64, Std>(-2.0), Complex::new(2.0_f64.ln(), std::f64::consts::PI));
    assert_eq!(ln::<f64, Std>(0.0).r, f64::NEG_INFINITY);
}

#[test]
fn the_cube_root_of_one() {
    let u = cbrt_1::<f64, Std>();
    assert_eq!(u, Complex::new(-0.5, 0.5 * 1.732_050_807_568_877_2_f64));
    let cube = u * u * u;
    assert!((cube.r - 1.0).abs() <= 2.0 * f64::EPSILON && cube.i.abs() <= 2.0 * f64::EPSILON);
    let u = cbrt_1::<f32, Std>();
    assert_eq!(u, Complex::new(-0.5, 0.5 * 1.732_050_8_f32));
}

#[test]
fn polar_form() {
    assert_eq!(Complex::new(-3.0_f32, 4.0).abs::<Std>(), 5.0);
    assert_eq!(Complex::new(3.0_f64, -4.0).abs::<Std>(), 5.0);
    assert_eq!(Complex::new(-3.0_f32, 4.0).sign::<Std>(), Complex::new(-0.6, 0.8));
    assert_eq!(Complex::new(3.0_f64, -4.0).sign::<Std>(), Complex::new(0.6, -0.8));
    let zero = Complex::new(0.0_f64, 0.0).sign::<Std>();
    assert!(zero.r.is_nan() && zero.i.is_nan());
    assert_eq!(Complex::new(-5.0_f32, 5.0).angle::<Std>(), 3.0 * std::f32::consts::FRAC_PI_4);
    assert_eq!(Complex::new(5.0_f64, -5.0).angle::<Std>(), -std::f64::consts::FRAC_PI_4);
    assert_eq!(Complex::new(-1.0_f64, 0.0).angle::<Std>(), std::f64::consts::PI);
}

#[test]
fn exponential_and_logarithm() {
    // Euler's identity
    let pi_i = Complex::scalar_mul(std::f64::consts::PI, Complex::<f64>::i());
    assert!((pi_i.exp::<Std>() + 1.0).abs::<Std>() <= f64::EPSILON);
    assert_eq!(Complex::new(0.0_f64, 0.0).exp::<Std>(), Complex::new(1.0, 0.0));
    assert_eq!(Complex::new(1.0_f64, 0.0).exp::<Std>(), Complex::new(std::f64::consts::E, 0.0));
    assert_eq!(Complex::new(-1.0_f32, 0.0).ln::<Std>(), Complex::new(0.0, std::f32::consts::PI));
    assert_eq!(Complex::new(-1.0_f64, 0.0).ln::<Std>(), pi_i);
    let nothing = Complex::new(0.0_f64, 0.0).ln::<Std>();
    assert_eq!(nothing.r, f64::NEG_INFINITY);
    let z = Complex::new(0.5_f64, -1.25);
    let back = z.ln::<Std>().exp::<Std>();
    assert!((back - z).abs::<Std>() <= 4.0 * f64::EPSILON * z.abs::<Std>());
}

#[test]
fn powers() {
    let z = Complex::new(0.0_f64, 2.0);
    let square = z.powf::<Std>(2.0);
    assert!((square - Complex::new(-4.0, 0.0)).abs::<Std>() <= 8.0 * f64::EPSILON);
    assert_eq!(Complex::new(4.0_f64, 0.0).powf::<Std>(0.5), Complex::new(2.0, 0.0));
    let same = z.powc::<Std>(Complex::new(2.0, 0.0));
    assert!((same - Complex::new(-4.0, 0.0)).abs::<Std>() <= 8.0 * f64::EPSILON);
    // i^i = exp(-pi/2)
    let i = Complex::<f64>::i();
    let real = i.powc::<Std>(i);
    assert!((real - Complex::new((-std::f64::consts::FRAC_PI_2).exp(), 0.0)).abs::<Std>() <= f64::EPSILON);
}

#[test]
fn circular_and_hyperbolic_functions() {
    let zero = Complex::new(0.0_f64, 0.0);
    assert_eq!(zero.cos::<Std>(), Complex::new(1.0, 0.0));
    assert_eq!(zero.sin::<Std>(), Complex::new(0.0, 0.0));
    assert_eq!(zero.tan::<Std>(), Complex::new(0.0, 0.0));
    assert_eq!(zero.cosh::<Std>(), Complex::new(1.0, 0.0));
    assert_eq!(zero.sinh::<Std>(), Complex::new(0.0, 0.0));
    assert_eq!(zero.tanh::<Std>(), Complex::new(0.0, 0.0));
    assert_eq!(zero.sec::<Std>(), Complex::new(1.0, 0.0));
    assert_eq!(zero.sech::<Std>(), Complex::new(1.0, 0.0));
    let z = Complex::new(0.75_f64, -0.5);
    let (x, y) = (0.75_f64, -0.5_f64);
    assert_eq!(z.cos::<Std>(), Complex::new(x.cos() * y.cosh(), -x.sin() * y.sinh()));
    assert_eq!(z.sin::<Std>(), Complex::new(x.sin() * y.cosh(), x.cos() * y.sinh()));
    assert_eq!(z.cosh::<Std>(), Complex::new(x.cosh() * y.cos(), x.sinh() * y.sin()));
    assert_eq!(z.sinh::<Std>(), Complex::new(x.sinh() * y.cos(), x.cosh() * y.sin()));
    assert_eq!(
        z.tan::<Std>(),
        Complex::new(x.tan(), y.tanh()) / Complex::new(1.0, -x.tan() * y.tanh())
    );
    assert_eq!(
        z.cot::<Std>(),
        Complex::new(1.0, -x.tan() * y.tanh()) / Complex::new(x.tan(), y.tanh())
    );
    assert_eq!(
        z.tanh::<Std>(),
        Complex::new(x.tanh(), y.tan()) / Complex::new(1.0, x.tanh() * y.tan())
    );
    assert_eq!(
        z.coth::<Std>(),
        Complex::new(1.0, x.tanh() * y.tan()) / Complex::new(x.tanh(), y.tan())
    );
    assert_eq!(z.sec::<Std>(), z.cos::<Std>().recip());
    assert_eq!(z.csc::<Std>(), z.sin::<Std>().recip());
    assert_eq!(z.sech::<Std>(), z.cosh::<Std>().recip());
    assert_eq!(z.csch::<Std>(), z.sinh::<Std>().recip());
    // sin^2 + cos^2 = 1, and tan = sin / cos
    let one = z.sin::<Std>() * z.sin::<Std>() + z.cos::<Std>() * z.cos::<Std>();
    assert!((one - Complex::new(1.0, 0.0)).abs::<Std>() <= 4.0 * f64::EPSILON);
    let ratio = z.sin::<Std>() / z.cos::<Std>();
    assert!((ratio - z.tan::<Std>()).abs::<Std>() <= 4.0 * f64::EPSILON);
    let ratio = z.sinh::<Std>() / z.cosh::<Std>();
    assert!((ratio - z.tanh::<Std>()).abs::<Std>() <= 4.0 * f64::EPSILON);
}
