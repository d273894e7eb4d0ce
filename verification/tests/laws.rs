use imaginary::Complex;

fn samples() -> Vec<Complex<i64>> {
    let mut out = Vec::new();
    for r in [-7_i64, -1, 0, 1, 2, 12] {
        for i in [-5_i64, -1, 0, 1, 3] {
            out.push(Complex::new(r, i));
        }
    }
    out
}

#[test]
fn addition_is_associative() {
    for &a in &samples() {
        for &b in &samples() {
            for &c in &samples() {
                assert_eq!(a + (b + c), (a + b) + c);
            }
        }
    }
    let (a, b, c) = (Complex::new(1.0, 2.0), Complex::new(0.5, -4.0), Complex::new(-8.0, 0.25));
    assert_eq!(a + (b + c), (a + b) + c);
}

#[test]
fn multiplication_is_associative() {
    for &a in &samples() {
        for &b in &samples() {
            for &c in &samples() {
                assert_eq!(a * (b * c), (a * b) * c);
            }
        }
    }
}

#[test]
fn one_is_the_identity() {
    for &a in &samples() {
        assert_eq!(Complex::new(1, 0) * a, a);
    }
    let a = Complex::new(0.1_f64, -7.3);
    assert_eq!(Complex::new(1.0, 0.0) * a, a);
}

#[test]
fn self_sum_self_difference_and_conjugate() {
    for &a in &samples() {
        assert_eq!(a + a, Complex::scalar_mul(2, a));
        assert_eq!(a - a, Complex::new(0, 0));
        assert_eq!(a.conj().conj(), a);
        assert_eq!(a * a.conj(), Complex::new(a.r * a.r + a.i * a.i, 0));
    }
    let a = Complex::new(0.3_f64, -1.7);
    assert_eq!(a + a, Complex::scalar_mul(2.0, a));
    assert_eq!(a - a, Complex::new(0.0, 0.0));
    assert_eq!(a.conj().conj(), a);
}

#[test]
fn scalar_operands_commute() {
    for &z in &samples() {
        for x in [-3_i64, 0, 1, 9] {
            assert_eq!(Complex::scalar_add(x, z), z + x);
            assert_eq!(Complex::scalar_mul(x, z), z * x);
            assert_eq!(Complex::scalar_sub(x, z), -(z - x));
        }
    }
    let z = Complex::new(0.3_f64, -1.7);
    let x = 2.5_f64;
    assert_eq!(Complex::scalar_add(x, z), z + x);
    assert_eq!(Complex::scalar_mul(x, z), z * x);
    assert_eq!(Complex::scalar_sub(x, z), -(z - x));
}

fn close(a: Complex<f64>, b: Complex<f64>, scale: f64) -> bool {
    (a.r - b.r).abs() <= 8.0 * f64::EPSILON * scale && (a.i - b.i).abs() <= 8.0 * f64::EPSILON * scale
}

#[test]
fn floats_obey_the_laws_up_to_rounding() {
    let a = Complex::new(0.3_f64, -1.7);
    let b = Complex::new(-2.25_f64, 0.6);
    let c = Complex::new(1.1_f64, 4.9);
    let size = |z: Complex<f64>| z.r.hypot(z.i);
    assert!(close(a * (b * c), (a * b) * c, size(a) * size(b) * size(c)));
    assert!(close(a * a.conj(), Complex::new(size(a) * size(a), 0.0), size(a) * size(a)));
    assert!(close((a / b) * b, a, size(a)));
    assert!(close((a * b) / b, a, size(a)));
}

#[test]
fn division_undoes_multiplication() {
    for &q in &samples() {
        for &b in &samples() {
            if b != Complex::new(0, 0) {
                assert_eq!((q * b) / b, q);
                assert_eq!(((q * b) / b) * b, q * b);
            }
        }
    }
}

#[test]
fn the_quadratic_formula_is_right() {
    // a*x^2 + b*x + c with the roots x1 and x2, for integers and complex integers
    for a in [1_i64, -1, 2, 3] {
        for x1 in [-4_i64, 0, 1, 5] {
            for x2 in [-3_i64, 0, 2, 7] {
                let b = -a * (x1 + x2);
                let c = a * x1 * x2;
                let d = imaginary::quadratic::discriminant(a, b, c);
                assert_eq!(d, a * a * (x1 - x2) * (x1 - x2));
                let s = Complex::new(a * (x1 - x2), 0);
                assert_eq!(s * s, Complex::new(d, 0));
                let roots = imaginary::quadratic::quad_roots(a, b, s);
                assert_eq!(roots, [Complex::new(x1, 0), Complex::new(x2, 0)]);
                for z in roots {
                    assert_eq!(
                        Complex::scalar_mul(a, z * z) + Complex::scalar_mul(b, z) + c,
                        Complex::new(0, 0)
                    );
                }
            }
        }
    }
    // x^2 - 4x + 13 has the roots 2 + 3i and 2 - 3i
    let s = Complex::new(0_i64, 6);
    assert_eq!(s * s, Complex::new(imaginary::quadratic::discriminant(1_i64, -4, 13), 0));
    for z in imaginary::quadratic::quad_roots(1_i64, -4, s) {
        assert_eq!(z * z + Complex::scalar_mul(-4, z) + 13, Complex::new(0, 0));
    }
}
