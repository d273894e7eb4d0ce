use imaginary::Complex;

#[test]
fn c32_check_complex_float_ops() {
    let a: f32 = 2.0;
    let b: Complex<f32> = Complex::new(1.0, 3.0);
    assert_eq!(Complex::scalar_add(a, b), Complex { r: 3.0, i: 3.0 });
    assert_eq!(b + a, Complex { r: 3.0, i: 3.0 });
    assert_eq!(Complex::scalar_sub(a, b), Complex { r: 1.0, i: -3.0 });
    assert_eq!(b - a, Complex { r: -1.0, i: 3.0 });
    assert_eq!(Complex::scalar_mul(a, b), Complex { r: 2.0, i: 6.0 });
    assert_eq!(b * a, Complex { r: 2.0, i: 6.0 });
    assert_eq!(Complex::scalar_div(a, b), Complex { r: 0.2, i: -0.6 });
    assert_eq!(b / a, Complex { r: 0.5, i: 1.5 });
}

#[test]
fn c64_check_complex_float_ops() {
    let a: f64 = 2.0;
    let b: Complex<f64> = Complex::from((1.0, 3.0));
    assert_eq!(Complex::scalar_add(a, b), Complex { r: 3.0, i: 3.0 });
    assert_eq!(b + a, Complex { r: 3.0, i: 3.0 });
    assert_eq!(Complex::scalar_sub(a, b), Complex { r: 1.0, i: -3.0 });
    assert_eq!(b - a, Complex { r: -1.0, i: 3.0 });
    assert_eq!(Complex::scalar_mul(a, b), Complex { r: 2.0, i: 6.0 });
    assert_eq!(b * a, Complex { r: 2.0, i: 6.0 });
    assert_eq!(Complex::scalar_div(a, b), Complex { r: 0.2, i: -0.6 });
    assert_eq!(b / a, Complex { r: 0.5, i: 1.5 });
}

#[test]
fn scalar_on_either_side_over_integers() {
    let x = 2_i64;
    let z = Complex::new(1_i64, 3);
    assert_eq!(Complex::scalar_add(x, z), z + x);
    assert_eq!(Complex::scalar_mul(x, z), z * x);
    assert_eq!(Complex::scalar_sub(x, z), -(z - x));
    assert_eq!(Complex::scalar_sub(x, z), Complex::new(1, -3));
    assert_eq!(z / x, Complex::new(0, 1));
    assert_eq!(Complex::scalar_div(50_i64, Complex::new(3, 4)), Complex::new(6, -8));
}

#[test]
fn scalar_division_formula() {
    let x = 5.0;
    let z = Complex::new(3.0, -4.0);
    assert_eq!(Complex::scalar_div(x, z), Complex::new(0.6, 0.8));
    assert_eq!(z / x, Complex::new(0.6, -0.8));
    let x = 3.0;
    let z = Complex::new(0.0, -4.0);
    assert_eq!(Complex::scalar_div(x, Complex::scalar_add(x, z)), Complex::new(0.36, 0.48));
}

#[test]
fn reciprocal() {
    assert_eq!(Complex::new(3.0, -4.0).recip(), Complex::new(0.12, 0.16));
    assert_eq!(Complex::new(0.0, 2.0).recip(), Complex::new(0.0, -0.5));
    assert_eq!(Complex::new(0_i64, 1).recip(), Complex::new(0, -1));
    let z = Complex::new(0.0_f64, 0.0).recip();
    assert!(z.r.is_nan());
}

#[test]
fn doubling_is_adding_twice() {
    let a = Complex::new(1.5_f64, -0.1);
    assert_eq!(a + a, Complex::scalar_mul(2.0, a));
    let b = Complex::new(21_i32, -4);
    assert_eq!(b + b, Complex::scalar_mul(2, b));
}
