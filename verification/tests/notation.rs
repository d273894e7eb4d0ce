use imaginary::notation::Notation;
use imaginary::Complex;

#[test]
fn text_of_sample_numbers() {
    assert_eq!(Complex::new(3.0, 0.0).to_text(), "3");
    assert_eq!(Complex::new(0.0, 1.0).to_text(), "i");
    assert_eq!(Complex::new(0.0, -1.0).to_text(), "-i");
    assert_eq!(Complex::new(3.0, -4.0).to_text(), "3 - 4*i");
}

#[test]
fn every_shape_is_written() {
    assert_eq!(Complex::<f32>::new(3.0, 0.0).to_text(), "3");
    assert_eq!(Complex::<f64>::i().to_text(), "i");
    assert_eq!((-Complex::<f32>::i()).to_text(), "-i");
    assert_eq!(Complex::<f64>::new(0.0, 4.0).to_text(), "4*i");
    assert_eq!(Complex::<f64>::new(0.0, -4.5).to_text(), "-4.5*i");
    assert_eq!(Complex::<f32>::new(-3.0, -1.0).to_text(), "-3 - i");
    assert_eq!(Complex::<f64>::new(3.0, -4.0).to_text(), "3 - 4*i");
    assert_eq!(Complex::<f32>::new(-3.0, 1.0).to_text(), "-3 + i");
    assert_eq!(Complex::<f64>::new(3.0, 4.0).to_text(), "3 + 4*i");
    assert_eq!(Complex::<f64>::new(0.0, 0.0).to_text(), "0");
    assert_eq!(Complex::<f64>::new(1.5, 2.25).to_text(), "1.5 + 2.25*i");
}

#[test]
fn integers_are_written_too() {
    assert_eq!(Complex::new(3_i64, -4).to_text(), "3 - 4*i");
    assert_eq!(Complex::new(0_i32, -7).to_text(), "-7*i");
    assert_eq!(Complex::new(-2_i16, 1).to_text(), "-2 + i");
    assert_eq!(Complex::new(0_i64, i64::MIN).to_text(), "-9223372036854775808*i");
}

#[test]
fn shapes_are_decided() {
    assert_eq!(Complex::new(3_i64, -4).notation(), Notation::Less(3, 4));
    assert_eq!(Complex::new(3_i64, 4).notation(), Notation::Plus(3, 4));
    assert_eq!(Complex::new(3_i64, 0).notation(), Notation::Real(3));
    assert_eq!(Complex::new(0_i64, 1).notation(), Notation::Unit);
    assert_eq!(Complex::new(0_i64, -1).notation(), Notation::MinusUnit);
    assert_eq!(Complex::new(0_i64, 6).notation(), Notation::Imaginary(6));
    assert_eq!(Complex::new(5_i64, -1).notation(), Notation::LessUnit(5));
    assert_eq!(Complex::new(5_i64, 1).notation(), Notation::PlusUnit(5));
    // a negative zero is a zero
    assert_eq!(Complex::new(2.0_f64, -0.0).notation(), Notation::Real(2.0));
}

#[test]
fn not_a_number_is_shown_as_a_sum() {
    let n = Complex::new(1.0_f64, f64::NAN).notation();
    assert!(matches!(n, Notation::Plus(_, _)));
    assert_eq!(Complex::new(1.0_f64, f64::NAN).to_text(), "1 + NaN*i");
}

#[test]
fn a_shape_is_written_down() {
    assert_eq!(Notation::Less(1.5_f64, 2.0).text(), "1.5 - 2*i");
    assert_eq!(Notation::Plus(1_u8, 2).text(), "1 + 2*i");
    assert_eq!(Notation::<i32>::Unit.text(), "i");
    assert_eq!(Notation::<i32>::MinusUnit.text(), "-i");
    assert_eq!(Notation::Real("x").text(), "x");
    assert_eq!(Notation::Imaginary(9_i8).text(), "9*i");
    assert_eq!(Notation::LessUnit(9_i8).text(), "9 - i");
    assert_eq!(Notation::PlusUnit(9_i8).text(), "9 + i");
}
