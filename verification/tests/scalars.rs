//! The scalar representations: exact rational arithmetic with its failure
//! cases, and the truncating 64-bit integer scalar.

use shrewnit::dimensions::{Length, LengthUnit, Temperature, TemperatureUnit, Time, TimeUnit};
use shrewnit::dimensions::{LinearVelocity, LinearVelocityUnit};
use shrewnit::quantity::Quantity;
use shrewnit::rational::Rational;

fn rat(n: i64, d: i64) -> Rational {
    Rational::new(n, d).unwrap()
}

#[test]
fn rational_is_canonical() {
    // Equal values are stored identically, whatever form they were built in.
    assert_eq!(rat(10, 4), rat(5, 2));
    assert_eq!(rat(-10, 4), rat(-5, 2));
    assert_eq!(rat(3, -6), rat(-1, 2));
    assert_eq!(rat(0, 17), Rational::zero());
    assert_eq!(rat(10, 4).num(), 5);
    assert_eq!(rat(10, 4).den(), 2);
}

#[test]
fn rational_arithmetic_is_exact() {
    let third = rat(1, 3);
    let sixth = rat(1, 6);
    assert_eq!(third.checked_add(sixth).unwrap(), rat(1, 2));
    assert_eq!(third.checked_sub(sixth).unwrap(), sixth);
    assert_eq!(third.checked_mul(sixth).unwrap(), rat(1, 18));
    assert_eq!(third.checked_div(sixth).unwrap(), Rational::from_int(2));
    // A tenth added ten times is exactly one.
    let tenth = rat(1, 10);
    let mut sum = Rational::zero();
    for _ in 0..10 {
        sum = sum.checked_add(tenth).unwrap();
    }
    assert_eq!(sum, Rational::one());
}

#[test]
fn rational_division_by_zero_fails() {
    assert!(Rational::new(1, 0).is_none());
    assert!(Rational::one().checked_div(Rational::zero()).is_none());
}

#[test]
fn rational_overflow_fails() {
    let big = Rational::from_int(i64::MAX);
    assert!(big.checked_mul(Rational::from_int(2)).is_none());
    assert!(big.checked_add(Rational::one()).is_none());
    // A product that reduces back into range succeeds.
    assert!(big.checked_mul(rat(2, 4)).is_some());
}

#[test]
fn rational_comparison_and_truncation() {
    assert!(rat(1, 3).lt_value(&rat(1, 2)));
    assert!(!rat(1, 2).lt_value(&rat(1, 3)));
    assert!(rat(-1, 2).lt_value(&rat(1, 3)));
    assert!(rat(2, 4).eq_value(&rat(1, 2)));
    assert_eq!(rat(7, 2).to_int_trunc(), 3);
    assert_eq!(rat(-7, 2).to_int_trunc(), -3);
    assert_eq!(rat(6, 2).to_int_trunc(), 3);
}

#[test]
fn quantity_scalar_division_by_zero_fails() {
    let q = Quantity::<Length, Rational>::from_scalar(rat(3, 1), LengthUnit::Meters).unwrap();
    assert!(q.div_scalar(Rational::zero()).is_none());
}

#[test]
fn integer_feet_conversion_truncates() {
    // 300 feet is exactly 91.44 meters; the integer scalar stores 91.
    let q = Quantity::<Length, i64>::from_scalar(300, LengthUnit::Feet).unwrap();
    assert_eq!(q.to(LengthUnit::Meters).unwrap(), 91);
    // The exact scalar keeps all of it.
    let exact =
        Quantity::<Length, Rational>::from_scalar(Rational::from_int(300), LengthUnit::Feet)
            .unwrap();
    assert_eq!(exact.to(LengthUnit::Meters).unwrap(), rat(9144, 100));
}

#[test]
fn integer_cross_division_truncates() {
    // Integer-typed quantities divide with integer semantics: expected
    // truncation, not a bug.
    let distance = Quantity::<Length, i64>::from_scalar(300, LengthUnit::Feet).unwrap();
    let time = Quantity::<Time, i64>::from_scalar(2, TimeUnit::Seconds).unwrap();
    let velocity: Quantity<LinearVelocity, i64> = distance.div_dim(time).unwrap();
    // 91 (truncated meters) over 2 seconds truncates to 45.
    assert_eq!(
        velocity.to(LinearVelocityUnit::MetersPerSecond).unwrap(),
        45
    );

    let seven = Quantity::<Length, i64>::from_scalar(7, LengthUnit::Meters).unwrap();
    let two = Quantity::<Time, i64>::from_scalar(2, TimeUnit::Seconds).unwrap();
    let v: Quantity<LinearVelocity, i64> = seven.div_dim(two).unwrap();
    assert_eq!(v.to(LinearVelocityUnit::MetersPerSecond).unwrap(), 3);
}

#[test]
fn integer_affine_temperature() {
    // Minus forty is the fixed point of the Fahrenheit/Celsius pair, and
    // survives integer truncation both ways.
    let q = Quantity::<Temperature, i64>::from_scalar(-40, TemperatureUnit::Fahrenheit).unwrap();
    assert_eq!(q.to(TemperatureUnit::Celsius).unwrap(), -40);
    // 100 degrees Fahrenheit is 310.92 kelvin; the integer scalar stores 310.
    let q = Quantity::<Temperature, i64>::from_scalar(100, TemperatureUnit::Fahrenheit).unwrap();
    assert_eq!(q.to(TemperatureUnit::Kelvin).unwrap(), 310);
}

#[test]
fn integer_overflow_fails() {
    let big = Quantity::<Length, i64>::from_scalar(i64::MAX, LengthUnit::Meters).unwrap();
    assert!(big.add(big).is_none());
    // Reading out in a smaller unit overflows the integer range.
    assert!(big.to(LengthUnit::Millimeters).is_none());
    // Division by a zero-valued quantity fails rather than panicking.
    let time = Quantity::<Time, i64>::from_scalar(0, TimeUnit::Seconds).unwrap();
    let d = Quantity::<Length, i64>::from_scalar(5, LengthUnit::Meters).unwrap();
    let v: Option<Quantity<LinearVelocity, i64>> = d.div_dim(time);
    assert!(v.is_none());
}

#[test]
fn integer_scalar_arithmetic() {
    let a = Quantity::<Length, i64>::from_scalar(7, LengthUnit::Meters).unwrap();
    let b = Quantity::<Length, i64>::from_scalar(5, LengthUnit::Meters).unwrap();
    assert_eq!(a.add(b).unwrap().to(LengthUnit::Meters).unwrap(), 12);
    assert_eq!(a.sub(b).unwrap().to(LengthUnit::Meters).unwrap(), 2);
    assert_eq!(a.mul_scalar(3).unwrap().to(LengthUnit::Meters).unwrap(), 21);
    // Scalar division truncates toward zero.
    assert_eq!(a.div_scalar(2).unwrap().to(LengthUnit::Meters).unwrap(), 3);
    assert_eq!(
        Quantity::<Length, i64>::from_scalar(-7, LengthUnit::Meters)
            .unwrap()
            .div_scalar(2)
            .unwrap()
            .to(LengthUnit::Meters)
            .unwrap(),
        -3
    );
}
