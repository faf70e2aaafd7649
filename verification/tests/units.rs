//! Unit conversions: round trips, canonical identity, cross-unit consistency
//! and affine temperature units, on the exact scalar.

use shrewnit::dimensions::{
    Angle, AngleUnit, Length, LengthUnit, LinearVelocity, LinearVelocityUnit, Temperature,
    TemperatureUnit, Time, TimeUnit,
};
use shrewnit::convert::Conv;
use shrewnit::quantity::Quantity;
use shrewnit::rational::Rational;

fn rat(n: i64, d: i64) -> Rational {
    Rational::new(n, d).unwrap()
}

#[test]
fn round_trip_linear_unit() {
    let v = rat(7, 2);
    let q = Quantity::<Length, Rational>::from_scalar(v, LengthUnit::Feet).unwrap();
    assert_eq!(q.to(LengthUnit::Feet).unwrap(), v);
}

#[test]
fn round_trip_every_length_unit() {
    let units = vec![
        LengthUnit::Millimeters,
        LengthUnit::Centimeters,
        LengthUnit::Meters,
        LengthUnit::Kilometers,
        LengthUnit::Inches,
        LengthUnit::Feet,
        LengthUnit::Yards,
        LengthUnit::Miles,
        LengthUnit::NauticalMiles,
    ];
    let v = rat(12345, 17);
    for u in units {
        let q = Quantity::<Length, Rational>::from_scalar(v, u).unwrap();
        assert_eq!(q.to(u).unwrap(), v);
    }
}

#[test]
fn round_trip_affine_units() {
    let v = rat(986, 10);
    let q = Quantity::<Temperature, Rational>::from_scalar(v, TemperatureUnit::Fahrenheit)
        .unwrap();
    assert_eq!(q.to(TemperatureUnit::Fahrenheit).unwrap(), v);

    let c = rat(-2735, 100);
    let q = Quantity::<Temperature, Rational>::from_scalar(c, TemperatureUnit::Celsius).unwrap();
    assert_eq!(q.to(TemperatureUnit::Celsius).unwrap(), c);
}

#[test]
fn canonical_unit_is_identity() {
    let v = rat(355, 113);
    let q = Quantity::<Length, Rational>::from_scalar(v, LengthUnit::Meters).unwrap();
    assert_eq!(q.canonical(), v);
    assert_eq!(q.to(LengthUnit::Meters).unwrap(), v);

    let t = Quantity::<Time, Rational>::from_scalar(v, TimeUnit::Seconds).unwrap();
    assert_eq!(t.canonical(), v);

    let k = Quantity::<Temperature, Rational>::from_scalar(v, TemperatureUnit::Kelvin).unwrap();
    assert_eq!(k.canonical(), v);
}

#[test]
fn cross_unit_consistency() {
    // The same physical length by three routes, read out in feet.
    let one_meter =
        Quantity::<Length, Rational>::from_scalar(Rational::from_int(1), LengthUnit::Meters)
            .unwrap();
    let hundred_centimeters =
        Quantity::<Length, Rational>::from_scalar(Rational::from_int(100), LengthUnit::Centimeters)
            .unwrap();
    let in_inches = Quantity::<Length, Rational>::from_scalar(
        rat(393700787401575, 10000000000000),
        LengthUnit::Inches,
    )
    .unwrap();

    let expected = rat(1250, 381);
    assert_eq!(one_meter.to(LengthUnit::Feet).unwrap(), expected);
    assert_eq!(hundred_centimeters.to(LengthUnit::Feet).unwrap(), expected);
    assert_eq!(in_inches.to(LengthUnit::Feet).unwrap(), expected);
    assert!(one_meter.eq_value(&hundred_centimeters));
    assert!(one_meter.eq_value(&in_inches));
}

#[test]
fn celsius_to_kelvin() {
    let freezing = Quantity::<Temperature, Rational>::from_scalar(
        Rational::zero(),
        TemperatureUnit::Celsius,
    )
    .unwrap();
    assert_eq!(freezing.to(TemperatureUnit::Kelvin).unwrap(), rat(27315, 100));
}

#[test]
fn fahrenheit_to_celsius() {
    let freezing = Quantity::<Temperature, Rational>::from_scalar(
        Rational::from_int(32),
        TemperatureUnit::Fahrenheit,
    )
    .unwrap();
    assert_eq!(freezing.to(TemperatureUnit::Celsius).unwrap(), Rational::zero());
}

#[test]
fn kelvin_to_fahrenheit() {
    let freezing = Quantity::<Temperature, Rational>::from_scalar(
        rat(27315, 100),
        TemperatureUnit::Kelvin,
    )
    .unwrap();
    assert_eq!(freezing.to(TemperatureUnit::Fahrenheit).unwrap(), Rational::from_int(32));
}

#[test]
fn boiling_point_celsius_to_fahrenheit() {
    let boiling = Quantity::<Temperature, Rational>::from_scalar(
        Rational::from_int(100),
        TemperatureUnit::Celsius,
    )
    .unwrap();
    assert_eq!(boiling.to(TemperatureUnit::Fahrenheit).unwrap(), Rational::from_int(212));
}

#[test]
fn readout_and_reconstruction_is_identity() {
    // Reading out in any unit and reconstructing from the result restores q.
    let q = Quantity::<Length, Rational>::from_scalar(rat(123, 7), LengthUnit::Inches).unwrap();
    for u in [
        LengthUnit::Millimeters,
        LengthUnit::Yards,
        LengthUnit::Miles,
        LengthUnit::Inches,
    ] {
        let s = q.to(u).unwrap();
        let q2 = Quantity::<Length, Rational>::from_scalar(s, u).unwrap();
        assert!(q2.eq_value(&q));
        assert_eq!(q2.canonical(), q.canonical());
    }
    // The same through an affine unit.
    let t = Quantity::<Temperature, Rational>::from_scalar(rat(50, 1), TemperatureUnit::Kelvin)
        .unwrap();
    let f = t.to(TemperatureUnit::Fahrenheit).unwrap();
    let t2 =
        Quantity::<Temperature, Rational>::from_scalar(f, TemperatureUnit::Fahrenheit).unwrap();
    assert_eq!(t2.canonical(), t.canonical());
}

#[test]
fn mile_is_5280_feet() {
    let mile =
        Quantity::<Length, Rational>::from_scalar(Rational::from_int(1), LengthUnit::Miles)
            .unwrap();
    assert_eq!(mile.to(LengthUnit::Feet).unwrap(), Rational::from_int(5280));
}

#[test]
fn kilometers_per_hour_exact() {
    let v = Quantity::<LinearVelocity, Rational>::from_scalar(
        Rational::from_int(36),
        LinearVelocityUnit::KilometersPerHour,
    )
    .unwrap();
    assert_eq!(
        v.to(LinearVelocityUnit::MetersPerSecond).unwrap(),
        Rational::from_int(10)
    );
}

#[test]
fn rotations_to_radians() {
    let two_turns =
        Quantity::<Angle, Rational>::from_scalar(Rational::from_int(2), AngleUnit::Rotations)
            .unwrap();
    assert_eq!(
        two_turns.to(AngleUnit::Radians).unwrap(),
        rat(1256637061435918, 100000000000000)
    );
}

#[test]
fn one_of_a_linear_unit() {
    let foot = Quantity::<Length, Rational>::one(LengthUnit::Feet).unwrap();
    assert_eq!(foot.to(LengthUnit::Meters).unwrap(), rat(3048, 10000));
    assert_eq!(foot.to(LengthUnit::Feet).unwrap(), Rational::from_int(1));
}

#[test]
fn one_of_an_affine_unit_is_refused() {
    // An affine unit's "one" is meaningless: scaling it would not scale the
    // physical quantity.
    assert!(Quantity::<Temperature, Rational>::one(TemperatureUnit::Celsius).is_none());
    assert!(Quantity::<Temperature, Rational>::one(TemperatureUnit::Fahrenheit).is_none());
    assert!(Quantity::<Temperature, Rational>::one(TemperatureUnit::Kelvin).is_some());
}

#[test]
fn custom_unit_via_conversion_pair() {
    // A furlong, defined by its conversion pair alone: 201.168 meters. It
    // composes with everything else of the dimension, since operations only
    // touch canonical values.
    let furlong = Conv::lin(201168, 1000);
    let q = Quantity::<Length, Rational>::from_conv(Rational::from_int(1), &furlong).unwrap();
    assert_eq!(q.to(LengthUnit::Yards).unwrap(), Rational::from_int(220));
    assert_eq!(q.to_conv(&furlong).unwrap(), Rational::from_int(1));
    let two_seconds =
        Quantity::<Time, Rational>::from_scalar(Rational::from_int(2), TimeUnit::Seconds).unwrap();
    let v: Quantity<LinearVelocity, Rational> = q.div_dim(two_seconds).unwrap();
    assert_eq!(
        v.to(LinearVelocityUnit::MetersPerSecond).unwrap(),
        rat(100584, 1000)
    );
}

#[test]
fn one_canonical_amounts() {
    // How much of the unit makes up one canonical unit; linear units only.
    let per_meter = Quantity::<Length, Rational>::one_canonical(LengthUnit::Feet).unwrap();
    assert_eq!(per_meter, rat(1250, 381));
    assert_eq!(
        Quantity::<Length, Rational>::one_canonical(LengthUnit::Meters).unwrap(),
        Rational::from_int(1)
    );
    assert!(Quantity::<Temperature, Rational>::one_canonical(TemperatureUnit::Celsius).is_none());
}
