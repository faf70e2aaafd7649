//! The operation graph: cross-dimension multiplication and division along
//! the declared rules, with exact results.

use shrewnit::dimensions::{
    Angle, AngleUnit, Area, AreaUnit, Current, CurrentUnit, Energy, EnergyUnit, Force, ForceUnit,
    Length, LengthUnit, LinearAcceleration, LinearAccelerationUnit, LinearVelocity,
    LinearVelocityUnit, Mass, MassUnit, Power, PowerUnit, Pressure, PressureUnit, Time, TimeUnit,
    Torque, TorqueUnit, Voltage, VoltageUnit, Volume, VolumeUnit,
};
use shrewnit::quantity::Quantity;
use shrewnit::rational::Rational;

fn rat(n: i64, d: i64) -> Rational {
    Rational::new(n, d).unwrap()
}

fn meters(n: i64) -> Quantity<Length, Rational> {
    Quantity::from_scalar(Rational::from_int(n), LengthUnit::Meters).unwrap()
}

fn seconds(n: i64) -> Quantity<Time, Rational> {
    Quantity::from_scalar(Rational::from_int(n), TimeUnit::Seconds).unwrap()
}

#[test]
fn five_meters_over_two_seconds() {
    let velocity: Quantity<LinearVelocity, Rational> =
        meters(5).div_dim(seconds(2)).unwrap();
    assert_eq!(
        velocity.to(LinearVelocityUnit::MetersPerSecond).unwrap(),
        rat(5, 2)
    );
}

#[test]
fn sixty_miles_per_hour_for_an_hour() {
    let speed = Quantity::<LinearVelocity, Rational>::from_scalar(
        Rational::from_int(60),
        LinearVelocityUnit::MilesPerHour,
    )
    .unwrap();
    let hour =
        Quantity::<Time, Rational>::from_scalar(Rational::from_int(1), TimeUnit::Hours).unwrap();
    let distance: Quantity<Length, Rational> = speed.mul_dim(hour).unwrap();
    assert_eq!(distance.to(LengthUnit::Miles).unwrap(), Rational::from_int(60));
}

#[test]
fn length_times_length_is_area() {
    let area: Quantity<Area, Rational> = meters(2).mul_dim(meters(3)).unwrap();
    assert_eq!(area.to(AreaUnit::SquareMeters).unwrap(), Rational::from_int(6));
}

#[test]
fn area_times_length_is_volume() {
    let area: Quantity<Area, Rational> = meters(2).mul_dim(meters(3)).unwrap();
    let volume: Quantity<Volume, Rational> = area.mul_dim(meters(2)).unwrap();
    assert_eq!(volume.to(VolumeUnit::CubicMeters).unwrap(), Rational::from_int(12));
    let back: Quantity<Area, Rational> = volume.div_dim(meters(2)).unwrap();
    assert_eq!(back.to(AreaUnit::SquareMeters).unwrap(), Rational::from_int(6));
}

#[test]
fn mass_times_acceleration_is_force() {
    let mass =
        Quantity::<Mass, Rational>::from_scalar(Rational::from_int(3), MassUnit::Kilograms)
            .unwrap();
    let acceleration = Quantity::<LinearAcceleration, Rational>::from_scalar(
        Rational::from_int(2),
        LinearAccelerationUnit::MetersPerSecondSquared,
    )
    .unwrap();
    let force: Quantity<Force, Rational> = mass.mul_dim(acceleration).unwrap();
    assert_eq!(force.to(ForceUnit::Newtons).unwrap(), Rational::from_int(6));
    let back: Quantity<Mass, Rational> = force.div_dim(acceleration).unwrap();
    assert_eq!(back.to(MassUnit::Kilograms).unwrap(), Rational::from_int(3));
}

#[test]
fn force_over_area_is_pressure() {
    let force =
        Quantity::<Force, Rational>::from_scalar(Rational::from_int(6), ForceUnit::Newtons)
            .unwrap();
    let area: Quantity<Area, Rational> = meters(1).mul_dim(meters(2)).unwrap();
    let pressure: Quantity<Pressure, Rational> = force.div_dim(area).unwrap();
    assert_eq!(pressure.to(PressureUnit::Pascals).unwrap(), Rational::from_int(3));
    let back: Quantity<Force, Rational> = pressure.mul_dim(area).unwrap();
    assert_eq!(back.to(ForceUnit::Newtons).unwrap(), Rational::from_int(6));
}

#[test]
fn torque_times_angle_is_energy() {
    let torque = Quantity::<Torque, Rational>::from_scalar(
        Rational::from_int(2),
        TorqueUnit::NewtonMetersPerRadian,
    )
    .unwrap();
    let angle =
        Quantity::<Angle, Rational>::from_scalar(Rational::from_int(3), AngleUnit::Radians)
            .unwrap();
    let energy: Quantity<Energy, Rational> = torque.mul_dim(angle).unwrap();
    assert_eq!(energy.to(EnergyUnit::Joules).unwrap(), Rational::from_int(6));
}

#[test]
fn energy_over_time_is_power() {
    let energy =
        Quantity::<Energy, Rational>::from_scalar(Rational::from_int(10), EnergyUnit::Joules)
            .unwrap();
    let power: Quantity<Power, Rational> = energy.div_dim(seconds(2)).unwrap();
    assert_eq!(power.to(PowerUnit::Watts).unwrap(), Rational::from_int(5));
}

#[test]
fn power_over_voltage_is_current() {
    let power =
        Quantity::<Power, Rational>::from_scalar(Rational::from_int(10), PowerUnit::Watts)
            .unwrap();
    let voltage =
        Quantity::<Voltage, Rational>::from_scalar(Rational::from_int(5), VoltageUnit::Volts)
            .unwrap();
    let current: Quantity<Current, Rational> = power.div_dim(voltage).unwrap();
    assert_eq!(current.to(CurrentUnit::Amperes).unwrap(), Rational::from_int(2));
    let back: Quantity<Power, Rational> = voltage.mul_dim(current).unwrap();
    assert_eq!(back.to(PowerUnit::Watts).unwrap(), Rational::from_int(10));
}

#[test]
fn velocity_over_time_is_acceleration() {
    let speed = Quantity::<LinearVelocity, Rational>::from_scalar(
        Rational::from_int(60),
        LinearVelocityUnit::MilesPerHour,
    )
    .unwrap();
    let acceleration: Quantity<LinearAcceleration, Rational> =
        speed.div_dim(seconds(5)).unwrap();
    // 60 mph is 26.8224 m/s exactly; over 5 s that is 5.36448 m/s^2.
    assert_eq!(
        acceleration
            .to(LinearAccelerationUnit::MetersPerSecondSquared)
            .unwrap(),
        rat(536448, 100000)
    );
}

#[test]
fn same_dimension_arithmetic() {
    let sum = meters(1).add(meters(2)).unwrap();
    assert_eq!(sum.to(LengthUnit::Meters).unwrap(), Rational::from_int(3));
    let difference = meters(5).sub(meters(2)).unwrap();
    assert_eq!(difference.to(LengthUnit::Meters).unwrap(), Rational::from_int(3));
    let scaled = meters(3).mul_scalar(Rational::from_int(2)).unwrap();
    assert_eq!(scaled.to(LengthUnit::Meters).unwrap(), Rational::from_int(6));
    let divided = meters(3).div_scalar(Rational::from_int(2)).unwrap();
    assert_eq!(divided.to(LengthUnit::Meters).unwrap(), rat(3, 2));
}

#[test]
fn half_meters_added_in_feet_world() {
    // Addition happens on canonical values: no conversion drift.
    let a = Quantity::<Length, Rational>::from_scalar(rat(1, 2), LengthUnit::Feet).unwrap();
    let b = Quantity::<Length, Rational>::from_scalar(rat(1, 2), LengthUnit::Feet).unwrap();
    let sum = a.add(b).unwrap();
    assert_eq!(sum.to(LengthUnit::Feet).unwrap(), Rational::from_int(1));
}

#[test]
fn compound_assignment_forms() {
    let mut q = meters(10);
    assert!(q.add_assign(meters(5)));
    assert_eq!(q.to(LengthUnit::Meters).unwrap(), Rational::from_int(15));
    assert!(q.sub_assign(meters(3)));
    assert_eq!(q.to(LengthUnit::Meters).unwrap(), Rational::from_int(12));
    assert!(q.mul_assign_scalar(Rational::from_int(2)));
    assert_eq!(q.to(LengthUnit::Meters).unwrap(), Rational::from_int(24));
    assert!(q.div_assign_scalar(Rational::from_int(4)));
    assert_eq!(q.to(LengthUnit::Meters).unwrap(), Rational::from_int(6));
    // A failing step reports so and leaves the value alone.
    assert!(!q.div_assign_scalar(Rational::zero()));
    assert_eq!(q.to(LengthUnit::Meters).unwrap(), Rational::from_int(6));
}

#[test]
fn quantity_ordering() {
    let short = Quantity::<Length, Rational>::from_scalar(
        Rational::from_int(11),
        LengthUnit::Inches,
    )
    .unwrap();
    let long = Quantity::<Length, Rational>::from_scalar(
        Rational::from_int(1),
        LengthUnit::Feet,
    )
    .unwrap();
    assert!(short.lt_value(&long));
    assert!(!long.lt_value(&short));
    assert!(!short.eq_value(&long));
}
