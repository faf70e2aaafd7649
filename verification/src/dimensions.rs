//! The built-in catalog of dimensions and their units, with the declared
//! operation graph between them.
//!
//! Every conversion ratio is carried exactly, as a rational scale: a unit
//! declared as "R per canonical" converts to canonical by dividing by R, and
//! one declared as "per L canonical" by multiplying by L. Angle is a base
//! dimension here, so torque is measured per radian. Temperature is an
//! isolated dimension whose operation graph is empty; its Celsius and
//! Fahrenheit units are affine, with an additive offset.

use vstd::prelude::*;

use crate::convert::{affine_data, lin_data, Conv, ConvData};
use crate::dimension::{Dimension, UnitOf};
use crate::ops::{CrossDiv, CrossMul};
use crate::rational::{lemma_canon_value, lemma_small_ok};
use crate::ratio::rat_int;

verus! {

/// A distance. Canonically stored in meters.
pub struct Length;

/// The units of `Length`.
#[derive(Clone, Copy, PartialEq, Eq, Structural, Debug)]
pub enum LengthUnit {
    /// One thousandth of a meter.
    Millimeters,
    /// One hundredth of a meter.
    Centimeters,
    /// The canonical unit of length.
    Meters,
    /// One thousand meters.
    Kilometers,
    /// The inch.
    Inches,
    /// The foot, 0.3048 meters.
    Feet,
    /// The yard, 0.9144 meters.
    Yards,
    /// The mile, 1609.344 meters.
    Miles,
    /// The nautical mile, 1852 meters.
    NauticalMiles,
}

impl UnitOf for LengthUnit {
    open spec fn conv_spec(self) -> ConvData {
        match self {
            LengthUnit::Millimeters => lin_data(1, 1000),
            LengthUnit::Centimeters => lin_data(1, 100),
            LengthUnit::Meters => lin_data(1, 1),
            LengthUnit::Kilometers => lin_data(1000, 1),
            LengthUnit::Inches => lin_data(400000000000, 15748031496063),
            LengthUnit::Feet => lin_data(381, 1250),
            LengthUnit::Yards => lin_data(1143, 1250),
            LengthUnit::Miles => lin_data(201168, 125),
            LengthUnit::NauticalMiles => lin_data(1852, 1),
        }
    }

    proof fn lemma_conv_wf(self) {
        match self {
            LengthUnit::Millimeters => {
                lemma_small_ok(1, 1000);
            },
            LengthUnit::Centimeters => {
                lemma_small_ok(1, 100);
            },
            LengthUnit::Meters => {
                lemma_small_ok(1, 1);
            },
            LengthUnit::Kilometers => {
                lemma_small_ok(1000, 1);
            },
            LengthUnit::Inches => {
                lemma_small_ok(400000000000, 15748031496063);
            },
            LengthUnit::Feet => {
                lemma_small_ok(381, 1250);
            },
            LengthUnit::Yards => {
                lemma_small_ok(1143, 1250);
            },
            LengthUnit::Miles => {
                lemma_small_ok(201168, 125);
            },
            LengthUnit::NauticalMiles => {
                lemma_small_ok(1852, 1);
            },
        }
    }

    fn conv(self) -> (c: Conv) {
        match self {
            LengthUnit::Millimeters => Conv::lin(1, 1000),
            LengthUnit::Centimeters => Conv::lin(1, 100),
            LengthUnit::Meters => Conv::lin(1, 1),
            LengthUnit::Kilometers => Conv::lin(1000, 1),
            LengthUnit::Inches => Conv::lin(400000000000, 15748031496063),
            LengthUnit::Feet => Conv::lin(381, 1250),
            LengthUnit::Yards => Conv::lin(1143, 1250),
            LengthUnit::Miles => Conv::lin(201168, 125),
            LengthUnit::NauticalMiles => Conv::lin(1852, 1),
        }
    }
}

impl Dimension for Length {
    type Unit = LengthUnit;

    open spec fn canonical_unit_spec() -> LengthUnit {
        LengthUnit::Meters
    }

    proof fn lemma_canonical_identity() {
        lemma_canon_value(rat_int(1));
    }

    fn canonical_unit() -> (u: LengthUnit) {
        LengthUnit::Meters
    }
}

/// An area. Canonically stored in square meters.
pub struct Area;

/// The units of `Area`.
#[derive(Clone, Copy, PartialEq, Eq, Structural, Debug)]
pub enum AreaUnit {
    /// The square millimeter.
    SquareMillimeters,
    /// The square centimeter.
    SquareCentimeters,
    /// The canonical unit of area.
    SquareMeters,
    /// The square kilometer.
    SquareKilometers,
    /// The square inch.
    SquareInches,
    /// The square foot.
    SquareFeet,
    /// The square yard.
    SquareYards,
    /// The acre.
    Acres,
}

impl UnitOf for AreaUnit {
    open spec fn conv_spec(self) -> ConvData {
        match self {
            AreaUnit::SquareMillimeters => lin_data(1, 1000000),
            AreaUnit::SquareCentimeters => lin_data(1, 10000),
            AreaUnit::SquareMeters => lin_data(1, 1),
            AreaUnit::SquareKilometers => lin_data(1000000, 1),
            AreaUnit::SquareInches => lin_data(5000000000, 7750015500031),
            AreaUnit::SquareFeet => lin_data(10000000000000, 107639104167097),
            AreaUnit::SquareYards => lin_data(1306449, 1562500),
            AreaUnit::Acres => lin_data(316160658, 78125),
        }
    }

    proof fn lemma_conv_wf(self) {
        match self {
            AreaUnit::SquareMillimeters => {
                lemma_small_ok(1, 1000000);
            },
            AreaUnit::SquareCentimeters => {
                lemma_small_ok(1, 10000);
            },
            AreaUnit::SquareMeters => {
                lemma_small_ok(1, 1);
            },
            AreaUnit::SquareKilometers => {
                lemma_small_ok(1000000, 1);
            },
            AreaUnit::SquareInches => {
                lemma_small_ok(5000000000, 7750015500031);
            },
            AreaUnit::SquareFeet => {
                lemma_small_ok(10000000000000, 107639104167097);
            },
            AreaUnit::SquareYards => {
                lemma_small_ok(1306449, 1562500);
            },
            AreaUnit::Acres => {
                lemma_small_ok(316160658, 78125);
            },
        }
    }

    fn conv(self) -> (c: Conv) {
        match self {
            AreaUnit::SquareMillimeters => Conv::lin(1, 1000000),
            AreaUnit::SquareCentimeters => Conv::lin(1, 10000),
            AreaUnit::SquareMeters => Conv::lin(1, 1),
            AreaUnit::SquareKilometers => Conv::lin(1000000, 1),
            AreaUnit::SquareInches => Conv::lin(5000000000, 7750015500031),
            AreaUnit::SquareFeet => Conv::lin(10000000000000, 107639104167097),
            AreaUnit::SquareYards => Conv::lin(1306449, 1562500),
            AreaUnit::Acres => Conv::lin(316160658, 78125),
        }
    }
}

impl Dimension for Area {
    type Unit = AreaUnit;

    open spec fn canonical_unit_spec() -> AreaUnit {
        AreaUnit::SquareMeters
    }

    proof fn lemma_canonical_identity() {
        lemma_canon_value(rat_int(1));
    }

    fn canonical_unit() -> (u: AreaUnit) {
        AreaUnit::SquareMeters
    }
}

/// A volume. Canonically stored in cubic meters.
pub struct Volume;

/// The units of `Volume`.
#[derive(Clone, Copy, PartialEq, Eq, Structural, Debug)]
pub enum VolumeUnit {
    /// The milliliter.
    Milliliters,
    /// The liter.
    Liters,
    /// The cubic millimeter.
    CubicMillimeters,
    /// The cubic centimeter.
    CubicCentimeters,
    /// The canonical unit of volume.
    CubicMeters,
    /// The cubic kilometer.
    CubicKilometers,
    /// The cubic inch.
    CubicInches,
    /// The cubic foot.
    CubicFeet,
    /// The cubic yard.
    CubicYards,
    /// The fluid ounce.
    FluidOunces,
    /// The pint.
    Pints,
    /// The quart.
    Quarts,
    /// The gallon.
    Gallons,
}

impl UnitOf for VolumeUnit {
    open spec fn conv_spec(self) -> ConvData {
        match self {
            VolumeUnit::Milliliters => lin_data(1, 1000000),
            VolumeUnit::Liters => lin_data(1, 1000),
            VolumeUnit::CubicMillimeters => lin_data(1, 1000000000),
            VolumeUnit::CubicCentimeters => lin_data(1, 1000000),
            VolumeUnit::CubicMeters => lin_data(1, 1),
            VolumeUnit::CubicKilometers => lin_data(1000000000, 1),
            VolumeUnit::CubicInches => lin_data(10000000000, 610237440947323),
            VolumeUnit::CubicFeet => lin_data(5000000000000, 176573333607443),
            VolumeUnit::CubicYards => lin_data(100000000000000, 130795061931439),
            VolumeUnit::FluidOunces => lin_data(1000000000, 33814022701843),
            VolumeUnit::Pints => lin_data(100000000000, 211337641886519),
            VolumeUnit::Quarts => lin_data(100000000000, 105668820943259),
            VolumeUnit::Gallons => lin_data(250000000000, 66043013089537),
        }
    }

    proof fn lemma_conv_wf(self) {
        match self {
            VolumeUnit::Milliliters => {
                lemma_small_ok(1, 1000000);
            },
            VolumeUnit::Liters => {
                lemma_small_ok(1, 1000);
            },
            VolumeUnit::CubicMillimeters => {
                lemma_small_ok(1, 1000000000);
            },
            VolumeUnit::CubicCentimeters => {
                lemma_small_ok(1, 1000000);
            },
            VolumeUnit::CubicMeters => {
                lemma_small_ok(1, 1);
            },
            VolumeUnit::CubicKilometers => {
                lemma_small_ok(1000000000, 1);
            },
            VolumeUnit::CubicInches => {
                lemma_small_ok(10000000000, 610237440947323);
            },
            VolumeUnit::CubicFeet => {
                lemma_small_ok(5000000000000, 176573333607443);
            },
            VolumeUnit::CubicYards => {
                lemma_small_ok(100000000000000, 130795061931439);
            },
            VolumeUnit::FluidOunces => {
                lemma_small_ok(1000000000, 33814022701843);
            },
            VolumeUnit::Pints => {
                lemma_small_ok(100000000000, 211337641886519);
            },
            VolumeUnit::Quarts => {
                lemma_small_ok(100000000000, 105668820943259);
            },
            VolumeUnit::Gallons => {
                lemma_small_ok(250000000000, 66043013089537);
            },
        }
    }

    fn conv(self) -> (c: Conv) {
        match self {
            VolumeUnit::Milliliters => Conv::lin(1, 1000000),
            VolumeUnit::Liters => Conv::lin(1, 1000),
            VolumeUnit::CubicMillimeters => Conv::lin(1, 1000000000),
            VolumeUnit::CubicCentimeters => Conv::lin(1, 1000000),
            VolumeUnit::CubicMeters => Conv::lin(1, 1),
            VolumeUnit::CubicKilometers => Conv::lin(1000000000, 1),
            VolumeUnit::CubicInches => Conv::lin(10000000000, 610237440947323),
            VolumeUnit::CubicFeet => Conv::lin(5000000000000, 176573333607443),
            VolumeUnit::CubicYards => Conv::lin(100000000000000, 130795061931439),
            VolumeUnit::FluidOunces => Conv::lin(1000000000, 33814022701843),
            VolumeUnit::Pints => Conv::lin(100000000000, 211337641886519),
            VolumeUnit::Quarts => Conv::lin(100000000000, 105668820943259),
            VolumeUnit::Gallons => Conv::lin(250000000000, 66043013089537),
        }
    }
}

impl Dimension for Volume {
    type Unit = VolumeUnit;

    open spec fn canonical_unit_spec() -> VolumeUnit {
        VolumeUnit::CubicMeters
    }

    proof fn lemma_canonical_identity() {
        lemma_canon_value(rat_int(1));
    }

    fn canonical_unit() -> (u: VolumeUnit) {
        VolumeUnit::CubicMeters
    }
}

/// A length of time. Canonically stored in seconds.
pub struct Time;

/// The units of `Time`.
#[derive(Clone, Copy, PartialEq, Eq, Structural, Debug)]
pub enum TimeUnit {
    /// One millionth of a second.
    Microseconds,
    /// One thousandth of a second.
    Milliseconds,
    /// The canonical unit of time.
    Seconds,
    /// Sixty seconds.
    Minutes,
    /// 3600 seconds.
    Hours,
    /// 86400 seconds.
    Days,
    /// 604800 seconds.
    Weeks,
    /// 31556926 seconds.
    Years,
}

impl UnitOf for TimeUnit {
    open spec fn conv_spec(self) -> ConvData {
        match self {
            TimeUnit::Microseconds => lin_data(1, 1000000),
            TimeUnit::Milliseconds => lin_data(1, 1000),
            TimeUnit::Seconds => lin_data(1, 1),
            TimeUnit::Minutes => lin_data(60, 1),
            TimeUnit::Hours => lin_data(3600, 1),
            TimeUnit::Days => lin_data(86400, 1),
            TimeUnit::Weeks => lin_data(604800, 1),
            TimeUnit::Years => lin_data(31556926, 1),
        }
    }

    proof fn lemma_conv_wf(self) {
        match self {
            TimeUnit::Microseconds => {
                lemma_small_ok(1, 1000000);
            },
            TimeUnit::Milliseconds => {
                lemma_small_ok(1, 1000);
            },
            TimeUnit::Seconds => {
                lemma_small_ok(1, 1);
            },
            TimeUnit::Minutes => {
                lemma_small_ok(60, 1);
            },
            TimeUnit::Hours => {
                lemma_small_ok(3600, 1);
            },
            TimeUnit::Days => {
                lemma_small_ok(86400, 1);
            },
            TimeUnit::Weeks => {
                lemma_small_ok(604800, 1);
            },
            TimeUnit::Years => {
                lemma_small_ok(31556926, 1);
            },
        }
    }

    fn conv(self) -> (c: Conv) {
        match self {
            TimeUnit::Microseconds => Conv::lin(1, 1000000),
            TimeUnit::Milliseconds => Conv::lin(1, 1000),
            TimeUnit::Seconds => Conv::lin(1, 1),
            TimeUnit::Minutes => Conv::lin(60, 1),
            TimeUnit::Hours => Conv::lin(3600, 1),
            TimeUnit::Days => Conv::lin(86400, 1),
            TimeUnit::Weeks => Conv::lin(604800, 1),
            TimeUnit::Years => Conv::lin(31556926, 1),
        }
    }
}

impl Dimension for Time {
    type Unit = TimeUnit;

    open spec fn canonical_unit_spec() -> TimeUnit {
        TimeUnit::Seconds
    }

    proof fn lemma_canonical_identity() {
        lemma_canon_value(rat_int(1));
    }

    fn canonical_unit() -> (u: TimeUnit) {
        TimeUnit::Seconds
    }
}

/// A linear velocity. Canonically stored in meters per second.
pub struct LinearVelocity;

/// The units of `LinearVelocity`.
#[derive(Clone, Copy, PartialEq, Eq, Structural, Debug)]
pub enum LinearVelocityUnit {
    /// The canonical unit of linear velocity.
    MetersPerSecond,
    /// One thousand meters per second.
    KilometersPerSecond,
    /// The kilometer per hour.
    KilometersPerHour,
    /// The foot per second.
    FeetPerSecond,
    /// The mile per hour.
    MilesPerHour,
}

impl UnitOf for LinearVelocityUnit {
    open spec fn conv_spec(self) -> ConvData {
        match self {
            LinearVelocityUnit::MetersPerSecond => lin_data(1, 1),
            LinearVelocityUnit::KilometersPerSecond => lin_data(1000, 1),
            LinearVelocityUnit::KilometersPerHour => lin_data(5, 18),
            LinearVelocityUnit::FeetPerSecond => lin_data(381, 1250),
            LinearVelocityUnit::MilesPerHour => lin_data(1397, 3125),
        }
    }

    proof fn lemma_conv_wf(self) {
        match self {
            LinearVelocityUnit::MetersPerSecond => {
                lemma_small_ok(1, 1);
            },
            LinearVelocityUnit::KilometersPerSecond => {
                lemma_small_ok(1000, 1);
            },
            LinearVelocityUnit::KilometersPerHour => {
                lemma_small_ok(5, 18);
            },
            LinearVelocityUnit::FeetPerSecond => {
                lemma_small_ok(381, 1250);
            },
            LinearVelocityUnit::MilesPerHour => {
                lemma_small_ok(1397, 3125);
            },
        }
    }

    fn conv(self) -> (c: Conv) {
        match self {
            LinearVelocityUnit::MetersPerSecond => Conv::lin(1, 1),
            LinearVelocityUnit::KilometersPerSecond => Conv::lin(1000, 1),
            LinearVelocityUnit::KilometersPerHour => Conv::lin(5, 18),
            LinearVelocityUnit::FeetPerSecond => Conv::lin(381, 1250),
            LinearVelocityUnit::MilesPerHour => Conv::lin(1397, 3125),
        }
    }
}

impl Dimension for LinearVelocity {
    type Unit = LinearVelocityUnit;

    open spec fn canonical_unit_spec() -> LinearVelocityUnit {
        LinearVelocityUnit::MetersPerSecond
    }

    proof fn lemma_canonical_identity() {
        lemma_canon_value(rat_int(1));
    }

    fn canonical_unit() -> (u: LinearVelocityUnit) {
        LinearVelocityUnit::MetersPerSecond
    }
}

/// A linear acceleration. Canonically stored in meters per second squared.
pub struct LinearAcceleration;

/// The units of `LinearAcceleration`.
#[derive(Clone, Copy, PartialEq, Eq, Structural, Debug)]
pub enum LinearAccelerationUnit {
    /// The canonical unit of linear acceleration.
    MetersPerSecondSquared,
    /// The foot per second squared.
    FeetPerSecondSquared,
}

impl UnitOf for LinearAccelerationUnit {
    open spec fn conv_spec(self) -> ConvData {
        match self {
            LinearAccelerationUnit::MetersPerSecondSquared => lin_data(1, 1),
            LinearAccelerationUnit::FeetPerSecondSquared => lin_data(381, 1250),
        }
    }

    proof fn lemma_conv_wf(self) {
        match self {
            LinearAccelerationUnit::MetersPerSecondSquared => {
                lemma_small_ok(1, 1);
            },
            LinearAccelerationUnit::FeetPerSecondSquared => {
                lemma_small_ok(381, 1250);
            },
        }
    }

    fn conv(self) -> (c: Conv) {
        match self {
            LinearAccelerationUnit::MetersPerSecondSquared => Conv::lin(1, 1),
            LinearAccelerationUnit::FeetPerSecondSquared => Conv::lin(381, 1250),
        }
    }
}

impl Dimension for LinearAcceleration {
    type Unit = LinearAccelerationUnit;

    open spec fn canonical_unit_spec() -> LinearAccelerationUnit {
        LinearAccelerationUnit::MetersPerSecondSquared
    }

    proof fn lemma_canonical_identity() {
        lemma_canon_value(rat_int(1));
    }

    fn canonical_unit() -> (u: LinearAccelerationUnit) {
        LinearAccelerationUnit::MetersPerSecondSquared
    }
}

/// An angle, a base dimension here. Canonically stored in radians.
pub struct Angle;

/// The units of `Angle`.
#[derive(Clone, Copy, PartialEq, Eq, Structural, Debug)]
pub enum AngleUnit {
    /// The canonical unit of angle.
    Radians,
    /// One full turn.
    Rotations,
    /// The degree of arc.
    Degrees,
    /// The gradian.
    Gradians,
}

impl UnitOf for AngleUnit {
    open spec fn conv_spec(self) -> ConvData {
        match self {
            AngleUnit::Radians => lin_data(1, 1),
            AngleUnit::Rotations => lin_data(628318530717959, 100000000000000),
            AngleUnit::Degrees => lin_data(10000000000000, 572957795130823),
            AngleUnit::Gradians => lin_data(10000000000000, 636619772367581),
        }
    }

    proof fn lemma_conv_wf(self) {
        match self {
            AngleUnit::Radians => {
                lemma_small_ok(1, 1);
            },
            AngleUnit::Rotations => {
                lemma_small_ok(628318530717959, 100000000000000);
            },
            AngleUnit::Degrees => {
                lemma_small_ok(10000000000000, 572957795130823);
            },
            AngleUnit::Gradians => {
                lemma_small_ok(10000000000000, 636619772367581);
            },
        }
    }

    fn conv(self) -> (c: Conv) {
        match self {
            AngleUnit::Radians => Conv::lin(1, 1),
            AngleUnit::Rotations => Conv::lin(628318530717959, 100000000000000),
            AngleUnit::Degrees => Conv::lin(10000000000000, 572957795130823),
            AngleUnit::Gradians => Conv::lin(10000000000000, 636619772367581),
        }
    }
}

impl Dimension for Angle {
    type Unit = AngleUnit;

    open spec fn canonical_unit_spec() -> AngleUnit {
        AngleUnit::Radians
    }

    proof fn lemma_canonical_identity() {
        lemma_canon_value(rat_int(1));
    }

    fn canonical_unit() -> (u: AngleUnit) {
        AngleUnit::Radians
    }
}

/// An angular velocity. Canonically stored in radians per second.
pub struct AngularVelocity;

/// The units of `AngularVelocity`.
#[derive(Clone, Copy, PartialEq, Eq, Structural, Debug)]
pub enum AngularVelocityUnit {
    /// The canonical unit of angular velocity.
    RadiansPerSecond,
    /// One full turn each second.
    RotationsPerSecond,
    /// One full turn each minute.
    RotationsPerMinute,
    /// One degree of arc each second.
    DegreesPerSecond,
}

impl UnitOf for AngularVelocityUnit {
    open spec fn conv_spec(self) -> ConvData {
        match self {
            AngularVelocityUnit::RadiansPerSecond => lin_data(1, 1),
            AngularVelocityUnit::RotationsPerSecond => lin_data(628318530717959, 100000000000000),
            AngularVelocityUnit::RotationsPerMinute => lin_data(25000000000000, 238732414637843),
            AngularVelocityUnit::DegreesPerSecond => lin_data(10000000000000, 572957795130823),
        }
    }

    proof fn lemma_conv_wf(self) {
        match self {
            AngularVelocityUnit::RadiansPerSecond => {
                lemma_small_ok(1, 1);
            },
            AngularVelocityUnit::RotationsPerSecond => {
                lemma_small_ok(628318530717959, 100000000000000);
            },
            AngularVelocityUnit::RotationsPerMinute => {
                lemma_small_ok(25000000000000, 238732414637843);
            },
            AngularVelocityUnit::DegreesPerSecond => {
                lemma_small_ok(10000000000000, 572957795130823);
            },
        }
    }

    fn conv(self) -> (c: Conv) {
        match self {
            AngularVelocityUnit::RadiansPerSecond => Conv::lin(1, 1),
            AngularVelocityUnit::RotationsPerSecond => Conv::lin(628318530717959, 100000000000000),
            AngularVelocityUnit::RotationsPerMinute => Conv::lin(25000000000000, 238732414637843),
            AngularVelocityUnit::DegreesPerSecond => Conv::lin(10000000000000, 572957795130823),
        }
    }
}

impl Dimension for AngularVelocity {
    type Unit = AngularVelocityUnit;

    open spec fn canonical_unit_spec() -> AngularVelocityUnit {
        AngularVelocityUnit::RadiansPerSecond
    }

    proof fn lemma_canonical_identity() {
        lemma_canon_value(rat_int(1));
    }

    fn canonical_unit() -> (u: AngularVelocityUnit) {
        AngularVelocityUnit::RadiansPerSecond
    }
}

/// An angular acceleration. Canonically stored in radians per second squared.
pub struct AngularAcceleration;

/// The units of `AngularAcceleration`.
#[derive(Clone, Copy, PartialEq, Eq, Structural, Debug)]
pub enum AngularAccelerationUnit {
    /// The canonical unit of angular acceleration.
    RadiansPerSecondSquared,
    /// One full turn per second squared.
    RotationsPerSecondSquared,
    /// One full turn per minute squared.
    RotationsPerMinuteSquared,
    /// One degree of arc per second squared.
    DegreesPerSecondSquared,
}

impl UnitOf for AngularAccelerationUnit {
    open spec fn conv_spec(self) -> ConvData {
        match self {
            AngularAccelerationUnit::RadiansPerSecondSquared => lin_data(1, 1),
            AngularAccelerationUnit::RotationsPerSecondSquared => lin_data(628318530717959, 100000000000000),
            AngularAccelerationUnit::RotationsPerMinuteSquared => lin_data(1000000000000, 572957795130823),
            AngularAccelerationUnit::DegreesPerSecondSquared => lin_data(10000000000000, 572957795130823),
        }
    }

    proof fn lemma_conv_wf(self) {
        match self {
            AngularAccelerationUnit::RadiansPerSecondSquared => {
                lemma_small_ok(1, 1);
            },
            AngularAccelerationUnit::RotationsPerSecondSquared => {
                lemma_small_ok(628318530717959, 100000000000000);
            },
            AngularAccelerationUnit::RotationsPerMinuteSquared => {
                lemma_small_ok(1000000000000, 572957795130823);
            },
            AngularAccelerationUnit::DegreesPerSecondSquared => {
                lemma_small_ok(10000000000000, 572957795130823);
            },
        }
    }

    fn conv(self) -> (c: Conv) {
        match self {
            AngularAccelerationUnit::RadiansPerSecondSquared => Conv::lin(1, 1),
            AngularAccelerationUnit::RotationsPerSecondSquared => Conv::lin(628318530717959, 100000000000000),
            AngularAccelerationUnit::RotationsPerMinuteSquared => Conv::lin(1000000000000, 572957795130823),
            AngularAccelerationUnit::DegreesPerSecondSquared => Conv::lin(10000000000000, 572957795130823),
        }
    }
}

impl Dimension for AngularAcceleration {
    type Unit = AngularAccelerationUnit;

    open spec fn canonical_unit_spec() -> AngularAccelerationUnit {
        AngularAccelerationUnit::RadiansPerSecondSquared
    }

    proof fn lemma_canonical_identity() {
        lemma_canon_value(rat_int(1));
    }

    fn canonical_unit() -> (u: AngularAccelerationUnit) {
        AngularAccelerationUnit::RadiansPerSecondSquared
    }
}

/// A mass. Canonically stored in kilograms.
pub struct Mass;

/// The units of `Mass`.
#[derive(Clone, Copy, PartialEq, Eq, Structural, Debug)]
pub enum MassUnit {
    /// One billionth of a kilogram.
    Micrograms,
    /// One millionth of a kilogram.
    Milligrams,
    /// One thousandth of a kilogram.
    Grams,
    /// The canonical unit of mass.
    Kilograms,
    /// The avoirdupois pound.
    Pounds,
    /// The avoirdupois ounce.
    Ounces,
    /// The stone, fourteen pounds.
    Stones,
    /// The tonne, one megagram.
    MetricTons,
    /// The short ton, two thousand pounds.
    ShortTons,
    /// The long ton, 2240 pounds.
    LongTons,
}

impl UnitOf for MassUnit {
    open spec fn conv_spec(self) -> ConvData {
        match self {
            MassUnit::Micrograms => lin_data(1, 1000000000),
            MassUnit::Milligrams => lin_data(1, 1000000),
            MassUnit::Grams => lin_data(1, 1000),
            MassUnit::Kilograms => lin_data(1, 1),
            MassUnit::Pounds => lin_data(45359237, 100000000),
            MassUnit::Ounces => lin_data(2500000000000, 88184904873951),
            MassUnit::Stones => lin_data(317514659, 50000000),
            MassUnit::MetricTons => lin_data(1000, 1),
            MassUnit::ShortTons => lin_data(45359237, 50000),
            MassUnit::LongTons => lin_data(317514659, 312500),
        }
    }

    proof fn lemma_conv_wf(self) {
        match self {
            MassUnit::Micrograms => {
                lemma_small_ok(1, 1000000000);
            },
            MassUnit::Milligrams => {
                lemma_small_ok(1, 1000000);
            },
            MassUnit::Grams => {
                lemma_small_ok(1, 1000);
            },
            MassUnit::Kilograms => {
                lemma_small_ok(1, 1);
            },
            MassUnit::Pounds => {
                lemma_small_ok(45359237, 100000000);
            },
            MassUnit::Ounces => {
                lemma_small_ok(2500000000000, 88184904873951);
            },
            MassUnit::Stones => {
                lemma_small_ok(317514659, 50000000);
            },
            MassUnit::MetricTons => {
                lemma_small_ok(1000, 1);
            },
            MassUnit::ShortTons => {
                lemma_small_ok(45359237, 50000);
            },
            MassUnit::LongTons => {
                lemma_small_ok(317514659, 312500);
            },
        }
    }

    fn conv(self) -> (c: Conv) {
        match self {
            MassUnit::Micrograms => Conv::lin(1, 1000000000),
            MassUnit::Milligrams => Conv::lin(1, 1000000),
            MassUnit::Grams => Conv::lin(1, 1000),
            MassUnit::Kilograms => Conv::lin(1, 1),
            MassUnit::Pounds => Conv::lin(45359237, 100000000),
            MassUnit::Ounces => Conv::lin(2500000000000, 88184904873951),
            MassUnit::Stones => Conv::lin(317514659, 50000000),
            MassUnit::MetricTons => Conv::lin(1000, 1),
            MassUnit::ShortTons => Conv::lin(45359237, 50000),
            MassUnit::LongTons => Conv::lin(317514659, 312500),
        }
    }
}

impl Dimension for Mass {
    type Unit = MassUnit;

    open spec fn canonical_unit_spec() -> MassUnit {
        MassUnit::Kilograms
    }

    proof fn lemma_canonical_identity() {
        lemma_canon_value(rat_int(1));
    }

    fn canonical_unit() -> (u: MassUnit) {
        MassUnit::Kilograms
    }
}

/// A force. Canonically stored in newtons.
pub struct Force;

/// The units of `Force`.
#[derive(Clone, Copy, PartialEq, Eq, Structural, Debug)]
pub enum ForceUnit {
    /// The canonical unit of force.
    Newtons,
    /// The pound-force.
    PoundsForce,
    /// The dyne, ten micronewtons.
    Dynes,
}

impl UnitOf for ForceUnit {
    open spec fn conv_spec(self) -> ConvData {
        match self {
            ForceUnit::Newtons => lin_data(1, 1),
            ForceUnit::PoundsForce => lin_data(1250000, 5560277),
            ForceUnit::Dynes => lin_data(1, 100000),
        }
    }

    proof fn lemma_conv_wf(self) {
        match self {
            ForceUnit::Newtons => {
                lemma_small_ok(1, 1);
            },
            ForceUnit::PoundsForce => {
                lemma_small_ok(1250000, 5560277);
            },
            ForceUnit::Dynes => {
                lemma_small_ok(1, 100000);
            },
        }
    }

    fn conv(self) -> (c: Conv) {
        match self {
            ForceUnit::Newtons => Conv::lin(1, 1),
            ForceUnit::PoundsForce => Conv::lin(1250000, 5560277),
            ForceUnit::Dynes => Conv::lin(1, 100000),
        }
    }
}

impl Dimension for Force {
    type Unit = ForceUnit;

    open spec fn canonical_unit_spec() -> ForceUnit {
        ForceUnit::Newtons
    }

    proof fn lemma_canonical_identity() {
        lemma_canon_value(rat_int(1));
    }

    fn canonical_unit() -> (u: ForceUnit) {
        ForceUnit::Newtons
    }
}

/// A pressure. Canonically stored in pascals.
pub struct Pressure;

/// The units of `Pressure`.
#[derive(Clone, Copy, PartialEq, Eq, Structural, Debug)]
pub enum PressureUnit {
    /// The canonical unit of pressure.
    Pascals,
    /// Pounds-force per square inch.
    Psi,
    /// The standard atmosphere.
    Atmospheres,
    /// The bar, one hundred kilopascals.
    Bars,
}

impl UnitOf for PressureUnit {
    open spec fn conv_spec(self) -> ConvData {
        match self {
            PressureUnit::Pascals => lin_data(1, 1),
            PressureUnit::Psi => lin_data(172368932329209, 25000000000),
            PressureUnit::Atmospheres => lin_data(101325, 1),
            PressureUnit::Bars => lin_data(100000, 1),
        }
    }

    proof fn lemma_conv_wf(self) {
        match self {
            PressureUnit::Pascals => {
                lemma_small_ok(1, 1);
            },
            PressureUnit::Psi => {
                lemma_small_ok(172368932329209, 25000000000);
            },
            PressureUnit::Atmospheres => {
                lemma_small_ok(101325, 1);
            },
            PressureUnit::Bars => {
                lemma_small_ok(100000, 1);
            },
        }
    }

    fn conv(self) -> (c: Conv) {
        match self {
            PressureUnit::Pascals => Conv::lin(1, 1),
            PressureUnit::Psi => Conv::lin(172368932329209, 25000000000),
            PressureUnit::Atmospheres => Conv::lin(101325, 1),
            PressureUnit::Bars => Conv::lin(100000, 1),
        }
    }
}

impl Dimension for Pressure {
    type Unit = PressureUnit;

    open spec fn canonical_unit_spec() -> PressureUnit {
        PressureUnit::Pascals
    }

    proof fn lemma_canonical_identity() {
        lemma_canon_value(rat_int(1));
    }

    fn canonical_unit() -> (u: PressureUnit) {
        PressureUnit::Pascals
    }
}

/// A torque. With angle a base dimension, canonically stored in newton meters per radian.
pub struct Torque;

/// The units of `Torque`.
#[derive(Clone, Copy, PartialEq, Eq, Structural, Debug)]
pub enum TorqueUnit {
    /// The canonical unit of torque.
    NewtonMetersPerRadian,
    /// One newton meter per degree of arc.
    NewtonMetersPerDegree,
    /// One pound-foot per radian.
    PoundFeetPerRadian,
    /// One pound-foot per degree of arc.
    PoundFeetPerDegree,
    /// One dyne centimeter per radian.
    DyneCentimetersPerRadians,
}

impl UnitOf for TorqueUnit {
    open spec fn conv_spec(self) -> ConvData {
        match self {
            TorqueUnit::NewtonMetersPerRadian => lin_data(1, 1),
            TorqueUnit::NewtonMetersPerDegree => lin_data(572957795130823, 10000000000000),
            TorqueUnit::PoundFeetPerRadian => lin_data(6779089741657, 5000000000000),
            TorqueUnit::PoundFeetPerDegree => lin_data(194206615568689, 2500000000000),
            TorqueUnit::DyneCentimetersPerRadians => lin_data(1, 10000000),
        }
    }

    proof fn lemma_conv_wf(self) {
        match self {
            TorqueUnit::NewtonMetersPerRadian => {
                lemma_small_ok(1, 1);
            },
            TorqueUnit::NewtonMetersPerDegree => {
                lemma_small_ok(572957795130823, 10000000000000);
            },
            TorqueUnit::PoundFeetPerRadian => {
                lemma_small_ok(6779089741657, 5000000000000);
            },
            TorqueUnit::PoundFeetPerDegree => {
                lemma_small_ok(194206615568689, 2500000000000);
            },
            TorqueUnit::DyneCentimetersPerRadians => {
                lemma_small_ok(1, 10000000);
            },
        }
    }

    fn conv(self) -> (c: Conv) {
        match self {
            TorqueUnit::NewtonMetersPerRadian => Conv::lin(1, 1),
            TorqueUnit::NewtonMetersPerDegree => Conv::lin(572957795130823, 10000000000000),
            TorqueUnit::PoundFeetPerRadian => Conv::lin(6779089741657, 5000000000000),
            TorqueUnit::PoundFeetPerDegree => Conv::lin(194206615568689, 2500000000000),
            TorqueUnit::DyneCentimetersPerRadians => Conv::lin(1, 10000000),
        }
    }
}

impl Dimension for Torque {
    type Unit = TorqueUnit;

    open spec fn canonical_unit_spec() -> TorqueUnit {
        TorqueUnit::NewtonMetersPerRadian
    }

    proof fn lemma_canonical_identity() {
        lemma_canon_value(rat_int(1));
    }

    fn canonical_unit() -> (u: TorqueUnit) {
        TorqueUnit::NewtonMetersPerRadian
    }
}

/// An energy. Canonically stored in joules.
pub struct Energy;

/// The units of `Energy`.
#[derive(Clone, Copy, PartialEq, Eq, Structural, Debug)]
pub enum EnergyUnit {
    /// The canonical unit of energy.
    Joules,
    /// The calorie, 4.184 joules.
    Calories,
    /// The kilocalorie.
    Kilocalories,
    /// The erg, one tenth of a microjoule.
    Ergs,
    /// The watt hour, 3600 joules.
    WattHours,
}

impl UnitOf for EnergyUnit {
    open spec fn conv_spec(self) -> ConvData {
        match self {
            EnergyUnit::Joules => lin_data(1, 1),
            EnergyUnit::Calories => lin_data(523, 125),
            EnergyUnit::Kilocalories => lin_data(4184, 1),
            EnergyUnit::Ergs => lin_data(1000000, 1),
            EnergyUnit::WattHours => lin_data(3600, 1),
        }
    }

    proof fn lemma_conv_wf(self) {
        match self {
            EnergyUnit::Joules => {
                lemma_small_ok(1, 1);
            },
            EnergyUnit::Calories => {
                lemma_small_ok(523, 125);
            },
            EnergyUnit::Kilocalories => {
                lemma_small_ok(4184, 1);
            },
            EnergyUnit::Ergs => {
                lemma_small_ok(1000000, 1);
            },
            EnergyUnit::WattHours => {
                lemma_small_ok(3600, 1);
            },
        }
    }

    fn conv(self) -> (c: Conv) {
        match self {
            EnergyUnit::Joules => Conv::lin(1, 1),
            EnergyUnit::Calories => Conv::lin(523, 125),
            EnergyUnit::Kilocalories => Conv::lin(4184, 1),
            EnergyUnit::Ergs => Conv::lin(1000000, 1),
            EnergyUnit::WattHours => Conv::lin(3600, 1),
        }
    }
}

impl Dimension for Energy {
    type Unit = EnergyUnit;

    open spec fn canonical_unit_spec() -> EnergyUnit {
        EnergyUnit::Joules
    }

    proof fn lemma_canonical_identity() {
        lemma_canon_value(rat_int(1));
    }

    fn canonical_unit() -> (u: EnergyUnit) {
        EnergyUnit::Joules
    }
}

/// A power. Canonically stored in watts.
pub struct Power;

/// The units of `Power`.
#[derive(Clone, Copy, PartialEq, Eq, Structural, Debug)]
pub enum PowerUnit {
    /// The canonical unit of power.
    Watts,
    /// The mechanical horsepower.
    Horsepower,
    /// One erg each second.
    ErgsPerSecond,
    /// One foot-pound each minute.
    FootPoundsPerMinute,
}

impl UnitOf for PowerUnit {
    open spec fn conv_spec(self) -> ConvData {
        match self {
            PowerUnit::Watts => lin_data(1, 1),
            PowerUnit::Horsepower => lin_data(74569987158227, 100000000000),
            PowerUnit::ErgsPerSecond => lin_data(1000000, 1),
            PowerUnit::FootPoundsPerMinute => lin_data(10000000000000, 442537289566359),
        }
    }

    proof fn lemma_conv_wf(self) {
        match self {
            PowerUnit::Watts => {
                lemma_small_ok(1, 1);
            },
            PowerUnit::Horsepower => {
                lemma_small_ok(74569987158227, 100000000000);
            },
            PowerUnit::ErgsPerSecond => {
                lemma_small_ok(1000000, 1);
            },
            PowerUnit::FootPoundsPerMinute => {
                lemma_small_ok(10000000000000, 442537289566359);
            },
        }
    }

    fn conv(self) -> (c: Conv) {
        match self {
            PowerUnit::Watts => Conv::lin(1, 1),
            PowerUnit::Horsepower => Conv::lin(74569987158227, 100000000000),
            PowerUnit::ErgsPerSecond => Conv::lin(1000000, 1),
            PowerUnit::FootPoundsPerMinute => Conv::lin(10000000000000, 442537289566359),
        }
    }
}

impl Dimension for Power {
    type Unit = PowerUnit;

    open spec fn canonical_unit_spec() -> PowerUnit {
        PowerUnit::Watts
    }

    proof fn lemma_canonical_identity() {
        lemma_canon_value(rat_int(1));
    }

    fn canonical_unit() -> (u: PowerUnit) {
        PowerUnit::Watts
    }
}

/// An electric potential. Canonically stored in volts.
pub struct Voltage;

/// The units of `Voltage`.
#[derive(Clone, Copy, PartialEq, Eq, Structural, Debug)]
pub enum VoltageUnit {
    /// One thousandth of a volt.
    Millivolts,
    /// The canonical unit of voltage.
    Volts,
    /// One thousand volts.
    Kilovolts,
}

impl UnitOf for VoltageUnit {
    open spec fn conv_spec(self) -> ConvData {
        match self {
            VoltageUnit::Millivolts => lin_data(1, 1000),
            VoltageUnit::Volts => lin_data(1, 1),
            VoltageUnit::Kilovolts => lin_data(1000, 1),
        }
    }

    proof fn lemma_conv_wf(self) {
        match self {
            VoltageUnit::Millivolts => {
                lemma_small_ok(1, 1000);
            },
            VoltageUnit::Volts => {
                lemma_small_ok(1, 1);
            },
            VoltageUnit::Kilovolts => {
                lemma_small_ok(1000, 1);
            },
        }
    }

    fn conv(self) -> (c: Conv) {
        match self {
            VoltageUnit::Millivolts => Conv::lin(1, 1000),
            VoltageUnit::Volts => Conv::lin(1, 1),
            VoltageUnit::Kilovolts => Conv::lin(1000, 1),
        }
    }
}

impl Dimension for Voltage {
    type Unit = VoltageUnit;

    open spec fn canonical_unit_spec() -> VoltageUnit {
        VoltageUnit::Volts
    }

    proof fn lemma_canonical_identity() {
        lemma_canon_value(rat_int(1));
    }

    fn canonical_unit() -> (u: VoltageUnit) {
        VoltageUnit::Volts
    }
}

/// An electric current. Canonically stored in amperes.
pub struct Current;

/// The units of `Current`.
#[derive(Clone, Copy, PartialEq, Eq, Structural, Debug)]
pub enum CurrentUnit {
    /// One thousandth of an ampere.
    Milliamperes,
    /// The canonical unit of current.
    Amperes,
    /// One thousand amperes.
    Kiloamperes,
}

impl UnitOf for CurrentUnit {
    open spec fn conv_spec(self) -> ConvData {
        match self {
            CurrentUnit::Milliamperes => lin_data(1, 1000),
            CurrentUnit::Amperes => lin_data(1, 1),
            CurrentUnit::Kiloamperes => lin_data(1000, 1),
        }
    }

    proof fn lemma_conv_wf(self) {
        match self {
            CurrentUnit::Milliamperes => {
                lemma_small_ok(1, 1000);
            },
            CurrentUnit::Amperes => {
                lemma_small_ok(1, 1);
            },
            CurrentUnit::Kiloamperes => {
                lemma_small_ok(1000, 1);
            },
        }
    }

    fn conv(self) -> (c: Conv) {
        match self {
            CurrentUnit::Milliamperes => Conv::lin(1, 1000),
            CurrentUnit::Amperes => Conv::lin(1, 1),
            CurrentUnit::Kiloamperes => Conv::lin(1000, 1),
        }
    }
}

impl Dimension for Current {
    type Unit = CurrentUnit;

    open spec fn canonical_unit_spec() -> CurrentUnit {
        CurrentUnit::Amperes
    }

    proof fn lemma_canonical_identity() {
        lemma_canon_value(rat_int(1));
    }

    fn canonical_unit() -> (u: CurrentUnit) {
        CurrentUnit::Amperes
    }
}

/// A temperature, an isolated dimension with no declared rules. Canonically stored in kelvin.
pub struct Temperature;

/// The units of `Temperature`.
#[derive(Clone, Copy, PartialEq, Eq, Structural, Debug)]
pub enum TemperatureUnit {
    /// The canonical unit of temperature.
    Kelvin,
    /// The degree Celsius: kelvin less 273.15, an affine unit.
    Celsius,
    /// The degree Fahrenheit, an affine unit.
    Fahrenheit,
}

impl UnitOf for TemperatureUnit {
    open spec fn conv_spec(self) -> ConvData {
        match self {
            TemperatureUnit::Kelvin => lin_data(1, 1),
            TemperatureUnit::Celsius => affine_data(1, 1, 5463, 20),
            TemperatureUnit::Fahrenheit => affine_data(5, 9, 45967, 100),
        }
    }

    proof fn lemma_conv_wf(self) {
        match self {
            TemperatureUnit::Kelvin => {
                lemma_small_ok(1, 1);
            },
            TemperatureUnit::Celsius => {
                lemma_small_ok(1, 1);
                lemma_small_ok(5463, 20);
            },
            TemperatureUnit::Fahrenheit => {
                lemma_small_ok(5, 9);
                lemma_small_ok(45967, 100);
            },
        }
    }

    fn conv(self) -> (c: Conv) {
        match self {
            TemperatureUnit::Kelvin => Conv::lin(1, 1),
            TemperatureUnit::Celsius => Conv::affine(1, 1, 5463, 20),
            TemperatureUnit::Fahrenheit => Conv::affine(5, 9, 45967, 100),
        }
    }
}

impl Dimension for Temperature {
    type Unit = TemperatureUnit;

    open spec fn canonical_unit_spec() -> TemperatureUnit {
        TemperatureUnit::Kelvin
    }

    proof fn lemma_canonical_identity() {
        lemma_canon_value(rat_int(1));
    }

    fn canonical_unit() -> (u: TemperatureUnit) {
        TemperatureUnit::Kelvin
    }
}

/// `Length / Time => LinearVelocity in MetersPerSecond`.
impl CrossDiv<Time> for Length {
    type Output = LinearVelocity;

    open spec fn out_unit_spec() -> LinearVelocityUnit {
        LinearVelocityUnit::MetersPerSecond
    }

    fn out_unit() -> (u: LinearVelocityUnit) {
        LinearVelocityUnit::MetersPerSecond
    }
}

/// `Length * Force => Energy in Joules`.
impl CrossMul<Force> for Length {
    type Output = Energy;

    open spec fn out_unit_spec() -> EnergyUnit {
        EnergyUnit::Joules
    }

    fn out_unit() -> (u: EnergyUnit) {
        EnergyUnit::Joules
    }
}

/// `Length * Length => Area in SquareMeters`.
impl CrossMul<Length> for Length {
    type Output = Area;

    open spec fn out_unit_spec() -> AreaUnit {
        AreaUnit::SquareMeters
    }

    fn out_unit() -> (u: AreaUnit) {
        AreaUnit::SquareMeters
    }
}

/// `Length * Area => Volume in CubicMeters`.
impl CrossMul<Area> for Length {
    type Output = Volume;

    open spec fn out_unit_spec() -> VolumeUnit {
        VolumeUnit::CubicMeters
    }

    fn out_unit() -> (u: VolumeUnit) {
        VolumeUnit::CubicMeters
    }
}

/// `Area / Length => Length in Meters`.
impl CrossDiv<Length> for Area {
    type Output = Length;

    open spec fn out_unit_spec() -> LengthUnit {
        LengthUnit::Meters
    }

    fn out_unit() -> (u: LengthUnit) {
        LengthUnit::Meters
    }
}

/// `Area * Length => Volume in CubicMeters`.
impl CrossMul<Length> for Area {
    type Output = Volume;

    open spec fn out_unit_spec() -> VolumeUnit {
        VolumeUnit::CubicMeters
    }

    fn out_unit() -> (u: VolumeUnit) {
        VolumeUnit::CubicMeters
    }
}

/// `Volume / Length => Area in SquareMeters`.
impl CrossDiv<Length> for Volume {
    type Output = Area;

    open spec fn out_unit_spec() -> AreaUnit {
        AreaUnit::SquareMeters
    }

    fn out_unit() -> (u: AreaUnit) {
        AreaUnit::SquareMeters
    }
}

/// `Volume / Area => Length in Meters`.
impl CrossDiv<Area> for Volume {
    type Output = Length;

    open spec fn out_unit_spec() -> LengthUnit {
        LengthUnit::Meters
    }

    fn out_unit() -> (u: LengthUnit) {
        LengthUnit::Meters
    }
}

/// `Time * LinearVelocity => Length in Meters`.
impl CrossMul<LinearVelocity> for Time {
    type Output = Length;

    open spec fn out_unit_spec() -> LengthUnit {
        LengthUnit::Meters
    }

    fn out_unit() -> (u: LengthUnit) {
        LengthUnit::Meters
    }
}

/// `Time * LinearAcceleration => LinearVelocity in MetersPerSecond`.
impl CrossMul<LinearAcceleration> for Time {
    type Output = LinearVelocity;

    open spec fn out_unit_spec() -> LinearVelocityUnit {
        LinearVelocityUnit::MetersPerSecond
    }

    fn out_unit() -> (u: LinearVelocityUnit) {
        LinearVelocityUnit::MetersPerSecond
    }
}

/// `Time * AngularVelocity => Angle in Radians`.
impl CrossMul<AngularVelocity> for Time {
    type Output = Angle;

    open spec fn out_unit_spec() -> AngleUnit {
        AngleUnit::Radians
    }

    fn out_unit() -> (u: AngleUnit) {
        AngleUnit::Radians
    }
}

/// `Time * AngularAcceleration => AngularVelocity in RadiansPerSecond`.
impl CrossMul<AngularAcceleration> for Time {
    type Output = AngularVelocity;

    open spec fn out_unit_spec() -> AngularVelocityUnit {
        AngularVelocityUnit::RadiansPerSecond
    }

    fn out_unit() -> (u: AngularVelocityUnit) {
        AngularVelocityUnit::RadiansPerSecond
    }
}

/// `LinearVelocity * Time => Length in Meters`.
impl CrossMul<Time> for LinearVelocity {
    type Output = Length;

    open spec fn out_unit_spec() -> LengthUnit {
        LengthUnit::Meters
    }

    fn out_unit() -> (u: LengthUnit) {
        LengthUnit::Meters
    }
}

/// `LinearVelocity / Time => LinearAcceleration in MetersPerSecondSquared`.
impl CrossDiv<Time> for LinearVelocity {
    type Output = LinearAcceleration;

    open spec fn out_unit_spec() -> LinearAccelerationUnit {
        LinearAccelerationUnit::MetersPerSecondSquared
    }

    fn out_unit() -> (u: LinearAccelerationUnit) {
        LinearAccelerationUnit::MetersPerSecondSquared
    }
}

/// `LinearAcceleration * Time => LinearVelocity in MetersPerSecond`.
impl CrossMul<Time> for LinearAcceleration {
    type Output = LinearVelocity;

    open spec fn out_unit_spec() -> LinearVelocityUnit {
        LinearVelocityUnit::MetersPerSecond
    }

    fn out_unit() -> (u: LinearVelocityUnit) {
        LinearVelocityUnit::MetersPerSecond
    }
}

/// `LinearAcceleration * Mass => Force in Newtons`.
impl CrossMul<Mass> for LinearAcceleration {
    type Output = Force;

    open spec fn out_unit_spec() -> ForceUnit {
        ForceUnit::Newtons
    }

    fn out_unit() -> (u: ForceUnit) {
        ForceUnit::Newtons
    }
}

/// `Angle / Time => AngularVelocity in RadiansPerSecond`.
impl CrossDiv<Time> for Angle {
    type Output = AngularVelocity;

    open spec fn out_unit_spec() -> AngularVelocityUnit {
        AngularVelocityUnit::RadiansPerSecond
    }

    fn out_unit() -> (u: AngularVelocityUnit) {
        AngularVelocityUnit::RadiansPerSecond
    }
}

/// `AngularVelocity * Time => Angle in Radians`.
impl CrossMul<Time> for AngularVelocity {
    type Output = Angle;

    open spec fn out_unit_spec() -> AngleUnit {
        AngleUnit::Radians
    }

    fn out_unit() -> (u: AngleUnit) {
        AngleUnit::Radians
    }
}

/// `AngularAcceleration * Time => AngularVelocity in RadiansPerSecond`.
impl CrossMul<Time> for AngularAcceleration {
    type Output = AngularVelocity;

    open spec fn out_unit_spec() -> AngularVelocityUnit {
        AngularVelocityUnit::RadiansPerSecond
    }

    fn out_unit() -> (u: AngularVelocityUnit) {
        AngularVelocityUnit::RadiansPerSecond
    }
}

/// `Mass * LinearAcceleration => Force in Newtons`.
impl CrossMul<LinearAcceleration> for Mass {
    type Output = Force;

    open spec fn out_unit_spec() -> ForceUnit {
        ForceUnit::Newtons
    }

    fn out_unit() -> (u: ForceUnit) {
        ForceUnit::Newtons
    }
}

/// `Force * Length => Energy in Joules`.
impl CrossMul<Length> for Force {
    type Output = Energy;

    open spec fn out_unit_spec() -> EnergyUnit {
        EnergyUnit::Joules
    }

    fn out_unit() -> (u: EnergyUnit) {
        EnergyUnit::Joules
    }
}

/// `Force / LinearAcceleration => Mass in Kilograms`.
impl CrossDiv<LinearAcceleration> for Force {
    type Output = Mass;

    open spec fn out_unit_spec() -> MassUnit {
        MassUnit::Kilograms
    }

    fn out_unit() -> (u: MassUnit) {
        MassUnit::Kilograms
    }
}

/// `Force / Mass => LinearAcceleration in MetersPerSecondSquared`.
impl CrossDiv<Mass> for Force {
    type Output = LinearAcceleration;

    open spec fn out_unit_spec() -> LinearAccelerationUnit {
        LinearAccelerationUnit::MetersPerSecondSquared
    }

    fn out_unit() -> (u: LinearAccelerationUnit) {
        LinearAccelerationUnit::MetersPerSecondSquared
    }
}

/// `Force / Area => Pressure in Pascals`.
impl CrossDiv<Area> for Force {
    type Output = Pressure;

    open spec fn out_unit_spec() -> PressureUnit {
        PressureUnit::Pascals
    }

    fn out_unit() -> (u: PressureUnit) {
        PressureUnit::Pascals
    }
}

/// `Pressure * Area => Force in Newtons`.
impl CrossMul<Area> for Pressure {
    type Output = Force;

    open spec fn out_unit_spec() -> ForceUnit {
        ForceUnit::Newtons
    }

    fn out_unit() -> (u: ForceUnit) {
        ForceUnit::Newtons
    }
}

/// `Torque * Angle => Energy in Joules`.
impl CrossMul<Angle> for Torque {
    type Output = Energy;

    open spec fn out_unit_spec() -> EnergyUnit {
        EnergyUnit::Joules
    }

    fn out_unit() -> (u: EnergyUnit) {
        EnergyUnit::Joules
    }
}

/// `Energy / Length => Force in Newtons`.
impl CrossDiv<Length> for Energy {
    type Output = Force;

    open spec fn out_unit_spec() -> ForceUnit {
        ForceUnit::Newtons
    }

    fn out_unit() -> (u: ForceUnit) {
        ForceUnit::Newtons
    }
}

/// `Energy / Angle => Torque in NewtonMetersPerRadian`.
impl CrossDiv<Angle> for Energy {
    type Output = Torque;

    open spec fn out_unit_spec() -> TorqueUnit {
        TorqueUnit::NewtonMetersPerRadian
    }

    fn out_unit() -> (u: TorqueUnit) {
        TorqueUnit::NewtonMetersPerRadian
    }
}

/// `Energy / Time => Power in Watts`.
impl CrossDiv<Time> for Energy {
    type Output = Power;

    open spec fn out_unit_spec() -> PowerUnit {
        PowerUnit::Watts
    }

    fn out_unit() -> (u: PowerUnit) {
        PowerUnit::Watts
    }
}

/// `Power / Voltage => Current in Amperes`.
impl CrossDiv<Voltage> for Power {
    type Output = Current;

    open spec fn out_unit_spec() -> CurrentUnit {
        CurrentUnit::Amperes
    }

    fn out_unit() -> (u: CurrentUnit) {
        CurrentUnit::Amperes
    }
}

/// `Power / Current => Voltage in Volts`.
impl CrossDiv<Current> for Power {
    type Output = Voltage;

    open spec fn out_unit_spec() -> VoltageUnit {
        VoltageUnit::Volts
    }

    fn out_unit() -> (u: VoltageUnit) {
        VoltageUnit::Volts
    }
}

/// `Power * Time => Energy in Joules`.
impl CrossMul<Time> for Power {
    type Output = Energy;

    open spec fn out_unit_spec() -> EnergyUnit {
        EnergyUnit::Joules
    }

    fn out_unit() -> (u: EnergyUnit) {
        EnergyUnit::Joules
    }
}

/// `Voltage * Current => Power in Watts`.
impl CrossMul<Current> for Voltage {
    type Output = Power;

    open spec fn out_unit_spec() -> PowerUnit {
        PowerUnit::Watts
    }

    fn out_unit() -> (u: PowerUnit) {
        PowerUnit::Watts
    }
}

/// `Current * Voltage => Power in Watts`.
impl CrossMul<Voltage> for Current {
    type Output = Power;

    open spec fn out_unit_spec() -> PowerUnit {
        PowerUnit::Watts
    }

    fn out_unit() -> (u: PowerUnit) {
        PowerUnit::Watts
    }
}

} // verus!
