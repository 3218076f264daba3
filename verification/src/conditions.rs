//! Wind and atmosphere, in the units of the caller and in SI units.

use vstd::prelude::*;
use crate::double::Double;
use crate::inputs::BallisticInputs;
use crate::units::{constant, radians, scale, scaled, to_radians};
use crate::units::{FEET_TO_METERS, FIFTY, FIVE, HUNDRED, INHG_TO_HPA, MPH_TO_MPS, NINE};
use crate::units::{THIRTY_TWO, ZERO};

verus! {

/// 59.0, the standard temperature in degrees Fahrenheit
pub const STANDARD_TEMPERATURE_F: u64 = 0x404d_8000_0000_0000;

/// 29.92, the standard pressure in inches of mercury
pub const STANDARD_PRESSURE_INHG: u64 = 0x403d_eb85_1eb8_51ec;

/// A wind in SI units: speed in m/s, direction in radians, updraft in m/s.
#[derive(Clone, Copy, Debug, PartialEq, Eq, Structural)]
pub struct WindConditions {
    pub speed: Double,
    pub direction: Double,
    pub vertical_speed: Double,
}

/// An atmosphere: degrees Celsius, hPa, percent, meters.
#[derive(Clone, Copy, Debug, PartialEq, Eq, Structural)]
pub struct AtmosphericConditions {
    pub temperature: Double,
    pub pressure: Double,
    pub humidity: Double,
    pub altitude: Double,
}

/// A wind as the caller gives it: the direction is where it comes from, 0 a
/// headwind and 90 from the right; the vertical component is positive for an
/// updraft and in m/s.
#[derive(Clone, Copy, Debug, PartialEq, Eq, Structural)]
pub struct PyWindConditions {
    pub speed_mph: Double,
    pub direction_degrees: Double,
    pub vertical_speed_mps: Double,
}

/// An atmosphere as the caller gives it.
#[derive(Clone, Copy, Debug, PartialEq, Eq, Structural)]
pub struct PyAtmosphericConditions {
    pub temperature_f: Double,
    pub pressure_inhg: Double,
    pub humidity_percent: Double,
    pub altitude_feet: Double,
}

/// Degrees Fahrenheit in degrees Celsius.
pub open spec fn celsius(fahrenheit: Double) -> Double {
    fahrenheit.difference(constant(THIRTY_TWO)).product(constant(FIVE)).quotient(constant(NINE))
}

/// Degrees Fahrenheit in degrees Celsius.
pub fn to_celsius(fahrenheit: Double) -> (r: Double)
    ensures
        r == celsius(fahrenheit),
{
    fahrenheit.minus(Double::from_bits(THIRTY_TWO)).times(Double::from_bits(FIVE)).over(
        Double::from_bits(NINE),
    )
}

/// A wind given in mph and degrees.
pub open spec fn wind_in_si(
    speed_mph: Double,
    direction_degrees: Double,
    vertical_speed_mps: Double,
) -> WindConditions {
    WindConditions {
        speed: scaled(speed_mph, MPH_TO_MPS),
        direction: radians(direction_degrees),
        vertical_speed: vertical_speed_mps,
    }
}

/// An atmosphere given in degrees Fahrenheit, inHg, percent and feet.
pub open spec fn atmosphere_in_si(
    temperature_f: Double,
    pressure_inhg: Double,
    humidity_percent: Double,
    altitude_feet: Double,
) -> AtmosphericConditions {
    AtmosphericConditions {
        temperature: celsius(temperature_f),
        pressure: scaled(pressure_inhg, INHG_TO_HPA),
        humidity: humidity_percent,
        altitude: scaled(altitude_feet, FEET_TO_METERS),
    }
}

impl PyWindConditions {
    /// A wind of the given speed, direction and updraft.
    pub fn new(speed_mph: Double, direction_degrees: Double, vertical_speed_mps: Double) -> (r:
        PyWindConditions)
        ensures
            r == (PyWindConditions { speed_mph, direction_degrees, vertical_speed_mps }),
    {
        PyWindConditions { speed_mph, direction_degrees, vertical_speed_mps }
    }

    /// The wind in SI units.
    pub open spec fn si(self) -> WindConditions {
        wind_in_si(self.speed_mph, self.direction_degrees, self.vertical_speed_mps)
    }

    /// The wind in SI units.
    pub fn to_rust(&self) -> (r: WindConditions)
        ensures
            r == self.si(),
    {
        WindConditions {
            speed: scale(self.speed_mph, MPH_TO_MPS),
            direction: to_radians(self.direction_degrees),
            vertical_speed: self.vertical_speed_mps,
        }
    }
}

/// No wind.
impl Default for PyWindConditions {
    fn default() -> (r: Self)
        ensures
            r == still_air(),
    {
        let zero: Double = Double::from_bits(ZERO);
        PyWindConditions::new(zero, zero, zero)
    }
}

/// No wind.
pub open spec fn still_air() -> PyWindConditions {
    PyWindConditions {
        speed_mph: constant(ZERO),
        direction_degrees: constant(ZERO),
        vertical_speed_mps: constant(ZERO),
    }
}

impl PyAtmosphericConditions {
    /// An atmosphere of the given temperature, pressure, humidity and altitude.
    pub fn new(
        temperature_f: Double,
        pressure_inhg: Double,
        humidity_percent: Double,
        altitude_feet: Double,
    ) -> (r: PyAtmosphericConditions)
        ensures
            r == (PyAtmosphericConditions {
                temperature_f,
                pressure_inhg,
                humidity_percent,
                altitude_feet,
            }),
    {
        PyAtmosphericConditions { temperature_f, pressure_inhg, humidity_percent, altitude_feet }
    }

    /// The atmosphere in SI units.
    pub open spec fn si(self) -> AtmosphericConditions {
        atmosphere_in_si(
            self.temperature_f,
            self.pressure_inhg,
            self.humidity_percent,
            self.altitude_feet,
        )
    }

    /// The atmosphere in SI units.
    pub fn to_rust(&self) -> (r: AtmosphericConditions)
        ensures
            r == self.si(),
    {
        AtmosphericConditions {
            temperature: to_celsius(self.temperature_f),
            pressure: scale(self.pressure_inhg, INHG_TO_HPA),
            humidity: self.humidity_percent,
            altitude: scale(self.altitude_feet, FEET_TO_METERS),
        }
    }
}

/// The standard atmosphere at sea level.
impl Default for PyAtmosphericConditions {
    fn default() -> (r: Self)
        ensures
            r == standard_atmosphere(),
    {
        PyAtmosphericConditions::new(
            Double::from_bits(STANDARD_TEMPERATURE_F),
            Double::from_bits(STANDARD_PRESSURE_INHG),
            Double::from_bits(FIFTY),
            Double::from_bits(ZERO),
        )
    }
}

/// The standard atmosphere at sea level, half saturated.
pub open spec fn standard_atmosphere() -> PyAtmosphericConditions {
    PyAtmosphericConditions {
        temperature_f: constant(STANDARD_TEMPERATURE_F),
        pressure_inhg: constant(STANDARD_PRESSURE_INHG),
        humidity_percent: constant(FIFTY),
        altitude_feet: constant(ZERO),
    }
}

/// A fraction in percent, held between 0 and 100; a NaN stays one.
pub open spec fn percent(fraction: Double) -> Double {
    let p = fraction.product(constant(HUNDRED));
    if p.below(constant(ZERO)) {
        constant(ZERO)
    } else if constant(HUNDRED).below(p) {
        constant(HUNDRED)
    } else {
        p
    }
}

/// The wind that the inputs themselves describe.
pub open spec fn wind_of(b: BallisticInputs) -> WindConditions {
    WindConditions {
        speed: b.wind_speed,
        direction: b.wind_angle,
        vertical_speed: constant(ZERO),
    }
}

/// The atmosphere that the inputs themselves describe.
pub open spec fn atmosphere_of(b: BallisticInputs) -> AtmosphericConditions {
    AtmosphericConditions {
        temperature: b.temperature,
        pressure: b.pressure,
        humidity: percent(b.humidity),
        altitude: b.altitude,
    }
}

impl BallisticInputs {
    /// The humidity in percent, of inputs that hold it as a fraction.
    pub fn humidity_percent(&self) -> (r: Double)
        ensures
            r == percent(self.humidity),
    {
        let p: Double = self.humidity.times(Double::from_bits(HUNDRED));
        if p.lt(Double::from_bits(ZERO)) {
            Double::from_bits(ZERO)
        } else if Double::from_bits(HUNDRED).lt(p) {
            Double::from_bits(HUNDRED)
        } else {
            p
        }
    }

    /// The wind that these inputs describe, with no updraft.
    pub fn own_wind(&self) -> (r: WindConditions)
        ensures
            r == wind_of(*self),
    {
        WindConditions {
            speed: self.wind_speed,
            direction: self.wind_angle,
            vertical_speed: Double::from_bits(ZERO),
        }
    }

    /// The atmosphere that these inputs describe.
    pub fn own_atmosphere(&self) -> (r: AtmosphericConditions)
        ensures
            r == atmosphere_of(*self),
    {
        AtmosphericConditions {
            temperature: self.temperature,
            pressure: self.pressure,
            humidity: self.humidity_percent(),
            altitude: self.altitude,
        }
    }
}

} // verus!
