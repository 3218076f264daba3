//! Unit conversion factors and other numeric constants, by their bits.

use vstd::prelude::*;
use crate::double::Double;

verus! {

/// 0.00006479891
pub const GRAINS_TO_KG: u64 = 0x3f10_fc94_cc0c_80ea;

/// 0.3048
pub const FPS_TO_MPS: u64 = 0x3fd3_81d7_dbf4_87fd;

/// 0.3048
pub const FEET_TO_METERS: u64 = 0x3fd3_81d7_dbf4_87fd;

/// 0.9144
pub const YARDS_TO_METERS: u64 = 0x3fed_42c3_c9ee_cbfb;

/// 0.0254
pub const INCHES_TO_METERS: u64 = 0x3f9a_0275_2546_0aa6;

/// 0.44704
pub const MPH_TO_MPS: u64 = 0x3fdc_9c4d_a900_3eea;

/// 1000.0 / 3600.0
pub const KMH_TO_MPS: u64 = 0x3fd1_c71c_71c7_1c72;

/// PI / 180.0
pub const DEGREES_TO_RADIANS: u64 = 0x3f91_df46_a252_9d39;

/// 33.8639
pub const INHG_TO_HPA: u64 = 0x4040_ee94_4673_81d8;

/// 1.35582, joules in a foot-pound
pub const FTLBS_TO_JOULES: u64 = 0x3ff5_b170_4ff4_341a;

/// 0.0
pub const ZERO: u64 = 0;

/// 0.5
pub const HALF: u64 = 0x3fe0_0000_0000_0000;

/// 1.0
pub const ONE: u64 = 0x3ff0_0000_0000_0000;

/// 2.0
pub const TWO: u64 = 0x4000_0000_0000_0000;

/// 5.0
pub const FIVE: u64 = 0x4014_0000_0000_0000;

/// 9.0
pub const NINE: u64 = 0x4022_0000_0000_0000;

/// 32.0
pub const THIRTY_TWO: u64 = 0x4040_0000_0000_0000;

/// 50.0
pub const FIFTY: u64 = 0x4049_0000_0000_0000;

/// 100.0
pub const HUNDRED: u64 = 0x4059_0000_0000_0000;

/// 1000.0
pub const THOUSAND: u64 = 0x408f_4000_0000_0000;

/// The number with the given bits.
pub open spec fn constant(bits: u64) -> Double {
    Double { bits }
}

/// Degrees in radians.
pub open spec fn radians(degrees: Double) -> Double {
    degrees.product(constant(DEGREES_TO_RADIANS))
}

/// Degrees in radians.
pub fn to_radians(degrees: Double) -> (r: Double)
    ensures
        r == radians(degrees),
{
    degrees.times(Double::from_bits(DEGREES_TO_RADIANS))
}

/// A quantity multiplied by the factor with the given bits.
pub open spec fn scaled(x: Double, factor: u64) -> Double {
    x.product(constant(factor))
}

/// A quantity multiplied by the factor with the given bits.
pub fn scale(x: Double, factor: u64) -> (r: Double)
    ensures
        r == scaled(x, factor),
{
    x.times(Double::from_bits(factor))
}

/// A quantity divided by the factor with the given bits.
pub open spec fn unscaled(x: Double, factor: u64) -> Double {
    x.quotient(constant(factor))
}

/// A quantity divided by the factor with the given bits.
pub fn unscale(x: Double, factor: u64) -> (r: Double)
    ensures
        r == unscaled(x, factor),
{
    x.over(Double::from_bits(factor))
}

} // verus!
