//! The key table: under which keys each input is found, and what it is when
//! none of them is given.
//!
//! Where an input has two keys, the first wins.  Quantities are in the units of
//! the dictionary: grains, inches, feet per second, yards, feet, kilometres per
//! hour, degrees, degrees Celsius, hectopascals and percent.

use vstd::prelude::*;
use crate::dict::Dict;
use crate::double::Double;
use crate::exception::Fault;
use crate::units::{constant, HALF, HUNDRED, ZERO};

verus! {

/// 168.0
pub const DEFAULT_MASS_GRAINS: u64 = 0x4065_0000_0000_0000;

/// 2650.0
pub const DEFAULT_VELOCITY_FPS: u64 = 0x40a4_b400_0000_0000;

/// 11.25
pub const DEFAULT_TWIST_INCHES: u64 = 0x4026_8000_0000_0000;

/// 1.2
pub const DEFAULT_LENGTH_INCHES: u64 = 0x3ff3_3333_3333_3333;

/// 0.308
pub const DEFAULT_DIAMETER_INCHES: u64 = 0x3fd3_b645_a1ca_c083;

/// 15.0
pub const DEFAULT_TEMPERATURE_C: u64 = 0x402e_0000_0000_0000;

/// 1013.25
pub const DEFAULT_PRESSURE_HPA: u64 = 0x408f_aa00_0000_0000;

/// 70.0
pub const DEFAULT_POWDER_TEMPERATURE: u64 = 0x4051_8000_0000_0000;

/// 20.0
pub const DEFAULT_TIPOFF_DISTANCE: u64 = 0x4034_0000_0000_0000;

/// -100.0
pub const DEFAULT_GROUND_THRESHOLD: u64 = 0xc059_0000_0000_0000;

/// 10.0
pub const DEFAULT_SAMPLE_INTERVAL_M: u64 = 0x4024_0000_0000_0000;

/// 1.5
pub const DEFAULT_SIGHT_HEIGHT_INCHES: u64 = 0x3ff8_0000_0000_0000;

pub open spec fn bc_value(d: Dict) -> Result<Double, Fault> {
    d.number("bc_value"@, Some("bc"@), constant(HALF))
}

pub open spec fn bullet_mass(d: Dict) -> Result<Double, Fault> {
    d.number("bullet_mass"@, Some("bullet_weight_grains"@), constant(DEFAULT_MASS_GRAINS))
}

pub open spec fn altitude(d: Dict) -> Result<Double, Fault> {
    d.number("altitude"@, None, constant(ZERO))
}

pub open spec fn latitude(d: Dict) -> Result<Option<Double>, Fault> {
    d.optional_number("latitude"@)
}

pub open spec fn bullet_cluster(d: Dict) -> Result<Option<usize>, Fault> {
    d.optional_index("bullet_cluster"@)
}

pub open spec fn enable_advanced_effects(d: Dict) -> Result<bool, Fault> {
    d.flag("enable_advanced_effects"@, None, false)
}

pub open spec fn is_twist_right(d: Dict) -> Result<bool, Fault> {
    d.flag("is_twist_right"@, Some("is_right_twist"@), true)
}

/// The advanced effects are asked for.
pub open spec fn advanced(d: Dict) -> bool {
    enable_advanced_effects(d) == Ok::<bool, Fault>(true)
}

/// The Coriolis effect is on unless the dictionary says otherwise: with the
/// advanced effects, where the latitude is known.
pub open spec fn coriolis_by_default(d: Dict) -> bool {
    advanced(d) && (latitude(d) matches Ok(l) && l is Some)
}

pub open spec fn muzzle_velocity(d: Dict) -> Result<Double, Fault> {
    d.number("muzzle_velocity"@, Some("muzzle_velocity_fps"@), constant(DEFAULT_VELOCITY_FPS))
}

pub open spec fn twist_rate(d: Dict) -> Result<Double, Fault> {
    d.number("twist_rate"@, Some("twist_rate_inches"@), constant(DEFAULT_TWIST_INCHES))
}

pub open spec fn bullet_length(d: Dict) -> Result<Double, Fault> {
    d.number("bullet_length"@, Some("bullet_length_inches"@), constant(DEFAULT_LENGTH_INCHES))
}

pub open spec fn bullet_diameter(d: Dict) -> Result<Double, Fault> {
    d.number("bullet_diameter"@, Some("bullet_diameter_inches"@), constant(DEFAULT_DIAMETER_INCHES))
}

pub open spec fn target_distance(d: Dict) -> Result<Double, Fault> {
    d.number("target_distance"@, Some("zero_distance_yards"@), constant(HUNDRED))
}

pub open spec fn muzzle_angle(d: Dict) -> Result<Double, Fault> {
    d.number("muzzle_angle"@, None, constant(ZERO))
}

pub open spec fn wind_speed(d: Dict) -> Result<Double, Fault> {
    d.number("wind_speed"@, None, constant(ZERO))
}

pub open spec fn wind_angle(d: Dict) -> Result<Double, Fault> {
    d.number("wind_angle"@, None, constant(ZERO))
}

pub open spec fn temperature(d: Dict) -> Result<Double, Fault> {
    d.number("temperature"@, None, constant(DEFAULT_TEMPERATURE_C))
}

pub open spec fn pressure(d: Dict) -> Result<Double, Fault> {
    d.number("pressure"@, None, constant(DEFAULT_PRESSURE_HPA))
}

pub open spec fn humidity(d: Dict) -> Result<Double, Fault> {
    d.number("humidity"@, None, constant(ZERO))
}

pub open spec fn enable_coriolis(d: Dict) -> Result<bool, Fault> {
    d.flag("enable_coriolis"@, None, coriolis_by_default(d))
}

pub open spec fn shot_direction(d: Dict) -> Result<Double, Fault> {
    d.number("shot_direction"@, None, constant(ZERO))
}

pub open spec fn use_powder_sensitivity(d: Dict) -> Result<bool, Fault> {
    d.flag("use_powder_sensitivity"@, None, false)
}

pub open spec fn powder_temp_sensitivity(d: Dict) -> Result<Double, Fault> {
    d.number("powder_temp_sensitivity"@, None, constant(ZERO))
}

pub open spec fn powder_temp(d: Dict) -> Result<Double, Fault> {
    d.number("powder_temp"@, None, constant(DEFAULT_POWDER_TEMPERATURE))
}

pub open spec fn tipoff_yaw(d: Dict) -> Result<Double, Fault> {
    d.number("tipoff_yaw"@, None, constant(ZERO))
}

pub open spec fn tipoff_decay_distance(d: Dict) -> Result<Double, Fault> {
    d.number("tipoff_decay_distance"@, None, constant(DEFAULT_TIPOFF_DISTANCE))
}

pub open spec fn ground_threshold(d: Dict) -> Result<Double, Fault> {
    d.number("ground_threshold"@, None, constant(DEFAULT_GROUND_THRESHOLD))
}

pub open spec fn caliber_inches(d: Dict) -> Result<Double, Fault> {
    d.number("caliber_inches"@, None, constant(ZERO))
}

pub open spec fn weight_grains(d: Dict) -> Result<Double, Fault> {
    d.number("weight_grains"@, None, constant(ZERO))
}

pub open spec fn use_bc_segments(d: Dict) -> Result<bool, Fault> {
    d.flag("use_bc_segments"@, None, false)
}

pub open spec fn bullet_id(d: Dict) -> Result<Option<Seq<char>>, Fault> {
    d.optional_string("bullet_id"@)
}

pub open spec fn use_enhanced_spin_drift(d: Dict) -> Result<bool, Fault> {
    d.flag("use_enhanced_spin_drift"@, None, advanced(d))
}

pub open spec fn use_form_factor(d: Dict) -> Result<bool, Fault> {
    d.flag("use_form_factor"@, None, true)
}

pub open spec fn manufacturer(d: Dict) -> Result<Option<Seq<char>>, Fault> {
    d.optional_string("manufacturer"@)
}

pub open spec fn bullet_model(d: Dict) -> Result<Option<Seq<char>>, Fault> {
    d.optional_string("bullet_model"@)
}

pub open spec fn enable_wind_shear(d: Dict) -> Result<bool, Fault> {
    d.flag("enable_wind_shear"@, None, false)
}

pub open spec fn wind_shear_model(d: Dict) -> Result<Seq<char>, Fault> {
    d.text("wind_shear_model"@, "none"@)
}

pub open spec fn use_cluster_bc(d: Dict) -> Result<bool, Fault> {
    d.flag("use_cluster_bc"@, None, false)
}

pub open spec fn enable_aerodynamic_jump(d: Dict) -> Result<bool, Fault> {
    d.flag("enable_aerodynamic_jump"@, None, false)
}

pub open spec fn use_rk4(d: Dict) -> Result<bool, Fault> {
    d.flag("use_rk4"@, None, true)
}

pub open spec fn use_adaptive_rk45(d: Dict) -> Result<bool, Fault> {
    d.flag("use_adaptive_rk45"@, None, false)
}

pub open spec fn enable_trajectory_sampling(d: Dict) -> Result<bool, Fault> {
    d.flag("enable_trajectory_sampling"@, None, false)
}

pub open spec fn sample_interval(d: Dict) -> Result<Double, Fault> {
    d.number("sample_interval"@, Some("sample_interval_m"@), constant(DEFAULT_SAMPLE_INTERVAL_M))
}

pub open spec fn sight_height(d: Dict) -> Result<Double, Fault> {
    d.number("sight_height"@, Some("sight_height_inches"@), constant(DEFAULT_SIGHT_HEIGHT_INCHES))
}

pub open spec fn muzzle_height(d: Dict) -> Result<Double, Fault> {
    d.number("muzzle_height"@, Some("muzzle_height_inches"@), constant(ZERO))
}

pub open spec fn target_height(d: Dict) -> Result<Double, Fault> {
    d.number("target_height"@, Some("target_height_inches"@), constant(ZERO))
}

pub open spec fn cant_angle(d: Dict) -> Result<Double, Fault> {
    d.number("cant_angle_degrees"@, None, constant(ZERO))
}

} // verus!
