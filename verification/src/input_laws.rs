//! What the inputs of a dictionary mean.

use vstd::prelude::*;
use vstd::arithmetic::power2::*;
use crate::dict::{Dict, Value};
use crate::double::{lemma_magnitude_increases, Double};
use crate::drag::{drag_model_name, get_drag_coefficient, get_drag_coefficient_transonic};
use crate::drag::{lemma_pair, model_in_bc_type, model_in_loose_text, model_in_query, DragCall};
use crate::drag::{DragModel, PyDragModel, TransonicDragCall};
use crate::exception::{Exception, Fault};
use crate::fields::{all_pairs, bc_segments, bc_segments_data, bc_type, custom_drag_table, firsts};
use crate::fields::{seconds, segment_item, segment_items, segment_number, shooting_angle};
use crate::fields::{sound_table, BCSegmentData};
use crate::inputs::{reads_as, si, zero, BallisticInputs};
use crate::keys::{DEFAULT_DIAMETER_INCHES, DEFAULT_GROUND_THRESHOLD, DEFAULT_LENGTH_INCHES};
use crate::keys::{DEFAULT_MASS_GRAINS, DEFAULT_POWDER_TEMPERATURE, DEFAULT_PRESSURE_HPA};
use crate::keys::{DEFAULT_SAMPLE_INTERVAL_M, DEFAULT_SIGHT_HEIGHT_INCHES, DEFAULT_TEMPERATURE_C};
use crate::keys::{DEFAULT_TIPOFF_DISTANCE, DEFAULT_TWIST_INCHES, DEFAULT_VELOCITY_FPS};
use crate::rounding::magnitude;
use crate::sampling::{sample_si, SAMPLE_KMH_TO_MPS};
use crate::text::{occurs, occurs_at, optional_view};
use crate::unit_laws::{law_factors_stand_for_their_units, law_scaled_measures};
use crate::unit_laws::{law_scaling_mirrors, law_small_numbers_stand_for_themselves};
use crate::unit_laws::{law_typical_values_stand_for_themselves, lemma_stands_for, measures};
use crate::unit_laws::stands_for;
use crate::units::{constant, DEGREES_TO_RADIANS, FEET_TO_METERS, FPS_TO_MPS, GRAINS_TO_KG};
use crate::units::{HUNDRED, INCHES_TO_METERS, KMH_TO_MPS, YARDS_TO_METERS, ZERO};

verus! {

/// A number is given for a key.
pub open spec fn given_number(d: Dict, key: Seq<char>, x: Double) -> bool {
    d.given(key) matches Some(v) && v.number == Ok::<Double, Exception>(x)
}

/// A truth value is given for a key.
pub open spec fn given_flag(d: Dict, key: Seq<char>, x: bool) -> bool {
    d.given(key) matches Some(v) && v.flag == Ok::<bool, Exception>(x)
}

/// A text is given for a key.
pub open spec fn given_text(d: Dict, key: Seq<char>, s: Seq<char>) -> bool {
    d.given(key) matches Some(v) && (v.text matches Ok(t) && t@ == s)
}

/// What is taken for an input that is not given, in the unit of its key.
pub proof fn law_defaults_stand_for_themselves()
    ensures
        stands_for(DEFAULT_MASS_GRAINS, 168, 1),
        stands_for(DEFAULT_VELOCITY_FPS, 2650, 1),
        stands_for(DEFAULT_TWIST_INCHES, 1125, 100),
        stands_for(DEFAULT_LENGTH_INCHES, 12, 10),
        stands_for(DEFAULT_DIAMETER_INCHES, 308, 1000),
        stands_for(DEFAULT_TEMPERATURE_C, 15, 1),
        stands_for(DEFAULT_PRESSURE_HPA, 101325, 100),
        stands_for(DEFAULT_POWDER_TEMPERATURE, 70, 1),
        stands_for(DEFAULT_TIPOFF_DISTANCE, 20, 1),
        stands_for(DEFAULT_SAMPLE_INTERVAL_M, 10, 1),
        stands_for(DEFAULT_SIGHT_HEIGHT_INCHES, 15, 10),
        constant(DEFAULT_GROUND_THRESHOLD).negated() == constant(HUNDRED),
{
    lemma2_to64();
    lemma2_to64_rest();
    lemma_stands_for(DEFAULT_MASS_GRAINS, 1030, 0x15000000000000, 0x200000000000, 168, 1);
    lemma_stands_for(DEFAULT_VELOCITY_FPS, 1034, 0x14b40000000000, 0x20000000000, 2650, 1);
    lemma_stands_for(DEFAULT_TWIST_INCHES, 1026, 0x16800000000000, 0x2000000000000, 1125, 100);
    lemma_stands_for(DEFAULT_LENGTH_INCHES, 1023, 0x13333333333333, 0x10000000000000, 12, 10);
    lemma_stands_for(DEFAULT_DIAMETER_INCHES, 1021, 0x13b645a1cac083, 0x40000000000000, 308, 1000);
    lemma_stands_for(DEFAULT_TEMPERATURE_C, 1026, 0x1e000000000000, 0x2000000000000, 15, 1);
    lemma_stands_for(DEFAULT_PRESSURE_HPA, 1032, 0x1faa0000000000, 0x80000000000, 101325, 100);
    lemma_stands_for(DEFAULT_POWDER_TEMPERATURE, 1029, 0x11800000000000, 0x400000000000, 70, 1);
    lemma_stands_for(DEFAULT_TIPOFF_DISTANCE, 1027, 0x14000000000000, 0x1000000000000, 20, 1);
    lemma_stands_for(DEFAULT_SAMPLE_INTERVAL_M, 1026, 0x14000000000000, 0x2000000000000, 10, 1);
    lemma_stands_for(DEFAULT_SIGHT_HEIGHT_INCHES, 1023, 0x18000000000000, 0x10000000000000, 15, 10);
}

/// Numbers of the bullet and the shot: each is the number given under its own key, or
/// else under its second key; one that is not given has its default.
pub proof fn law_first_numbers_are_read_by_their_keys(
    d: Dict,
    refusal: Seq<char>,
    b: BallisticInputs,
    x: Double,
)
    requires
        reads_as(d, refusal, b),
    ensures
        given_number(d, "bc_value"@, x) ==> b.bc_value == x,
        d.given("bc_value"@) is None && given_number(d, "bc"@, x) ==> b.bc_value == x,
        d.given("bc_value"@) is None && d.given("bc"@) is None ==>
            stands_for(b.bc_value.bits, 1, 2),
        given_number(d, "bullet_mass"@, x) ==> b.bullet_mass == x,
        d.given("bullet_mass"@) is None && given_number(d, "bullet_weight_grains"@, x) ==>
            b.bullet_mass == x,
        d.given("bullet_mass"@) is None && d.given("bullet_weight_grains"@) is None ==>
            stands_for(b.bullet_mass.bits, 168, 1),
        given_number(d, "altitude"@, x) ==> b.altitude == x,
        d.given("altitude"@) is None ==> b.altitude == constant(ZERO),
        given_number(d, "muzzle_velocity"@, x) ==> b.muzzle_velocity == x,
        d.given("muzzle_velocity"@) is None && given_number(d, "muzzle_velocity_fps"@, x) ==>
            b.muzzle_velocity == x,
        d.given("muzzle_velocity"@) is None && d.given("muzzle_velocity_fps"@) is None ==>
            stands_for(b.muzzle_velocity.bits, 2650, 1),
        given_number(d, "twist_rate"@, x) ==> b.twist_rate == x,
        d.given("twist_rate"@) is None && given_number(d, "twist_rate_inches"@, x) ==>
            b.twist_rate == x,
        d.given("twist_rate"@) is None && d.given("twist_rate_inches"@) is None ==>
            stands_for(b.twist_rate.bits, 1125, 100),
        given_number(d, "bullet_length"@, x) ==> b.bullet_length == x,
        d.given("bullet_length"@) is None && given_number(d, "bullet_length_inches"@, x) ==>
            b.bullet_length == x,
        d.given("bullet_length"@) is None && d.given("bullet_length_inches"@) is None ==>
            stands_for(b.bullet_length.bits, 12, 10),
        given_number(d, "bullet_diameter"@, x) ==> b.bullet_diameter == x,
        d.given("bullet_diameter"@) is None && given_number(d, "bullet_diameter_inches"@, x) ==>
            b.bullet_diameter == x,
        d.given("bullet_diameter"@) is None && d.given("bullet_diameter_inches"@) is None ==>
            stands_for(b.bullet_diameter.bits, 308, 1000),
        given_number(d, "target_distance"@, x) ==> b.target_distance == x,
        d.given("target_distance"@) is None && given_number(d, "zero_distance_yards"@, x) ==>
            b.target_distance == x,
        d.given("target_distance"@) is None && d.given("zero_distance_yards"@) is None ==>
            stands_for(b.target_distance.bits, 100, 1),
        given_number(d, "muzzle_angle"@, x) ==> b.muzzle_angle == x,
        d.given("muzzle_angle"@) is None ==> b.muzzle_angle == constant(ZERO),
        given_number(d, "wind_speed"@, x) ==> b.wind_speed == x,
        d.given("wind_speed"@) is None ==> b.wind_speed == constant(ZERO),
{
    law_defaults_stand_for_themselves();
    law_small_numbers_stand_for_themselves();
    law_factors_stand_for_their_units();
}

/// Numbers of the air, the powder and the tip-off, in the same way.
pub proof fn law_more_numbers_are_read_by_their_keys(
    d: Dict,
    refusal: Seq<char>,
    b: BallisticInputs,
    x: Double,
)
    requires
        reads_as(d, refusal, b),
    ensures
        given_number(d, "wind_angle"@, x) ==> b.wind_angle == x,
        d.given("wind_angle"@) is None ==> b.wind_angle == constant(ZERO),
        given_number(d, "temperature"@, x) ==> b.temperature == x,
        d.given("temperature"@) is None ==> stands_for(b.temperature.bits, 15, 1),
        given_number(d, "pressure"@, x) ==> b.pressure == x,
        d.given("pressure"@) is None ==> stands_for(b.pressure.bits, 101325, 100),
        given_number(d, "humidity"@, x) ==> b.humidity == x,
        d.given("humidity"@) is None ==> b.humidity == constant(ZERO),
        given_number(d, "powder_temp_sensitivity"@, x) ==> b.powder_temp_sensitivity == x,
        d.given("powder_temp_sensitivity"@) is None ==>
            b.powder_temp_sensitivity == constant(ZERO),
        given_number(d, "powder_temp"@, x) ==> b.powder_temp == x,
        d.given("powder_temp"@) is None ==> stands_for(b.powder_temp.bits, 70, 1),
        given_number(d, "tipoff_yaw"@, x) ==> b.tipoff_yaw == x,
        d.given("tipoff_yaw"@) is None ==> b.tipoff_yaw == constant(ZERO),
        given_number(d, "tipoff_decay_distance"@, x) ==> b.tipoff_decay_distance == x,
        d.given("tipoff_decay_distance"@) is None ==>
            stands_for(b.tipoff_decay_distance.bits, 20, 1),
        given_number(d, "ground_threshold"@, x) ==> b.ground_threshold == x,
        d.given("ground_threshold"@) is None ==>
            stands_for(b.ground_threshold.negated().bits, 100, 1),
{
    law_defaults_stand_for_themselves();
    law_small_numbers_stand_for_themselves();
    law_factors_stand_for_their_units();
}

/// Numbers of the sampling and the heights, in the same way.
pub proof fn law_last_numbers_are_read_by_their_keys(
    d: Dict,
    refusal: Seq<char>,
    b: BallisticInputs,
    x: Double,
)
    requires
        reads_as(d, refusal, b),
    ensures
        given_number(d, "caliber_inches"@, x) ==> b.caliber_inches == x,
        d.given("caliber_inches"@) is None ==> b.caliber_inches == constant(ZERO),
        given_number(d, "weight_grains"@, x) ==> b.weight_grains == x,
        d.given("weight_grains"@) is None ==> b.weight_grains == constant(ZERO),
        given_number(d, "sample_interval"@, x) ==> b.sample_interval == x,
        d.given("sample_interval"@) is None && given_number(d, "sample_interval_m"@, x) ==>
            b.sample_interval == x,
        d.given("sample_interval"@) is None && d.given("sample_interval_m"@) is None ==>
            stands_for(b.sample_interval.bits, 10, 1),
        given_number(d, "sight_height"@, x) ==> b.sight_height == x,
        d.given("sight_height"@) is None && given_number(d, "sight_height_inches"@, x) ==>
            b.sight_height == x,
        d.given("sight_height"@) is None && d.given("sight_height_inches"@) is None ==>
            stands_for(b.sight_height.bits, 15, 10),
        given_number(d, "muzzle_height"@, x) ==> b.muzzle_height == x,
        d.given("muzzle_height"@) is None && given_number(d, "muzzle_height_inches"@, x) ==>
            b.muzzle_height == x,
        d.given("muzzle_height"@) is None && d.given("muzzle_height_inches"@) is None ==>
            b.muzzle_height == constant(ZERO),
        given_number(d, "target_height"@, x) ==> b.target_height == x,
        d.given("target_height"@) is None && given_number(d, "target_height_inches"@, x) ==>
            b.target_height == x,
        d.given("target_height"@) is None && d.given("target_height_inches"@) is None ==>
            b.target_height == constant(ZERO),
        given_number(d, "cant_angle_degrees"@, x) ==> b.cant_angle == x,
        d.given("cant_angle_degrees"@) is None ==> b.cant_angle == constant(ZERO),
{
    law_defaults_stand_for_themselves();
    law_small_numbers_stand_for_themselves();
    law_factors_stand_for_their_units();
}

/// Each effect is on or off as its own key says.  One that is not given is off, but the
/// spin drift goes with the advanced effects, and so does the Coriolis effect where the
/// latitude is known, and the Magnus effect always.
pub proof fn law_effects_are_read_by_their_keys(
    d: Dict,
    refusal: Seq<char>,
    b: BallisticInputs,
    x: bool,
)
    requires
        reads_as(d, refusal, b),
    ensures
        given_flag(d, "enable_advanced_effects"@, x) ==> b.enable_advanced_effects == x,
        d.given("enable_advanced_effects"@) is None ==> !b.enable_advanced_effects,
        given_flag(d, "enable_coriolis"@, x) ==> b.enable_coriolis == x,
        d.given("enable_coriolis"@) is None ==>
            b.enable_coriolis == (b.enable_advanced_effects && b.latitude is Some),
        given_flag(d, "use_enhanced_spin_drift"@, x) ==> b.use_enhanced_spin_drift == x,
        d.given("use_enhanced_spin_drift"@) is None ==>
            b.use_enhanced_spin_drift == b.enable_advanced_effects,
        b.enable_magnus == b.enable_advanced_effects,
{
}

/// The powder, the wind shear and the jump are as their own keys say, and otherwise off.
pub proof fn law_more_effects_are_read_by_their_keys(
    d: Dict,
    refusal: Seq<char>,
    b: BallisticInputs,
    x: bool,
)
    requires
        reads_as(d, refusal, b),
    ensures
        given_flag(d, "use_powder_sensitivity"@, x) ==> b.use_powder_sensitivity == x,
        d.given("use_powder_sensitivity"@) is None ==> !b.use_powder_sensitivity,
        given_flag(d, "enable_wind_shear"@, x) ==> b.enable_wind_shear == x,
        d.given("enable_wind_shear"@) is None ==> !b.enable_wind_shear,
        given_flag(d, "enable_aerodynamic_jump"@, x) ==> b.enable_aerodynamic_jump == x,
        d.given("enable_aerodynamic_jump"@) is None ==> !b.enable_aerodynamic_jump,
{
}

/// The twist is to the right and the form factor in use unless their keys say otherwise;
/// the segments and the clusters are in use only if theirs do.
pub proof fn law_bullet_flags_are_read_by_their_keys(
    d: Dict,
    refusal: Seq<char>,
    b: BallisticInputs,
    x: bool,
)
    requires
        reads_as(d, refusal, b),
    ensures
        given_flag(d, "is_twist_right"@, x) ==> b.is_twist_right == x,
        d.given("is_twist_right"@) is None && given_flag(d, "is_right_twist"@, x) ==>
            b.is_twist_right == x,
        d.given("is_twist_right"@) is None && d.given("is_right_twist"@) is None ==>
            b.is_twist_right,
        given_flag(d, "use_form_factor"@, x) ==> b.use_form_factor == x,
        d.given("use_form_factor"@) is None ==> b.use_form_factor,
        given_flag(d, "use_bc_segments"@, x) ==> b.use_bc_segments == x,
        d.given("use_bc_segments"@) is None ==> !b.use_bc_segments,
        given_flag(d, "use_cluster_bc"@, x) ==> b.use_cluster_bc == x,
        d.given("use_cluster_bc"@) is None ==> !b.use_cluster_bc,
{
}

/// Integration is by Runge-Kutta unless its key says otherwise; adaptive steps and
/// samples are in only if theirs do.
pub proof fn law_solver_flags_are_read_by_their_keys(
    d: Dict,
    refusal: Seq<char>,
    b: BallisticInputs,
    x: bool,
)
    requires
        reads_as(d, refusal, b),
    ensures
        given_flag(d, "use_rk4"@, x) ==> b.use_rk4 == x,
        d.given("use_rk4"@) is None ==> b.use_rk4,
        given_flag(d, "use_adaptive_rk45"@, x) ==> b.use_adaptive_rk45 == x,
        d.given("use_adaptive_rk45"@) is None ==> !b.use_adaptive_rk45,
        given_flag(d, "enable_trajectory_sampling"@, x) ==> b.enable_trajectory_sampling == x,
        d.given("enable_trajectory_sampling"@) is None ==> !b.enable_trajectory_sampling,
{
}

/// The inputs in SI units: grains to kilograms, inches, feet and yards to meters, feet
/// per second and kilometers per hour to meters per second, degrees to radians,
/// percent to a fraction.  A caliber or a weight that is zero is that of the bullet.
pub proof fn law_inputs_become_metric(b: BallisticInputs)
    ensures
        measures(si(b).bullet_mass, b.bullet_mass, 6479891, 100000000000),
        measures(si(b).bullet_diameter, b.bullet_diameter, 254, 10000),
        measures(si(b).bullet_length, b.bullet_length, 254, 10000),
        measures(si(b).muzzle_velocity, b.muzzle_velocity, 3048, 10000),
        measures(si(b).target_distance, b.target_distance, 9144, 10000),
        measures(si(b).altitude, b.altitude, 3048, 10000),
        measures(si(b).sight_height, b.sight_height, 254, 10000),
        measures(si(b).muzzle_height, b.muzzle_height, 254, 10000),
        measures(si(b).target_height, b.target_height, 254, 10000),
        measures(si(b).wind_speed, b.wind_speed, 1000, 3600),
        measures(si(b).wind_angle, b.wind_angle, 31415926535897932, 1800000000000000000),
        measures(si(b).muzzle_angle, b.muzzle_angle, 31415926535897932, 1800000000000000000),
        measures(si(b).cant_angle, b.cant_angle, 31415926535897932, 1800000000000000000),
        measures(si(b).humidity, b.humidity, 1, 100),
        b.caliber_inches.zero() ==> si(b).caliber_inches == b.bullet_diameter,
        !b.caliber_inches.zero() ==> si(b).caliber_inches == b.caliber_inches,
        b.weight_grains.zero() ==> si(b).weight_grains == b.bullet_mass,
        !b.weight_grains.zero() ==> si(b).weight_grains == b.weight_grains,
{
    law_factors_stand_for_their_units();
    lemma_zeros(b.caliber_inches);
    lemma_zeros(b.weight_grains);
    law_scaled_measures(b.bullet_mass, GRAINS_TO_KG, 6479891, 100000000000);
    law_scaled_measures(b.bullet_diameter, INCHES_TO_METERS, 254, 10000);
    law_scaled_measures(b.bullet_length, INCHES_TO_METERS, 254, 10000);
    law_scaled_measures(b.muzzle_velocity, FPS_TO_MPS, 3048, 10000);
    law_scaled_measures(b.target_distance, YARDS_TO_METERS, 9144, 10000);
    law_scaled_measures(b.altitude, FEET_TO_METERS, 3048, 10000);
    law_scaled_measures(b.sight_height, INCHES_TO_METERS, 254, 10000);
    law_scaled_measures(b.muzzle_height, INCHES_TO_METERS, 254, 10000);
    law_scaled_measures(b.target_height, INCHES_TO_METERS, 254, 10000);
    law_scaled_measures(b.wind_speed, KMH_TO_MPS, 1000, 3600);
    law_scaled_measures(b.wind_angle, DEGREES_TO_RADIANS, 31415926535897932, 1800000000000000000);
    law_scaled_measures(b.muzzle_angle, DEGREES_TO_RADIANS, 31415926535897932, 1800000000000000000);
    law_scaled_measures(b.cant_angle, DEGREES_TO_RADIANS, 31415926535897932, 1800000000000000000);
    law_scaled_measures(b.humidity, HUNDRED, 100, 1);
}

proof fn lemma_zeros(x: Double)
    ensures
        zero(x) == x.zero(),
{
    reveal(zero);
    assert(magnitude(0) == 0);
    if x.pattern() > 0 && !x.nan() {
        lemma_magnitude_increases(0, x.pattern());
    }
}

/// What has no unit, or is in SI units already, stays as it is.
pub proof fn law_other_inputs_stay(b: BallisticInputs)
    ensures
        si(b).bc_value == b.bc_value,
        si(b).bc_type == b.bc_type,
        si(b).twist_rate == b.twist_rate,
        si(b).temperature == b.temperature,
        si(b).pressure == b.pressure,
        si(b).latitude == b.latitude,
        si(b).enable_advanced_effects == b.enable_advanced_effects,
        si(b).enable_magnus == b.enable_magnus,
        si(b).enable_coriolis == b.enable_coriolis,
        si(b).is_twist_right == b.is_twist_right,
        si(b).shooting_angle == b.shooting_angle,
        si(b).azimuth_angle == b.azimuth_angle,
        si(b).shot_azimuth == b.shot_azimuth,
        si(b).use_powder_sensitivity == b.use_powder_sensitivity,
        si(b).powder_temp_sensitivity == b.powder_temp_sensitivity,
        si(b).powder_temp == b.powder_temp,
        si(b).tipoff_yaw == b.tipoff_yaw,
        si(b).tipoff_decay_distance == b.tipoff_decay_distance,
        si(b).ground_threshold == b.ground_threshold,
        si(b).bc_segments == b.bc_segments,
        si(b).use_bc_segments == b.use_bc_segments,
        si(b).bullet_id == b.bullet_id,
        si(b).bc_segments_data == b.bc_segments_data,
        si(b).use_enhanced_spin_drift == b.use_enhanced_spin_drift,
        si(b).use_form_factor == b.use_form_factor,
        si(b).manufacturer == b.manufacturer,
        si(b).bullet_model == b.bullet_model,
        si(b).enable_wind_shear == b.enable_wind_shear,
        si(b).wind_shear_model == b.wind_shear_model,
        si(b).use_cluster_bc == b.use_cluster_bc,
        si(b).bullet_cluster == b.bullet_cluster,
        si(b).custom_drag_table == b.custom_drag_table,
        si(b).bc_type_str == b.bc_type_str,
        si(b).enable_pitch_damping == b.enable_pitch_damping,
        si(b).enable_precession_nutation == b.enable_precession_nutation,
        si(b).enable_aerodynamic_jump == b.enable_aerodynamic_jump,
        si(b).use_rk4 == b.use_rk4,
        si(b).use_adaptive_rk45 == b.use_adaptive_rk45,
        si(b).enable_trajectory_sampling == b.enable_trajectory_sampling,
        si(b).sample_interval == b.sample_interval,
{
}

/// The inputs of a run keep what has no unit; their wind is converted by 0.2777778.
pub proof fn law_other_inputs_of_a_run_stay(b: BallisticInputs)
    ensures
        measures(sample_si(b).wind_speed, b.wind_speed, 2777778, 10000000),
        sample_si(b).cant_angle == b.cant_angle,
        sample_si(b).bc_value == b.bc_value,
        sample_si(b).bc_type == b.bc_type,
        sample_si(b).twist_rate == b.twist_rate,
        sample_si(b).temperature == b.temperature,
        sample_si(b).pressure == b.pressure,
        sample_si(b).latitude == b.latitude,
        sample_si(b).enable_advanced_effects == b.enable_advanced_effects,
        sample_si(b).enable_magnus == b.enable_magnus,
        sample_si(b).enable_coriolis == b.enable_coriolis,
        sample_si(b).is_twist_right == b.is_twist_right,
        sample_si(b).shooting_angle == b.shooting_angle,
        sample_si(b).azimuth_angle == b.azimuth_angle,
        sample_si(b).shot_azimuth == b.shot_azimuth,
        sample_si(b).use_powder_sensitivity == b.use_powder_sensitivity,
        sample_si(b).powder_temp_sensitivity == b.powder_temp_sensitivity,
        sample_si(b).powder_temp == b.powder_temp,
        sample_si(b).tipoff_yaw == b.tipoff_yaw,
        sample_si(b).tipoff_decay_distance == b.tipoff_decay_distance,
        sample_si(b).ground_threshold == b.ground_threshold,
        sample_si(b).bc_segments == b.bc_segments,
        sample_si(b).use_bc_segments == b.use_bc_segments,
        sample_si(b).bullet_id == b.bullet_id,
        sample_si(b).bc_segments_data == b.bc_segments_data,
        sample_si(b).use_enhanced_spin_drift == b.use_enhanced_spin_drift,
        sample_si(b).use_form_factor == b.use_form_factor,
        sample_si(b).manufacturer == b.manufacturer,
        sample_si(b).bullet_model == b.bullet_model,
        sample_si(b).enable_wind_shear == b.enable_wind_shear,
        sample_si(b).wind_shear_model == b.wind_shear_model,
        sample_si(b).use_cluster_bc == b.use_cluster_bc,
        sample_si(b).bullet_cluster == b.bullet_cluster,
        sample_si(b).custom_drag_table == b.custom_drag_table,
        sample_si(b).bc_type_str == b.bc_type_str,
        sample_si(b).enable_pitch_damping == b.enable_pitch_damping,
        sample_si(b).enable_precession_nutation == b.enable_precession_nutation,
        sample_si(b).enable_aerodynamic_jump == b.enable_aerodynamic_jump,
        sample_si(b).use_rk4 == b.use_rk4,
        sample_si(b).use_adaptive_rk45 == b.use_adaptive_rk45,
        sample_si(b).enable_trajectory_sampling == b.enable_trajectory_sampling,
        sample_si(b).sample_interval == b.sample_interval,
{
    law_typical_values_stand_for_themselves();
    law_scaled_measures(b.wind_speed, SAMPLE_KMH_TO_MPS, 2777778, 10000000);
}

/// Texts, the latitude and the cluster are those given under their own keys, and none
/// if none is given; the wind shear model is then called `none`.
pub proof fn law_texts_are_read_by_their_keys(
    d: Dict,
    refusal: Seq<char>,
    b: BallisticInputs,
    s: Seq<char>,
    x: Double,
)
    requires
        reads_as(d, refusal, b),
    ensures
        given_text(d, "bullet_id"@, s) ==> optional_view(b.bullet_id) == Some(s),
        given_text(d, "manufacturer"@, s) ==> optional_view(b.manufacturer) == Some(s),
        given_text(d, "bullet_model"@, s) ==> optional_view(b.bullet_model) == Some(s),
        given_text(d, "wind_shear_model"@, s) ==> b.wind_shear_model@ == s,
        given_number(d, "latitude"@, x) ==> b.latitude == Some(x),
        d.given("bullet_cluster"@) matches Some(v) ==> (b.bullet_cluster matches Some(n)
            && v.index == Ok::<usize, Exception>(n)),
        d.given("bullet_id"@) is None ==> b.bullet_id is None,
        d.given("manufacturer"@) is None ==> b.manufacturer is None,
        d.given("bullet_model"@) is None ==> b.bullet_model is None,
        d.given("wind_shear_model"@) is None ==> b.wind_shear_model@ == "none"@,
        d.given("latitude"@) is None ==> b.latitude is None,
        d.given("bullet_cluster"@) is None ==> b.bullet_cluster is None,
        b.azimuth_angle == constant(ZERO),
        !b.enable_pitch_damping && !b.enable_precession_nutation,
{
}

/// The firing bearing and the shooting angle are in radians: the bearing is given in
/// degrees, and the angle in radians or, under its second key, in degrees.
pub proof fn law_angles_are_in_radians(
    d: Dict,
    refusal: Seq<char>,
    b: BallisticInputs,
    x: Double,
)
    requires
        reads_as(d, refusal, b),
    ensures
        given_number(d, "shot_direction"@, x) ==> measures(
            b.shot_azimuth,
            x,
            31415926535897932,
            1800000000000000000,
        ),
        d.given("shot_direction"@) is None ==> b.shot_azimuth == constant(ZERO),
        given_number(d, "shooting_angle"@, x) ==> b.shooting_angle == x,
        d.given("shooting_angle"@) is None && given_number(d, "shooting_angle_degrees"@, x)
            ==> measures(b.shooting_angle, x, 31415926535897932, 1800000000000000000),
        d.given("shooting_angle"@) is None && d.given("shooting_angle_degrees"@) is None
            ==> b.shooting_angle == constant(ZERO),
{
    law_factors_stand_for_their_units();
    law_scaled_measures(x, DEGREES_TO_RADIANS, 31415926535897932, 1800000000000000000);
    law_scaling_mirrors(constant(ZERO), DEGREES_TO_RADIANS);
}

proof fn lemma_occurs_between(before: Seq<char>, needle: Seq<char>, after: Seq<char>)
    ensures
        occurs(before + needle + after, needle),
{
    let m = before + needle + after;
    assert(m.subrange(before.len() as int, (before.len() + needle.len()) as int) =~= needle);
    assert(occurs_at(m, needle, before.len() as int));
}

/// The names of the drag models, letter by letter.
proof fn lemma_model_names()
    ensures
        "G1"@.len() == 2 && "G1"@[0] == 'G' && "G1"@[1] == '1',
        "G2"@.len() == 2 && "G2"@[0] == 'G' && "G2"@[1] == '2',
        "G5"@.len() == 2 && "G5"@[0] == 'G' && "G5"@[1] == '5',
        "G6"@.len() == 2 && "G6"@[0] == 'G' && "G6"@[1] == '6',
        "G7"@.len() == 2 && "G7"@[0] == 'G' && "G7"@[1] == '7',
        "G8"@.len() == 2 && "G8"@[0] == 'G' && "G8"@[1] == '8',
        "GI"@.len() == 2 && "GI"@[0] == 'G' && "GI"@[1] == 'I',
        "GS"@.len() == 2 && "GS"@[0] == 'G' && "GS"@[1] == 'S',
        "RA4"@.len() == 3 && "RA4"@[0] == 'R' && "RA4"@[1] == 'A' && "RA4"@[2] == '4',
        "g1"@.len() == 2 && "g1"@[0] == 'g' && "g1"@[1] == '1',
        "g6"@.len() == 2 && "g6"@[0] == 'g' && "g6"@[1] == '6',
        "g7"@.len() == 2 && "g7"@[0] == 'g' && "g7"@[1] == '7',
        "g8"@.len() == 2 && "g8"@[0] == 'g' && "g8"@[1] == '8',
{
    reveal_strlit("G1");
    reveal_strlit("G2");
    reveal_strlit("G5");
    reveal_strlit("G6");
    reveal_strlit("G7");
    reveal_strlit("G8");
    reveal_strlit("GI");
    reveal_strlit("GS");
    reveal_strlit("RA4");
    reveal_strlit("g1");
    reveal_strlit("g6");
    reveal_strlit("g7");
    reveal_strlit("g8");
}

/// Different drag models have different names.
pub proof fn law_models_have_their_own_names(m: DragModel, n: DragModel)
    ensures
        drag_model_name(m) == drag_model_name(n) ==> m == n,
{
    lemma_model_names();
    let (a, b) = (drag_model_name(m), drag_model_name(n));
    if a == b {
        assert(a.len() == b.len());
        assert(a[0] == b[0] && a[1] == b[1]);
    }
}

proof fn lemma_only_itself(s: Seq<char>, needle: Seq<char>)
    requires
        0 < s.len() <= 3,
        needle.len() == 2,
    ensures
        s.len() == 2 ==> (occurs(s, needle) <==> s == needle),
        s.len() == 3 && s[0] != 'G' && s[1] != 'G' && needle[0] == 'G' ==> !occurs(s, needle),
{
    if s.len() == 2 {
        if s == needle {
            assert(s.subrange(0, 2) =~= needle);
            assert(occurs_at(s, needle, 0));
        } else {
            assert forall|at: int| !(#[trigger] occurs_at(s, needle, at)) by {
                if occurs_at(s, needle, at) {
                    assert(s.subrange(at, at + 2) =~= s);
                }
            }
        }
    }
    if s.len() == 3 && s[0] != 'G' && s[1] != 'G' && needle[0] == 'G' {
        assert forall|at: int| !(#[trigger] occurs_at(s, needle, at)) by {
            if occurs_at(s, needle, at) {
                assert(s.subrange(at, at + 2)[0] == needle[0]);
            }
        }
    }
}

/// The models that a text can name.
pub open spec fn nameable(m: DragModel) -> bool {
    m == DragModel::G1 || m == DragModel::G6 || m == DragModel::G7 || m == DragModel::G8
}

/// The models G1, G6, G7 and G8 are read back by their names, strictly, loosely and in
/// a query.
pub proof fn law_models_are_read_back(m: DragModel, name: Seq<char>)
    requires
        name == drag_model_name(m),
        nameable(m),
    ensures
        model_in_bc_type(name) == Some(m),
        model_in_query(name) == Some(m),
        model_in_loose_text(name) == m,
{
    lemma_name_letters(m);
    lemma_short_texts(name);
}

/// The names of the other models are refused where the reading is strict, and loosely
/// read as G7.
pub proof fn law_other_models_are_not_read(m: DragModel, name: Seq<char>)
    requires
        name == drag_model_name(m),
        !nameable(m),
    ensures
        model_in_bc_type(name) is None,
        model_in_query(name) is None,
        model_in_loose_text(name) == DragModel::G7,
{
    lemma_name_letters(m);
    if m == DragModel::RA4 {
        lemma_no_model(name);
    } else {
        lemma_short_texts(name);
    }
}

proof fn lemma_name_letters(m: DragModel)
    ensures
        m != DragModel::RA4 ==> drag_model_name(m).len() == 2 && drag_model_name(m)[0] == 'G',
        m == DragModel::RA4 ==> drag_model_name(m).len() == 3 && drag_model_name(m)[0] == 'R'
            && drag_model_name(m)[1] == 'A',
        m == DragModel::G1 <==> drag_model_name(m)[1] == '1',
        m == DragModel::G6 <==> drag_model_name(m)[1] == '6',
        m == DragModel::G7 <==> drag_model_name(m)[1] == '7',
        m == DragModel::G8 <==> drag_model_name(m)[1] == '8',
{
    lemma_model_names();
}

proof fn lemma_short_texts(s: Seq<char>)
    requires
        s.len() == 2,
        s[0] == 'G',
    ensures
        model_in_bc_type(s) == match s[1] {
            '1' => Some(DragModel::G1),
            '6' => Some(DragModel::G6),
            '7' => Some(DragModel::G7),
            '8' => Some(DragModel::G8),
            _ => None,
        },
        model_in_query(s) == model_in_bc_type(s),
        model_in_loose_text(s) == match model_in_bc_type(s) {
            Some(m) => m,
            None => DragModel::G7,
        },
{
    lemma_model_names();
    lemma_only_itself(s, "G1"@);
    lemma_only_itself(s, "G6"@);
    lemma_only_itself(s, "G7"@);
    lemma_only_itself(s, "G8"@);
    lemma_pair(s, "G1"@);
    lemma_pair(s, "G6"@);
    lemma_pair(s, "G7"@);
    lemma_pair(s, "G8"@);
    lemma_pair(s, "g1"@);
    lemma_pair(s, "g6"@);
    lemma_pair(s, "g7"@);
    lemma_pair(s, "g8"@);
}

proof fn lemma_no_model(s: Seq<char>)
    requires
        s.len() == 3,
        s[0] != 'G',
        s[1] != 'G',
    ensures
        model_in_bc_type(s) is None,
        model_in_query(s) is None,
        model_in_loose_text(s) == DragModel::G7,
{
    lemma_model_names();
    lemma_only_itself(s, "G1"@);
    lemma_only_itself(s, "G6"@);
    lemma_only_itself(s, "G7"@);
    lemma_only_itself(s, "G8"@);
}

/// A model's name is found within a text: G1 before all others, and G7 is what a loose
/// text without any name means.
pub proof fn law_models_are_found_within_texts(before: Seq<char>, after: Seq<char>)
    ensures
        model_in_bc_type(before + "G1"@ + after) == Some(DragModel::G1),
        model_in_loose_text(before + "G1"@ + after) == DragModel::G1,
        ({
            let s = before + "G6"@ + after;
            &&& !occurs(s, "G1"@) ==> model_in_bc_type(s) == Some(DragModel::G6)
            &&& !occurs(s, "G1"@) && !occurs(s, "G8"@) ==> model_in_loose_text(s)
                == DragModel::G6
        }),
        ({
            let s = before + "G7"@ + after;
            &&& !occurs(s, "G1"@) && !occurs(s, "G6"@) ==> model_in_bc_type(s) == Some(
                DragModel::G7,
            )
            &&& !occurs(s, "G1"@) && !occurs(s, "G6"@) && !occurs(s, "G8"@)
                ==> model_in_loose_text(s) == DragModel::G7
        }),
        ({
            let s = before + "G8"@ + after;
            &&& !occurs(s, "G1"@) ==> model_in_loose_text(s) == DragModel::G8
            &&& !occurs(s, "G1"@) && !occurs(s, "G6"@) && !occurs(s, "G7"@)
                ==> model_in_bc_type(s) == Some(DragModel::G8)
        }),
{
    lemma_occurs_between(before, "G1"@, after);
    lemma_occurs_between(before, "G6"@, after);
    lemma_occurs_between(before, "G7"@, after);
    lemma_occurs_between(before, "G8"@, after);
}

/// The drag model of a dictionary: the type goes before the model and is read strictly,
/// an object names itself, a text is read loosely, and without either it is G7.  The
/// text that is kept is the one that was read.
pub proof fn law_the_type_goes_before_the_model(d: Dict, s: Seq<char>)
    ensures
        given_text(d, "bc_type"@, s) ==> match model_in_bc_type(s) {
            Some(m) => bc_type(d) == Ok::<(DragModel, Seq<char>), Fault>((m, s)),
            None => bc_type(d) is Err,
        },
        d.given("bc_type"@) is None ==> match d.given("drag_model"@) {
            None => bc_type(d) == Ok::<(DragModel, Seq<char>), Fault>((DragModel::G7, "G7"@)),
            Some(v) => match v.drag_model {
                Some(m) => bc_type(d) == Ok::<(DragModel, Seq<char>), Fault>(
                    (m, drag_model_name(m)),
                ),
                None => given_text(d, "drag_model"@, s) ==> bc_type(d) == Ok::<
                    (DragModel, Seq<char>),
                    Fault,
                >((model_in_loose_text(s), s)),
            },
        },
{
}

/// A request for a drag coefficient carries the Mach number and the model that was
/// named, with the transonic drag rise as without it, and is refused if none was.
pub proof fn law_drag_requests_hand_on(
    mach: Double,
    name: &str,
    rise: bool,
    caliber: Option<Double>,
    weight: Option<Double>,
    r: Result<DragCall, Exception>,
    t: Result<TransonicDragCall, Exception>,
)
    requires
        call_ensures(get_drag_coefficient, (mach, name), r),
        call_ensures(get_drag_coefficient_transonic, (mach, name, rise, caliber, weight), t),
    ensures
        r is Ok <==> t is Ok,
        r is Ok <==> model_in_query(name@) is Some,
        r matches Ok(c) ==> c.mach == mach && Some(c.model) == model_in_query(name@),
        t matches Ok(c) ==> {
            &&& c.mach == mach && Some(c.model) == model_in_query(name@)
            &&& c.apply_transonic_correction == rise
            &&& c.caliber == caliber && c.weight_grains == weight
        },
{
}

/// The drag model objects go by their names.
pub proof fn law_model_objects_go_by_their_names(
    g1: PyDragModel,
    g7: PyDragModel,
    g8: PyDragModel,
    m: &PyDragModel,
    text: String,
)
    requires
        call_ensures(PyDragModel::g1, (), g1),
        call_ensures(PyDragModel::g7, (), g7),
        call_ensures(PyDragModel::g8, (), g8),
        call_ensures(PyDragModel::__repr__, (m,), text),
    ensures
        drag_model_name(g1.inner) == "G1"@,
        drag_model_name(g7.inner) == "G7"@,
        drag_model_name(g8.inner) == "G8"@,
        *m == g1 ==> text@ == "G1"@,
        *m == g7 ==> text@ == "G7"@,
        *m == g8 ==> text@ == "G8"@,
{
}

/// Mach-keyed segments are the pairs of the rows, in their order: refused if a row is
/// no pair, and none if there is no row.
pub proof fn law_segments_are_the_rows(d: Dict, v: Value, rows: Vec<Vec<Double>>, i: int)
    requires
        d.given("bc_segments"@) == Some(v),
        v.rows == Some(rows),
    ensures
        bc_segments(d) is Err <==> exists|j: int|
            0 <= j < rows.len() && (#[trigger] rows@[j])@.len() != 2,
        bc_segments(d) == Ok::<Option<Seq<(Double, Double)>>, Fault>(None) <==> rows.len() == 0,
        bc_segments(d) matches Ok(Some(s)) ==> {
            &&& s.len() == rows.len()
            &&& 0 <= i < rows.len() ==> seq![s[i].0, s[i].1] == rows@[i]@
        },
{
    if 0 <= i < rows.len() && all_pairs(rows@) {
        assert(rows@[i]@.len() == 2);
        assert(seq![rows@[i]@[0], rows@[i]@[1]] =~= rows@[i]@);
    }
}

/// A velocity segment holds the three numbers under their keys; an item that is no
/// dictionary is passed over, the others keep their order, and the first item that
/// lacks a number is refused.
pub proof fn law_bands_are_the_items(v: Value, d: Dict, rest: Seq<Value>)
    requires
        v.dict == Some(d),
    ensures
        segment_item(v) matches Ok(Some(s)) ==> {
            &&& segment_number(d, "velocity_min"@) == Ok::<Double, Fault>(s.velocity_min)
            &&& segment_number(d, "velocity_max"@) == Ok::<Double, Fault>(s.velocity_max)
            &&& segment_number(d, "bc_value"@) == Ok::<Double, Fault>(s.bc_value)
        },
        segment_item(v) is Err <==> segment_number(d, "velocity_min"@) is Err || segment_number(
            d,
            "velocity_max"@,
        ) is Err || segment_number(d, "bc_value"@) is Err,
        segment_item(v) is Ok ==> segment_item(v)->Ok_0 is Some,
        segment_items(Seq::empty()) == Ok::<Seq<BCSegmentData>, Fault>(Seq::empty()),
        segment_item(v) matches Err(f) ==> segment_items(seq![v] + rest) == Err::<
            Seq<BCSegmentData>,
            Fault,
        >(f),
        segment_item(v) matches Ok(Some(s)) ==> match segment_items(rest) {
            Ok(t) => segment_items(seq![v] + rest) == Ok::<Seq<BCSegmentData>, Fault>(
                seq![s] + t,
            ),
            Err(f) => segment_items(seq![v] + rest) == Err::<Seq<BCSegmentData>, Fault>(f),
        },
{
    assert((seq![v] + rest).drop_first() =~= rest);
    assert((seq![v] + rest)[0] == v);
}

/// An item that is no dictionary holds no velocity segment.
pub proof fn law_other_items_are_passed_over(v: Value, rest: Seq<Value>)
    requires
        v.dict is None,
    ensures
        segment_items(seq![v] + rest) == segment_items(rest),
{
    assert((seq![v] + rest).drop_first() =~= rest);
    assert((seq![v] + rest)[0] == v);
}

/// Velocity segments are those of the list, and none if it has none or is no list.
pub proof fn law_bands_are_those_of_the_list(d: Dict, v: Value)
    requires
        d.given("bc_segments_data"@) == Some(v),
    ensures
        v.items is None ==> bc_segments_data(d) == Ok::<Option<Seq<BCSegmentData>>, Fault>(None),
        v.items matches Some(items) ==> match segment_items(items@) {
            Err(f) => bc_segments_data(d) == Err::<Option<Seq<BCSegmentData>>, Fault>(f),
            Ok(s) => {
                &&& s.len() > 0 ==> bc_segments_data(d) == Ok::<
                    Option<Seq<BCSegmentData>>,
                    Fault,
                >(Some(s))
                &&& s.len() == 0 ==> bc_segments_data(d) == Ok::<
                    Option<Seq<BCSegmentData>>,
                    Fault,
                >(None)
            },
        },
{
}

/// A drag table that is read has at least two points, the Mach numbers and the drag
/// coefficients of the rows in their order; the Mach numbers rise from zero or above,
/// and the coefficients are above zero.
pub proof fn law_drag_tables_are_the_rows(
    d: Dict,
    refusal: Seq<char>,
    v: Value,
    rows: Vec<Vec<Double>>,
    i: int,
)
    requires
        d.given("custom_drag_table"@) == Some(v),
        v.rows == Some(rows),
        0 <= i < rows.len() - 1,
    ensures
        custom_drag_table(d, refusal) matches Ok(t) ==> (t matches Some((mach, cd)) && {
            &&& mach.len() == rows.len() && cd.len() == rows.len()
            &&& seq![mach[i], cd[i]] == rows@[i]@
            &&& mach[i].finite() && cd[i].finite()
            &&& constant(ZERO).at_most(mach[i]) && mach[i].below(mach[i + 1])
            &&& constant(ZERO).below(cd[i])
        }),
{
    if custom_drag_table(d, refusal) is Ok {
        assert(all_pairs(rows@));
        assert(rows@[i]@.len() == 2);
        let (mach, cd) = (firsts(rows@), seconds(rows@));
        assert(sound_table(mach, cd));
        assert(crate::fields::sound_mach(mach[i]));
        assert(crate::fields::sound_coefficient(cd[i]));
        assert(mach[i].below(mach[i + 1]));
        assert(seq![rows@[i]@[0], rows@[i]@[1]] =~= rows@[i]@);
    }
}

/// A drag table given by its axes is taken as they are, if they match and are not
/// empty, and not at all otherwise; rows go before axes.
pub proof fn law_axes_are_taken_as_they_are(
    d: Dict,
    refusal: Seq<char>,
    v: Value,
    t: Dict,
    m: Value,
    c: Value,
    mach: Vec<Double>,
    cd: Vec<Double>,
)
    requires
        d.given("custom_drag_table"@) is None,
        d.given("custom_drag_function"@) == Some(v),
        v.dict == Some(t),
        t.lookup("mach_numbers"@) == Some(m),
        t.lookup("drag_coefficients"@) == Some(c),
        m.numbers == Some(mach),
        c.numbers == Some(cd),
    ensures
        mach.len() == cd.len() && cd.len() > 0 ==> custom_drag_table(d, refusal) == Ok::<
            Option<(Seq<Double>, Seq<Double>)>,
            Fault,
        >(Some((mach@, cd@))),
        mach.len() != cd.len() || cd.len() == 0 ==> custom_drag_table(d, refusal) == Ok::<
            Option<(Seq<Double>, Seq<Double>)>,
            Fault,
        >(None),
{
}

} // verus!
