//! The keys that the reader of inputs knows.

use vstd::prelude::*;
use crate::text::same_text;

verus! {

/// The keys that the reader of inputs knows.
pub open spec fn known(key: Seq<char>) -> bool {
    ||| key == "bc_value"@
    ||| key == "bc"@
    ||| key == "bullet_mass"@
    ||| key == "bullet_weight_grains"@
    ||| key == "altitude"@
    ||| key == "latitude"@
    ||| key == "bullet_cluster"@
    ||| key == "enable_advanced_effects"@
    ||| key == "is_twist_right"@
    ||| key == "is_right_twist"@
    ||| key == "muzzle_velocity"@
    ||| key == "muzzle_velocity_fps"@
    ||| key == "twist_rate"@
    ||| key == "twist_rate_inches"@
    ||| key == "bullet_length"@
    ||| key == "bullet_length_inches"@
    ||| key == "bullet_diameter"@
    ||| key == "bullet_diameter_inches"@
    ||| key == "target_distance"@
    ||| key == "zero_distance_yards"@
    ||| key == "muzzle_angle"@
    ||| key == "wind_speed"@
    ||| key == "wind_angle"@
    ||| key == "temperature"@
    ||| key == "pressure"@
    ||| key == "humidity"@
    ||| key == "enable_coriolis"@
    ||| key == "shot_direction"@
    ||| key == "use_powder_sensitivity"@
    ||| key == "powder_temp_sensitivity"@
    ||| key == "powder_temp"@
    ||| key == "tipoff_yaw"@
    ||| key == "tipoff_decay_distance"@
    ||| key == "ground_threshold"@
    ||| key == "caliber_inches"@
    ||| key == "weight_grains"@
    ||| key == "use_bc_segments"@
    ||| key == "bullet_id"@
    ||| key == "use_enhanced_spin_drift"@
    ||| key == "use_form_factor"@
    ||| key == "manufacturer"@
    ||| key == "bullet_model"@
    ||| key == "enable_wind_shear"@
    ||| key == "wind_shear_model"@
    ||| key == "use_cluster_bc"@
    ||| key == "enable_aerodynamic_jump"@
    ||| key == "use_rk4"@
    ||| key == "use_adaptive_rk45"@
    ||| key == "enable_trajectory_sampling"@
    ||| key == "sample_interval"@
    ||| key == "sample_interval_m"@
    ||| key == "sight_height"@
    ||| key == "sight_height_inches"@
    ||| key == "muzzle_height"@
    ||| key == "muzzle_height_inches"@
    ||| key == "target_height"@
    ||| key == "target_height_inches"@
    ||| key == "cant_angle_degrees"@
    ||| key == "bc_type"@
    ||| key == "drag_model"@
    ||| key == "bc_segments"@
    ||| key == "bc_segments_data"@
    ||| key == "custom_drag_table"@
    ||| key == "custom_drag_function"@
    ||| key == "shooting_angle"@
    ||| key == "shooting_angle_degrees"@
}

/// Whether the reader of inputs knows a key.
pub fn is_known_key(key: &str) -> (r: bool)
    ensures
        r == known(key@),
{
    same_text(key, "bc_value")
        || same_text(key, "bc")
        || same_text(key, "bullet_mass")
        || same_text(key, "bullet_weight_grains")
        || same_text(key, "altitude")
        || same_text(key, "latitude")
        || same_text(key, "bullet_cluster")
        || same_text(key, "enable_advanced_effects")
        || same_text(key, "is_twist_right")
        || same_text(key, "is_right_twist")
        || same_text(key, "muzzle_velocity")
        || same_text(key, "muzzle_velocity_fps")
        || same_text(key, "twist_rate")
        || same_text(key, "twist_rate_inches")
        || same_text(key, "bullet_length")
        || same_text(key, "bullet_length_inches")
        || same_text(key, "bullet_diameter")
        || same_text(key, "bullet_diameter_inches")
        || same_text(key, "target_distance")
        || same_text(key, "zero_distance_yards")
        || same_text(key, "muzzle_angle")
        || same_text(key, "wind_speed")
        || same_text(key, "wind_angle")
        || same_text(key, "temperature")
        || same_text(key, "pressure")
        || same_text(key, "humidity")
        || same_text(key, "enable_coriolis")
        || same_text(key, "shot_direction")
        || same_text(key, "use_powder_sensitivity")
        || same_text(key, "powder_temp_sensitivity")
        || same_text(key, "powder_temp")
        || same_text(key, "tipoff_yaw")
        || same_text(key, "tipoff_decay_distance")
        || same_text(key, "ground_threshold")
        || same_text(key, "caliber_inches")
        || same_text(key, "weight_grains")
        || same_text(key, "use_bc_segments")
        || same_text(key, "bullet_id")
        || same_text(key, "use_enhanced_spin_drift")
        || same_text(key, "use_form_factor")
        || same_text(key, "manufacturer")
        || same_text(key, "bullet_model")
        || same_text(key, "enable_wind_shear")
        || same_text(key, "wind_shear_model")
        || same_text(key, "use_cluster_bc")
        || same_text(key, "enable_aerodynamic_jump")
        || same_text(key, "use_rk4")
        || same_text(key, "use_adaptive_rk45")
        || same_text(key, "enable_trajectory_sampling")
        || same_text(key, "sample_interval")
        || same_text(key, "sample_interval_m")
        || same_text(key, "sight_height")
        || same_text(key, "sight_height_inches")
        || same_text(key, "muzzle_height")
        || same_text(key, "muzzle_height_inches")
        || same_text(key, "target_height")
        || same_text(key, "target_height_inches")
        || same_text(key, "cant_angle_degrees")
        || same_text(key, "bc_type")
        || same_text(key, "drag_model")
        || same_text(key, "bc_segments")
        || same_text(key, "bc_segments_data")
        || same_text(key, "custom_drag_table")
        || same_text(key, "custom_drag_function")
        || same_text(key, "shooting_angle")
        || same_text(key, "shooting_angle_degrees")
}

/// The keys that the reader of inputs knows in a dictionary within the dictionary:
/// those of a BC segment and of a drag function.
pub open spec fn nested(key: Seq<char>) -> bool {
    ||| key == "velocity_min"@
    ||| key == "velocity_max"@
    ||| key == "bc_value"@
    ||| key == "mach_numbers"@
    ||| key == "drag_coefficients"@
}

/// Whether the reader of inputs knows a key in a dictionary within the dictionary.
pub fn is_nested_key(key: &str) -> (r: bool)
    ensures
        r == nested(key@),
{
    same_text(key, "velocity_min")
        || same_text(key, "velocity_max")
        || same_text(key, "bc_value")
        || same_text(key, "mach_numbers")
        || same_text(key, "drag_coefficients")
}

/// The keys that the reader of the parameters of a sampling knows.
pub open spec fn run_parameter(key: Seq<char>) -> bool {
    ||| key == "num_simulations"@
    ||| key == "target_distance"@
    ||| key == "velocity_std_dev"@
    ||| key == "angle_std_dev"@
    ||| key == "bc_std_dev"@
    ||| key == "wind_speed_std_dev"@
    ||| key == "base_wind_speed"@
    ||| key == "base_wind_direction"@
    ||| key == "azimuth_std_dev"@
    ||| key == "wind_direction_std_dev"@
}

/// Whether the reader of the parameters of a sampling knows a key.
pub fn is_run_parameter(key: &str) -> (r: bool)
    ensures
        r == run_parameter(key@),
{
    same_text(key, "num_simulations")
        || same_text(key, "target_distance")
        || same_text(key, "velocity_std_dev")
        || same_text(key, "angle_std_dev")
        || same_text(key, "bc_std_dev")
        || same_text(key, "wind_speed_std_dev")
        || same_text(key, "base_wind_speed")
        || same_text(key, "base_wind_direction")
        || same_text(key, "azimuth_std_dev")
        || same_text(key, "wind_direction_std_dev")
}

/// A number by which the known keys can be told apart: from the length, the first
/// character and the last but one.
pub open spec fn mark(key: Seq<char>) -> int {
    1000000 * key.len() + 1000 * (key[0] as int) + key[key.len() - 2] as int
}

/// The marks of the known keys, no two of them equal.
pub proof fn lemma_marks()
    ensures
        mark("bc_value"@) == 8098117,
        mark("bc"@) == 2098098,
        mark("bullet_mass"@) == 11098115,
        mark("bullet_weight_grains"@) == 20098110,
        mark("altitude"@) == 8097100,
        mark("latitude"@) == 8108100,
        mark("bullet_cluster"@) == 14098101,
        mark("enable_advanced_effects"@) == 23101116,
        mark("is_twist_right"@) == 14105104,
        mark("is_right_twist"@) == 14105115,
        mark("muzzle_velocity"@) == 15109116,
        mark("muzzle_velocity_fps"@) == 19109112,
        mark("twist_rate"@) == 10116116,
        mark("twist_rate_inches"@) == 17116101,
        mark("bullet_length"@) == 13098116,
        mark("bullet_length_inches"@) == 20098101,
        mark("bullet_diameter"@) == 15098101,
        mark("bullet_diameter_inches"@) == 22098101,
        mark("target_distance"@) == 15116099,
        mark("zero_distance_yards"@) == 19122100,
        mark("muzzle_angle"@) == 12109108,
        mark("wind_speed"@) == 10119101,
        mark("wind_angle"@) == 10119108,
        mark("temperature"@) == 11116114,
        mark("pressure"@) == 8112114,
        mark("humidity"@) == 8104116,
        mark("enable_coriolis"@) == 15101105,
        mark("shot_direction"@) == 14115111,
        mark("use_powder_sensitivity"@) == 22117116,
        mark("powder_temp_sensitivity"@) == 23112116,
        mark("powder_temp"@) == 11112109,
        mark("tipoff_yaw"@) == 10116097,
        mark("tipoff_decay_distance"@) == 21116099,
        mark("ground_threshold"@) == 16103108,
        mark("caliber_inches"@) == 14099101,
        mark("weight_grains"@) == 13119110,
        mark("use_bc_segments"@) == 15117116,
        mark("bullet_id"@) == 9098105,
        mark("use_enhanced_spin_drift"@) == 23117102,
        mark("use_form_factor"@) == 15117111,
        mark("manufacturer"@) == 12109101,
        mark("bullet_model"@) == 12098101,
        mark("enable_wind_shear"@) == 17101097,
        mark("wind_shear_model"@) == 16119101,
        mark("use_cluster_bc"@) == 14117098,
        mark("enable_aerodynamic_jump"@) == 23101109,
        mark("use_rk4"@) == 7117107,
        mark("use_adaptive_rk45"@) == 17117052,
        mark("enable_trajectory_sampling"@) == 26101110,
        mark("sample_interval"@) == 15115097,
        mark("sample_interval_m"@) == 17115095,
        mark("sight_height"@) == 12115104,
        mark("sight_height_inches"@) == 19115101,
        mark("muzzle_height"@) == 13109104,
        mark("muzzle_height_inches"@) == 20109101,
        mark("target_height"@) == 13116104,
        mark("target_height_inches"@) == 20116101,
        mark("cant_angle_degrees"@) == 18099101,
        mark("bc_type"@) == 7098112,
        mark("drag_model"@) == 10100101,
        mark("bc_segments"@) == 11098116,
        mark("bc_segments_data"@) == 16098116,
        mark("custom_drag_table"@) == 17099108,
        mark("custom_drag_function"@) == 20099111,
        mark("shooting_angle"@) == 14115108,
        mark("shooting_angle_degrees"@) == 22115101,
{
    reveal_strlit("bc_value");
    reveal_strlit("bc");
    reveal_strlit("bullet_mass");
    reveal_strlit("bullet_weight_grains");
    reveal_strlit("altitude");
    reveal_strlit("latitude");
    reveal_strlit("bullet_cluster");
    reveal_strlit("enable_advanced_effects");
    reveal_strlit("is_twist_right");
    reveal_strlit("is_right_twist");
    reveal_strlit("muzzle_velocity");
    reveal_strlit("muzzle_velocity_fps");
    reveal_strlit("twist_rate");
    reveal_strlit("twist_rate_inches");
    reveal_strlit("bullet_length");
    reveal_strlit("bullet_length_inches");
    reveal_strlit("bullet_diameter");
    reveal_strlit("bullet_diameter_inches");
    reveal_strlit("target_distance");
    reveal_strlit("zero_distance_yards");
    reveal_strlit("muzzle_angle");
    reveal_strlit("wind_speed");
    reveal_strlit("wind_angle");
    reveal_strlit("temperature");
    reveal_strlit("pressure");
    reveal_strlit("humidity");
    reveal_strlit("enable_coriolis");
    reveal_strlit("shot_direction");
    reveal_strlit("use_powder_sensitivity");
    reveal_strlit("powder_temp_sensitivity");
    reveal_strlit("powder_temp");
    reveal_strlit("tipoff_yaw");
    reveal_strlit("tipoff_decay_distance");
    reveal_strlit("ground_threshold");
    reveal_strlit("caliber_inches");
    reveal_strlit("weight_grains");
    reveal_strlit("use_bc_segments");
    reveal_strlit("bullet_id");
    reveal_strlit("use_enhanced_spin_drift");
    reveal_strlit("use_form_factor");
    reveal_strlit("manufacturer");
    reveal_strlit("bullet_model");
    reveal_strlit("enable_wind_shear");
    reveal_strlit("wind_shear_model");
    reveal_strlit("use_cluster_bc");
    reveal_strlit("enable_aerodynamic_jump");
    reveal_strlit("use_rk4");
    reveal_strlit("use_adaptive_rk45");
    reveal_strlit("enable_trajectory_sampling");
    reveal_strlit("sample_interval");
    reveal_strlit("sample_interval_m");
    reveal_strlit("sight_height");
    reveal_strlit("sight_height_inches");
    reveal_strlit("muzzle_height");
    reveal_strlit("muzzle_height_inches");
    reveal_strlit("target_height");
    reveal_strlit("target_height_inches");
    reveal_strlit("cant_angle_degrees");
    reveal_strlit("bc_type");
    reveal_strlit("drag_model");
    reveal_strlit("bc_segments");
    reveal_strlit("bc_segments_data");
    reveal_strlit("custom_drag_table");
    reveal_strlit("custom_drag_function");
    reveal_strlit("shooting_angle");
    reveal_strlit("shooting_angle_degrees");
}

} // verus!
