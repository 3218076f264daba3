//! What the properties give and take.

use vstd::prelude::*;
use crate::double::Double;
use crate::drag::{drag_model_name, DragModel, PyDragModel};
use crate::inputs::BallisticInputs;
use crate::property_laws::{drag_model_assigned, flag_assigned, number_assigned, FlagProperty};
use crate::property_laws::NumberProperty;
use crate::py_inputs::{constructed, same_inputs, PyBallisticInputs};
use crate::text::optional_view;
use crate::unit_laws::{law_factors_stand_for_their_units, law_scaled_measures, measures};
use crate::units::{DEGREES_TO_RADIANS, FPS_TO_MPS, GRAINS_TO_KG, INCHES_TO_METERS};
use crate::units::YARDS_TO_METERS;

verus! {

/// The ballistic coefficient, once set, is read back as it is; nothing else
/// changes.
pub proof fn law_bc_is_set_and_read(p: &mut PyBallisticInputs, v: Double, r: Double)
    requires
        call_ensures(PyBallisticInputs::set_bc, (p, v), ()),
        call_ensures(PyBallisticInputs::bc, (&*final(p),), r),
    ensures
        number_assigned(final(p).inner, old(p).inner, NumberProperty::Bc, v),
        r == v,
{
    reveal(number_assigned);
}

/// The bullet weight in grains, once set, is held in the SI unit and read back in its
/// own; nothing else changes.
pub proof fn law_bullet_weight_grains_is_set_and_read(
    p: &mut PyBallisticInputs,
    v: Double,
    r: Double,
)
    requires
        call_ensures(PyBallisticInputs::set_bullet_weight_grains, (p, v), ()),
        call_ensures(PyBallisticInputs::bullet_weight_grains, (&*final(p),), r),
    ensures
        number_assigned(final(p).inner, old(p).inner, NumberProperty::BulletWeightGrains, v),
        measures(final(p).inner.bullet_mass, v, 6479891, 100000000000),
        measures(r, final(p).inner.bullet_mass, 100000000000, 6479891),
{
    reveal(number_assigned);
    law_factors_stand_for_their_units();
    law_scaled_measures(v, GRAINS_TO_KG, 6479891, 100000000000);
    law_scaled_measures(final(p).inner.bullet_mass, GRAINS_TO_KG, 6479891, 100000000000);
}

/// The muzzle velocity in feet per second, once set, is held in the SI unit and read back in its
/// own; nothing else changes.
pub proof fn law_muzzle_velocity_fps_is_set_and_read(
    p: &mut PyBallisticInputs,
    v: Double,
    r: Double,
)
    requires
        call_ensures(PyBallisticInputs::set_muzzle_velocity_fps, (p, v), ()),
        call_ensures(PyBallisticInputs::muzzle_velocity_fps, (&*final(p),), r),
    ensures
        number_assigned(final(p).inner, old(p).inner, NumberProperty::MuzzleVelocityFps, v),
        measures(final(p).inner.muzzle_velocity, v, 3048, 10000),
        measures(r, final(p).inner.muzzle_velocity, 10000, 3048),
{
    reveal(number_assigned);
    law_factors_stand_for_their_units();
    law_scaled_measures(v, FPS_TO_MPS, 3048, 10000);
    law_scaled_measures(final(p).inner.muzzle_velocity, FPS_TO_MPS, 3048, 10000);
}

/// The bullet diameter in inches, once set, is held in the SI unit and read back in its
/// own; nothing else changes.
pub proof fn law_bullet_diameter_inches_is_set_and_read(
    p: &mut PyBallisticInputs,
    v: Double,
    r: Double,
)
    requires
        call_ensures(PyBallisticInputs::set_bullet_diameter_inches, (p, v), ()),
        call_ensures(PyBallisticInputs::bullet_diameter_inches, (&*final(p),), r),
    ensures
        number_assigned(final(p).inner, old(p).inner, NumberProperty::BulletDiameterInches, v),
        measures(final(p).inner.bullet_diameter, v, 254, 10000),
        measures(r, final(p).inner.bullet_diameter, 10000, 254),
{
    reveal(number_assigned);
    law_factors_stand_for_their_units();
    law_scaled_measures(v, INCHES_TO_METERS, 254, 10000);
    law_scaled_measures(final(p).inner.bullet_diameter, INCHES_TO_METERS, 254, 10000);
}

/// The bullet length in inches, once set, is held in the SI unit and read back in its
/// own; nothing else changes.
pub proof fn law_bullet_length_inches_is_set_and_read(
    p: &mut PyBallisticInputs,
    v: Double,
    r: Double,
)
    requires
        call_ensures(PyBallisticInputs::set_bullet_length_inches, (p, v), ()),
        call_ensures(PyBallisticInputs::bullet_length_inches, (&*final(p),), r),
    ensures
        number_assigned(final(p).inner, old(p).inner, NumberProperty::BulletLengthInches, v),
        measures(final(p).inner.bullet_length, v, 254, 10000),
        measures(r, final(p).inner.bullet_length, 10000, 254),
{
    reveal(number_assigned);
    law_factors_stand_for_their_units();
    law_scaled_measures(v, INCHES_TO_METERS, 254, 10000);
    law_scaled_measures(final(p).inner.bullet_length, INCHES_TO_METERS, 254, 10000);
}

/// The sight height in inches, once set, is held in the SI unit and read back in its
/// own; nothing else changes.
pub proof fn law_sight_height_inches_is_set_and_read(
    p: &mut PyBallisticInputs,
    v: Double,
    r: Double,
)
    requires
        call_ensures(PyBallisticInputs::set_sight_height_inches, (p, v), ()),
        call_ensures(PyBallisticInputs::sight_height_inches, (&*final(p),), r),
    ensures
        number_assigned(final(p).inner, old(p).inner, NumberProperty::SightHeightInches, v),
        measures(final(p).inner.sight_height, v, 254, 10000),
        measures(r, final(p).inner.sight_height, 10000, 254),
{
    reveal(number_assigned);
    law_factors_stand_for_their_units();
    law_scaled_measures(v, INCHES_TO_METERS, 254, 10000);
    law_scaled_measures(final(p).inner.sight_height, INCHES_TO_METERS, 254, 10000);
}

/// The zero distance in yards, once set, is held in the SI unit and read back in its
/// own; nothing else changes.
pub proof fn law_zero_distance_yards_is_set_and_read(
    p: &mut PyBallisticInputs,
    v: Double,
    r: Double,
)
    requires
        call_ensures(PyBallisticInputs::set_zero_distance_yards, (p, v), ()),
        call_ensures(PyBallisticInputs::zero_distance_yards, (&*final(p),), r),
    ensures
        number_assigned(final(p).inner, old(p).inner, NumberProperty::ZeroDistanceYards, v),
        measures(final(p).inner.target_distance, v, 9144, 10000),
        measures(r, final(p).inner.target_distance, 10000, 9144),
{
    reveal(number_assigned);
    law_factors_stand_for_their_units();
    law_scaled_measures(v, YARDS_TO_METERS, 9144, 10000);
    law_scaled_measures(final(p).inner.target_distance, YARDS_TO_METERS, 9144, 10000);
}

/// The shooting angle in degrees, once set, is held in the SI unit and read back in its
/// own; nothing else changes.
pub proof fn law_shooting_angle_degrees_is_set_and_read(
    p: &mut PyBallisticInputs,
    v: Double,
    r: Double,
)
    requires
        call_ensures(PyBallisticInputs::set_shooting_angle_degrees, (p, v), ()),
        call_ensures(PyBallisticInputs::shooting_angle_degrees, (&*final(p),), r),
    ensures
        number_assigned(final(p).inner, old(p).inner, NumberProperty::ShootingAngleDegrees, v),
        measures(final(p).inner.shooting_angle, v, 31415926535897932, 1800000000000000000),
        measures(r, final(p).inner.shooting_angle, 1800000000000000000, 31415926535897932),
{
    reveal(number_assigned);
    law_factors_stand_for_their_units();
    law_scaled_measures(v, DEGREES_TO_RADIANS, 31415926535897932, 1800000000000000000);
    law_scaled_measures(final(p).inner.shooting_angle, DEGREES_TO_RADIANS, 31415926535897932, 1800000000000000000);
}

/// The twist in inches per turn, once set, is read back as it is; nothing else
/// changes.
pub proof fn law_twist_rate_inches_is_set_and_read(p: &mut PyBallisticInputs, v: Double, r: Double)
    requires
        call_ensures(PyBallisticInputs::set_twist_rate_inches, (p, v), ()),
        call_ensures(PyBallisticInputs::twist_rate_inches, (&*final(p),), r),
    ensures
        number_assigned(final(p).inner, old(p).inner, NumberProperty::TwistRateInches, v),
        r == v,
{
    reveal(number_assigned);
}

/// The cant in degrees, once set, is held in the SI unit and read back in its
/// own; nothing else changes.
pub proof fn law_cant_angle_degrees_is_set_and_read(p: &mut PyBallisticInputs, v: Double, r: Double)
    requires
        call_ensures(PyBallisticInputs::set_cant_angle_degrees, (p, v), ()),
        call_ensures(PyBallisticInputs::cant_angle_degrees, (&*final(p),), r),
    ensures
        number_assigned(final(p).inner, old(p).inner, NumberProperty::CantAngleDegrees, v),
        measures(final(p).inner.cant_angle, v, 31415926535897932, 1800000000000000000),
        measures(r, final(p).inner.cant_angle, 1800000000000000000, 31415926535897932),
{
    reveal(number_assigned);
    law_factors_stand_for_their_units();
    law_scaled_measures(v, DEGREES_TO_RADIANS, 31415926535897932, 1800000000000000000);
    law_scaled_measures(final(p).inner.cant_angle, DEGREES_TO_RADIANS, 31415926535897932, 1800000000000000000);
}

/// The sample interval in meters, once set, is read back as it is; nothing else
/// changes.
pub proof fn law_sample_interval_m_is_set_and_read(p: &mut PyBallisticInputs, v: Double, r: Double)
    requires
        call_ensures(PyBallisticInputs::set_sample_interval_m, (p, v), ()),
        call_ensures(PyBallisticInputs::sample_interval_m, (&*final(p),), r),
    ensures
        number_assigned(final(p).inner, old(p).inner, NumberProperty::SampleIntervalM, v),
        r == v,
{
    reveal(number_assigned);
}

/// The muzzle height in inches, once set, is held in the SI unit and read back in its
/// own; nothing else changes.
pub proof fn law_muzzle_height_inches_is_set_and_read(
    p: &mut PyBallisticInputs,
    v: Double,
    r: Double,
)
    requires
        call_ensures(PyBallisticInputs::set_muzzle_height_inches, (p, v), ()),
        call_ensures(PyBallisticInputs::muzzle_height_inches, (&*final(p),), r),
    ensures
        number_assigned(final(p).inner, old(p).inner, NumberProperty::MuzzleHeightInches, v),
        measures(final(p).inner.muzzle_height, v, 254, 10000),
        measures(r, final(p).inner.muzzle_height, 10000, 254),
{
    reveal(number_assigned);
    law_factors_stand_for_their_units();
    law_scaled_measures(v, INCHES_TO_METERS, 254, 10000);
    law_scaled_measures(final(p).inner.muzzle_height, INCHES_TO_METERS, 254, 10000);
}

/// The target height in inches, once set, is held in the SI unit and read back in its
/// own; nothing else changes.
pub proof fn law_target_height_inches_is_set_and_read(
    p: &mut PyBallisticInputs,
    v: Double,
    r: Double,
)
    requires
        call_ensures(PyBallisticInputs::set_target_height_inches, (p, v), ()),
        call_ensures(PyBallisticInputs::target_height_inches, (&*final(p),), r),
    ensures
        number_assigned(final(p).inner, old(p).inner, NumberProperty::TargetHeightInches, v),
        measures(final(p).inner.target_height, v, 254, 10000),
        measures(r, final(p).inner.target_height, 10000, 254),
{
    reveal(number_assigned);
    law_factors_stand_for_their_units();
    law_scaled_measures(v, INCHES_TO_METERS, 254, 10000);
    law_scaled_measures(final(p).inner.target_height, INCHES_TO_METERS, 254, 10000);
}

/// The hand of the twist, once set, is read back as it is; nothing else changes.
pub proof fn law_is_right_twist_is_set_and_read(p: &mut PyBallisticInputs, v: bool, r: bool)
    requires
        call_ensures(PyBallisticInputs::set_is_right_twist, (p, v), ()),
        call_ensures(PyBallisticInputs::is_right_twist, (&*final(p),), r),
    ensures
        flag_assigned(final(p).inner, old(p).inner, FlagProperty::IsRightTwist, v),
        r == v,
{
    reveal(flag_assigned);
}

/// The switch of the sampling, once set, is read back as it is; nothing else changes.
pub proof fn law_enable_trajectory_sampling_is_set_and_read(
    p: &mut PyBallisticInputs,
    v: bool,
    r: bool,
)
    requires
        call_ensures(PyBallisticInputs::set_enable_trajectory_sampling, (p, v), ()),
        call_ensures(PyBallisticInputs::enable_trajectory_sampling, (&*final(p),), r),
    ensures
        flag_assigned(final(p).inner, old(p).inner, FlagProperty::EnableTrajectorySampling, v),
        r == v,
{
    reveal(flag_assigned);
}

/// The switch of the Runge-Kutta steps, once set, is read back as it is; nothing else changes.
pub proof fn law_use_rk4_is_set_and_read(p: &mut PyBallisticInputs, v: bool, r: bool)
    requires
        call_ensures(PyBallisticInputs::set_use_rk4, (p, v), ()),
        call_ensures(PyBallisticInputs::use_rk4, (&*final(p),), r),
    ensures
        flag_assigned(final(p).inner, old(p).inner, FlagProperty::UseRk4, v),
        r == v,
{
    reveal(flag_assigned);
}

/// The switch of the adaptive steps, once set, is read back as it is; nothing else changes.
pub proof fn law_use_adaptive_rk45_is_set_and_read(p: &mut PyBallisticInputs, v: bool, r: bool)
    requires
        call_ensures(PyBallisticInputs::set_use_adaptive_rk45, (p, v), ()),
        call_ensures(PyBallisticInputs::use_adaptive_rk45, (&*final(p),), r),
    ensures
        flag_assigned(final(p).inner, old(p).inner, FlagProperty::UseAdaptiveRk45, v),
        r == v,
{
    reveal(flag_assigned);
}

/// The drag model, once set, is read back as it is and called by its name; nothing else
/// changes.
pub proof fn law_drag_model_is_set_and_read(
    p: &mut PyBallisticInputs,
    v: PyDragModel,
    r: PyDragModel,
)
    requires
        call_ensures(PyBallisticInputs::set_drag_model, (p, v), ()),
        call_ensures(PyBallisticInputs::drag_model, (&*final(p),), r),
    ensures
        drag_model_assigned(final(p).inner, old(p).inner, v.inner),
        r == v,
        optional_view(final(p).inner.bc_type_str) == Some(drag_model_name(v.inner)),
{
    reveal(drag_model_assigned);
}

/// The ten values of the constructor are held in SI units, each in its own place, with
/// the G7 drag model and fixed steps.
pub proof fn law_constructed_inputs_are_the_ten_values(
    base: BallisticInputs,
    name: Option<String>,
    bc: Double,
    weight: Double,
    velocity: Double,
    diameter: Double,
    length: Double,
    sight: Double,
    distance: Double,
    angle: Double,
    twist: Double,
    right: bool,
)
    ensures
        ({
            let b = constructed(
                base,
                name,
                bc,
                weight,
                velocity,
                diameter,
                length,
                sight,
                distance,
                angle,
                twist,
                right,
            );
            &&& b.bc_value == bc && b.twist_rate == twist && b.is_twist_right == right
            &&& b.caliber_inches == diameter && b.weight_grains == weight
            &&& measures(b.bullet_mass, weight, 6479891, 100000000000)
            &&& measures(b.muzzle_velocity, velocity, 3048, 10000)
            &&& measures(b.bullet_diameter, diameter, 254, 10000)
            &&& measures(b.bullet_length, length, 254, 10000)
            &&& measures(b.sight_height, sight, 254, 10000)
            &&& measures(b.target_distance, distance, 9144, 10000)
            &&& measures(b.shooting_angle, angle, 31415926535897932, 1800000000000000000)
            &&& b.bc_type == DragModel::G7 && b.bc_type_str == name
            &&& b.use_rk4 && !b.use_adaptive_rk45
        }),
{
    law_factors_stand_for_their_units();
    law_scaled_measures(weight, GRAINS_TO_KG, 6479891, 100000000000);
    law_scaled_measures(velocity, FPS_TO_MPS, 3048, 10000);
    law_scaled_measures(diameter, INCHES_TO_METERS, 254, 10000);
    law_scaled_measures(length, INCHES_TO_METERS, 254, 10000);
    law_scaled_measures(sight, INCHES_TO_METERS, 254, 10000);
    law_scaled_measures(distance, YARDS_TO_METERS, 9144, 10000);
    law_scaled_measures(angle, DEGREES_TO_RADIANS, 31415926535897932, 1800000000000000000);
}

/// What the ten values do not say is as in the inputs that were there before.
pub proof fn law_constructed_inputs_keep_the_rest(
    base: BallisticInputs,
    name: Option<String>,
    x: Double,
    right: bool,
)
    ensures
        ({
            let b = constructed(base, name, x, x, x, x, x, x, x, x, x, right);
            &&& b.altitude == base.altitude
            &&& b.muzzle_angle == base.muzzle_angle
            &&& b.wind_speed == base.wind_speed
            &&& b.wind_angle == base.wind_angle
            &&& b.temperature == base.temperature
            &&& b.pressure == base.pressure
            &&& b.humidity == base.humidity
            &&& b.latitude == base.latitude
            &&& b.enable_advanced_effects == base.enable_advanced_effects
            &&& b.enable_magnus == base.enable_magnus
            &&& b.enable_coriolis == base.enable_coriolis
            &&& b.azimuth_angle == base.azimuth_angle
            &&& b.shot_azimuth == base.shot_azimuth
            &&& b.use_powder_sensitivity == base.use_powder_sensitivity
            &&& b.powder_temp_sensitivity == base.powder_temp_sensitivity
            &&& b.powder_temp == base.powder_temp
            &&& b.tipoff_yaw == base.tipoff_yaw
            &&& b.tipoff_decay_distance == base.tipoff_decay_distance
            &&& b.ground_threshold == base.ground_threshold
            &&& b.bc_segments == base.bc_segments
            &&& b.use_bc_segments == base.use_bc_segments
            &&& b.bullet_id == base.bullet_id
            &&& b.bc_segments_data == base.bc_segments_data
            &&& b.use_enhanced_spin_drift == base.use_enhanced_spin_drift
            &&& b.use_form_factor == base.use_form_factor
            &&& b.manufacturer == base.manufacturer
            &&& b.bullet_model == base.bullet_model
            &&& b.enable_wind_shear == base.enable_wind_shear
            &&& b.wind_shear_model == base.wind_shear_model
            &&& b.use_cluster_bc == base.use_cluster_bc
            &&& b.bullet_cluster == base.bullet_cluster
            &&& b.custom_drag_table == base.custom_drag_table
            &&& b.enable_pitch_damping == base.enable_pitch_damping
            &&& b.enable_precession_nutation == base.enable_precession_nutation
            &&& b.enable_aerodynamic_jump == base.enable_aerodynamic_jump
            &&& b.enable_trajectory_sampling == base.enable_trajectory_sampling
            &&& b.sample_interval == base.sample_interval
            &&& b.muzzle_height == base.muzzle_height
            &&& b.target_height == base.target_height
            &&& b.cant_angle == base.cant_angle
        }),
{
}

/// A copy of the inputs holds the same numbers.
pub proof fn law_copies_hold_the_same(p: &PyBallisticInputs, r: BallisticInputs)
    requires
        call_ensures(PyBallisticInputs::to_rust, (p,), r),
    ensures
        same_inputs(r, p.inner),
        r.bc_value == p.inner.bc_value && r.bullet_mass == p.inner.bullet_mass,
        r.muzzle_velocity == p.inner.muzzle_velocity && r.twist_rate == p.inner.twist_rate,
        r.wind_angle == p.inner.wind_angle && r.shot_azimuth == p.inner.shot_azimuth,
{
}

} // verus!
