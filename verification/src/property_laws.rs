//! The laws that tie the dictionary to the properties: a value given under the
//! name of a property makes the same inputs as the property set.

use vstd::prelude::*;
use crate::dict::Dict;
use crate::dict_laws::{agree_but, lemma_given, lemma_same_bullet, lemma_same_identity};
use crate::dict_laws::{lemma_same_shot, lemma_same_solve, number_for};
use crate::double::Double;
use crate::drag::{drag_model_name, DragModel};
use crate::exception::{Exception, Fault};
use crate::fields::{bc_type, optional_seq, shooting_angle, table_axes};
use crate::inputs::{bullet_fault, identity_fault, parse_fault, reads_as, shot_fault, si};
use crate::inputs::{solve_fault, zero, BallisticInputs};
use crate::keys::{bc_value, bullet_diameter, bullet_length, bullet_mass, caliber_inches};
use crate::keys::{cant_angle, enable_trajectory_sampling, is_twist_right, muzzle_height};
use crate::keys::{muzzle_velocity, sample_interval, sight_height, target_distance, target_height};
use crate::keys::{twist_rate, use_adaptive_rk45, use_rk4, weight_grains};
use crate::known_keys::lemma_marks;
use crate::text::optional_view;
use crate::units::{radians, scaled, unscaled, FEET_TO_METERS, FPS_TO_MPS, GRAINS_TO_KG, HUNDRED};
use crate::units::{INCHES_TO_METERS, KMH_TO_MPS, YARDS_TO_METERS};

verus! {

/// The two inputs say the same: equal fields, and vectors and texts with equal
/// contents.
pub open spec fn alike(a: BallisticInputs, b: BallisticInputs) -> bool {
    &&& a.bc_value == b.bc_value
    &&& a.bc_type == b.bc_type
    &&& a.bullet_mass == b.bullet_mass
    &&& a.muzzle_velocity == b.muzzle_velocity
    &&& a.altitude == b.altitude
    &&& a.twist_rate == b.twist_rate
    &&& a.bullet_length == b.bullet_length
    &&& a.bullet_diameter == b.bullet_diameter
    &&& a.target_distance == b.target_distance
    &&& a.muzzle_angle == b.muzzle_angle
    &&& a.wind_speed == b.wind_speed
    &&& a.wind_angle == b.wind_angle
    &&& a.temperature == b.temperature
    &&& a.pressure == b.pressure
    &&& a.humidity == b.humidity
    &&& a.latitude == b.latitude
    &&& a.enable_advanced_effects == b.enable_advanced_effects
    &&& a.enable_magnus == b.enable_magnus
    &&& a.enable_coriolis == b.enable_coriolis
    &&& a.is_twist_right == b.is_twist_right
    &&& a.shooting_angle == b.shooting_angle
    &&& a.azimuth_angle == b.azimuth_angle
    &&& a.shot_azimuth == b.shot_azimuth
    &&& a.use_powder_sensitivity == b.use_powder_sensitivity
    &&& a.powder_temp_sensitivity == b.powder_temp_sensitivity
    &&& a.powder_temp == b.powder_temp
    &&& a.tipoff_yaw == b.tipoff_yaw
    &&& a.tipoff_decay_distance == b.tipoff_decay_distance
    &&& a.ground_threshold == b.ground_threshold
    &&& optional_seq(a.bc_segments) == optional_seq(b.bc_segments)
    &&& a.caliber_inches == b.caliber_inches
    &&& a.weight_grains == b.weight_grains
    &&& a.use_bc_segments == b.use_bc_segments
    &&& optional_view(a.bullet_id) == optional_view(b.bullet_id)
    &&& optional_seq(a.bc_segments_data) == optional_seq(b.bc_segments_data)
    &&& a.use_enhanced_spin_drift == b.use_enhanced_spin_drift
    &&& a.use_form_factor == b.use_form_factor
    &&& optional_view(a.manufacturer) == optional_view(b.manufacturer)
    &&& optional_view(a.bullet_model) == optional_view(b.bullet_model)
    &&& a.enable_wind_shear == b.enable_wind_shear
    &&& a.wind_shear_model@ == b.wind_shear_model@
    &&& a.use_cluster_bc == b.use_cluster_bc
    &&& a.bullet_cluster == b.bullet_cluster
    &&& table_axes(a.custom_drag_table) == table_axes(b.custom_drag_table)
    &&& optional_view(a.bc_type_str) == optional_view(b.bc_type_str)
    &&& a.enable_pitch_damping == b.enable_pitch_damping
    &&& a.enable_precession_nutation == b.enable_precession_nutation
    &&& a.enable_aerodynamic_jump == b.enable_aerodynamic_jump
    &&& a.use_rk4 == b.use_rk4
    &&& a.use_adaptive_rk45 == b.use_adaptive_rk45
    &&& a.enable_trajectory_sampling == b.enable_trajectory_sampling
    &&& a.sample_interval == b.sample_interval
    &&& a.sight_height == b.sight_height
    &&& a.muzzle_height == b.muzzle_height
    &&& a.target_height == b.target_height
    &&& a.cant_angle == b.cant_angle
}

/// The inputs agree in everything that no property sets.
spec fn alike_beside_properties(a: BallisticInputs, b: BallisticInputs) -> bool {
    &&& a.altitude == b.altitude
    &&& a.muzzle_angle == b.muzzle_angle
    &&& a.wind_speed == b.wind_speed
    &&& a.wind_angle == b.wind_angle
    &&& a.temperature == b.temperature
    &&& a.pressure == b.pressure
    &&& a.humidity == b.humidity
    &&& a.latitude == b.latitude
    &&& a.enable_advanced_effects == b.enable_advanced_effects
    &&& a.enable_magnus == b.enable_magnus
    &&& a.enable_coriolis == b.enable_coriolis
    &&& a.azimuth_angle == b.azimuth_angle
    &&& a.shot_azimuth == b.shot_azimuth
    &&& a.use_powder_sensitivity == b.use_powder_sensitivity
    &&& a.powder_temp_sensitivity == b.powder_temp_sensitivity
    &&& a.powder_temp == b.powder_temp
    &&& a.tipoff_yaw == b.tipoff_yaw
    &&& a.tipoff_decay_distance == b.tipoff_decay_distance
    &&& a.ground_threshold == b.ground_threshold
    &&& optional_seq(a.bc_segments) == optional_seq(b.bc_segments)
    &&& a.use_bc_segments == b.use_bc_segments
    &&& optional_view(a.bullet_id) == optional_view(b.bullet_id)
    &&& optional_seq(a.bc_segments_data) == optional_seq(b.bc_segments_data)
    &&& a.use_enhanced_spin_drift == b.use_enhanced_spin_drift
    &&& a.use_form_factor == b.use_form_factor
    &&& optional_view(a.manufacturer) == optional_view(b.manufacturer)
    &&& optional_view(a.bullet_model) == optional_view(b.bullet_model)
    &&& a.enable_wind_shear == b.enable_wind_shear
    &&& a.wind_shear_model@ == b.wind_shear_model@
    &&& a.use_cluster_bc == b.use_cluster_bc
    &&& a.bullet_cluster == b.bullet_cluster
    &&& table_axes(a.custom_drag_table) == table_axes(b.custom_drag_table)
    &&& a.enable_pitch_damping == b.enable_pitch_damping
    &&& a.enable_precession_nutation == b.enable_precession_nutation
    &&& a.enable_aerodynamic_jump == b.enable_aerodynamic_jump
}

/// The inputs agree in the drag model.
spec fn alike_in_drag_model(a: BallisticInputs, b: BallisticInputs) -> bool {
    &&& a.bc_type == b.bc_type
    &&& optional_view(a.bc_type_str) == optional_view(b.bc_type_str)
}

/// The inputs agree in every number that a property sets.
spec fn alike_in_numbers(a: BallisticInputs, b: BallisticInputs) -> bool {
    &&& a.bc_value == b.bc_value
    &&& a.bullet_mass == b.bullet_mass
    &&& a.weight_grains == b.weight_grains
    &&& a.muzzle_velocity == b.muzzle_velocity
    &&& a.bullet_diameter == b.bullet_diameter
    &&& a.caliber_inches == b.caliber_inches
    &&& a.bullet_length == b.bullet_length
    &&& a.sight_height == b.sight_height
    &&& a.target_distance == b.target_distance
    &&& a.shooting_angle == b.shooting_angle
    &&& a.twist_rate == b.twist_rate
    &&& a.cant_angle == b.cant_angle
    &&& a.sample_interval == b.sample_interval
    &&& a.muzzle_height == b.muzzle_height
    &&& a.target_height == b.target_height
}

/// The inputs agree in every truth value that a property sets.
spec fn alike_in_flags(a: BallisticInputs, b: BallisticInputs) -> bool {
    &&& a.is_twist_right == b.is_twist_right
    &&& a.enable_trajectory_sampling == b.enable_trajectory_sampling
    &&& a.use_rk4 == b.use_rk4
    &&& a.use_adaptive_rk45 == b.use_adaptive_rk45
}

/// The properties that hold a number.
pub enum NumberProperty {
    Bc,
    BulletWeightGrains,
    MuzzleVelocityFps,
    BulletDiameterInches,
    BulletLengthInches,
    SightHeightInches,
    ZeroDistanceYards,
    ShootingAngleDegrees,
    TwistRateInches,
    CantAngleDegrees,
    SampleIntervalM,
    MuzzleHeightInches,
    TargetHeightInches,
}

/// The inputs `a` are, in every field, the inputs `b` in SI units with a property
/// set to a number in its own unit.
spec fn number_set(
    a: BallisticInputs,
    b: BallisticInputs,
    p: NumberProperty,
    v: Double,
) -> bool {
    &&& a.bc_value == if p is Bc {
        v
    } else {
        b.bc_value
    }
    &&& a.bullet_mass == if p is BulletWeightGrains {
        scaled(v, GRAINS_TO_KG)
    } else {
        b.bullet_mass
    }
    &&& a.weight_grains == if p is BulletWeightGrains {
        v
    } else {
        b.weight_grains
    }
    &&& a.muzzle_velocity == if p is MuzzleVelocityFps {
        scaled(v, FPS_TO_MPS)
    } else {
        b.muzzle_velocity
    }
    &&& a.bullet_diameter == if p is BulletDiameterInches {
        scaled(v, INCHES_TO_METERS)
    } else {
        b.bullet_diameter
    }
    &&& a.caliber_inches == if p is BulletDiameterInches {
        v
    } else {
        b.caliber_inches
    }
    &&& a.bullet_length == if p is BulletLengthInches {
        scaled(v, INCHES_TO_METERS)
    } else {
        b.bullet_length
    }
    &&& a.sight_height == if p is SightHeightInches {
        scaled(v, INCHES_TO_METERS)
    } else {
        b.sight_height
    }
    &&& a.target_distance == if p is ZeroDistanceYards {
        scaled(v, YARDS_TO_METERS)
    } else {
        b.target_distance
    }
    &&& a.shooting_angle == if p is ShootingAngleDegrees {
        radians(v)
    } else {
        b.shooting_angle
    }
    &&& a.twist_rate == if p is TwistRateInches {
        v
    } else {
        b.twist_rate
    }
    &&& a.cant_angle == if p is CantAngleDegrees {
        radians(v)
    } else {
        b.cant_angle
    }
    &&& a.sample_interval == if p is SampleIntervalM {
        v
    } else {
        b.sample_interval
    }
    &&& a.muzzle_height == if p is MuzzleHeightInches {
        scaled(v, INCHES_TO_METERS)
    } else {
        b.muzzle_height
    }
    &&& a.target_height == if p is TargetHeightInches {
        scaled(v, INCHES_TO_METERS)
    } else {
        b.target_height
    }
    &&& alike_in_flags(a, b)
    &&& alike_in_drag_model(a, b)
    &&& alike_beside_properties(a, b)
}

/// The properties that hold a truth value.
pub enum FlagProperty {
    IsRightTwist,
    EnableTrajectorySampling,
    UseRk4,
    UseAdaptiveRk45,
}

/// The inputs `a` are, in every field, the inputs `b` with a property set to a
/// truth value.
spec fn flag_set(
    a: BallisticInputs,
    b: BallisticInputs,
    p: FlagProperty,
    v: bool,
) -> bool {
    &&& a.is_twist_right == if p is IsRightTwist {
        v
    } else {
        b.is_twist_right
    }
    &&& a.enable_trajectory_sampling == if p is EnableTrajectorySampling {
        v
    } else {
        b.enable_trajectory_sampling
    }
    &&& a.use_rk4 == if p is UseRk4 {
        v
    } else {
        b.use_rk4
    }
    &&& a.use_adaptive_rk45 == if p is UseAdaptiveRk45 {
        v
    } else {
        b.use_adaptive_rk45
    }
    &&& alike_in_numbers(a, b)
    &&& alike_in_drag_model(a, b)
    &&& alike_beside_properties(a, b)
}

/// The inputs `a` are, in every field, the inputs `b` with a drag model set.
spec fn drag_model_set(
    a: BallisticInputs,
    b: BallisticInputs,
    model: DragModel,
) -> bool {
    &&& a.bc_type == model
    &&& optional_view(a.bc_type_str) == Some(drag_model_name(model))
    &&& alike_in_numbers(a, b)
    &&& alike_in_flags(a, b)
    &&& alike_beside_properties(a, b)
}

/// The inputs `a` are what the setter of a property makes of the inputs `b`, in SI
/// units, with a number in the property's own unit.
#[verifier::opaque]
pub open spec fn number_assigned(
    a: BallisticInputs,
    b: BallisticInputs,
    p: NumberProperty,
    v: Double,
) -> bool {
    match p {
        NumberProperty::Bc => a == (BallisticInputs { bc_value: v, ..b }),
        NumberProperty::BulletWeightGrains => a == (BallisticInputs {
            bullet_mass: scaled(v, GRAINS_TO_KG),
            weight_grains: v,
            ..b
        }),
        NumberProperty::MuzzleVelocityFps => a == (BallisticInputs {
            muzzle_velocity: scaled(v, FPS_TO_MPS),
            ..b
        }),
        NumberProperty::BulletDiameterInches => a == (BallisticInputs {
            bullet_diameter: scaled(v, INCHES_TO_METERS),
            caliber_inches: v,
            ..b
        }),
        NumberProperty::BulletLengthInches => a == (BallisticInputs {
            bullet_length: scaled(v, INCHES_TO_METERS),
            ..b
        }),
        NumberProperty::SightHeightInches => a == (BallisticInputs {
            sight_height: scaled(v, INCHES_TO_METERS),
            ..b
        }),
        NumberProperty::ZeroDistanceYards => a == (BallisticInputs {
            target_distance: scaled(v, YARDS_TO_METERS),
            ..b
        }),
        NumberProperty::ShootingAngleDegrees => a == (BallisticInputs {
            shooting_angle: radians(v),
            ..b
        }),
        NumberProperty::TwistRateInches => a == (BallisticInputs { twist_rate: v, ..b }),
        NumberProperty::CantAngleDegrees => a == (BallisticInputs { cant_angle: radians(v), ..b }),
        NumberProperty::SampleIntervalM => a == (BallisticInputs { sample_interval: v, ..b }),
        NumberProperty::MuzzleHeightInches => a == (BallisticInputs {
            muzzle_height: scaled(v, INCHES_TO_METERS),
            ..b
        }),
        NumberProperty::TargetHeightInches => a == (BallisticInputs {
            target_height: scaled(v, INCHES_TO_METERS),
            ..b
        }),
    }
}

proof fn lemma_assigned_bc(a: BallisticInputs, b: BallisticInputs, v: Double)
    requires
        number_assigned(a, b, NumberProperty::Bc, v),
    ensures
        number_set(a, b, NumberProperty::Bc, v),
{
    assert(a == (BallisticInputs { bc_value: v, ..b })) by {
        reveal(number_assigned);
    }
}

proof fn lemma_assigned_bullet_weight_grains(a: BallisticInputs, b: BallisticInputs, v: Double)
    requires
        number_assigned(a, b, NumberProperty::BulletWeightGrains, v),
    ensures
        number_set(a, b, NumberProperty::BulletWeightGrains, v),
{
    assert(a == (BallisticInputs {
        bullet_mass: scaled(v, GRAINS_TO_KG),
        weight_grains: v,
        ..b
    })) by {
        reveal(number_assigned);
    }
}

proof fn lemma_assigned_muzzle_velocity_fps(a: BallisticInputs, b: BallisticInputs, v: Double)
    requires
        number_assigned(a, b, NumberProperty::MuzzleVelocityFps, v),
    ensures
        number_set(a, b, NumberProperty::MuzzleVelocityFps, v),
{
    assert(a == (BallisticInputs { muzzle_velocity: scaled(v, FPS_TO_MPS), ..b })) by {
        reveal(number_assigned);
    }
}

proof fn lemma_assigned_bullet_diameter_inches(a: BallisticInputs, b: BallisticInputs, v: Double)
    requires
        number_assigned(a, b, NumberProperty::BulletDiameterInches, v),
    ensures
        number_set(a, b, NumberProperty::BulletDiameterInches, v),
{
    assert(a == (BallisticInputs {
        bullet_diameter: scaled(v, INCHES_TO_METERS),
        caliber_inches: v,
        ..b
    })) by {
        reveal(number_assigned);
    }
}

proof fn lemma_assigned_bullet_length_inches(a: BallisticInputs, b: BallisticInputs, v: Double)
    requires
        number_assigned(a, b, NumberProperty::BulletLengthInches, v),
    ensures
        number_set(a, b, NumberProperty::BulletLengthInches, v),
{
    assert(a == (BallisticInputs { bullet_length: scaled(v, INCHES_TO_METERS), ..b })) by {
        reveal(number_assigned);
    }
}

proof fn lemma_assigned_sight_height_inches(a: BallisticInputs, b: BallisticInputs, v: Double)
    requires
        number_assigned(a, b, NumberProperty::SightHeightInches, v),
    ensures
        number_set(a, b, NumberProperty::SightHeightInches, v),
{
    assert(a == (BallisticInputs { sight_height: scaled(v, INCHES_TO_METERS), ..b })) by {
        reveal(number_assigned);
    }
}

proof fn lemma_assigned_zero_distance_yards(a: BallisticInputs, b: BallisticInputs, v: Double)
    requires
        number_assigned(a, b, NumberProperty::ZeroDistanceYards, v),
    ensures
        number_set(a, b, NumberProperty::ZeroDistanceYards, v),
{
    assert(a == (BallisticInputs { target_distance: scaled(v, YARDS_TO_METERS), ..b })) by {
        reveal(number_assigned);
    }
}

proof fn lemma_assigned_shooting_angle_degrees(a: BallisticInputs, b: BallisticInputs, v: Double)
    requires
        number_assigned(a, b, NumberProperty::ShootingAngleDegrees, v),
    ensures
        number_set(a, b, NumberProperty::ShootingAngleDegrees, v),
{
    assert(a == (BallisticInputs { shooting_angle: radians(v), ..b })) by {
        reveal(number_assigned);
    }
}

proof fn lemma_assigned_twist_rate_inches(a: BallisticInputs, b: BallisticInputs, v: Double)
    requires
        number_assigned(a, b, NumberProperty::TwistRateInches, v),
    ensures
        number_set(a, b, NumberProperty::TwistRateInches, v),
{
    assert(a == (BallisticInputs { twist_rate: v, ..b })) by {
        reveal(number_assigned);
    }
}

proof fn lemma_assigned_cant_angle_degrees(a: BallisticInputs, b: BallisticInputs, v: Double)
    requires
        number_assigned(a, b, NumberProperty::CantAngleDegrees, v),
    ensures
        number_set(a, b, NumberProperty::CantAngleDegrees, v),
{
    assert(a == (BallisticInputs { cant_angle: radians(v), ..b })) by {
        reveal(number_assigned);
    }
}

proof fn lemma_assigned_sample_interval_m(a: BallisticInputs, b: BallisticInputs, v: Double)
    requires
        number_assigned(a, b, NumberProperty::SampleIntervalM, v),
    ensures
        number_set(a, b, NumberProperty::SampleIntervalM, v),
{
    assert(a == (BallisticInputs { sample_interval: v, ..b })) by {
        reveal(number_assigned);
    }
}

proof fn lemma_assigned_muzzle_height_inches(a: BallisticInputs, b: BallisticInputs, v: Double)
    requires
        number_assigned(a, b, NumberProperty::MuzzleHeightInches, v),
    ensures
        number_set(a, b, NumberProperty::MuzzleHeightInches, v),
{
    assert(a == (BallisticInputs { muzzle_height: scaled(v, INCHES_TO_METERS), ..b })) by {
        reveal(number_assigned);
    }
}

proof fn lemma_assigned_target_height_inches(a: BallisticInputs, b: BallisticInputs, v: Double)
    requires
        number_assigned(a, b, NumberProperty::TargetHeightInches, v),
    ensures
        number_set(a, b, NumberProperty::TargetHeightInches, v),
{
    assert(a == (BallisticInputs { target_height: scaled(v, INCHES_TO_METERS), ..b })) by {
        reveal(number_assigned);
    }
}

proof fn lemma_assigned_number(a: BallisticInputs, b: BallisticInputs, p: NumberProperty, v: Double)
    requires
        number_assigned(a, b, p, v),
    ensures
        number_set(a, b, p, v),
{
    match p {
        NumberProperty::Bc => lemma_assigned_bc(a, b, v),
        NumberProperty::BulletWeightGrains => lemma_assigned_bullet_weight_grains(a, b, v),
        NumberProperty::MuzzleVelocityFps => lemma_assigned_muzzle_velocity_fps(a, b, v),
        NumberProperty::BulletDiameterInches => lemma_assigned_bullet_diameter_inches(a, b, v),
        NumberProperty::BulletLengthInches => lemma_assigned_bullet_length_inches(a, b, v),
        NumberProperty::SightHeightInches => lemma_assigned_sight_height_inches(a, b, v),
        NumberProperty::ZeroDistanceYards => lemma_assigned_zero_distance_yards(a, b, v),
        NumberProperty::ShootingAngleDegrees => lemma_assigned_shooting_angle_degrees(a, b, v),
        NumberProperty::TwistRateInches => lemma_assigned_twist_rate_inches(a, b, v),
        NumberProperty::CantAngleDegrees => lemma_assigned_cant_angle_degrees(a, b, v),
        NumberProperty::SampleIntervalM => lemma_assigned_sample_interval_m(a, b, v),
        NumberProperty::MuzzleHeightInches => lemma_assigned_muzzle_height_inches(a, b, v),
        NumberProperty::TargetHeightInches => lemma_assigned_target_height_inches(a, b, v),
    }
}

proof fn lemma_same_number(
    a: BallisticInputs,
    c: BallisticInputs,
    b: BallisticInputs,
    p: NumberProperty,
    v: Double,
)
    requires
        number_set(a, b, p, v),
        number_set(c, b, p, v),
    ensures
        alike(a, c),
{
}

/// The inputs `a` are what the setter of a property makes of the inputs `b` with a
/// truth value.
#[verifier::opaque]
pub open spec fn flag_assigned(
    a: BallisticInputs,
    b: BallisticInputs,
    p: FlagProperty,
    v: bool,
) -> bool {
    match p {
        FlagProperty::IsRightTwist => a == (BallisticInputs { is_twist_right: v, ..b }),
        FlagProperty::EnableTrajectorySampling => a == (BallisticInputs {
            enable_trajectory_sampling: v,
            ..b
        }),
        FlagProperty::UseRk4 => a == (BallisticInputs { use_rk4: v, ..b }),
        FlagProperty::UseAdaptiveRk45 => a == (BallisticInputs { use_adaptive_rk45: v, ..b }),
    }
}

proof fn lemma_assigned_is_right_twist(a: BallisticInputs, b: BallisticInputs, v: bool)
    requires
        flag_assigned(a, b, FlagProperty::IsRightTwist, v),
    ensures
        flag_set(a, b, FlagProperty::IsRightTwist, v),
{
    assert(a == (BallisticInputs { is_twist_right: v, ..b })) by {
        reveal(flag_assigned);
    }
}

proof fn lemma_assigned_enable_trajectory_sampling(a: BallisticInputs, b: BallisticInputs, v: bool)
    requires
        flag_assigned(a, b, FlagProperty::EnableTrajectorySampling, v),
    ensures
        flag_set(a, b, FlagProperty::EnableTrajectorySampling, v),
{
    assert(a == (BallisticInputs { enable_trajectory_sampling: v, ..b })) by {
        reveal(flag_assigned);
    }
}

proof fn lemma_assigned_use_rk4(a: BallisticInputs, b: BallisticInputs, v: bool)
    requires
        flag_assigned(a, b, FlagProperty::UseRk4, v),
    ensures
        flag_set(a, b, FlagProperty::UseRk4, v),
{
    assert(a == (BallisticInputs { use_rk4: v, ..b })) by {
        reveal(flag_assigned);
    }
}

proof fn lemma_assigned_use_adaptive_rk45(a: BallisticInputs, b: BallisticInputs, v: bool)
    requires
        flag_assigned(a, b, FlagProperty::UseAdaptiveRk45, v),
    ensures
        flag_set(a, b, FlagProperty::UseAdaptiveRk45, v),
{
    assert(a == (BallisticInputs { use_adaptive_rk45: v, ..b })) by {
        reveal(flag_assigned);
    }
}

proof fn lemma_assigned_flag(a: BallisticInputs, b: BallisticInputs, p: FlagProperty, v: bool)
    requires
        flag_assigned(a, b, p, v),
    ensures
        flag_set(a, b, p, v),
{
    match p {
        FlagProperty::IsRightTwist => lemma_assigned_is_right_twist(a, b, v),
        FlagProperty::EnableTrajectorySampling => {
            lemma_assigned_enable_trajectory_sampling(a, b, v)
        },
        FlagProperty::UseRk4 => lemma_assigned_use_rk4(a, b, v),
        FlagProperty::UseAdaptiveRk45 => lemma_assigned_use_adaptive_rk45(a, b, v),
    }
}

proof fn lemma_same_flag(
    a: BallisticInputs,
    c: BallisticInputs,
    b: BallisticInputs,
    p: FlagProperty,
    v: bool,
)
    requires
        flag_set(a, b, p, v),
        flag_set(c, b, p, v),
    ensures
        alike(a, c),
{
}

/// The inputs `a` are what the setter of the drag model makes of the inputs `b`.
pub open spec fn drag_model_assigned(
    a: BallisticInputs,
    b: BallisticInputs,
    model: DragModel,
) -> bool {
    &&& a == (BallisticInputs { bc_type: model, bc_type_str: a.bc_type_str, ..b })
    &&& optional_view(a.bc_type_str) == Some(drag_model_name(model))
}

proof fn lemma_assigned_drag_model(a: BallisticInputs, b: BallisticInputs, model: DragModel)
    requires
        drag_model_assigned(a, b, model),
    ensures
        drag_model_set(a, b, model),
{
}

proof fn lemma_same_drag_model(
    a: BallisticInputs,
    c: BallisticInputs,
    b: BallisticInputs,
    model: DragModel,
)
    requires
        drag_model_set(a, b, model),
        drag_model_set(c, b, model),
    ensures
        alike(a, c),
{
}

/// The first key of a property that has two.
pub open spec fn first_key(p: NumberProperty) -> Option<Seq<char>> {
    match p {
        NumberProperty::Bc => Some("bc_value"@),
        NumberProperty::BulletWeightGrains => Some("bullet_mass"@),
        NumberProperty::MuzzleVelocityFps => Some("muzzle_velocity"@),
        NumberProperty::BulletDiameterInches => Some("bullet_diameter"@),
        NumberProperty::BulletLengthInches => Some("bullet_length"@),
        NumberProperty::SightHeightInches => Some("sight_height"@),
        NumberProperty::ZeroDistanceYards => Some("target_distance"@),
        NumberProperty::ShootingAngleDegrees => Some("shooting_angle"@),
        NumberProperty::TwistRateInches => Some("twist_rate"@),
        NumberProperty::CantAngleDegrees => None,
        NumberProperty::SampleIntervalM => Some("sample_interval"@),
        NumberProperty::MuzzleHeightInches => Some("muzzle_height"@),
        NumberProperty::TargetHeightInches => Some("target_height"@),
    }
}

/// The key of the same name as the property.
pub open spec fn property_key(p: NumberProperty) -> Seq<char> {
    match p {
        NumberProperty::Bc => "bc"@,
        NumberProperty::BulletWeightGrains => "bullet_weight_grains"@,
        NumberProperty::MuzzleVelocityFps => "muzzle_velocity_fps"@,
        NumberProperty::BulletDiameterInches => "bullet_diameter_inches"@,
        NumberProperty::BulletLengthInches => "bullet_length_inches"@,
        NumberProperty::SightHeightInches => "sight_height_inches"@,
        NumberProperty::ZeroDistanceYards => "zero_distance_yards"@,
        NumberProperty::ShootingAngleDegrees => "shooting_angle_degrees"@,
        NumberProperty::TwistRateInches => "twist_rate_inches"@,
        NumberProperty::CantAngleDegrees => "cant_angle_degrees"@,
        NumberProperty::SampleIntervalM => "sample_interval_m"@,
        NumberProperty::MuzzleHeightInches => "muzzle_height_inches"@,
        NumberProperty::TargetHeightInches => "target_height_inches"@,
    }
}

/// The imperial mirror of a property's field, if it has one, is left to be filled
/// in.
pub open spec fn mirror_is_free(d: Dict, p: NumberProperty) -> bool {
    &&& p is BulletWeightGrains ==> d.given("weight_grains"@) is None
    &&& p is BulletDiameterInches ==> d.given("caliber_inches"@) is None
}

/// The first key of a property that has two.
pub open spec fn first_flag_key(p: FlagProperty) -> Option<Seq<char>> {
    match p {
        FlagProperty::IsRightTwist => Some("is_twist_right"@),
        _ => None,
    }
}

/// The key of the same name as the property.
pub open spec fn flag_key(p: FlagProperty) -> Seq<char> {
    match p {
        FlagProperty::IsRightTwist => "is_right_twist"@,
        FlagProperty::EnableTrajectorySampling => "enable_trajectory_sampling"@,
        FlagProperty::UseRk4 => "use_rk4"@,
        FlagProperty::UseAdaptiveRk45 => "use_adaptive_rk45"@,
    }
}

/// The inputs are what the dictionary says.
#[verifier::opaque]
spec fn read(d: Dict, refusal: Seq<char>, b: BallisticInputs) -> bool {
    reads_as(d, refusal, b)
}

proof fn lemma_read(d: Dict, refusal: Seq<char>, b: BallisticInputs)
    ensures
        read(d, refusal, b) == reads_as(d, refusal, b),
{
    reveal(read);
}

/// The name of a property.
spec fn names_property(key: Seq<char>) -> bool {
    ||| key == "bc"@
    ||| key == "bullet_weight_grains"@
    ||| key == "muzzle_velocity_fps"@
    ||| key == "bullet_diameter_inches"@
    ||| key == "bullet_length_inches"@
    ||| key == "sight_height_inches"@
    ||| key == "zero_distance_yards"@
    ||| key == "shooting_angle_degrees"@
    ||| key == "twist_rate_inches"@
    ||| key == "cant_angle_degrees"@
    ||| key == "sample_interval_m"@
    ||| key == "muzzle_height_inches"@
    ||| key == "target_height_inches"@
    ||| key == "is_right_twist"@
    ||| key == "enable_trajectory_sampling"@
    ||| key == "use_rk4"@
    ||| key == "use_adaptive_rk45"@
    ||| key == "drag_model"@
}

/// What the dictionary gives under the name of a property is of the kind that the
/// property holds.
spec fn fits(d: Dict, key: Seq<char>) -> bool {
    if key == "is_right_twist"@
        || key == "enable_trajectory_sampling"@
        || key == "use_rk4"@
        || key == "use_adaptive_rk45"@ {
        d.given(key) matches Some(value) && value.flag is Ok
    } else if key == "drag_model"@ {
        d.given(key) matches Some(value) && value.drag_model is Some
    } else {
        number_for(d, key) is Some
    }
}

proof fn lemma_kept_identity(
    d1: Dict,
    d2: Dict,
    key: Seq<char>,
    refusal: Seq<char>,
    b1: BallisticInputs,
    b2: BallisticInputs,
)
    requires
        agree_but(d1, d2, Some(key)),
        read(d1, refusal, b1),
        read(d2, refusal, b2),
    ensures
        key != "bc_value"@ && key != "bc"@ ==> b1.bc_value == b2.bc_value,
        key != "bc_type"@ && key != "drag_model"@
            ==> b1.bc_type == b2.bc_type
                && optional_view(b1.bc_type_str) == optional_view(b2.bc_type_str),
        key != "bullet_mass"@ && key != "bullet_weight_grains"@
            ==> b1.bullet_mass == b2.bullet_mass,
        key != "altitude"@ ==> b1.altitude == b2.altitude,
        key != "latitude"@ ==> b1.latitude == b2.latitude,
        key != "bullet_cluster"@ ==> b1.bullet_cluster == b2.bullet_cluster,
        key != "enable_advanced_effects"@
            ==> b1.enable_advanced_effects == b2.enable_advanced_effects,
        key != "enable_advanced_effects"@ ==> b1.enable_magnus == b2.enable_magnus,
        key != "bc_segments"@ ==> optional_seq(b1.bc_segments) == optional_seq(b2.bc_segments),
        key != "bc_segments_data"@
            ==> optional_seq(b1.bc_segments_data) == optional_seq(b2.bc_segments_data),
        key != "custom_drag_table"@ && key != "custom_drag_function"@
            ==> table_axes(b1.custom_drag_table) == table_axes(b2.custom_drag_table),
        key != "is_twist_right"@ && key != "is_right_twist"@
            ==> b1.is_twist_right == b2.is_twist_right,
        key != "shooting_angle"@ && key != "shooting_angle_degrees"@
            ==> b1.shooting_angle == b2.shooting_angle,
{
    reveal(read);
    lemma_same_identity(d1, d2, Some(key), refusal);
}

proof fn lemma_readable_identity(d1: Dict, d2: Dict, key: Seq<char>, refusal: Seq<char>)
    requires
        agree_but(d1, d2, Some(key)),
        identity_fault(d1, refusal) is None,
        names_property(key),
        fits(d2, key),
    ensures
        identity_fault(d2, refusal) is None,
{
    lemma_marks();
    lemma_same_identity(d1, d2, Some(key), refusal);
    assert(bc_value(d2) is Ok) by {
        if key == "bc"@ && key != "bc_value"@ {
            lemma_given(d1, d2, Some(key), "bc_value"@);
        }
    }
    assert(bc_type(d2) is Ok) by {
        if key == "drag_model"@ && key != "bc_type"@ {
            lemma_given(d1, d2, Some(key), "bc_type"@);
        }
    }
    assert(bullet_mass(d2) is Ok) by {
        if key == "bullet_weight_grains"@ && key != "bullet_mass"@ {
            lemma_given(d1, d2, Some(key), "bullet_mass"@);
        }
    }
    assert(is_twist_right(d2) is Ok) by {
        if key == "is_right_twist"@ && key != "is_twist_right"@ {
            lemma_given(d1, d2, Some(key), "is_twist_right"@);
        }
    }
    assert(shooting_angle(d2) is Ok) by {
        if key == "shooting_angle_degrees"@ && key != "shooting_angle"@ {
            lemma_given(d1, d2, Some(key), "shooting_angle"@);
        }
    }
}

proof fn lemma_kept_shot(
    d1: Dict,
    d2: Dict,
    key: Seq<char>,
    refusal: Seq<char>,
    b1: BallisticInputs,
    b2: BallisticInputs,
)
    requires
        agree_but(d1, d2, Some(key)),
        read(d1, refusal, b1),
        read(d2, refusal, b2),
    ensures
        key != "muzzle_velocity"@ && key != "muzzle_velocity_fps"@
            ==> b1.muzzle_velocity == b2.muzzle_velocity,
        key != "twist_rate"@ && key != "twist_rate_inches"@ ==> b1.twist_rate == b2.twist_rate,
        key != "bullet_length"@ && key != "bullet_length_inches"@
            ==> b1.bullet_length == b2.bullet_length,
        key != "bullet_diameter"@ && key != "bullet_diameter_inches"@
            ==> b1.bullet_diameter == b2.bullet_diameter,
        key != "target_distance"@ && key != "zero_distance_yards"@
            ==> b1.target_distance == b2.target_distance,
        key != "muzzle_angle"@ ==> b1.muzzle_angle == b2.muzzle_angle,
        key != "wind_speed"@ ==> b1.wind_speed == b2.wind_speed,
        key != "wind_angle"@ ==> b1.wind_angle == b2.wind_angle,
        key != "temperature"@ ==> b1.temperature == b2.temperature,
        key != "pressure"@ ==> b1.pressure == b2.pressure,
        key != "humidity"@ ==> b1.humidity == b2.humidity,
        key != "enable_coriolis"@ && key != "enable_advanced_effects"@ && key != "latitude"@
            ==> b1.enable_coriolis == b2.enable_coriolis,
        key != "shot_direction"@ ==> b1.shot_azimuth == b2.shot_azimuth,
{
    reveal(read);
    lemma_same_shot(d1, d2, Some(key));
}

proof fn lemma_readable_shot(d1: Dict, d2: Dict, key: Seq<char>, refusal: Seq<char>)
    requires
        agree_but(d1, d2, Some(key)),
        shot_fault(d1) is None,
        names_property(key),
        fits(d2, key),
    ensures
        shot_fault(d2) is None,
{
    lemma_marks();
    lemma_same_shot(d1, d2, Some(key));
    assert(muzzle_velocity(d2) is Ok) by {
        if key == "muzzle_velocity_fps"@ && key != "muzzle_velocity"@ {
            lemma_given(d1, d2, Some(key), "muzzle_velocity"@);
        }
    }
    assert(twist_rate(d2) is Ok) by {
        if key == "twist_rate_inches"@ && key != "twist_rate"@ {
            lemma_given(d1, d2, Some(key), "twist_rate"@);
        }
    }
    assert(bullet_length(d2) is Ok) by {
        if key == "bullet_length_inches"@ && key != "bullet_length"@ {
            lemma_given(d1, d2, Some(key), "bullet_length"@);
        }
    }
    assert(bullet_diameter(d2) is Ok) by {
        if key == "bullet_diameter_inches"@ && key != "bullet_diameter"@ {
            lemma_given(d1, d2, Some(key), "bullet_diameter"@);
        }
    }
    assert(target_distance(d2) is Ok) by {
        if key == "zero_distance_yards"@ && key != "target_distance"@ {
            lemma_given(d1, d2, Some(key), "target_distance"@);
        }
    }
}

proof fn lemma_kept_bullet(
    d1: Dict,
    d2: Dict,
    key: Seq<char>,
    refusal: Seq<char>,
    b1: BallisticInputs,
    b2: BallisticInputs,
)
    requires
        agree_but(d1, d2, Some(key)),
        read(d1, refusal, b1),
        read(d2, refusal, b2),
    ensures
        key != "use_powder_sensitivity"@ ==> b1.use_powder_sensitivity == b2.use_powder_sensitivity,
        key != "powder_temp_sensitivity"@
            ==> b1.powder_temp_sensitivity == b2.powder_temp_sensitivity,
        key != "powder_temp"@ ==> b1.powder_temp == b2.powder_temp,
        key != "tipoff_yaw"@ ==> b1.tipoff_yaw == b2.tipoff_yaw,
        key != "tipoff_decay_distance"@ ==> b1.tipoff_decay_distance == b2.tipoff_decay_distance,
        key != "ground_threshold"@ ==> b1.ground_threshold == b2.ground_threshold,
        key != "caliber_inches"@ ==> b1.caliber_inches == b2.caliber_inches,
        key != "weight_grains"@ ==> b1.weight_grains == b2.weight_grains,
        key != "use_bc_segments"@ ==> b1.use_bc_segments == b2.use_bc_segments,
        key != "bullet_id"@ ==> optional_view(b1.bullet_id) == optional_view(b2.bullet_id),
        key != "use_enhanced_spin_drift"@ && key != "enable_advanced_effects"@
            ==> b1.use_enhanced_spin_drift == b2.use_enhanced_spin_drift,
        key != "use_form_factor"@ ==> b1.use_form_factor == b2.use_form_factor,
        key != "manufacturer"@ ==> optional_view(b1.manufacturer) == optional_view(b2.manufacturer),
        key != "bullet_model"@ ==> optional_view(b1.bullet_model) == optional_view(b2.bullet_model),
{
    reveal(read);
    lemma_same_bullet(d1, d2, Some(key));
}

proof fn lemma_readable_bullet(d1: Dict, d2: Dict, key: Seq<char>, refusal: Seq<char>)
    requires
        agree_but(d1, d2, Some(key)),
        bullet_fault(d1) is None,
        names_property(key),
        fits(d2, key),
    ensures
        bullet_fault(d2) is None,
{
    lemma_marks();
    lemma_same_bullet(d1, d2, Some(key));
}

proof fn lemma_kept_solve(
    d1: Dict,
    d2: Dict,
    key: Seq<char>,
    refusal: Seq<char>,
    b1: BallisticInputs,
    b2: BallisticInputs,
)
    requires
        agree_but(d1, d2, Some(key)),
        read(d1, refusal, b1),
        read(d2, refusal, b2),
    ensures
        key != "enable_wind_shear"@ ==> b1.enable_wind_shear == b2.enable_wind_shear,
        key != "wind_shear_model"@ ==> b1.wind_shear_model@ == b2.wind_shear_model@,
        key != "use_cluster_bc"@ ==> b1.use_cluster_bc == b2.use_cluster_bc,
        key != "enable_aerodynamic_jump"@
            ==> b1.enable_aerodynamic_jump == b2.enable_aerodynamic_jump,
        key != "use_rk4"@ ==> b1.use_rk4 == b2.use_rk4,
        key != "use_adaptive_rk45"@ ==> b1.use_adaptive_rk45 == b2.use_adaptive_rk45,
        key != "enable_trajectory_sampling"@
            ==> b1.enable_trajectory_sampling == b2.enable_trajectory_sampling,
        key != "sample_interval"@ && key != "sample_interval_m"@
            ==> b1.sample_interval == b2.sample_interval,
        key != "sight_height"@ && key != "sight_height_inches"@
            ==> b1.sight_height == b2.sight_height,
        key != "muzzle_height"@ && key != "muzzle_height_inches"@
            ==> b1.muzzle_height == b2.muzzle_height,
        key != "target_height"@ && key != "target_height_inches"@
            ==> b1.target_height == b2.target_height,
        key != "cant_angle_degrees"@ ==> b1.cant_angle == b2.cant_angle,
        b1.azimuth_angle == b2.azimuth_angle,
        b1.enable_pitch_damping == b2.enable_pitch_damping,
        b1.enable_precession_nutation == b2.enable_precession_nutation,
{
    reveal(read);
    lemma_same_solve(d1, d2, Some(key));
}

proof fn lemma_readable_solve(d1: Dict, d2: Dict, key: Seq<char>, refusal: Seq<char>)
    requires
        agree_but(d1, d2, Some(key)),
        solve_fault(d1) is None,
        names_property(key),
        fits(d2, key),
    ensures
        solve_fault(d2) is None,
{
    lemma_marks();
    lemma_same_solve(d1, d2, Some(key));
    assert(use_rk4(d2) is Ok);
    assert(use_adaptive_rk45(d2) is Ok);
    assert(enable_trajectory_sampling(d2) is Ok);
    assert(sample_interval(d2) is Ok) by {
        if key == "sample_interval_m"@ && key != "sample_interval"@ {
            lemma_given(d1, d2, Some(key), "sample_interval"@);
        }
    }
    assert(sight_height(d2) is Ok) by {
        if key == "sight_height_inches"@ && key != "sight_height"@ {
            lemma_given(d1, d2, Some(key), "sight_height"@);
        }
    }
    assert(muzzle_height(d2) is Ok) by {
        if key == "muzzle_height_inches"@ && key != "muzzle_height"@ {
            lemma_given(d1, d2, Some(key), "muzzle_height"@);
        }
    }
    assert(target_height(d2) is Ok) by {
        if key == "target_height_inches"@ && key != "target_height"@ {
            lemma_given(d1, d2, Some(key), "target_height"@);
        }
    }
    assert(cant_angle(d2) is Ok);
}

proof fn lemma_number_fits(d: Dict, p: NumberProperty)
    requires
        number_for(d, property_key(p)) is Some,
    ensures
        names_property(property_key(p)),
        fits(d, property_key(p)),
{
    lemma_marks();
}

proof fn lemma_flag_fits(d: Dict, p: FlagProperty)
    requires
        d.given(flag_key(p)) matches Some(value) && value.flag is Ok,
    ensures
        names_property(flag_key(p)),
        fits(d, flag_key(p)),
{
}

proof fn lemma_drag_model_fits(d: Dict)
    requires
        d.given("drag_model"@) matches Some(value) && value.drag_model is Some,
    ensures
        names_property("drag_model"@),
        fits(d, "drag_model"@),
{
    lemma_marks();
}

proof fn lemma_readable(d1: Dict, d2: Dict, key: Seq<char>, refusal: Seq<char>)
    requires
        agree_but(d1, d2, Some(key)),
        parse_fault(d1, refusal) is None,
        names_property(key),
        fits(d2, key),
    ensures
        parse_fault(d2, refusal) is None,
{
    lemma_readable_identity(d1, d2, key, refusal);
    lemma_readable_shot(d1, d2, key, refusal);
    lemma_readable_bullet(d1, d2, key, refusal);
    lemma_readable_solve(d1, d2, key, refusal);
}

proof fn lemma_no_fault(d: Dict, refusal: Seq<char>, b: BallisticInputs)
    requires
        reads_as(d, refusal, b),
    ensures
        parse_fault(d, refusal) is None,
{
}

/// The inputs `s` are the inputs `b` in SI units, field by field.
#[verifier::opaque]
spec fn converted(b: BallisticInputs, s: BallisticInputs) -> bool {
    &&& s.bc_value == b.bc_value
    &&& s.bc_type == b.bc_type
    &&& s.bullet_mass == scaled(b.bullet_mass, GRAINS_TO_KG)
    &&& s.muzzle_velocity == scaled(b.muzzle_velocity, FPS_TO_MPS)
    &&& s.altitude == scaled(b.altitude, FEET_TO_METERS)
    &&& s.twist_rate == b.twist_rate
    &&& s.bullet_length == scaled(b.bullet_length, INCHES_TO_METERS)
    &&& s.bullet_diameter == scaled(b.bullet_diameter, INCHES_TO_METERS)
    &&& s.target_distance == scaled(b.target_distance, YARDS_TO_METERS)
    &&& s.muzzle_angle == radians(b.muzzle_angle)
    &&& s.wind_speed == scaled(b.wind_speed, KMH_TO_MPS)
    &&& s.wind_angle == radians(b.wind_angle)
    &&& s.temperature == b.temperature
    &&& s.pressure == b.pressure
    &&& s.humidity == unscaled(b.humidity, HUNDRED)
    &&& s.latitude == b.latitude
    &&& s.enable_advanced_effects == b.enable_advanced_effects
    &&& s.enable_magnus == b.enable_magnus
    &&& s.enable_coriolis == b.enable_coriolis
    &&& s.is_twist_right == b.is_twist_right
    &&& s.shooting_angle == b.shooting_angle
    &&& s.azimuth_angle == b.azimuth_angle
    &&& s.shot_azimuth == b.shot_azimuth
    &&& s.use_powder_sensitivity == b.use_powder_sensitivity
    &&& s.powder_temp_sensitivity == b.powder_temp_sensitivity
    &&& s.powder_temp == b.powder_temp
    &&& s.tipoff_yaw == b.tipoff_yaw
    &&& s.tipoff_decay_distance == b.tipoff_decay_distance
    &&& s.ground_threshold == b.ground_threshold
    &&& s.bc_segments == b.bc_segments
    &&& s.caliber_inches == if zero(b.caliber_inches) {
        b.bullet_diameter
    } else {
        b.caliber_inches
    }
    &&& s.weight_grains == if zero(b.weight_grains) {
        b.bullet_mass
    } else {
        b.weight_grains
    }
    &&& s.use_bc_segments == b.use_bc_segments
    &&& s.bullet_id == b.bullet_id
    &&& s.bc_segments_data == b.bc_segments_data
    &&& s.use_enhanced_spin_drift == b.use_enhanced_spin_drift
    &&& s.use_form_factor == b.use_form_factor
    &&& s.manufacturer == b.manufacturer
    &&& s.bullet_model == b.bullet_model
    &&& s.enable_wind_shear == b.enable_wind_shear
    &&& s.wind_shear_model == b.wind_shear_model
    &&& s.use_cluster_bc == b.use_cluster_bc
    &&& s.bullet_cluster == b.bullet_cluster
    &&& s.custom_drag_table == b.custom_drag_table
    &&& s.bc_type_str == b.bc_type_str
    &&& s.enable_pitch_damping == b.enable_pitch_damping
    &&& s.enable_precession_nutation == b.enable_precession_nutation
    &&& s.enable_aerodynamic_jump == b.enable_aerodynamic_jump
    &&& s.use_rk4 == b.use_rk4
    &&& s.use_adaptive_rk45 == b.use_adaptive_rk45
    &&& s.enable_trajectory_sampling == b.enable_trajectory_sampling
    &&& s.sample_interval == b.sample_interval
    &&& s.sight_height == scaled(b.sight_height, INCHES_TO_METERS)
    &&& s.muzzle_height == scaled(b.muzzle_height, INCHES_TO_METERS)
    &&& s.target_height == scaled(b.target_height, INCHES_TO_METERS)
    &&& s.cant_angle == radians(b.cant_angle)
}

proof fn lemma_converted(b: BallisticInputs)
    ensures
        converted(b, si(b)),
{
    reveal(converted);
}

proof fn lemma_reads_bc_value(d: Dict, refusal: Seq<char>, b: BallisticInputs)
    requires
        read(d, refusal, b),
    ensures
        bc_value(d) == Ok::<Double, Fault>(b.bc_value),
{
    reveal(read);
}

proof fn lemma_reads_bullet_mass(d: Dict, refusal: Seq<char>, b: BallisticInputs)
    requires
        read(d, refusal, b),
    ensures
        bullet_mass(d) == Ok::<Double, Fault>(b.bullet_mass),
{
    reveal(read);
}

proof fn lemma_reads_muzzle_velocity(d: Dict, refusal: Seq<char>, b: BallisticInputs)
    requires
        read(d, refusal, b),
    ensures
        muzzle_velocity(d) == Ok::<Double, Fault>(b.muzzle_velocity),
{
    reveal(read);
}

proof fn lemma_reads_bullet_diameter(d: Dict, refusal: Seq<char>, b: BallisticInputs)
    requires
        read(d, refusal, b),
    ensures
        bullet_diameter(d) == Ok::<Double, Fault>(b.bullet_diameter),
{
    reveal(read);
}

proof fn lemma_reads_bullet_length(d: Dict, refusal: Seq<char>, b: BallisticInputs)
    requires
        read(d, refusal, b),
    ensures
        bullet_length(d) == Ok::<Double, Fault>(b.bullet_length),
{
    reveal(read);
}

proof fn lemma_reads_sight_height(d: Dict, refusal: Seq<char>, b: BallisticInputs)
    requires
        read(d, refusal, b),
    ensures
        sight_height(d) == Ok::<Double, Fault>(b.sight_height),
{
    reveal(read);
}

proof fn lemma_reads_target_distance(d: Dict, refusal: Seq<char>, b: BallisticInputs)
    requires
        read(d, refusal, b),
    ensures
        target_distance(d) == Ok::<Double, Fault>(b.target_distance),
{
    reveal(read);
}

proof fn lemma_reads_shooting_angle(d: Dict, refusal: Seq<char>, b: BallisticInputs)
    requires
        read(d, refusal, b),
    ensures
        shooting_angle(d) == Ok::<Double, Fault>(b.shooting_angle),
{
    reveal(read);
}

proof fn lemma_reads_twist_rate(d: Dict, refusal: Seq<char>, b: BallisticInputs)
    requires
        read(d, refusal, b),
    ensures
        twist_rate(d) == Ok::<Double, Fault>(b.twist_rate),
{
    reveal(read);
}

proof fn lemma_reads_cant_angle(d: Dict, refusal: Seq<char>, b: BallisticInputs)
    requires
        read(d, refusal, b),
    ensures
        cant_angle(d) == Ok::<Double, Fault>(b.cant_angle),
{
    reveal(read);
}

proof fn lemma_reads_sample_interval(d: Dict, refusal: Seq<char>, b: BallisticInputs)
    requires
        read(d, refusal, b),
    ensures
        sample_interval(d) == Ok::<Double, Fault>(b.sample_interval),
{
    reveal(read);
}

proof fn lemma_reads_muzzle_height(d: Dict, refusal: Seq<char>, b: BallisticInputs)
    requires
        read(d, refusal, b),
    ensures
        muzzle_height(d) == Ok::<Double, Fault>(b.muzzle_height),
{
    reveal(read);
}

proof fn lemma_reads_target_height(d: Dict, refusal: Seq<char>, b: BallisticInputs)
    requires
        read(d, refusal, b),
    ensures
        target_height(d) == Ok::<Double, Fault>(b.target_height),
{
    reveal(read);
}

proof fn lemma_reads_weight_grains(d: Dict, refusal: Seq<char>, b: BallisticInputs)
    requires
        read(d, refusal, b),
    ensures
        weight_grains(d) == Ok::<Double, Fault>(b.weight_grains),
{
    reveal(read);
}

proof fn lemma_reads_caliber_inches(d: Dict, refusal: Seq<char>, b: BallisticInputs)
    requires
        read(d, refusal, b),
    ensures
        caliber_inches(d) == Ok::<Double, Fault>(b.caliber_inches),
{
    reveal(read);
}

proof fn lemma_reads_is_twist_right(d: Dict, refusal: Seq<char>, b: BallisticInputs)
    requires
        read(d, refusal, b),
    ensures
        is_twist_right(d) == Ok::<bool, Fault>(b.is_twist_right),
{
    reveal(read);
}

proof fn lemma_reads_enable_trajectory_sampling(
    d: Dict,
    refusal: Seq<char>,
    b: BallisticInputs,
)
    requires
        read(d, refusal, b),
    ensures
        enable_trajectory_sampling(d) == Ok::<bool, Fault>(b.enable_trajectory_sampling),
{
    reveal(read);
}

proof fn lemma_reads_use_rk4(d: Dict, refusal: Seq<char>, b: BallisticInputs)
    requires
        read(d, refusal, b),
    ensures
        use_rk4(d) == Ok::<bool, Fault>(b.use_rk4),
{
    reveal(read);
}

proof fn lemma_reads_use_adaptive_rk45(d: Dict, refusal: Seq<char>, b: BallisticInputs)
    requires
        read(d, refusal, b),
    ensures
        use_adaptive_rk45(d) == Ok::<bool, Fault>(b.use_adaptive_rk45),
{
    reveal(read);
}

proof fn lemma_own_bc(d: Dict, refusal: Seq<char>, b: BallisticInputs, v: Double)
    requires
        read(d, refusal, b),
        d.given("bc_value"@) is None,
        number_for(d, "bc"@) == Some(v),
    ensures
        b.bc_value == v,
{
    lemma_reads_bc_value(d, refusal, b);
}

proof fn lemma_own_bullet_weight_grains(
    d: Dict,
    refusal: Seq<char>,
    b: BallisticInputs,
    v: Double,
)
    requires
        read(d, refusal, b),
        d.given("bullet_mass"@) is None,
        number_for(d, "bullet_weight_grains"@) == Some(v),
    ensures
        b.bullet_mass == v,
{
    lemma_reads_bullet_mass(d, refusal, b);
}

proof fn lemma_own_muzzle_velocity_fps(
    d: Dict,
    refusal: Seq<char>,
    b: BallisticInputs,
    v: Double,
)
    requires
        read(d, refusal, b),
        d.given("muzzle_velocity"@) is None,
        number_for(d, "muzzle_velocity_fps"@) == Some(v),
    ensures
        b.muzzle_velocity == v,
{
    lemma_reads_muzzle_velocity(d, refusal, b);
}

proof fn lemma_own_bullet_diameter_inches(
    d: Dict,
    refusal: Seq<char>,
    b: BallisticInputs,
    v: Double,
)
    requires
        read(d, refusal, b),
        d.given("bullet_diameter"@) is None,
        number_for(d, "bullet_diameter_inches"@) == Some(v),
    ensures
        b.bullet_diameter == v,
{
    lemma_reads_bullet_diameter(d, refusal, b);
}

proof fn lemma_own_bullet_length_inches(
    d: Dict,
    refusal: Seq<char>,
    b: BallisticInputs,
    v: Double,
)
    requires
        read(d, refusal, b),
        d.given("bullet_length"@) is None,
        number_for(d, "bullet_length_inches"@) == Some(v),
    ensures
        b.bullet_length == v,
{
    lemma_reads_bullet_length(d, refusal, b);
}

proof fn lemma_own_sight_height_inches(
    d: Dict,
    refusal: Seq<char>,
    b: BallisticInputs,
    v: Double,
)
    requires
        read(d, refusal, b),
        d.given("sight_height"@) is None,
        number_for(d, "sight_height_inches"@) == Some(v),
    ensures
        b.sight_height == v,
{
    lemma_reads_sight_height(d, refusal, b);
}

proof fn lemma_own_zero_distance_yards(
    d: Dict,
    refusal: Seq<char>,
    b: BallisticInputs,
    v: Double,
)
    requires
        read(d, refusal, b),
        d.given("target_distance"@) is None,
        number_for(d, "zero_distance_yards"@) == Some(v),
    ensures
        b.target_distance == v,
{
    lemma_reads_target_distance(d, refusal, b);
}

proof fn lemma_own_shooting_angle_degrees(
    d: Dict,
    refusal: Seq<char>,
    b: BallisticInputs,
    v: Double,
)
    requires
        read(d, refusal, b),
        d.given("shooting_angle"@) is None,
        number_for(d, "shooting_angle_degrees"@) == Some(v),
    ensures
        b.shooting_angle == radians(v),
{
    lemma_reads_shooting_angle(d, refusal, b);
}

proof fn lemma_own_twist_rate_inches(
    d: Dict,
    refusal: Seq<char>,
    b: BallisticInputs,
    v: Double,
)
    requires
        read(d, refusal, b),
        d.given("twist_rate"@) is None,
        number_for(d, "twist_rate_inches"@) == Some(v),
    ensures
        b.twist_rate == v,
{
    lemma_reads_twist_rate(d, refusal, b);
}

proof fn lemma_own_cant_angle_degrees(
    d: Dict,
    refusal: Seq<char>,
    b: BallisticInputs,
    v: Double,
)
    requires
        read(d, refusal, b),
        number_for(d, "cant_angle_degrees"@) == Some(v),
    ensures
        b.cant_angle == v,
{
    lemma_reads_cant_angle(d, refusal, b);
}

proof fn lemma_own_sample_interval_m(
    d: Dict,
    refusal: Seq<char>,
    b: BallisticInputs,
    v: Double,
)
    requires
        read(d, refusal, b),
        d.given("sample_interval"@) is None,
        number_for(d, "sample_interval_m"@) == Some(v),
    ensures
        b.sample_interval == v,
{
    lemma_reads_sample_interval(d, refusal, b);
}

proof fn lemma_own_muzzle_height_inches(
    d: Dict,
    refusal: Seq<char>,
    b: BallisticInputs,
    v: Double,
)
    requires
        read(d, refusal, b),
        d.given("muzzle_height"@) is None,
        number_for(d, "muzzle_height_inches"@) == Some(v),
    ensures
        b.muzzle_height == v,
{
    lemma_reads_muzzle_height(d, refusal, b);
}

proof fn lemma_own_target_height_inches(
    d: Dict,
    refusal: Seq<char>,
    b: BallisticInputs,
    v: Double,
)
    requires
        read(d, refusal, b),
        d.given("target_height"@) is None,
        number_for(d, "target_height_inches"@) == Some(v),
    ensures
        b.target_height == v,
{
    lemma_reads_target_height(d, refusal, b);
}

proof fn lemma_no_weight_grains(d: Dict, refusal: Seq<char>, b: BallisticInputs)
    requires
        read(d, refusal, b),
        d.given("weight_grains"@) is None,
    ensures
        zero(b.weight_grains),
{
    lemma_reads_weight_grains(d, refusal, b);
    reveal(zero);
}

proof fn lemma_no_caliber_inches(d: Dict, refusal: Seq<char>, b: BallisticInputs)
    requires
        read(d, refusal, b),
        d.given("caliber_inches"@) is None,
    ensures
        zero(b.caliber_inches),
{
    lemma_reads_caliber_inches(d, refusal, b);
    reveal(zero);
}

proof fn lemma_own_is_right_twist(d: Dict, refusal: Seq<char>, b: BallisticInputs, v: bool)
    requires
        read(d, refusal, b),
        d.given("is_twist_right"@) is None,
        d.given("is_right_twist"@) matches Some(value) && value.flag == Ok::<bool, Exception>(v),
    ensures
        b.is_twist_right == v,
{
    lemma_reads_is_twist_right(d, refusal, b);
}

proof fn lemma_own_enable_trajectory_sampling(
    d: Dict,
    refusal: Seq<char>,
    b: BallisticInputs,
    v: bool,
)
    requires
        read(d, refusal, b),
        d.given("enable_trajectory_sampling"@) matches Some(value)
            && value.flag == Ok::<bool, Exception>(v),
    ensures
        b.enable_trajectory_sampling == v,
{
    lemma_reads_enable_trajectory_sampling(d, refusal, b);
}

proof fn lemma_own_use_rk4(d: Dict, refusal: Seq<char>, b: BallisticInputs, v: bool)
    requires
        read(d, refusal, b),
        d.given("use_rk4"@) matches Some(value) && value.flag == Ok::<bool, Exception>(v),
    ensures
        b.use_rk4 == v,
{
    lemma_reads_use_rk4(d, refusal, b);
}

proof fn lemma_own_use_adaptive_rk45(
    d: Dict,
    refusal: Seq<char>,
    b: BallisticInputs,
    v: bool,
)
    requires
        read(d, refusal, b),
        d.given("use_adaptive_rk45"@) matches Some(value) && value.flag == Ok::<bool, Exception>(v),
    ensures
        b.use_adaptive_rk45 == v,
{
    lemma_reads_use_adaptive_rk45(d, refusal, b);
}

proof fn lemma_bc(
    d1: Dict,
    d2: Dict,
    refusal: Seq<char>,
    b1: BallisticInputs,
    b2: BallisticInputs,
    s1: BallisticInputs,
    s2: BallisticInputs,
    v: Double,
)
    requires
        read(d1, refusal, b1),
        read(d2, refusal, b2),
        converted(b1, s1),
        converted(b2, s2),
        agree_but(d1, d2, Some("bc"@)),
        b2.bc_value == v,
    ensures
        number_set(s2, s1, NumberProperty::Bc, v),
{
    let key = "bc"@;
    reveal(converted);
    lemma_marks();
    lemma_kept_identity(d1, d2, key, refusal, b1, b2);
    lemma_kept_shot(d1, d2, key, refusal, b1, b2);
    lemma_kept_bullet(d1, d2, key, refusal, b1, b2);
    lemma_kept_solve(d1, d2, key, refusal, b1, b2);
}

proof fn lemma_bullet_weight_grains(
    d1: Dict,
    d2: Dict,
    refusal: Seq<char>,
    b1: BallisticInputs,
    b2: BallisticInputs,
    s1: BallisticInputs,
    s2: BallisticInputs,
    v: Double,
)
    requires
        read(d1, refusal, b1),
        read(d2, refusal, b2),
        converted(b1, s1),
        converted(b2, s2),
        agree_but(d1, d2, Some("bullet_weight_grains"@)),
        b2.bullet_mass == v,
        zero(b1.weight_grains),
        zero(b2.weight_grains),
    ensures
        number_set(s2, s1, NumberProperty::BulletWeightGrains, v),
{
    let key = "bullet_weight_grains"@;
    reveal(converted);
    lemma_marks();
    lemma_kept_identity(d1, d2, key, refusal, b1, b2);
    lemma_kept_shot(d1, d2, key, refusal, b1, b2);
    lemma_kept_bullet(d1, d2, key, refusal, b1, b2);
    lemma_kept_solve(d1, d2, key, refusal, b1, b2);
}

proof fn lemma_muzzle_velocity_fps(
    d1: Dict,
    d2: Dict,
    refusal: Seq<char>,
    b1: BallisticInputs,
    b2: BallisticInputs,
    s1: BallisticInputs,
    s2: BallisticInputs,
    v: Double,
)
    requires
        read(d1, refusal, b1),
        read(d2, refusal, b2),
        converted(b1, s1),
        converted(b2, s2),
        agree_but(d1, d2, Some("muzzle_velocity_fps"@)),
        b2.muzzle_velocity == v,
    ensures
        number_set(s2, s1, NumberProperty::MuzzleVelocityFps, v),
{
    let key = "muzzle_velocity_fps"@;
    reveal(converted);
    lemma_marks();
    lemma_kept_identity(d1, d2, key, refusal, b1, b2);
    lemma_kept_shot(d1, d2, key, refusal, b1, b2);
    lemma_kept_bullet(d1, d2, key, refusal, b1, b2);
    lemma_kept_solve(d1, d2, key, refusal, b1, b2);
}

proof fn lemma_bullet_diameter_inches(
    d1: Dict,
    d2: Dict,
    refusal: Seq<char>,
    b1: BallisticInputs,
    b2: BallisticInputs,
    s1: BallisticInputs,
    s2: BallisticInputs,
    v: Double,
)
    requires
        read(d1, refusal, b1),
        read(d2, refusal, b2),
        converted(b1, s1),
        converted(b2, s2),
        agree_but(d1, d2, Some("bullet_diameter_inches"@)),
        b2.bullet_diameter == v,
        zero(b1.caliber_inches),
        zero(b2.caliber_inches),
    ensures
        number_set(s2, s1, NumberProperty::BulletDiameterInches, v),
{
    let key = "bullet_diameter_inches"@;
    reveal(converted);
    lemma_marks();
    lemma_kept_identity(d1, d2, key, refusal, b1, b2);
    lemma_kept_shot(d1, d2, key, refusal, b1, b2);
    lemma_kept_bullet(d1, d2, key, refusal, b1, b2);
    lemma_kept_solve(d1, d2, key, refusal, b1, b2);
}

proof fn lemma_bullet_length_inches(
    d1: Dict,
    d2: Dict,
    refusal: Seq<char>,
    b1: BallisticInputs,
    b2: BallisticInputs,
    s1: BallisticInputs,
    s2: BallisticInputs,
    v: Double,
)
    requires
        read(d1, refusal, b1),
        read(d2, refusal, b2),
        converted(b1, s1),
        converted(b2, s2),
        agree_but(d1, d2, Some("bullet_length_inches"@)),
        b2.bullet_length == v,
    ensures
        number_set(s2, s1, NumberProperty::BulletLengthInches, v),
{
    let key = "bullet_length_inches"@;
    reveal(converted);
    lemma_marks();
    lemma_kept_identity(d1, d2, key, refusal, b1, b2);
    lemma_kept_shot(d1, d2, key, refusal, b1, b2);
    lemma_kept_bullet(d1, d2, key, refusal, b1, b2);
    lemma_kept_solve(d1, d2, key, refusal, b1, b2);
}

proof fn lemma_sight_height_inches(
    d1: Dict,
    d2: Dict,
    refusal: Seq<char>,
    b1: BallisticInputs,
    b2: BallisticInputs,
    s1: BallisticInputs,
    s2: BallisticInputs,
    v: Double,
)
    requires
        read(d1, refusal, b1),
        read(d2, refusal, b2),
        converted(b1, s1),
        converted(b2, s2),
        agree_but(d1, d2, Some("sight_height_inches"@)),
        b2.sight_height == v,
    ensures
        number_set(s2, s1, NumberProperty::SightHeightInches, v),
{
    let key = "sight_height_inches"@;
    reveal(converted);
    lemma_marks();
    lemma_kept_identity(d1, d2, key, refusal, b1, b2);
    lemma_kept_shot(d1, d2, key, refusal, b1, b2);
    lemma_kept_bullet(d1, d2, key, refusal, b1, b2);
    lemma_kept_solve(d1, d2, key, refusal, b1, b2);
}

proof fn lemma_zero_distance_yards(
    d1: Dict,
    d2: Dict,
    refusal: Seq<char>,
    b1: BallisticInputs,
    b2: BallisticInputs,
    s1: BallisticInputs,
    s2: BallisticInputs,
    v: Double,
)
    requires
        read(d1, refusal, b1),
        read(d2, refusal, b2),
        converted(b1, s1),
        converted(b2, s2),
        agree_but(d1, d2, Some("zero_distance_yards"@)),
        b2.target_distance == v,
    ensures
        number_set(s2, s1, NumberProperty::ZeroDistanceYards, v),
{
    let key = "zero_distance_yards"@;
    reveal(converted);
    lemma_marks();
    lemma_kept_identity(d1, d2, key, refusal, b1, b2);
    lemma_kept_shot(d1, d2, key, refusal, b1, b2);
    lemma_kept_bullet(d1, d2, key, refusal, b1, b2);
    lemma_kept_solve(d1, d2, key, refusal, b1, b2);
}

proof fn lemma_shooting_angle_degrees(
    d1: Dict,
    d2: Dict,
    refusal: Seq<char>,
    b1: BallisticInputs,
    b2: BallisticInputs,
    s1: BallisticInputs,
    s2: BallisticInputs,
    v: Double,
)
    requires
        read(d1, refusal, b1),
        read(d2, refusal, b2),
        converted(b1, s1),
        converted(b2, s2),
        agree_but(d1, d2, Some("shooting_angle_degrees"@)),
        b2.shooting_angle == radians(v),
    ensures
        number_set(s2, s1, NumberProperty::ShootingAngleDegrees, v),
{
    let key = "shooting_angle_degrees"@;
    reveal(converted);
    lemma_marks();
    lemma_kept_identity(d1, d2, key, refusal, b1, b2);
    lemma_kept_shot(d1, d2, key, refusal, b1, b2);
    lemma_kept_bullet(d1, d2, key, refusal, b1, b2);
    lemma_kept_solve(d1, d2, key, refusal, b1, b2);
}

proof fn lemma_twist_rate_inches(
    d1: Dict,
    d2: Dict,
    refusal: Seq<char>,
    b1: BallisticInputs,
    b2: BallisticInputs,
    s1: BallisticInputs,
    s2: BallisticInputs,
    v: Double,
)
    requires
        read(d1, refusal, b1),
        read(d2, refusal, b2),
        converted(b1, s1),
        converted(b2, s2),
        agree_but(d1, d2, Some("twist_rate_inches"@)),
        b2.twist_rate == v,
    ensures
        number_set(s2, s1, NumberProperty::TwistRateInches, v),
{
    let key = "twist_rate_inches"@;
    reveal(converted);
    lemma_marks();
    lemma_kept_identity(d1, d2, key, refusal, b1, b2);
    lemma_kept_shot(d1, d2, key, refusal, b1, b2);
    lemma_kept_bullet(d1, d2, key, refusal, b1, b2);
    lemma_kept_solve(d1, d2, key, refusal, b1, b2);
}

proof fn lemma_cant_angle_degrees(
    d1: Dict,
    d2: Dict,
    refusal: Seq<char>,
    b1: BallisticInputs,
    b2: BallisticInputs,
    s1: BallisticInputs,
    s2: BallisticInputs,
    v: Double,
)
    requires
        read(d1, refusal, b1),
        read(d2, refusal, b2),
        converted(b1, s1),
        converted(b2, s2),
        agree_but(d1, d2, Some("cant_angle_degrees"@)),
        b2.cant_angle == v,
    ensures
        number_set(s2, s1, NumberProperty::CantAngleDegrees, v),
{
    let key = "cant_angle_degrees"@;
    reveal(converted);
    lemma_marks();
    lemma_kept_identity(d1, d2, key, refusal, b1, b2);
    lemma_kept_shot(d1, d2, key, refusal, b1, b2);
    lemma_kept_bullet(d1, d2, key, refusal, b1, b2);
    lemma_kept_solve(d1, d2, key, refusal, b1, b2);
}

proof fn lemma_sample_interval_m(
    d1: Dict,
    d2: Dict,
    refusal: Seq<char>,
    b1: BallisticInputs,
    b2: BallisticInputs,
    s1: BallisticInputs,
    s2: BallisticInputs,
    v: Double,
)
    requires
        read(d1, refusal, b1),
        read(d2, refusal, b2),
        converted(b1, s1),
        converted(b2, s2),
        agree_but(d1, d2, Some("sample_interval_m"@)),
        b2.sample_interval == v,
    ensures
        number_set(s2, s1, NumberProperty::SampleIntervalM, v),
{
    let key = "sample_interval_m"@;
    reveal(converted);
    lemma_marks();
    lemma_kept_identity(d1, d2, key, refusal, b1, b2);
    lemma_kept_shot(d1, d2, key, refusal, b1, b2);
    lemma_kept_bullet(d1, d2, key, refusal, b1, b2);
    lemma_kept_solve(d1, d2, key, refusal, b1, b2);
}

proof fn lemma_muzzle_height_inches(
    d1: Dict,
    d2: Dict,
    refusal: Seq<char>,
    b1: BallisticInputs,
    b2: BallisticInputs,
    s1: BallisticInputs,
    s2: BallisticInputs,
    v: Double,
)
    requires
        read(d1, refusal, b1),
        read(d2, refusal, b2),
        converted(b1, s1),
        converted(b2, s2),
        agree_but(d1, d2, Some("muzzle_height_inches"@)),
        b2.muzzle_height == v,
    ensures
        number_set(s2, s1, NumberProperty::MuzzleHeightInches, v),
{
    let key = "muzzle_height_inches"@;
    reveal(converted);
    lemma_marks();
    lemma_kept_identity(d1, d2, key, refusal, b1, b2);
    lemma_kept_shot(d1, d2, key, refusal, b1, b2);
    lemma_kept_bullet(d1, d2, key, refusal, b1, b2);
    lemma_kept_solve(d1, d2, key, refusal, b1, b2);
}

proof fn lemma_target_height_inches(
    d1: Dict,
    d2: Dict,
    refusal: Seq<char>,
    b1: BallisticInputs,
    b2: BallisticInputs,
    s1: BallisticInputs,
    s2: BallisticInputs,
    v: Double,
)
    requires
        read(d1, refusal, b1),
        read(d2, refusal, b2),
        converted(b1, s1),
        converted(b2, s2),
        agree_but(d1, d2, Some("target_height_inches"@)),
        b2.target_height == v,
    ensures
        number_set(s2, s1, NumberProperty::TargetHeightInches, v),
{
    let key = "target_height_inches"@;
    reveal(converted);
    lemma_marks();
    lemma_kept_identity(d1, d2, key, refusal, b1, b2);
    lemma_kept_shot(d1, d2, key, refusal, b1, b2);
    lemma_kept_bullet(d1, d2, key, refusal, b1, b2);
    lemma_kept_solve(d1, d2, key, refusal, b1, b2);
}

proof fn lemma_is_right_twist(
    d1: Dict,
    d2: Dict,
    refusal: Seq<char>,
    b1: BallisticInputs,
    b2: BallisticInputs,
    s1: BallisticInputs,
    s2: BallisticInputs,
    v: bool,
)
    requires
        read(d1, refusal, b1),
        read(d2, refusal, b2),
        converted(b1, s1),
        converted(b2, s2),
        agree_but(d1, d2, Some("is_right_twist"@)),
        b2.is_twist_right == v,
    ensures
        flag_set(s2, s1, FlagProperty::IsRightTwist, v),
{
    let key = "is_right_twist"@;
    reveal(converted);
    lemma_marks();
    lemma_kept_identity(d1, d2, key, refusal, b1, b2);
    lemma_kept_shot(d1, d2, key, refusal, b1, b2);
    lemma_kept_bullet(d1, d2, key, refusal, b1, b2);
    lemma_kept_solve(d1, d2, key, refusal, b1, b2);
}

proof fn lemma_enable_trajectory_sampling(
    d1: Dict,
    d2: Dict,
    refusal: Seq<char>,
    b1: BallisticInputs,
    b2: BallisticInputs,
    s1: BallisticInputs,
    s2: BallisticInputs,
    v: bool,
)
    requires
        read(d1, refusal, b1),
        read(d2, refusal, b2),
        converted(b1, s1),
        converted(b2, s2),
        agree_but(d1, d2, Some("enable_trajectory_sampling"@)),
        b2.enable_trajectory_sampling == v,
    ensures
        flag_set(s2, s1, FlagProperty::EnableTrajectorySampling, v),
{
    let key = "enable_trajectory_sampling"@;
    reveal(converted);
    lemma_marks();
    lemma_kept_identity(d1, d2, key, refusal, b1, b2);
    lemma_kept_shot(d1, d2, key, refusal, b1, b2);
    lemma_kept_bullet(d1, d2, key, refusal, b1, b2);
    lemma_kept_solve(d1, d2, key, refusal, b1, b2);
}

proof fn lemma_use_rk4(
    d1: Dict,
    d2: Dict,
    refusal: Seq<char>,
    b1: BallisticInputs,
    b2: BallisticInputs,
    s1: BallisticInputs,
    s2: BallisticInputs,
    v: bool,
)
    requires
        read(d1, refusal, b1),
        read(d2, refusal, b2),
        converted(b1, s1),
        converted(b2, s2),
        agree_but(d1, d2, Some("use_rk4"@)),
        b2.use_rk4 == v,
    ensures
        flag_set(s2, s1, FlagProperty::UseRk4, v),
{
    let key = "use_rk4"@;
    reveal(converted);
    lemma_marks();
    lemma_kept_identity(d1, d2, key, refusal, b1, b2);
    lemma_kept_shot(d1, d2, key, refusal, b1, b2);
    lemma_kept_bullet(d1, d2, key, refusal, b1, b2);
    lemma_kept_solve(d1, d2, key, refusal, b1, b2);
}

proof fn lemma_use_adaptive_rk45(
    d1: Dict,
    d2: Dict,
    refusal: Seq<char>,
    b1: BallisticInputs,
    b2: BallisticInputs,
    s1: BallisticInputs,
    s2: BallisticInputs,
    v: bool,
)
    requires
        read(d1, refusal, b1),
        read(d2, refusal, b2),
        converted(b1, s1),
        converted(b2, s2),
        agree_but(d1, d2, Some("use_adaptive_rk45"@)),
        b2.use_adaptive_rk45 == v,
    ensures
        flag_set(s2, s1, FlagProperty::UseAdaptiveRk45, v),
{
    let key = "use_adaptive_rk45"@;
    reveal(converted);
    lemma_marks();
    lemma_kept_identity(d1, d2, key, refusal, b1, b2);
    lemma_kept_shot(d1, d2, key, refusal, b1, b2);
    lemma_kept_bullet(d1, d2, key, refusal, b1, b2);
    lemma_kept_solve(d1, d2, key, refusal, b1, b2);
}

proof fn lemma_number(
    d1: Dict,
    d2: Dict,
    refusal: Seq<char>,
    b1: BallisticInputs,
    b2: BallisticInputs,
    s1: BallisticInputs,
    s2: BallisticInputs,
    a: BallisticInputs,
    p: NumberProperty,
    v: Double,
)
    requires
        read(d1, refusal, b1),
        read(d2, refusal, b2),
        converted(b1, s1),
        converted(b2, s2),
        agree_but(d1, d2, Some(property_key(p))),
        first_key(p) matches Some(first) ==> d2.given(first) is None,
        mirror_is_free(d1, p),
        mirror_is_free(d2, p),
        number_for(d2, property_key(p)) == Some(v),
        number_assigned(a, s1, p, v),
    ensures
        alike(s2, a),
{
    match p {
        NumberProperty::Bc => {
            lemma_own_bc(d2, refusal, b2, v);
            lemma_bc(d1, d2, refusal, b1, b2, s1, s2, v);
        },
        NumberProperty::BulletWeightGrains => {
            lemma_own_bullet_weight_grains(d2, refusal, b2, v);
            lemma_no_weight_grains(d1, refusal, b1);
            lemma_no_weight_grains(d2, refusal, b2);
            lemma_bullet_weight_grains(d1, d2, refusal, b1, b2, s1, s2, v);
        },
        NumberProperty::MuzzleVelocityFps => {
            lemma_own_muzzle_velocity_fps(d2, refusal, b2, v);
            lemma_muzzle_velocity_fps(d1, d2, refusal, b1, b2, s1, s2, v);
        },
        NumberProperty::BulletDiameterInches => {
            lemma_own_bullet_diameter_inches(d2, refusal, b2, v);
            lemma_no_caliber_inches(d1, refusal, b1);
            lemma_no_caliber_inches(d2, refusal, b2);
            lemma_bullet_diameter_inches(d1, d2, refusal, b1, b2, s1, s2, v);
        },
        NumberProperty::BulletLengthInches => {
            lemma_own_bullet_length_inches(d2, refusal, b2, v);
            lemma_bullet_length_inches(d1, d2, refusal, b1, b2, s1, s2, v);
        },
        NumberProperty::SightHeightInches => {
            lemma_own_sight_height_inches(d2, refusal, b2, v);
            lemma_sight_height_inches(d1, d2, refusal, b1, b2, s1, s2, v);
        },
        NumberProperty::ZeroDistanceYards => {
            lemma_own_zero_distance_yards(d2, refusal, b2, v);
            lemma_zero_distance_yards(d1, d2, refusal, b1, b2, s1, s2, v);
        },
        NumberProperty::ShootingAngleDegrees => {
            lemma_own_shooting_angle_degrees(d2, refusal, b2, v);
            lemma_shooting_angle_degrees(d1, d2, refusal, b1, b2, s1, s2, v);
        },
        NumberProperty::TwistRateInches => {
            lemma_own_twist_rate_inches(d2, refusal, b2, v);
            lemma_twist_rate_inches(d1, d2, refusal, b1, b2, s1, s2, v);
        },
        NumberProperty::CantAngleDegrees => {
            lemma_own_cant_angle_degrees(d2, refusal, b2, v);
            lemma_cant_angle_degrees(d1, d2, refusal, b1, b2, s1, s2, v);
        },
        NumberProperty::SampleIntervalM => {
            lemma_own_sample_interval_m(d2, refusal, b2, v);
            lemma_sample_interval_m(d1, d2, refusal, b1, b2, s1, s2, v);
        },
        NumberProperty::MuzzleHeightInches => {
            lemma_own_muzzle_height_inches(d2, refusal, b2, v);
            lemma_muzzle_height_inches(d1, d2, refusal, b1, b2, s1, s2, v);
        },
        NumberProperty::TargetHeightInches => {
            lemma_own_target_height_inches(d2, refusal, b2, v);
            lemma_target_height_inches(d1, d2, refusal, b1, b2, s1, s2, v);
        },
    }
    lemma_assigned_number(a, s1, p, v);
    lemma_same_number(s2, a, s1, p, v);
}

proof fn lemma_flag(
    d1: Dict,
    d2: Dict,
    refusal: Seq<char>,
    b1: BallisticInputs,
    b2: BallisticInputs,
    s1: BallisticInputs,
    s2: BallisticInputs,
    a: BallisticInputs,
    p: FlagProperty,
    v: bool,
)
    requires
        read(d1, refusal, b1),
        read(d2, refusal, b2),
        converted(b1, s1),
        converted(b2, s2),
        agree_but(d1, d2, Some(flag_key(p))),
        first_flag_key(p) matches Some(first) ==> d2.given(first) is None,
        d2.given(flag_key(p)) matches Some(value) && value.flag == Ok::<bool, Exception>(v),
        flag_assigned(a, s1, p, v),
    ensures
        alike(s2, a),
{
    match p {
        FlagProperty::IsRightTwist => {
            lemma_own_is_right_twist(d2, refusal, b2, v);
            lemma_is_right_twist(d1, d2, refusal, b1, b2, s1, s2, v);
        },
        FlagProperty::EnableTrajectorySampling => {
            lemma_own_enable_trajectory_sampling(d2, refusal, b2, v);
            lemma_enable_trajectory_sampling(d1, d2, refusal, b1, b2, s1, s2, v);
        },
        FlagProperty::UseRk4 => {
            lemma_own_use_rk4(d2, refusal, b2, v);
            lemma_use_rk4(d1, d2, refusal, b1, b2, s1, s2, v);
        },
        FlagProperty::UseAdaptiveRk45 => {
            lemma_own_use_adaptive_rk45(d2, refusal, b2, v);
            lemma_use_adaptive_rk45(d1, d2, refusal, b1, b2, s1, s2, v);
        },
    }
    lemma_assigned_flag(a, s1, p, v);
    lemma_same_flag(s2, a, s1, p, v);
}

proof fn lemma_numbers_untouched(d1: Dict, d2: Dict, p: NumberProperty)
    requires
        agree_but(d1, d2, Some(property_key(p))),
        first_key(p) matches Some(first) ==> d1.given(first) is None,
        mirror_is_free(d1, p),
    ensures
        first_key(p) matches Some(first) ==> d2.given(first) is None,
        mirror_is_free(d2, p),
{
    lemma_marks();
    if first_key(p) is Some {
        lemma_given(d1, d2, Some(property_key(p)), first_key(p)->0);
    }
    lemma_given(d1, d2, Some(property_key(p)), "weight_grains"@);
    lemma_given(d1, d2, Some(property_key(p)), "caliber_inches"@);
}

/// A dictionary that gives a number under a property's name makes, in every
/// field, what the dictionary without it and then the property set make.
pub proof fn law_dictionary_and_number_properties_agree(
    d1: Dict,
    d2: Dict,
    refusal: Seq<char>,
    b1: BallisticInputs,
    b2: BallisticInputs,
    a: BallisticInputs,
    p: NumberProperty,
    v: Double,
)
    requires
        reads_as(d1, refusal, b1),
        agree_but(d1, d2, Some(property_key(p))),
        first_key(p) matches Some(first) ==> d1.given(first) is None,
        mirror_is_free(d1, p),
        number_for(d2, property_key(p)) == Some(v),
        number_assigned(a, si(b1), p, v),
    ensures
        parse_fault(d2, refusal) is None,
        reads_as(d2, refusal, b2) ==> alike(si(b2), a),
{
    lemma_no_fault(d1, refusal, b1);
    lemma_number_fits(d2, p);
    lemma_readable(d1, d2, property_key(p), refusal);
    lemma_read(d1, refusal, b1);
    lemma_read(d2, refusal, b2);
    if read(d2, refusal, b2) {
        lemma_numbers_untouched(d1, d2, p);
        lemma_converted(b1);
        lemma_converted(b2);
        lemma_number(d1, d2, refusal, b1, b2, si(b1), si(b2), a, p, v);
    }
}

/// A dictionary that gives a truth value under a property's name makes, in every
/// field, what the dictionary without it and then the property set make.
pub proof fn law_dictionary_and_flag_properties_agree(
    d1: Dict,
    d2: Dict,
    refusal: Seq<char>,
    b1: BallisticInputs,
    b2: BallisticInputs,
    a: BallisticInputs,
    p: FlagProperty,
    v: bool,
)
    requires
        reads_as(d1, refusal, b1),
        agree_but(d1, d2, Some(flag_key(p))),
        first_flag_key(p) matches Some(first) ==> d1.given(first) is None,
        d2.given(flag_key(p)) matches Some(value) && value.flag == Ok::<bool, Exception>(v),
        flag_assigned(a, si(b1), p, v),
    ensures
        parse_fault(d2, refusal) is None,
        reads_as(d2, refusal, b2) ==> alike(si(b2), a),
{
    lemma_no_fault(d1, refusal, b1);
    lemma_flag_fits(d2, p);
    lemma_readable(d1, d2, flag_key(p), refusal);
    lemma_read(d1, refusal, b1);
    lemma_read(d2, refusal, b2);
    if read(d2, refusal, b2) {
        assert(first_flag_key(p) matches Some(first) ==> d2.given(first) is None) by {
            lemma_marks();
            if first_flag_key(p) is Some {
                lemma_given(d1, d2, Some(flag_key(p)), first_flag_key(p)->0);
            }
        }
        lemma_converted(b1);
        lemma_converted(b2);
        lemma_flag(d1, d2, refusal, b1, b2, si(b1), si(b2), a, p, v);
    }
}

proof fn lemma_drag_model(
    d1: Dict,
    d2: Dict,
    refusal: Seq<char>,
    b1: BallisticInputs,
    b2: BallisticInputs,
    s1: BallisticInputs,
    s2: BallisticInputs,
    model: DragModel,
)
    requires
        read(d1, refusal, b1),
        read(d2, refusal, b2),
        converted(b1, s1),
        converted(b2, s2),
        agree_but(d1, d2, Some("drag_model"@)),
        b2.bc_type == model,
        optional_view(b2.bc_type_str) == Some(drag_model_name(model)),
    ensures
        drag_model_set(s2, s1, model),
{
    let key = "drag_model"@;
    reveal(converted);
    lemma_marks();
    lemma_kept_identity(d1, d2, key, refusal, b1, b2);
    lemma_kept_shot(d1, d2, key, refusal, b1, b2);
    lemma_kept_bullet(d1, d2, key, refusal, b1, b2);
    lemma_kept_solve(d1, d2, key, refusal, b1, b2);
}

proof fn lemma_reads_bc_type(d: Dict, refusal: Seq<char>, b: BallisticInputs)
    requires
        read(d, refusal, b),
    ensures
        b.bc_type_str is Some,
        bc_type(d) == Ok::<(DragModel, Seq<char>), Fault>((b.bc_type, b.bc_type_str->Some_0@)),
{
    reveal(read);
}

proof fn lemma_own_drag_model(
    d: Dict,
    refusal: Seq<char>,
    b: BallisticInputs,
    model: DragModel,
)
    requires
        read(d, refusal, b),
        d.given("bc_type"@) is None,
        d.given("drag_model"@) matches Some(value) && value.drag_model == Some(model),
    ensures
        b.bc_type == model,
        optional_view(b.bc_type_str) == Some(drag_model_name(model)),
{
    lemma_reads_bc_type(d, refusal, b);
}

/// A dictionary that gives a drag model object makes, in every field, what the
/// dictionary without it and then the drag model set make.
pub proof fn law_dictionary_and_drag_model_agree(
    d1: Dict,
    d2: Dict,
    refusal: Seq<char>,
    b1: BallisticInputs,
    b2: BallisticInputs,
    a: BallisticInputs,
    model: DragModel,
)
    requires
        reads_as(d1, refusal, b1),
        agree_but(d1, d2, Some("drag_model"@)),
        d1.given("bc_type"@) is None,
        d2.given("drag_model"@) matches Some(value) && value.drag_model == Some(model),
        drag_model_assigned(a, si(b1), model),
    ensures
        parse_fault(d2, refusal) is None,
        reads_as(d2, refusal, b2) ==> alike(si(b2), a),
{
    lemma_no_fault(d1, refusal, b1);
    lemma_drag_model_fits(d2);
    lemma_readable(d1, d2, "drag_model"@, refusal);
    lemma_read(d1, refusal, b1);
    lemma_read(d2, refusal, b2);
    if read(d2, refusal, b2) {
        assert(d2.given("bc_type"@) is None) by {
            lemma_marks();
            lemma_given(d1, d2, Some("drag_model"@), "bc_type"@);
        }
        lemma_own_drag_model(d2, refusal, b2, model);
        lemma_converted(b1);
        lemma_converted(b2);
        lemma_drag_model(d1, d2, refusal, b1, b2, si(b1), si(b2), model);
        lemma_assigned_drag_model(a, si(b1), model);
        lemma_same_drag_model(si(b2), a, si(b1), model);
    }
}

} // verus!
