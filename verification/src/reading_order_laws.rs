//! The order in which a dictionary is read: what cannot be read first is complained of.

use vstd::prelude::*;
use crate::dict::Dict;
use crate::fields::{bc_segments, bc_segments_data, bc_type, custom_drag_table, shooting_angle};
use crate::inputs::{bullet_fault, identity_fault, parse_fault, shot_fault, solve_fault};
use crate::keys::{altitude, bc_value, bullet_cluster, bullet_diameter, bullet_id, bullet_length};
use crate::keys::{bullet_mass, bullet_model, caliber_inches, cant_angle, enable_advanced_effects};
use crate::keys::{enable_aerodynamic_jump, enable_coriolis, enable_trajectory_sampling};
use crate::keys::{enable_wind_shear, ground_threshold, humidity, is_twist_right, latitude};
use crate::keys::{manufacturer, muzzle_angle, muzzle_height, muzzle_velocity, powder_temp};
use crate::keys::{powder_temp_sensitivity, pressure, sample_interval, shot_direction};
use crate::keys::{sight_height, target_distance, target_height, temperature};
use crate::keys::{tipoff_decay_distance, tipoff_yaw, twist_rate, use_adaptive_rk45};
use crate::keys::{use_bc_segments, use_cluster_bc, use_enhanced_spin_drift, use_form_factor};
use crate::keys::{use_powder_sensitivity, use_rk4, weight_grains, wind_angle, wind_shear_model};
use crate::keys::wind_speed;

verus! {

/// The identity of the bullet is complained of before the shot, the shot before the other
/// effects, and these before the solver.
pub proof fn law_groups_are_read_in_order(d: Dict, refusal: Seq<char>)
    ensures
        identity_fault(d, refusal) is Some ==> parse_fault(d, refusal) == identity_fault(
            d,
            refusal,
        ),
        identity_fault(d, refusal) is None && shot_fault(d) is Some ==> parse_fault(d, refusal)
            == shot_fault(d),
        identity_fault(d, refusal) is None && shot_fault(d) is None && bullet_fault(d) is Some
            ==> parse_fault(d, refusal) == bullet_fault(d),
        identity_fault(d, refusal) is None && shot_fault(d) is None && bullet_fault(d) is None
            ==> parse_fault(d, refusal) == solve_fault(d),
{
}

/// What says what the bullet is is complained of in the order of this list, and only if it
/// cannot be read.
pub proof fn law_identity_is_read_in_order(d: Dict, refusal: Seq<char>)
    ensures
        ({
            let k0 = bc_value(d) is Ok;
            let k1 = k0 && bc_type(d) is Ok;
            let k2 = k1 && bullet_mass(d) is Ok;
            let k3 = k2 && altitude(d) is Ok;
            let k4 = k3 && latitude(d) is Ok;
            let k5 = k4 && bullet_cluster(d) is Ok;
            let k6 = k5 && enable_advanced_effects(d) is Ok;
            let k7 = k6 && bc_segments(d) is Ok;
            let k8 = k7 && bc_segments_data(d) is Ok;
            let k9 = k8 && custom_drag_table(d, refusal) is Ok;
            let k10 = k9 && is_twist_right(d) is Ok;
            let k11 = k10 && shooting_angle(d) is Ok;
            let fault = identity_fault(d, refusal);
            &&& (bc_value(d) matches Err(f) ==> fault == Some(f))
            &&& k0 ==> (bc_type(d) matches Err(f) ==> fault == Some(f))
            &&& k1 ==> (bullet_mass(d) matches Err(f) ==> fault == Some(f))
            &&& k2 ==> (altitude(d) matches Err(f) ==> fault == Some(f))
            &&& k3 ==> (latitude(d) matches Err(f) ==> fault == Some(f))
            &&& k4 ==> (bullet_cluster(d) matches Err(f) ==> fault == Some(f))
            &&& k5 ==> (enable_advanced_effects(d) matches Err(f) ==> fault == Some(f))
            &&& k6 ==> (bc_segments(d) matches Err(f) ==> fault == Some(f))
            &&& k7 ==> (bc_segments_data(d) matches Err(f) ==> fault == Some(f))
            &&& k8 ==> (custom_drag_table(d, refusal) matches Err(f) ==> fault == Some(f))
            &&& k9 ==> (is_twist_right(d) matches Err(f) ==> fault == Some(f))
            &&& k10 ==> (shooting_angle(d) matches Err(f) ==> fault == Some(f))
            &&& k11 ==> fault is None
        }),
{
}

/// What says how the shot goes is complained of in the order of this list.
pub proof fn law_shot_is_read_in_order(d: Dict)
    ensures
        ({
            let k0 = muzzle_velocity(d) is Ok;
            let k1 = k0 && twist_rate(d) is Ok;
            let k2 = k1 && bullet_length(d) is Ok;
            let k3 = k2 && bullet_diameter(d) is Ok;
            let k4 = k3 && target_distance(d) is Ok;
            let k5 = k4 && muzzle_angle(d) is Ok;
            let k6 = k5 && wind_speed(d) is Ok;
            let k7 = k6 && wind_angle(d) is Ok;
            let k8 = k7 && temperature(d) is Ok;
            let k9 = k8 && pressure(d) is Ok;
            let k10 = k9 && humidity(d) is Ok;
            let k11 = k10 && enable_coriolis(d) is Ok;
            let k12 = k11 && shot_direction(d) is Ok;
            let fault = shot_fault(d);
            &&& (muzzle_velocity(d) matches Err(f) ==> fault == Some(f))
            &&& k0 ==> (twist_rate(d) matches Err(f) ==> fault == Some(f))
            &&& k1 ==> (bullet_length(d) matches Err(f) ==> fault == Some(f))
            &&& k2 ==> (bullet_diameter(d) matches Err(f) ==> fault == Some(f))
            &&& k3 ==> (target_distance(d) matches Err(f) ==> fault == Some(f))
            &&& k4 ==> (muzzle_angle(d) matches Err(f) ==> fault == Some(f))
            &&& k5 ==> (wind_speed(d) matches Err(f) ==> fault == Some(f))
            &&& k6 ==> (wind_angle(d) matches Err(f) ==> fault == Some(f))
            &&& k7 ==> (temperature(d) matches Err(f) ==> fault == Some(f))
            &&& k8 ==> (pressure(d) matches Err(f) ==> fault == Some(f))
            &&& k9 ==> (humidity(d) matches Err(f) ==> fault == Some(f))
            &&& k10 ==> (enable_coriolis(d) matches Err(f) ==> fault == Some(f))
            &&& k11 ==> (shot_direction(d) matches Err(f) ==> fault == Some(f))
            &&& k12 ==> fault is None
        }),
{
}

/// The other effects are complained of in the order of this list.
pub proof fn law_bullet_is_read_in_order(d: Dict)
    ensures
        ({
            let k0 = use_powder_sensitivity(d) is Ok;
            let k1 = k0 && powder_temp_sensitivity(d) is Ok;
            let k2 = k1 && powder_temp(d) is Ok;
            let k3 = k2 && tipoff_yaw(d) is Ok;
            let k4 = k3 && tipoff_decay_distance(d) is Ok;
            let k5 = k4 && ground_threshold(d) is Ok;
            let k6 = k5 && caliber_inches(d) is Ok;
            let k7 = k6 && weight_grains(d) is Ok;
            let k8 = k7 && use_bc_segments(d) is Ok;
            let k9 = k8 && bullet_id(d) is Ok;
            let k10 = k9 && use_enhanced_spin_drift(d) is Ok;
            let k11 = k10 && use_form_factor(d) is Ok;
            let k12 = k11 && manufacturer(d) is Ok;
            let k13 = k12 && bullet_model(d) is Ok;
            let fault = bullet_fault(d);
            &&& (use_powder_sensitivity(d) matches Err(f) ==> fault == Some(f))
            &&& k0 ==> (powder_temp_sensitivity(d) matches Err(f) ==> fault == Some(f))
            &&& k1 ==> (powder_temp(d) matches Err(f) ==> fault == Some(f))
            &&& k2 ==> (tipoff_yaw(d) matches Err(f) ==> fault == Some(f))
            &&& k3 ==> (tipoff_decay_distance(d) matches Err(f) ==> fault == Some(f))
            &&& k4 ==> (ground_threshold(d) matches Err(f) ==> fault == Some(f))
            &&& k5 ==> (caliber_inches(d) matches Err(f) ==> fault == Some(f))
            &&& k6 ==> (weight_grains(d) matches Err(f) ==> fault == Some(f))
            &&& k7 ==> (use_bc_segments(d) matches Err(f) ==> fault == Some(f))
            &&& k8 ==> (bullet_id(d) matches Err(f) ==> fault == Some(f))
            &&& k9 ==> (use_enhanced_spin_drift(d) matches Err(f) ==> fault == Some(f))
            &&& k10 ==> (use_form_factor(d) matches Err(f) ==> fault == Some(f))
            &&& k11 ==> (manufacturer(d) matches Err(f) ==> fault == Some(f))
            &&& k12 ==> (bullet_model(d) matches Err(f) ==> fault == Some(f))
            &&& k13 ==> fault is None
        }),
{
}

/// The settings of the solver are complained of in the order of this list.
pub proof fn law_solve_is_read_in_order(d: Dict)
    ensures
        ({
            let k0 = enable_wind_shear(d) is Ok;
            let k1 = k0 && wind_shear_model(d) is Ok;
            let k2 = k1 && use_cluster_bc(d) is Ok;
            let k3 = k2 && enable_aerodynamic_jump(d) is Ok;
            let k4 = k3 && use_rk4(d) is Ok;
            let k5 = k4 && use_adaptive_rk45(d) is Ok;
            let k6 = k5 && enable_trajectory_sampling(d) is Ok;
            let k7 = k6 && sample_interval(d) is Ok;
            let k8 = k7 && sight_height(d) is Ok;
            let k9 = k8 && muzzle_height(d) is Ok;
            let k10 = k9 && target_height(d) is Ok;
            let k11 = k10 && cant_angle(d) is Ok;
            let fault = solve_fault(d);
            &&& (enable_wind_shear(d) matches Err(f) ==> fault == Some(f))
            &&& k0 ==> (wind_shear_model(d) matches Err(f) ==> fault == Some(f))
            &&& k1 ==> (use_cluster_bc(d) matches Err(f) ==> fault == Some(f))
            &&& k2 ==> (enable_aerodynamic_jump(d) matches Err(f) ==> fault == Some(f))
            &&& k3 ==> (use_rk4(d) matches Err(f) ==> fault == Some(f))
            &&& k4 ==> (use_adaptive_rk45(d) matches Err(f) ==> fault == Some(f))
            &&& k5 ==> (enable_trajectory_sampling(d) matches Err(f) ==> fault == Some(f))
            &&& k6 ==> (sample_interval(d) matches Err(f) ==> fault == Some(f))
            &&& k7 ==> (sight_height(d) matches Err(f) ==> fault == Some(f))
            &&& k8 ==> (muzzle_height(d) matches Err(f) ==> fault == Some(f))
            &&& k9 ==> (target_height(d) matches Err(f) ==> fault == Some(f))
            &&& k10 ==> (cant_angle(d) matches Err(f) ==> fault == Some(f))
            &&& k11 ==> fault is None
        }),
{
}

} // verus!
