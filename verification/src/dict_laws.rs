//! Laws of the dictionary reader.

use vstd::prelude::*;
use crate::conditions::{PyAtmosphericConditions, PyWindConditions};
use crate::dict::{find, Dict, Value};
use crate::double::Double;
use crate::drag::{drag_model_name, model_in_bc_type, DragModel};
use crate::exception::{outcome, Exception, Fault};
use crate::fields::{bc_segments, bc_segments_data, bc_type, custom_drag_table, shooting_angle};
use crate::fields::{sound_table, unchecked_table};
use crate::inputs::{bullet_fault, identity_fault, shot_fault, solve_fault};
use crate::inputs::{parse_fault, reads_as, si, zero, BallisticInputs};
use crate::keys::{
    DEFAULT_DIAMETER_INCHES,
    DEFAULT_LENGTH_INCHES,
    DEFAULT_MASS_GRAINS,
    DEFAULT_PRESSURE_HPA,
    DEFAULT_SIGHT_HEIGHT_INCHES,
    DEFAULT_TEMPERATURE_C,
    DEFAULT_TWIST_INCHES,
    DEFAULT_VELOCITY_FPS,
    altitude,
    bc_value,
    bullet_cluster,
    bullet_diameter,
    bullet_id,
    bullet_length,
    bullet_mass,
    bullet_model,
    caliber_inches,
    cant_angle,
    enable_advanced_effects,
    enable_aerodynamic_jump,
    enable_coriolis,
    enable_trajectory_sampling,
    enable_wind_shear,
    ground_threshold,
    humidity,
    is_twist_right,
    latitude,
    manufacturer,
    muzzle_angle,
    muzzle_height,
    muzzle_velocity,
    powder_temp,
    powder_temp_sensitivity,
    pressure,
    sample_interval,
    shot_direction,
    sight_height,
    target_distance,
    target_height,
    temperature,
    tipoff_decay_distance,
    tipoff_yaw,
    twist_rate,
    use_adaptive_rk45,
    use_bc_segments,
    use_cluster_bc,
    use_enhanced_spin_drift,
    use_form_factor,
    use_powder_sensitivity,
    use_rk4,
    weight_grains,
    wind_angle,
    wind_shear_model,
    wind_speed,
};
use crate::known_keys::{known, lemma_marks};
use crate::montecarlo::in_atmosphere;
use crate::py_inputs::constructed;
use crate::solver::auto_zero_call;
use crate::units::{constant, radians, HALF, HUNDRED, ZERO};

verus! {

/// The first of two keys wins, the second is honoured where the first is not
/// given, and the default holds where neither is.
pub proof fn law_first_key_wins(d: Dict, primary: Seq<char>, legacy: Seq<char>, default: Double)
    ensures
        d.given(primary) matches Some(v) ==> d.number(primary, Some(legacy), default) == outcome(
            v.number,
        ),
        d.given(primary) is None ==> (d.given(legacy) matches Some(v) ==> d.number(
            primary,
            Some(legacy),
            default,
        ) == outcome(v.number)),
        d.given(primary) is None && d.given(legacy) is None ==> d.number(
            primary,
            Some(legacy),
            default,
        ) == Ok::<Double, Fault>(default),
{
}

/// The first of two keys wins, and the second is honoured where the first is not
/// given, for a truth value, for the drag model and for the shooting angle too.
pub proof fn law_first_key_wins_for_other_fields(
    d: Dict,
    primary: Seq<char>,
    legacy: Seq<char>,
    default: bool,
)
    ensures
        d.given(primary) matches Some(v) ==> d.flag(primary, Some(legacy), default) == outcome(
            v.flag,
        ),
        d.given(primary) is None ==> (d.given(legacy) matches Some(v) ==> d.flag(
            primary,
            Some(legacy),
            default,
        ) == outcome(v.flag)),
        d.given(primary) is None && d.given(legacy) is None ==> d.flag(
            primary,
            Some(legacy),
            default,
        ) == Ok::<bool, Fault>(default),
        d.given("bc_type"@) matches Some(v) ==> (v.text matches Ok(s) ==> (model_in_bc_type(
            s@,
        ) matches Some(m) ==> bc_type(d) == Ok::<(DragModel, Seq<char>), Fault>((m, s@)))),
        d.given("bc_type"@) is None ==> (d.given("drag_model"@) matches Some(v) ==> (
        v.drag_model matches Some(m) ==> bc_type(d) == Ok::<(DragModel, Seq<char>), Fault>(
            (m, drag_model_name(m)),
        ))),
        d.given("bc_type"@) is None && d.given("drag_model"@) is None ==> bc_type(d) == Ok::<
            (DragModel, Seq<char>),
            Fault,
        >((DragModel::G7, "G7"@)),
        d.given("shooting_angle"@) matches Some(v) ==> shooting_angle(d) == outcome(v.number),
        d.given("shooting_angle"@) is None ==> (number_for(
            d,
            "shooting_angle_degrees"@,
        ) matches Some(v) ==> shooting_angle(d) == Ok::<Double, Fault>(radians(v))),
        d.given("shooting_angle"@) is None && d.given("shooting_angle_degrees"@) is None
            ==> shooting_angle(d) == Ok::<Double, Fault>(constant(ZERO)),
{
}

/// The two dictionaries give the same for every known key, but perhaps for one.
pub open spec fn agree_but(d1: Dict, d2: Dict, skip: Option<Seq<char>>) -> bool {
    forall|key: Seq<char>|
        known(key) && skip != Some(key) ==> #[trigger] d1.given(key) == d2.given(key)
}

/// The two dictionaries give the same for every known key.
pub open spec fn agree(d1: Dict, d2: Dict) -> bool {
    agree_but(d1, d2, None)
}

pub proof fn lemma_given(d1: Dict, d2: Dict, skip: Option<Seq<char>>, key: Seq<char>)
    requires
        agree_but(d1, d2, skip),
        known(key),
        skip != Some(key),
    ensures
        d1.given(key) == d2.given(key),
{
}

pub proof fn lemma_same_identity(
    d1: Dict,
    d2: Dict,
    skip: Option<Seq<char>>,
    refusal: Seq<char>,
)
    requires
        agree_but(d1, d2, skip),
    ensures
        skip != Some("bc_value"@) && skip != Some("bc"@) ==> bc_value(d1) == bc_value(d2),
        skip != Some("bc_type"@) && skip != Some("drag_model"@) ==> bc_type(d1) == bc_type(d2),
        skip != Some("bullet_mass"@) && skip != Some("bullet_weight_grains"@)
            ==> bullet_mass(d1) == bullet_mass(d2),
        skip != Some("altitude"@) ==> altitude(d1) == altitude(d2),
        skip != Some("latitude"@) ==> latitude(d1) == latitude(d2),
        skip != Some("bullet_cluster"@) ==> bullet_cluster(d1) == bullet_cluster(d2),
        skip != Some("enable_advanced_effects"@)
            ==> enable_advanced_effects(d1) == enable_advanced_effects(d2),
        skip != Some("bc_segments"@) ==> bc_segments(d1) == bc_segments(d2),
        skip != Some("bc_segments_data"@) ==> bc_segments_data(d1) == bc_segments_data(d2),
        skip != Some("custom_drag_table"@) && skip != Some("custom_drag_function"@)
            ==> custom_drag_table(d1, refusal) == custom_drag_table(d2, refusal),
        skip != Some("is_twist_right"@) && skip != Some("is_right_twist"@)
            ==> is_twist_right(d1) == is_twist_right(d2),
        skip != Some("shooting_angle"@) && skip != Some("shooting_angle_degrees"@)
            ==> shooting_angle(d1) == shooting_angle(d2),
{
    if skip != Some("bc_value"@) && skip != Some("bc"@) {
        assert(bc_value(d1) == bc_value(d2)) by {
            lemma_given(d1, d2, skip, "bc_value"@);
            lemma_given(d1, d2, skip, "bc"@);
        }
    }
    if skip != Some("bc_type"@) && skip != Some("drag_model"@) {
        assert(bc_type(d1) == bc_type(d2)) by {
            lemma_given(d1, d2, skip, "bc_type"@);
            lemma_given(d1, d2, skip, "drag_model"@);
        }
    }
    if skip != Some("bullet_mass"@) && skip != Some("bullet_weight_grains"@) {
        assert(bullet_mass(d1) == bullet_mass(d2)) by {
            lemma_given(d1, d2, skip, "bullet_mass"@);
            lemma_given(d1, d2, skip, "bullet_weight_grains"@);
        }
    }
    if skip != Some("altitude"@) {
        assert(altitude(d1) == altitude(d2)) by {
            lemma_given(d1, d2, skip, "altitude"@);
        }
    }
    if skip != Some("latitude"@) {
        assert(latitude(d1) == latitude(d2)) by {
            lemma_given(d1, d2, skip, "latitude"@);
        }
    }
    if skip != Some("bullet_cluster"@) {
        assert(bullet_cluster(d1) == bullet_cluster(d2)) by {
            lemma_given(d1, d2, skip, "bullet_cluster"@);
        }
    }
    if skip != Some("enable_advanced_effects"@) {
        assert(enable_advanced_effects(d1) == enable_advanced_effects(d2)) by {
            lemma_given(d1, d2, skip, "enable_advanced_effects"@);
        }
    }
    if skip != Some("bc_segments"@) {
        assert(bc_segments(d1) == bc_segments(d2)) by {
            lemma_given(d1, d2, skip, "bc_segments"@);
        }
    }
    if skip != Some("bc_segments_data"@) {
        assert(bc_segments_data(d1) == bc_segments_data(d2)) by {
            lemma_given(d1, d2, skip, "bc_segments_data"@);
        }
    }
    if skip != Some("custom_drag_table"@) && skip != Some("custom_drag_function"@) {
        assert(custom_drag_table(d1, refusal) == custom_drag_table(d2, refusal)) by {
            lemma_given(d1, d2, skip, "custom_drag_table"@);
            lemma_given(d1, d2, skip, "custom_drag_function"@);
        }
    }
    if skip != Some("is_twist_right"@) && skip != Some("is_right_twist"@) {
        assert(is_twist_right(d1) == is_twist_right(d2)) by {
            lemma_given(d1, d2, skip, "is_twist_right"@);
            lemma_given(d1, d2, skip, "is_right_twist"@);
        }
    }
    if skip != Some("shooting_angle"@) && skip != Some("shooting_angle_degrees"@) {
        assert(shooting_angle(d1) == shooting_angle(d2)) by {
            lemma_given(d1, d2, skip, "shooting_angle"@);
            lemma_given(d1, d2, skip, "shooting_angle_degrees"@);
        }
    }
}

pub proof fn lemma_same_shot(d1: Dict, d2: Dict, skip: Option<Seq<char>>)
    requires
        agree_but(d1, d2, skip),
    ensures
        skip != Some("muzzle_velocity"@) && skip != Some("muzzle_velocity_fps"@)
            ==> muzzle_velocity(d1) == muzzle_velocity(d2),
        skip != Some("twist_rate"@) && skip != Some("twist_rate_inches"@)
            ==> twist_rate(d1) == twist_rate(d2),
        skip != Some("bullet_length"@) && skip != Some("bullet_length_inches"@)
            ==> bullet_length(d1) == bullet_length(d2),
        skip != Some("bullet_diameter"@) && skip != Some("bullet_diameter_inches"@)
            ==> bullet_diameter(d1) == bullet_diameter(d2),
        skip != Some("target_distance"@) && skip != Some("zero_distance_yards"@)
            ==> target_distance(d1) == target_distance(d2),
        skip != Some("muzzle_angle"@) ==> muzzle_angle(d1) == muzzle_angle(d2),
        skip != Some("wind_speed"@) ==> wind_speed(d1) == wind_speed(d2),
        skip != Some("wind_angle"@) ==> wind_angle(d1) == wind_angle(d2),
        skip != Some("temperature"@) ==> temperature(d1) == temperature(d2),
        skip != Some("pressure"@) ==> pressure(d1) == pressure(d2),
        skip != Some("humidity"@) ==> humidity(d1) == humidity(d2),
        skip != Some("enable_coriolis"@) && skip != Some("enable_advanced_effects"@)
            && skip != Some("latitude"@)
            ==> enable_coriolis(d1) == enable_coriolis(d2),
        skip != Some("shot_direction"@) ==> shot_direction(d1) == shot_direction(d2),
{
    if skip != Some("muzzle_velocity"@) && skip != Some("muzzle_velocity_fps"@) {
        assert(muzzle_velocity(d1) == muzzle_velocity(d2)) by {
            lemma_given(d1, d2, skip, "muzzle_velocity"@);
            lemma_given(d1, d2, skip, "muzzle_velocity_fps"@);
        }
    }
    if skip != Some("twist_rate"@) && skip != Some("twist_rate_inches"@) {
        assert(twist_rate(d1) == twist_rate(d2)) by {
            lemma_given(d1, d2, skip, "twist_rate"@);
            lemma_given(d1, d2, skip, "twist_rate_inches"@);
        }
    }
    if skip != Some("bullet_length"@) && skip != Some("bullet_length_inches"@) {
        assert(bullet_length(d1) == bullet_length(d2)) by {
            lemma_given(d1, d2, skip, "bullet_length"@);
            lemma_given(d1, d2, skip, "bullet_length_inches"@);
        }
    }
    if skip != Some("bullet_diameter"@) && skip != Some("bullet_diameter_inches"@) {
        assert(bullet_diameter(d1) == bullet_diameter(d2)) by {
            lemma_given(d1, d2, skip, "bullet_diameter"@);
            lemma_given(d1, d2, skip, "bullet_diameter_inches"@);
        }
    }
    if skip != Some("target_distance"@) && skip != Some("zero_distance_yards"@) {
        assert(target_distance(d1) == target_distance(d2)) by {
            lemma_given(d1, d2, skip, "target_distance"@);
            lemma_given(d1, d2, skip, "zero_distance_yards"@);
        }
    }
    if skip != Some("muzzle_angle"@) {
        assert(muzzle_angle(d1) == muzzle_angle(d2)) by {
            lemma_given(d1, d2, skip, "muzzle_angle"@);
        }
    }
    if skip != Some("wind_speed"@) {
        assert(wind_speed(d1) == wind_speed(d2)) by {
            lemma_given(d1, d2, skip, "wind_speed"@);
        }
    }
    if skip != Some("wind_angle"@) {
        assert(wind_angle(d1) == wind_angle(d2)) by {
            lemma_given(d1, d2, skip, "wind_angle"@);
        }
    }
    if skip != Some("temperature"@) {
        assert(temperature(d1) == temperature(d2)) by {
            lemma_given(d1, d2, skip, "temperature"@);
        }
    }
    if skip != Some("pressure"@) {
        assert(pressure(d1) == pressure(d2)) by {
            lemma_given(d1, d2, skip, "pressure"@);
        }
    }
    if skip != Some("humidity"@) {
        assert(humidity(d1) == humidity(d2)) by {
            lemma_given(d1, d2, skip, "humidity"@);
        }
    }
    if skip != Some("enable_coriolis"@) && skip != Some("enable_advanced_effects"@)
        && skip != Some("latitude"@) {
        assert(enable_coriolis(d1) == enable_coriolis(d2)) by {
            lemma_given(d1, d2, skip, "enable_coriolis"@);
            lemma_given(d1, d2, skip, "enable_advanced_effects"@);
            lemma_given(d1, d2, skip, "latitude"@);
        }
    }
    if skip != Some("shot_direction"@) {
        assert(shot_direction(d1) == shot_direction(d2)) by {
            lemma_given(d1, d2, skip, "shot_direction"@);
        }
    }
}

pub proof fn lemma_same_bullet(d1: Dict, d2: Dict, skip: Option<Seq<char>>)
    requires
        agree_but(d1, d2, skip),
    ensures
        skip != Some("use_powder_sensitivity"@)
            ==> use_powder_sensitivity(d1) == use_powder_sensitivity(d2),
        skip != Some("powder_temp_sensitivity"@)
            ==> powder_temp_sensitivity(d1) == powder_temp_sensitivity(d2),
        skip != Some("powder_temp"@) ==> powder_temp(d1) == powder_temp(d2),
        skip != Some("tipoff_yaw"@) ==> tipoff_yaw(d1) == tipoff_yaw(d2),
        skip != Some("tipoff_decay_distance"@)
            ==> tipoff_decay_distance(d1) == tipoff_decay_distance(d2),
        skip != Some("ground_threshold"@) ==> ground_threshold(d1) == ground_threshold(d2),
        skip != Some("caliber_inches"@) ==> caliber_inches(d1) == caliber_inches(d2),
        skip != Some("weight_grains"@) ==> weight_grains(d1) == weight_grains(d2),
        skip != Some("use_bc_segments"@) ==> use_bc_segments(d1) == use_bc_segments(d2),
        skip != Some("bullet_id"@) ==> bullet_id(d1) == bullet_id(d2),
        skip != Some("use_enhanced_spin_drift"@) && skip != Some("enable_advanced_effects"@)
            ==> use_enhanced_spin_drift(d1) == use_enhanced_spin_drift(d2),
        skip != Some("use_form_factor"@) ==> use_form_factor(d1) == use_form_factor(d2),
        skip != Some("manufacturer"@) ==> manufacturer(d1) == manufacturer(d2),
        skip != Some("bullet_model"@) ==> bullet_model(d1) == bullet_model(d2),
{
    if skip != Some("use_powder_sensitivity"@) {
        assert(use_powder_sensitivity(d1) == use_powder_sensitivity(d2)) by {
            lemma_given(d1, d2, skip, "use_powder_sensitivity"@);
        }
    }
    if skip != Some("powder_temp_sensitivity"@) {
        assert(powder_temp_sensitivity(d1) == powder_temp_sensitivity(d2)) by {
            lemma_given(d1, d2, skip, "powder_temp_sensitivity"@);
        }
    }
    if skip != Some("powder_temp"@) {
        assert(powder_temp(d1) == powder_temp(d2)) by {
            lemma_given(d1, d2, skip, "powder_temp"@);
        }
    }
    if skip != Some("tipoff_yaw"@) {
        assert(tipoff_yaw(d1) == tipoff_yaw(d2)) by {
            lemma_given(d1, d2, skip, "tipoff_yaw"@);
        }
    }
    if skip != Some("tipoff_decay_distance"@) {
        assert(tipoff_decay_distance(d1) == tipoff_decay_distance(d2)) by {
            lemma_given(d1, d2, skip, "tipoff_decay_distance"@);
        }
    }
    if skip != Some("ground_threshold"@) {
        assert(ground_threshold(d1) == ground_threshold(d2)) by {
            lemma_given(d1, d2, skip, "ground_threshold"@);
        }
    }
    if skip != Some("caliber_inches"@) {
        assert(caliber_inches(d1) == caliber_inches(d2)) by {
            lemma_given(d1, d2, skip, "caliber_inches"@);
        }
    }
    if skip != Some("weight_grains"@) {
        assert(weight_grains(d1) == weight_grains(d2)) by {
            lemma_given(d1, d2, skip, "weight_grains"@);
        }
    }
    if skip != Some("use_bc_segments"@) {
        assert(use_bc_segments(d1) == use_bc_segments(d2)) by {
            lemma_given(d1, d2, skip, "use_bc_segments"@);
        }
    }
    if skip != Some("bullet_id"@) {
        assert(bullet_id(d1) == bullet_id(d2)) by {
            lemma_given(d1, d2, skip, "bullet_id"@);
        }
    }
    if skip != Some("use_enhanced_spin_drift"@) && skip != Some("enable_advanced_effects"@) {
        assert(use_enhanced_spin_drift(d1) == use_enhanced_spin_drift(d2)) by {
            lemma_given(d1, d2, skip, "use_enhanced_spin_drift"@);
            lemma_given(d1, d2, skip, "enable_advanced_effects"@);
        }
    }
    if skip != Some("use_form_factor"@) {
        assert(use_form_factor(d1) == use_form_factor(d2)) by {
            lemma_given(d1, d2, skip, "use_form_factor"@);
        }
    }
    if skip != Some("manufacturer"@) {
        assert(manufacturer(d1) == manufacturer(d2)) by {
            lemma_given(d1, d2, skip, "manufacturer"@);
        }
    }
    if skip != Some("bullet_model"@) {
        assert(bullet_model(d1) == bullet_model(d2)) by {
            lemma_given(d1, d2, skip, "bullet_model"@);
        }
    }
}

pub proof fn lemma_same_solve(d1: Dict, d2: Dict, skip: Option<Seq<char>>)
    requires
        agree_but(d1, d2, skip),
    ensures
        skip != Some("enable_wind_shear"@) ==> enable_wind_shear(d1) == enable_wind_shear(d2),
        skip != Some("wind_shear_model"@) ==> wind_shear_model(d1) == wind_shear_model(d2),
        skip != Some("use_cluster_bc"@) ==> use_cluster_bc(d1) == use_cluster_bc(d2),
        skip != Some("enable_aerodynamic_jump"@)
            ==> enable_aerodynamic_jump(d1) == enable_aerodynamic_jump(d2),
        skip != Some("use_rk4"@) ==> use_rk4(d1) == use_rk4(d2),
        skip != Some("use_adaptive_rk45"@) ==> use_adaptive_rk45(d1) == use_adaptive_rk45(d2),
        skip != Some("enable_trajectory_sampling"@)
            ==> enable_trajectory_sampling(d1) == enable_trajectory_sampling(d2),
        skip != Some("sample_interval"@) && skip != Some("sample_interval_m"@)
            ==> sample_interval(d1) == sample_interval(d2),
        skip != Some("sight_height"@) && skip != Some("sight_height_inches"@)
            ==> sight_height(d1) == sight_height(d2),
        skip != Some("muzzle_height"@) && skip != Some("muzzle_height_inches"@)
            ==> muzzle_height(d1) == muzzle_height(d2),
        skip != Some("target_height"@) && skip != Some("target_height_inches"@)
            ==> target_height(d1) == target_height(d2),
        skip != Some("cant_angle_degrees"@) ==> cant_angle(d1) == cant_angle(d2),
{
    if skip != Some("enable_wind_shear"@) {
        assert(enable_wind_shear(d1) == enable_wind_shear(d2)) by {
            lemma_given(d1, d2, skip, "enable_wind_shear"@);
        }
    }
    if skip != Some("wind_shear_model"@) {
        assert(wind_shear_model(d1) == wind_shear_model(d2)) by {
            lemma_given(d1, d2, skip, "wind_shear_model"@);
        }
    }
    if skip != Some("use_cluster_bc"@) {
        assert(use_cluster_bc(d1) == use_cluster_bc(d2)) by {
            lemma_given(d1, d2, skip, "use_cluster_bc"@);
        }
    }
    if skip != Some("enable_aerodynamic_jump"@) {
        assert(enable_aerodynamic_jump(d1) == enable_aerodynamic_jump(d2)) by {
            lemma_given(d1, d2, skip, "enable_aerodynamic_jump"@);
        }
    }
    if skip != Some("use_rk4"@) {
        assert(use_rk4(d1) == use_rk4(d2)) by {
            lemma_given(d1, d2, skip, "use_rk4"@);
        }
    }
    if skip != Some("use_adaptive_rk45"@) {
        assert(use_adaptive_rk45(d1) == use_adaptive_rk45(d2)) by {
            lemma_given(d1, d2, skip, "use_adaptive_rk45"@);
        }
    }
    if skip != Some("enable_trajectory_sampling"@) {
        assert(enable_trajectory_sampling(d1) == enable_trajectory_sampling(d2)) by {
            lemma_given(d1, d2, skip, "enable_trajectory_sampling"@);
        }
    }
    if skip != Some("sample_interval"@) && skip != Some("sample_interval_m"@) {
        assert(sample_interval(d1) == sample_interval(d2)) by {
            lemma_given(d1, d2, skip, "sample_interval"@);
            lemma_given(d1, d2, skip, "sample_interval_m"@);
        }
    }
    if skip != Some("sight_height"@) && skip != Some("sight_height_inches"@) {
        assert(sight_height(d1) == sight_height(d2)) by {
            lemma_given(d1, d2, skip, "sight_height"@);
            lemma_given(d1, d2, skip, "sight_height_inches"@);
        }
    }
    if skip != Some("muzzle_height"@) && skip != Some("muzzle_height_inches"@) {
        assert(muzzle_height(d1) == muzzle_height(d2)) by {
            lemma_given(d1, d2, skip, "muzzle_height"@);
            lemma_given(d1, d2, skip, "muzzle_height_inches"@);
        }
    }
    if skip != Some("target_height"@) && skip != Some("target_height_inches"@) {
        assert(target_height(d1) == target_height(d2)) by {
            lemma_given(d1, d2, skip, "target_height"@);
            lemma_given(d1, d2, skip, "target_height_inches"@);
        }
    }
    if skip != Some("cant_angle_degrees"@) {
        assert(cant_angle(d1) == cant_angle(d2)) by {
            lemma_given(d1, d2, skip, "cant_angle_degrees"@);
        }
    }
}

/// Every field reads the same in the two dictionaries.
spec fn fields_agree(d1: Dict, d2: Dict, refusal: Seq<char>) -> bool {
    &&& bc_value(d1) == bc_value(d2)
    &&& bc_type(d1) == bc_type(d2)
    &&& bullet_mass(d1) == bullet_mass(d2)
    &&& altitude(d1) == altitude(d2)
    &&& latitude(d1) == latitude(d2)
    &&& bullet_cluster(d1) == bullet_cluster(d2)
    &&& enable_advanced_effects(d1) == enable_advanced_effects(d2)
    &&& bc_segments(d1) == bc_segments(d2)
    &&& bc_segments_data(d1) == bc_segments_data(d2)
    &&& custom_drag_table(d1, refusal) == custom_drag_table(d2, refusal)
    &&& is_twist_right(d1) == is_twist_right(d2)
    &&& shooting_angle(d1) == shooting_angle(d2)
    &&& muzzle_velocity(d1) == muzzle_velocity(d2)
    &&& twist_rate(d1) == twist_rate(d2)
    &&& bullet_length(d1) == bullet_length(d2)
    &&& bullet_diameter(d1) == bullet_diameter(d2)
    &&& target_distance(d1) == target_distance(d2)
    &&& muzzle_angle(d1) == muzzle_angle(d2)
    &&& wind_speed(d1) == wind_speed(d2)
    &&& wind_angle(d1) == wind_angle(d2)
    &&& temperature(d1) == temperature(d2)
    &&& pressure(d1) == pressure(d2)
    &&& humidity(d1) == humidity(d2)
    &&& enable_coriolis(d1) == enable_coriolis(d2)
    &&& shot_direction(d1) == shot_direction(d2)
    &&& use_powder_sensitivity(d1) == use_powder_sensitivity(d2)
    &&& powder_temp_sensitivity(d1) == powder_temp_sensitivity(d2)
    &&& powder_temp(d1) == powder_temp(d2)
    &&& tipoff_yaw(d1) == tipoff_yaw(d2)
    &&& tipoff_decay_distance(d1) == tipoff_decay_distance(d2)
    &&& ground_threshold(d1) == ground_threshold(d2)
    &&& caliber_inches(d1) == caliber_inches(d2)
    &&& weight_grains(d1) == weight_grains(d2)
    &&& use_bc_segments(d1) == use_bc_segments(d2)
    &&& bullet_id(d1) == bullet_id(d2)
    &&& use_enhanced_spin_drift(d1) == use_enhanced_spin_drift(d2)
    &&& use_form_factor(d1) == use_form_factor(d2)
    &&& manufacturer(d1) == manufacturer(d2)
    &&& bullet_model(d1) == bullet_model(d2)
    &&& enable_wind_shear(d1) == enable_wind_shear(d2)
    &&& wind_shear_model(d1) == wind_shear_model(d2)
    &&& use_cluster_bc(d1) == use_cluster_bc(d2)
    &&& enable_aerodynamic_jump(d1) == enable_aerodynamic_jump(d2)
    &&& use_rk4(d1) == use_rk4(d2)
    &&& use_adaptive_rk45(d1) == use_adaptive_rk45(d2)
    &&& enable_trajectory_sampling(d1) == enable_trajectory_sampling(d2)
    &&& sample_interval(d1) == sample_interval(d2)
    &&& sight_height(d1) == sight_height(d2)
    &&& muzzle_height(d1) == muzzle_height(d2)
    &&& target_height(d1) == target_height(d2)
    &&& cant_angle(d1) == cant_angle(d2)
}

proof fn lemma_fields_agree(
    d1: Dict,
    d2: Dict,
    refusal: Seq<char>,
    b: BallisticInputs,
)
    requires
        fields_agree(d1, d2, refusal),
    ensures
        parse_fault(d1, refusal) == parse_fault(d2, refusal),
        reads_as(d1, refusal, b) == reads_as(d2, refusal, b),
{
    assert(identity_fault(d1, refusal) == identity_fault(d2, refusal));
    assert(shot_fault(d1) == shot_fault(d2));
    assert(bullet_fault(d1) == bullet_fault(d2));
    assert(solve_fault(d1) == solve_fault(d2));
}

/// Two dictionaries that give the same for every known key read the same: any
/// other key is ignored.
pub proof fn law_only_known_keys_matter(
    d1: Dict,
    d2: Dict,
    refusal: Seq<char>,
    b: BallisticInputs,
)
    requires
        agree(d1, d2),
    ensures
        parse_fault(d1, refusal) == parse_fault(d2, refusal),
        reads_as(d1, refusal, b) == reads_as(d2, refusal, b),
{
    lemma_same_identity(d1, d2, None, refusal);
    lemma_same_shot(d1, d2, None);
    lemma_same_bullet(d1, d2, None);
    lemma_same_solve(d1, d2, None);
    lemma_fields_agree(d1, d2, refusal, b);
}

/// What is said of an unsound drag table is read only where the dictionary gives
/// one, and such a dictionary cannot be read.
pub proof fn law_refusal_is_for_an_unsound_table(
    d: Dict,
    refusal: Seq<char>,
    other: Seq<char>,
    b: BallisticInputs,
)
    ensures
        (unchecked_table(d) matches Some((mach, cd)) ==> sound_table(mach, cd)) ==> parse_fault(
            d,
            refusal,
        ) == parse_fault(d, other) && reads_as(d, refusal, b) == reads_as(d, other, b),
        (unchecked_table(d) matches Some((mach, cd)) && !sound_table(mach, cd)) ==> parse_fault(
            d,
            refusal,
        ) is Some && !reads_as(d, refusal, b),
{
}

/// The second key of an input that has two, and the first.
pub open spec fn aliases(first: Seq<char>, second: Seq<char>) -> bool {
    ||| first == "bc_value"@ && second == "bc"@
    ||| first == "bc_type"@ && second == "drag_model"@
    ||| first == "bullet_mass"@ && second == "bullet_weight_grains"@
    ||| first == "muzzle_velocity"@ && second == "muzzle_velocity_fps"@
    ||| first == "twist_rate"@ && second == "twist_rate_inches"@
    ||| first == "bullet_length"@ && second == "bullet_length_inches"@
    ||| first == "bullet_diameter"@ && second == "bullet_diameter_inches"@
    ||| first == "target_distance"@ && second == "zero_distance_yards"@
    ||| first == "sample_interval"@ && second == "sample_interval_m"@
    ||| first == "sight_height"@ && second == "sight_height_inches"@
    ||| first == "muzzle_height"@ && second == "muzzle_height_inches"@
    ||| first == "target_height"@ && second == "target_height_inches"@
    ||| first == "is_twist_right"@ && second == "is_right_twist"@
    ||| first == "shooting_angle"@ && second == "shooting_angle_degrees"@
}

/// Beside a first key that is given the second one is ignored: whatever it holds,
/// and even where it is missing, the dictionary reads the same.
pub proof fn law_second_key_is_ignored_beside_the_first(
    d1: Dict,
    d2: Dict,
    first: Seq<char>,
    second: Seq<char>,
    refusal: Seq<char>,
    b: BallisticInputs,
)
    requires
        aliases(first, second),
        d1.given(first) is Some,
        agree_but(d1, d2, Some(second)),
    ensures
        parse_fault(d1, refusal) == parse_fault(d2, refusal),
        reads_as(d1, refusal, b) == reads_as(d2, refusal, b),
{
    lemma_marks();
    assert(known(first) && first != second);
    lemma_given(d1, d2, Some(second), first);
    lemma_same_identity(d1, d2, Some(second), refusal);
    lemma_same_shot(d1, d2, Some(second));
    lemma_same_bullet(d1, d2, Some(second));
    lemma_same_solve(d1, d2, Some(second));
    assert(fields_agree(d1, d2, refusal));
    lemma_fields_agree(d1, d2, refusal, b);
}

proof fn lemma_find_push(entries: Seq<(String, Value)>, entry: (String, Value), key: Seq<char>)
    ensures
        find(entries.push(entry), key) == match find(entries, key) {
            Some(v) => Some(v),
            None => if entry.0@ == key {
                Some(entry.1)
            } else {
                None
            },
        },
    decreases entries.len(),
{
    reveal_with_fuel(find, 2);
    if entries.len() == 0 {
        assert(entries.push(entry).drop_first() == Seq::<(String, Value)>::empty());
    } else {
        assert(entries.push(entry).drop_first() == entries.drop_first().push(entry));
        lemma_find_push(entries.drop_first(), entry, key);
    }
}

/// A key that holds the null value reads as if it were missing.
pub proof fn law_null_reads_as_missing(
    d: Dict,
    with_null: Dict,
    key: String,
    null: Value,
    refusal: Seq<char>,
    b: BallisticInputs,
)
    requires
        null.is_none,
        d.lookup(key@) is None,
        with_null.entries@ == d.entries@.push((key, null)),
    ensures
        parse_fault(with_null, refusal) == parse_fault(d, refusal),
        reads_as(with_null, refusal, b) == reads_as(d, refusal, b),
{
    assert forall|k: Seq<char>| known(k) implies #[trigger] with_null.given(k) == d.given(k) by {
        lemma_find_push(d.entries@, (key, null), k);
    }
    law_only_known_keys_matter(with_null, d, refusal, b);
}

/// No key has to be given: a dictionary without any of the known keys is read,
/// with the defaults.
pub proof fn law_no_key_is_required(d: Dict, refusal: Seq<char>, b: BallisticInputs)
    requires
        forall|key: Seq<char>| known(key) ==> #[trigger] d.given(key) is None,
    ensures
        parse_fault(d, refusal) is None,
        reads_as(d, refusal, b) ==> {
            &&& b.bc_value == constant(HALF)
            &&& b.bc_type == DragModel::G7
            &&& b.bullet_mass == constant(DEFAULT_MASS_GRAINS)
            &&& b.muzzle_velocity == constant(DEFAULT_VELOCITY_FPS)
            &&& b.bullet_diameter == constant(DEFAULT_DIAMETER_INCHES)
            &&& b.bullet_length == constant(DEFAULT_LENGTH_INCHES)
            &&& b.sight_height == constant(DEFAULT_SIGHT_HEIGHT_INCHES)
            &&& b.target_distance == constant(HUNDRED)
            &&& b.shooting_angle == constant(ZERO)
            &&& b.twist_rate == constant(DEFAULT_TWIST_INCHES)
            &&& b.is_twist_right
            &&& b.altitude == constant(ZERO)
            &&& b.temperature == constant(DEFAULT_TEMPERATURE_C)
            &&& b.pressure == constant(DEFAULT_PRESSURE_HPA)
            &&& b.latitude is None
            &&& !b.enable_coriolis
            &&& b.use_rk4
            &&& !b.use_adaptive_rk45
            &&& b.bc_segments is None
            &&& b.bc_segments_data is None
            &&& b.custom_drag_table is None
        },
{
    assert(d.given("bc_value"@) is None);
    assert(d.given("bc"@) is None);
    assert(d.given("bullet_mass"@) is None);
    assert(d.given("bullet_weight_grains"@) is None);
    assert(d.given("altitude"@) is None);
    assert(d.given("latitude"@) is None);
    assert(d.given("bullet_cluster"@) is None);
    assert(d.given("enable_advanced_effects"@) is None);
    assert(d.given("is_twist_right"@) is None);
    assert(d.given("is_right_twist"@) is None);
    assert(d.given("muzzle_velocity"@) is None);
    assert(d.given("muzzle_velocity_fps"@) is None);
    assert(d.given("twist_rate"@) is None);
    assert(d.given("twist_rate_inches"@) is None);
    assert(d.given("bullet_length"@) is None);
    assert(d.given("bullet_length_inches"@) is None);
    assert(d.given("bullet_diameter"@) is None);
    assert(d.given("bullet_diameter_inches"@) is None);
    assert(d.given("target_distance"@) is None);
    assert(d.given("zero_distance_yards"@) is None);
    assert(d.given("muzzle_angle"@) is None);
    assert(d.given("wind_speed"@) is None);
    assert(d.given("wind_angle"@) is None);
    assert(d.given("temperature"@) is None);
    assert(d.given("pressure"@) is None);
    assert(d.given("humidity"@) is None);
    assert(d.given("enable_coriolis"@) is None);
    assert(d.given("shot_direction"@) is None);
    assert(d.given("use_powder_sensitivity"@) is None);
    assert(d.given("powder_temp_sensitivity"@) is None);
    assert(d.given("powder_temp"@) is None);
    assert(d.given("tipoff_yaw"@) is None);
    assert(d.given("tipoff_decay_distance"@) is None);
    assert(d.given("ground_threshold"@) is None);
    assert(d.given("caliber_inches"@) is None);
    assert(d.given("weight_grains"@) is None);
    assert(d.given("use_bc_segments"@) is None);
    assert(d.given("bullet_id"@) is None);
    assert(d.given("use_enhanced_spin_drift"@) is None);
    assert(d.given("use_form_factor"@) is None);
    assert(d.given("manufacturer"@) is None);
    assert(d.given("bullet_model"@) is None);
    assert(d.given("enable_wind_shear"@) is None);
    assert(d.given("wind_shear_model"@) is None);
    assert(d.given("use_cluster_bc"@) is None);
    assert(d.given("enable_aerodynamic_jump"@) is None);
    assert(d.given("use_rk4"@) is None);
    assert(d.given("use_adaptive_rk45"@) is None);
    assert(d.given("enable_trajectory_sampling"@) is None);
    assert(d.given("sample_interval"@) is None);
    assert(d.given("sample_interval_m"@) is None);
    assert(d.given("sight_height"@) is None);
    assert(d.given("sight_height_inches"@) is None);
    assert(d.given("muzzle_height"@) is None);
    assert(d.given("muzzle_height_inches"@) is None);
    assert(d.given("target_height"@) is None);
    assert(d.given("target_height_inches"@) is None);
    assert(d.given("cant_angle_degrees"@) is None);
    assert(d.given("bc_type"@) is None);
    assert(d.given("drag_model"@) is None);
    assert(d.given("bc_segments"@) is None);
    assert(d.given("bc_segments_data"@) is None);
    assert(d.given("custom_drag_table"@) is None);
    assert(d.given("custom_drag_function"@) is None);
    assert(d.given("shooting_angle"@) is None);
    assert(d.given("shooting_angle_degrees"@) is None);
}

/// The number that a dictionary gives for a key.
pub open spec fn number_for(d: Dict, key: Seq<char>) -> Option<Double> {
    match d.given(key) {
        Some(v) => match v.number {
            Ok(n) => Some(n),
            Err(_) => None,
        },
        None => None,
    }
}

/// A number given under a second key alone.
pub open spec fn only_second(d: Dict, primary: Seq<char>, legacy: Seq<char>, v: Double) -> bool {
    d.given(primary) is None && number_for(d, legacy) == Some(v)
}

/// A dictionary with the ten customary keys and the constructor with the same
/// values make the same of them.
pub proof fn law_dictionary_and_constructor_agree(
    d: Dict,
    refusal: Seq<char>,
    b: BallisticInputs,
    base: BallisticInputs,
    name: Option<String>,
    bc: Double,
    weight: Double,
    velocity: Double,
    diameter: Double,
    length: Double,
    sight_height: Double,
    zero_distance: Double,
    shooting_angle: Double,
    twist: Double,
    right_twist: bool,
)
    requires
        reads_as(d, refusal, b),
        only_second(d, "bc_value"@, "bc"@, bc),
        only_second(d, "bullet_mass"@, "bullet_weight_grains"@, weight),
        only_second(d, "muzzle_velocity"@, "muzzle_velocity_fps"@, velocity),
        only_second(d, "bullet_diameter"@, "bullet_diameter_inches"@, diameter),
        only_second(d, "bullet_length"@, "bullet_length_inches"@, length),
        only_second(d, "sight_height"@, "sight_height_inches"@, sight_height),
        only_second(d, "target_distance"@, "zero_distance_yards"@, zero_distance),
        only_second(d, "shooting_angle"@, "shooting_angle_degrees"@, shooting_angle),
        only_second(d, "twist_rate"@, "twist_rate_inches"@, twist),
        d.given("is_twist_right"@) is None,
        d.given("is_right_twist"@) matches Some(v) && v.flag == Ok::<bool, Exception>(right_twist),
        d.given("bc_type"@) is None,
        d.given("drag_model"@) is None,
        d.given("caliber_inches"@) is None,
        d.given("weight_grains"@) is None,
        d.given("use_rk4"@) is None,
        d.given("use_adaptive_rk45"@) is None,
    ensures
        ({
            let c = constructed(
                base,
                name,
                bc,
                weight,
                velocity,
                diameter,
                length,
                sight_height,
                zero_distance,
                shooting_angle,
                twist,
                right_twist,
            );
            let f = si(b);
            &&& f.bc_value == c.bc_value
            &&& f.bc_type == c.bc_type
            &&& f.bullet_mass == c.bullet_mass
            &&& f.muzzle_velocity == c.muzzle_velocity
            &&& f.bullet_diameter == c.bullet_diameter
            &&& f.bullet_length == c.bullet_length
            &&& f.sight_height == c.sight_height
            &&& f.target_distance == c.target_distance
            &&& f.shooting_angle == c.shooting_angle
            &&& f.twist_rate == c.twist_rate
            &&& f.is_twist_right == c.is_twist_right
            &&& f.caliber_inches == c.caliber_inches
            &&& f.weight_grains == c.weight_grains
            &&& f.use_rk4 == c.use_rk4
            &&& f.use_adaptive_rk45 == c.use_adaptive_rk45
        }),
{
    assert(b.caliber_inches == constant(ZERO));
    assert(b.weight_grains == constant(ZERO));
    assert(zero(constant(ZERO))) by {
        reveal(zero);
    }
}

/// Conversion to SI units leaves the shooting angle, the firing bearing and the
/// station's temperature and pressure as they were read.
pub proof fn law_angles_in_radians_are_kept(b: BallisticInputs)
    ensures
        si(b).shooting_angle == b.shooting_angle,
        si(b).shot_azimuth == b.shot_azimuth,
        si(b).temperature == b.temperature,
        si(b).pressure == b.pressure,
        si(b).twist_rate == b.twist_rate,
{
}

/// Zeroing and sampling read a dictionary as the object made from it does: with
/// no atmosphere given apart all three have the same inputs.
pub proof fn law_one_dictionary_has_one_meaning(
    b: BallisticInputs,
    zero_distance_yards: Double,
    target_height_inches: Double,
    wind: Option<PyWindConditions>,
    atmo: Option<PyAtmosphericConditions>,
)
    ensures
        auto_zero_call(b, zero_distance_yards, target_height_inches, wind, atmo).inputs == si(b),
        in_atmosphere(si(b), None) == si(b),
{
}

} // verus!
