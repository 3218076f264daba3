//! The ballistic inputs, read from a dictionary and converted to SI units.

use vstd::prelude::*;
use crate::dict::{bool_field, f64_field, opt_index, opt_number, opt_string, text_field, Dict};
use crate::double::Double;
use crate::drag::DragModel;
use crate::exception::{Exception, Fault};
use crate::fields::{bc_segments, bc_segments_data, bc_type, custom_drag_table, optional_seq};
use crate::fields::{extract_bc_segments, extract_bc_segments_data, resolve_bc_type};
use crate::fields::{resolve_custom_drag_table, resolve_shooting_angle, shooting_angle, table_axes};
use crate::fields::{BCSegmentData, DragTable};
use crate::keys::{
    DEFAULT_DIAMETER_INCHES,
    DEFAULT_GROUND_THRESHOLD,
    DEFAULT_LENGTH_INCHES,
    DEFAULT_MASS_GRAINS,
    DEFAULT_POWDER_TEMPERATURE,
    DEFAULT_PRESSURE_HPA,
    DEFAULT_SAMPLE_INTERVAL_M,
    DEFAULT_SIGHT_HEIGHT_INCHES,
    DEFAULT_TEMPERATURE_C,
    DEFAULT_TIPOFF_DISTANCE,
    DEFAULT_TWIST_INCHES,
    DEFAULT_VELOCITY_FPS,
    advanced,
    altitude,
    bc_value,
    bullet_cluster,
    bullet_diameter,
    bullet_id,
    bullet_length,
    bullet_mass,
    bullet_model,
    caliber_inches,
    cant_angle,
    coriolis_by_default,
    enable_advanced_effects,
    enable_aerodynamic_jump,
    enable_coriolis,
    enable_trajectory_sampling,
    enable_wind_shear,
    ground_threshold,
    humidity,
    is_twist_right,
    latitude,
    manufacturer,
    muzzle_angle,
    muzzle_height,
    muzzle_velocity,
    powder_temp,
    powder_temp_sensitivity,
    pressure,
    sample_interval,
    shot_direction,
    sight_height,
    target_distance,
    target_height,
    temperature,
    tipoff_decay_distance,
    tipoff_yaw,
    twist_rate,
    use_adaptive_rk45,
    use_bc_segments,
    use_cluster_bc,
    use_enhanced_spin_drift,
    use_form_factor,
    use_powder_sensitivity,
    use_rk4,
    weight_grains,
    wind_angle,
    wind_shear_model,
    wind_speed,
};
use crate::text::optional_view;
use crate::units::{constant, radians, scale, scaled, to_radians, unscale, unscaled};
use crate::units::{FEET_TO_METERS, FPS_TO_MPS, GRAINS_TO_KG, HALF, HUNDRED, INCHES_TO_METERS};
use crate::units::{KMH_TO_MPS, YARDS_TO_METERS, ZERO};

verus! {

/// Everything a trajectory is computed from.
#[derive(Debug, PartialEq, Eq)]
pub struct BallisticInputs {
    pub bc_value: Double,
    pub bc_type: DragModel,
    pub bullet_mass: Double,
    pub muzzle_velocity: Double,
    pub altitude: Double,
    pub twist_rate: Double,
    pub bullet_length: Double,
    pub bullet_diameter: Double,
    pub target_distance: Double,
    pub muzzle_angle: Double,
    pub wind_speed: Double,
    pub wind_angle: Double,
    pub temperature: Double,
    pub pressure: Double,
    pub humidity: Double,
    pub latitude: Option<Double>,
    pub enable_advanced_effects: bool,
    pub enable_magnus: bool,
    pub enable_coriolis: bool,
    pub is_twist_right: bool,
    pub shooting_angle: Double,
    pub azimuth_angle: Double,
    pub shot_azimuth: Double,
    pub use_powder_sensitivity: bool,
    pub powder_temp_sensitivity: Double,
    pub powder_temp: Double,
    pub tipoff_yaw: Double,
    pub tipoff_decay_distance: Double,
    pub ground_threshold: Double,
    pub bc_segments: Option<Vec<(Double, Double)>>,
    pub caliber_inches: Double,
    pub weight_grains: Double,
    pub use_bc_segments: bool,
    pub bullet_id: Option<String>,
    pub bc_segments_data: Option<Vec<BCSegmentData>>,
    pub use_enhanced_spin_drift: bool,
    pub use_form_factor: bool,
    pub manufacturer: Option<String>,
    pub bullet_model: Option<String>,
    pub enable_wind_shear: bool,
    pub wind_shear_model: String,
    pub use_cluster_bc: bool,
    pub bullet_cluster: Option<usize>,
    pub custom_drag_table: Option<DragTable>,
    pub bc_type_str: Option<String>,
    pub enable_pitch_damping: bool,
    pub enable_precession_nutation: bool,
    pub enable_aerodynamic_jump: bool,
    pub use_rk4: bool,
    pub use_adaptive_rk45: bool,
    pub enable_trajectory_sampling: bool,
    pub sample_interval: Double,
    pub sight_height: Double,
    pub muzzle_height: Double,
    pub target_height: Double,
    pub cant_angle: Double,
}

/// What is read first: what the bullet is, and where it is fired.
struct Identity {
    bc_value: Double,
    bc_type: DragModel,
    bc_type_str: String,
    bullet_mass: Double,
    altitude: Double,
    latitude: Option<Double>,
    bullet_cluster: Option<usize>,
    enable_advanced_effects: bool,
    bc_segments: Option<Vec<(Double, Double)>>,
    bc_segments_data: Option<Vec<BCSegmentData>>,
    custom_drag_table: Option<DragTable>,
    is_twist_right: bool,
    shooting_angle: Double,
}

/// The fields are what the dictionary says.
spec fn identity_reads(d: Dict, refusal: Seq<char>, g: Identity) -> bool {
    &&& bc_value(d) == Ok::<Double, Fault>(g.bc_value)
    &&& bc_type(d) == Ok::<(DragModel, Seq<char>), Fault>((g.bc_type, g.bc_type_str@))
    &&& bullet_mass(d) == Ok::<Double, Fault>(g.bullet_mass)
    &&& altitude(d) == Ok::<Double, Fault>(g.altitude)
    &&& latitude(d) == Ok::<Option<Double>, Fault>(g.latitude)
    &&& bullet_cluster(d) == Ok::<Option<usize>, Fault>(g.bullet_cluster)
    &&& enable_advanced_effects(d) == Ok::<bool, Fault>(g.enable_advanced_effects)
    &&& bc_segments(d) == Ok::<Option<Seq<(Double, Double)>>, Fault>(optional_seq(g.bc_segments))
    &&& bc_segments_data(d) == Ok::<Option<Seq<BCSegmentData>>, Fault>(
        optional_seq(g.bc_segments_data),
    )
    &&& custom_drag_table(d, refusal) == Ok::<Option<(Seq<Double>, Seq<Double>)>, Fault>(
        table_axes(g.custom_drag_table),
    )
    &&& is_twist_right(d) == Ok::<bool, Fault>(g.is_twist_right)
    &&& shooting_angle(d) == Ok::<Double, Fault>(g.shooting_angle)
}

/// The first fault among what the bullet is and where it is fired.
pub open spec fn identity_fault(d: Dict, refusal: Seq<char>) -> Option<Fault> {
    if let Err(f) = bc_value(d) {
        Some(f)
    } else if let Err(f) = bc_type(d) {
        Some(f)
    } else if let Err(f) = bullet_mass(d) {
        Some(f)
    } else if let Err(f) = altitude(d) {
        Some(f)
    } else if let Err(f) = latitude(d) {
        Some(f)
    } else if let Err(f) = bullet_cluster(d) {
        Some(f)
    } else if let Err(f) = enable_advanced_effects(d) {
        Some(f)
    } else if let Err(f) = bc_segments(d) {
        Some(f)
    } else if let Err(f) = bc_segments_data(d) {
        Some(f)
    } else if let Err(f) = custom_drag_table(d, refusal) {
        Some(f)
    } else if let Err(f) = is_twist_right(d) {
        Some(f)
    } else if let Err(f) = shooting_angle(d) {
        Some(f)
    } else {
        None
    }
}

fn read_identity(d: &Dict, refusal: &str) -> (r: Result<Identity, Exception>)
    ensures
        match r {
            Ok(g) => identity_fault(*d, refusal@) is None && identity_reads(
                *d,
                refusal@,
                g,
            ),
            Err(e) => identity_fault(*d, refusal@) == Some(e@),
        },
{
    let bc_value: Double = match f64_field(d, "bc_value", Some("bc"), Double::from_bits(HALF)) {
        Ok(v) => v,
        Err(e) => return Err(e),
    };
    let (model, model_text): (DragModel, String) = match resolve_bc_type(d) {
        Ok(v) => v,
        Err(e) => return Err(e),
    };
    let bullet_mass: Double = match f64_field(d, "bullet_mass", Some("bullet_weight_grains"), Double::from_bits(DEFAULT_MASS_GRAINS)) {
        Ok(v) => v,
        Err(e) => return Err(e),
    };
    let altitude: Double = match f64_field(d, "altitude", None, Double::from_bits(ZERO)) {
        Ok(v) => v,
        Err(e) => return Err(e),
    };
    let latitude: Option<Double> = match opt_number(d, "latitude") {
        Ok(v) => v,
        Err(e) => return Err(e),
    };
    let bullet_cluster: Option<usize> = match opt_index(d, "bullet_cluster") {
        Ok(v) => v,
        Err(e) => return Err(e),
    };
    let enable_advanced_effects: bool = match bool_field(d, "enable_advanced_effects", None, false) {
        Ok(v) => v,
        Err(e) => return Err(e),
    };
    let bc_segments: Option<Vec<(Double, Double)>> = match extract_bc_segments(d) {
        Ok(v) => v,
        Err(e) => return Err(e),
    };
    let bc_segments_data: Option<Vec<BCSegmentData>> = match extract_bc_segments_data(d) {
        Ok(v) => v,
        Err(e) => return Err(e),
    };
    let custom_drag_table: Option<DragTable> = match resolve_custom_drag_table(d, refusal) {
        Ok(v) => v,
        Err(e) => return Err(e),
    };
    let is_twist_right: bool = match bool_field(d, "is_twist_right", Some("is_right_twist"), true) {
        Ok(v) => v,
        Err(e) => return Err(e),
    };
    let shooting_angle: Double = match resolve_shooting_angle(d) {
        Ok(v) => v,
        Err(e) => return Err(e),
    };
    Ok(
        Identity {
            bc_value,
            bc_type: model,
            bc_type_str: model_text,
            bullet_mass,
            altitude,
            latitude,
            bullet_cluster,
            enable_advanced_effects,
            bc_segments,
            bc_segments_data,
            custom_drag_table,
            is_twist_right,
            shooting_angle,
        },
    )
}

/// How the bullet is fired, and through what air.
struct Shot {
    muzzle_velocity: Double,
    twist_rate: Double,
    bullet_length: Double,
    bullet_diameter: Double,
    target_distance: Double,
    muzzle_angle: Double,
    wind_speed: Double,
    wind_angle: Double,
    temperature: Double,
    pressure: Double,
    humidity: Double,
    enable_coriolis: bool,
    shot_direction: Double,
}

/// The fields are what the dictionary says.
spec fn shot_reads(d: Dict, g: Shot) -> bool {
    &&& muzzle_velocity(d) == Ok::<Double, Fault>(g.muzzle_velocity)
    &&& twist_rate(d) == Ok::<Double, Fault>(g.twist_rate)
    &&& bullet_length(d) == Ok::<Double, Fault>(g.bullet_length)
    &&& bullet_diameter(d) == Ok::<Double, Fault>(g.bullet_diameter)
    &&& target_distance(d) == Ok::<Double, Fault>(g.target_distance)
    &&& muzzle_angle(d) == Ok::<Double, Fault>(g.muzzle_angle)
    &&& wind_speed(d) == Ok::<Double, Fault>(g.wind_speed)
    &&& wind_angle(d) == Ok::<Double, Fault>(g.wind_angle)
    &&& temperature(d) == Ok::<Double, Fault>(g.temperature)
    &&& pressure(d) == Ok::<Double, Fault>(g.pressure)
    &&& humidity(d) == Ok::<Double, Fault>(g.humidity)
    &&& enable_coriolis(d) == Ok::<bool, Fault>(g.enable_coriolis)
    &&& shot_direction(d) == Ok::<Double, Fault>(g.shot_direction)
}

/// The first of the fields that cannot be read.
pub open spec fn shot_fault(d: Dict) -> Option<Fault> {
    if let Err(f) = muzzle_velocity(d) {
        Some(f)
    } else if let Err(f) = twist_rate(d) {
        Some(f)
    } else if let Err(f) = bullet_length(d) {
        Some(f)
    } else if let Err(f) = bullet_diameter(d) {
        Some(f)
    } else if let Err(f) = target_distance(d) {
        Some(f)
    } else if let Err(f) = muzzle_angle(d) {
        Some(f)
    } else if let Err(f) = wind_speed(d) {
        Some(f)
    } else if let Err(f) = wind_angle(d) {
        Some(f)
    } else if let Err(f) = temperature(d) {
        Some(f)
    } else if let Err(f) = pressure(d) {
        Some(f)
    } else if let Err(f) = humidity(d) {
        Some(f)
    } else if let Err(f) = enable_coriolis(d) {
        Some(f)
    } else if let Err(f) = shot_direction(d) {
        Some(f)
    } else {
        None
    }
}

fn read_shot(d: &Dict, coriolis: bool) -> (r: Result<Shot, Exception>)
    requires
        coriolis == coriolis_by_default(*d),
    ensures
        match r {
            Ok(g) => shot_fault(*d) is None && shot_reads(*d, g),
            Err(e) => shot_fault(*d) == Some(e@),
        },
{
    let muzzle_velocity: Double = match f64_field(d, "muzzle_velocity", Some("muzzle_velocity_fps"), Double::from_bits(DEFAULT_VELOCITY_FPS)) {
        Ok(v) => v,
        Err(e) => return Err(e),
    };
    let twist_rate: Double = match f64_field(d, "twist_rate", Some("twist_rate_inches"), Double::from_bits(DEFAULT_TWIST_INCHES)) {
        Ok(v) => v,
        Err(e) => return Err(e),
    };
    let bullet_length: Double = match f64_field(d, "bullet_length", Some("bullet_length_inches"), Double::from_bits(DEFAULT_LENGTH_INCHES)) {
        Ok(v) => v,
        Err(e) => return Err(e),
    };
    let bullet_diameter: Double = match f64_field(d, "bullet_diameter", Some("bullet_diameter_inches"), Double::from_bits(DEFAULT_DIAMETER_INCHES)) {
        Ok(v) => v,
        Err(e) => return Err(e),
    };
    let target_distance: Double = match f64_field(d, "target_distance", Some("zero_distance_yards"), Double::from_bits(HUNDRED)) {
        Ok(v) => v,
        Err(e) => return Err(e),
    };
    let muzzle_angle: Double = match f64_field(d, "muzzle_angle", None, Double::from_bits(ZERO)) {
        Ok(v) => v,
        Err(e) => return Err(e),
    };
    let wind_speed: Double = match f64_field(d, "wind_speed", None, Double::from_bits(ZERO)) {
        Ok(v) => v,
        Err(e) => return Err(e),
    };
    let wind_angle: Double = match f64_field(d, "wind_angle", None, Double::from_bits(ZERO)) {
        Ok(v) => v,
        Err(e) => return Err(e),
    };
    let temperature: Double = match f64_field(d, "temperature", None, Double::from_bits(DEFAULT_TEMPERATURE_C)) {
        Ok(v) => v,
        Err(e) => return Err(e),
    };
    let pressure: Double = match f64_field(d, "pressure", None, Double::from_bits(DEFAULT_PRESSURE_HPA)) {
        Ok(v) => v,
        Err(e) => return Err(e),
    };
    let humidity: Double = match f64_field(d, "humidity", None, Double::from_bits(ZERO)) {
        Ok(v) => v,
        Err(e) => return Err(e),
    };
    let enable_coriolis: bool = match bool_field(d, "enable_coriolis", None, coriolis) {
        Ok(v) => v,
        Err(e) => return Err(e),
    };
    let shot_direction: Double = match f64_field(d, "shot_direction", None, Double::from_bits(ZERO)) {
        Ok(v) => v,
        Err(e) => return Err(e),
    };
    Ok(
        Shot {
            muzzle_velocity,
            twist_rate,
            bullet_length,
            bullet_diameter,
            target_distance,
            muzzle_angle,
            wind_speed,
            wind_angle,
            temperature,
            pressure,
            humidity,
            enable_coriolis,
            shot_direction,
        },
    )
}

/// How the bullet behaves.
struct Bullet {
    use_powder_sensitivity: bool,
    powder_temp_sensitivity: Double,
    powder_temp: Double,
    tipoff_yaw: Double,
    tipoff_decay_distance: Double,
    ground_threshold: Double,
    caliber_inches: Double,
    weight_grains: Double,
    use_bc_segments: bool,
    bullet_id: Option<String>,
    use_enhanced_spin_drift: bool,
    use_form_factor: bool,
    manufacturer: Option<String>,
    bullet_model: Option<String>,
}

/// The fields are what the dictionary says.
spec fn bullet_reads(d: Dict, g: Bullet) -> bool {
    &&& use_powder_sensitivity(d) == Ok::<bool, Fault>(g.use_powder_sensitivity)
    &&& powder_temp_sensitivity(d) == Ok::<Double, Fault>(g.powder_temp_sensitivity)
    &&& powder_temp(d) == Ok::<Double, Fault>(g.powder_temp)
    &&& tipoff_yaw(d) == Ok::<Double, Fault>(g.tipoff_yaw)
    &&& tipoff_decay_distance(d) == Ok::<Double, Fault>(g.tipoff_decay_distance)
    &&& ground_threshold(d) == Ok::<Double, Fault>(g.ground_threshold)
    &&& caliber_inches(d) == Ok::<Double, Fault>(g.caliber_inches)
    &&& weight_grains(d) == Ok::<Double, Fault>(g.weight_grains)
    &&& use_bc_segments(d) == Ok::<bool, Fault>(g.use_bc_segments)
    &&& bullet_id(d) == Ok::<Option<Seq<char>>, Fault>(optional_view(g.bullet_id))
    &&& use_enhanced_spin_drift(d) == Ok::<bool, Fault>(g.use_enhanced_spin_drift)
    &&& use_form_factor(d) == Ok::<bool, Fault>(g.use_form_factor)
    &&& manufacturer(d) == Ok::<Option<Seq<char>>, Fault>(optional_view(g.manufacturer))
    &&& bullet_model(d) == Ok::<Option<Seq<char>>, Fault>(optional_view(g.bullet_model))
}

/// The first of the fields that cannot be read.
pub open spec fn bullet_fault(d: Dict) -> Option<Fault> {
    if let Err(f) = use_powder_sensitivity(d) {
        Some(f)
    } else if let Err(f) = powder_temp_sensitivity(d) {
        Some(f)
    } else if let Err(f) = powder_temp(d) {
        Some(f)
    } else if let Err(f) = tipoff_yaw(d) {
        Some(f)
    } else if let Err(f) = tipoff_decay_distance(d) {
        Some(f)
    } else if let Err(f) = ground_threshold(d) {
        Some(f)
    } else if let Err(f) = caliber_inches(d) {
        Some(f)
    } else if let Err(f) = weight_grains(d) {
        Some(f)
    } else if let Err(f) = use_bc_segments(d) {
        Some(f)
    } else if let Err(f) = bullet_id(d) {
        Some(f)
    } else if let Err(f) = use_enhanced_spin_drift(d) {
        Some(f)
    } else if let Err(f) = use_form_factor(d) {
        Some(f)
    } else if let Err(f) = manufacturer(d) {
        Some(f)
    } else if let Err(f) = bullet_model(d) {
        Some(f)
    } else {
        None
    }
}

fn read_bullet(d: &Dict, advanced_effects: bool) -> (r: Result<Bullet, Exception>)
    requires
        advanced_effects == advanced(*d),
    ensures
        match r {
            Ok(g) => bullet_fault(*d) is None && bullet_reads(*d, g),
            Err(e) => bullet_fault(*d) == Some(e@),
        },
{
    let use_powder_sensitivity: bool = match bool_field(d, "use_powder_sensitivity", None, false) {
        Ok(v) => v,
        Err(e) => return Err(e),
    };
    let powder_temp_sensitivity: Double = match f64_field(d, "powder_temp_sensitivity", None, Double::from_bits(ZERO)) {
        Ok(v) => v,
        Err(e) => return Err(e),
    };
    let powder_temp: Double = match f64_field(d, "powder_temp", None, Double::from_bits(DEFAULT_POWDER_TEMPERATURE)) {
        Ok(v) => v,
        Err(e) => return Err(e),
    };
    let tipoff_yaw: Double = match f64_field(d, "tipoff_yaw", None, Double::from_bits(ZERO)) {
        Ok(v) => v,
        Err(e) => return Err(e),
    };
    let tipoff_decay_distance: Double = match f64_field(d, "tipoff_decay_distance", None, Double::from_bits(DEFAULT_TIPOFF_DISTANCE)) {
        Ok(v) => v,
        Err(e) => return Err(e),
    };
    let ground_threshold: Double = match f64_field(d, "ground_threshold", None, Double::from_bits(DEFAULT_GROUND_THRESHOLD)) {
        Ok(v) => v,
        Err(e) => return Err(e),
    };
    let caliber_inches: Double = match f64_field(d, "caliber_inches", None, Double::from_bits(ZERO)) {
        Ok(v) => v,
        Err(e) => return Err(e),
    };
    let weight_grains: Double = match f64_field(d, "weight_grains", None, Double::from_bits(ZERO)) {
        Ok(v) => v,
        Err(e) => return Err(e),
    };
    let use_bc_segments: bool = match bool_field(d, "use_bc_segments", None, false) {
        Ok(v) => v,
        Err(e) => return Err(e),
    };
    let bullet_id: Option<String> = match opt_string(d, "bullet_id") {
        Ok(v) => v,
        Err(e) => return Err(e),
    };
    let use_enhanced_spin_drift: bool = match bool_field(d, "use_enhanced_spin_drift", None, advanced_effects) {
        Ok(v) => v,
        Err(e) => return Err(e),
    };
    let use_form_factor: bool = match bool_field(d, "use_form_factor", None, true) {
        Ok(v) => v,
        Err(e) => return Err(e),
    };
    let manufacturer: Option<String> = match opt_string(d, "manufacturer") {
        Ok(v) => v,
        Err(e) => return Err(e),
    };
    let bullet_model: Option<String> = match opt_string(d, "bullet_model") {
        Ok(v) => v,
        Err(e) => return Err(e),
    };
    Ok(
        Bullet {
            use_powder_sensitivity,
            powder_temp_sensitivity,
            powder_temp,
            tipoff_yaw,
            tipoff_decay_distance,
            ground_threshold,
            caliber_inches,
            weight_grains,
            use_bc_segments,
            bullet_id,
            use_enhanced_spin_drift,
            use_form_factor,
            manufacturer,
            bullet_model,
        },
    )
}

/// How the trajectory is computed and reported.
struct Solve {
    enable_wind_shear: bool,
    wind_shear_model: String,
    use_cluster_bc: bool,
    enable_aerodynamic_jump: bool,
    use_rk4: bool,
    use_adaptive_rk45: bool,
    enable_trajectory_sampling: bool,
    sample_interval: Double,
    sight_height: Double,
    muzzle_height: Double,
    target_height: Double,
    cant_angle: Double,
}

/// The fields are what the dictionary says.
spec fn solve_reads(d: Dict, g: Solve) -> bool {
    &&& enable_wind_shear(d) == Ok::<bool, Fault>(g.enable_wind_shear)
    &&& wind_shear_model(d) == Ok::<Seq<char>, Fault>(g.wind_shear_model@)
    &&& use_cluster_bc(d) == Ok::<bool, Fault>(g.use_cluster_bc)
    &&& enable_aerodynamic_jump(d) == Ok::<bool, Fault>(g.enable_aerodynamic_jump)
    &&& use_rk4(d) == Ok::<bool, Fault>(g.use_rk4)
    &&& use_adaptive_rk45(d) == Ok::<bool, Fault>(g.use_adaptive_rk45)
    &&& enable_trajectory_sampling(d) == Ok::<bool, Fault>(g.enable_trajectory_sampling)
    &&& sample_interval(d) == Ok::<Double, Fault>(g.sample_interval)
    &&& sight_height(d) == Ok::<Double, Fault>(g.sight_height)
    &&& muzzle_height(d) == Ok::<Double, Fault>(g.muzzle_height)
    &&& target_height(d) == Ok::<Double, Fault>(g.target_height)
    &&& cant_angle(d) == Ok::<Double, Fault>(g.cant_angle)
}

/// The first of the fields that cannot be read.
pub open spec fn solve_fault(d: Dict) -> Option<Fault> {
    if let Err(f) = enable_wind_shear(d) {
        Some(f)
    } else if let Err(f) = wind_shear_model(d) {
        Some(f)
    } else if let Err(f) = use_cluster_bc(d) {
        Some(f)
    } else if let Err(f) = enable_aerodynamic_jump(d) {
        Some(f)
    } else if let Err(f) = use_rk4(d) {
        Some(f)
    } else if let Err(f) = use_adaptive_rk45(d) {
        Some(f)
    } else if let Err(f) = enable_trajectory_sampling(d) {
        Some(f)
    } else if let Err(f) = sample_interval(d) {
        Some(f)
    } else if let Err(f) = sight_height(d) {
        Some(f)
    } else if let Err(f) = muzzle_height(d) {
        Some(f)
    } else if let Err(f) = target_height(d) {
        Some(f)
    } else if let Err(f) = cant_angle(d) {
        Some(f)
    } else {
        None
    }
}

fn read_solve(d: &Dict) -> (r: Result<Solve, Exception>)
    ensures
        match r {
            Ok(g) => solve_fault(*d) is None && solve_reads(*d, g),
            Err(e) => solve_fault(*d) == Some(e@),
        },
{
    let enable_wind_shear: bool = match bool_field(d, "enable_wind_shear", None, false) {
        Ok(v) => v,
        Err(e) => return Err(e),
    };
    let wind_shear_model: String = match text_field(d, "wind_shear_model", "none") {
        Ok(v) => v,
        Err(e) => return Err(e),
    };
    let use_cluster_bc: bool = match bool_field(d, "use_cluster_bc", None, false) {
        Ok(v) => v,
        Err(e) => return Err(e),
    };
    let enable_aerodynamic_jump: bool = match bool_field(d, "enable_aerodynamic_jump", None, false) {
        Ok(v) => v,
        Err(e) => return Err(e),
    };
    let use_rk4: bool = match bool_field(d, "use_rk4", None, true) {
        Ok(v) => v,
        Err(e) => return Err(e),
    };
    let use_adaptive_rk45: bool = match bool_field(d, "use_adaptive_rk45", None, false) {
        Ok(v) => v,
        Err(e) => return Err(e),
    };
    let enable_trajectory_sampling: bool = match bool_field(d, "enable_trajectory_sampling", None, false) {
        Ok(v) => v,
        Err(e) => return Err(e),
    };
    let sample_interval: Double = match f64_field(d, "sample_interval", Some("sample_interval_m"), Double::from_bits(DEFAULT_SAMPLE_INTERVAL_M)) {
        Ok(v) => v,
        Err(e) => return Err(e),
    };
    let sight_height: Double = match f64_field(d, "sight_height", Some("sight_height_inches"), Double::from_bits(DEFAULT_SIGHT_HEIGHT_INCHES)) {
        Ok(v) => v,
        Err(e) => return Err(e),
    };
    let muzzle_height: Double = match f64_field(d, "muzzle_height", Some("muzzle_height_inches"), Double::from_bits(ZERO)) {
        Ok(v) => v,
        Err(e) => return Err(e),
    };
    let target_height: Double = match f64_field(d, "target_height", Some("target_height_inches"), Double::from_bits(ZERO)) {
        Ok(v) => v,
        Err(e) => return Err(e),
    };
    let cant_angle: Double = match f64_field(d, "cant_angle_degrees", None, Double::from_bits(ZERO)) {
        Ok(v) => v,
        Err(e) => return Err(e),
    };
    Ok(
        Solve {
            enable_wind_shear,
            wind_shear_model,
            use_cluster_bc,
            enable_aerodynamic_jump,
            use_rk4,
            use_adaptive_rk45,
            enable_trajectory_sampling,
            sample_interval,
            sight_height,
            muzzle_height,
            target_height,
            cant_angle,
        },
    )
}

/// The first fault that reading the dictionary meets.
pub open spec fn parse_fault(d: Dict, refusal: Seq<char>) -> Option<Fault> {
    if let Some(f) = identity_fault(d, refusal) {
        Some(f)
    } else if let Some(f) = shot_fault(d) {
        Some(f)
    } else if let Some(f) = bullet_fault(d) {
        Some(f)
    } else {
        solve_fault(d)
    }
}

/// The inputs are what the dictionary says, in its own units, the shooting
/// angle and the firing bearing in radians.
pub open spec fn reads_as(d: Dict, refusal: Seq<char>, b: BallisticInputs) -> bool {
    &&& bc_value(d) == Ok::<Double, Fault>(b.bc_value)
    &&& bc_type(d) == Ok::<(DragModel, Seq<char>), Fault>((b.bc_type, b.bc_type_str->Some_0@))
    &&& bullet_mass(d) == Ok::<Double, Fault>(b.bullet_mass)
    &&& altitude(d) == Ok::<Double, Fault>(b.altitude)
    &&& latitude(d) == Ok::<Option<Double>, Fault>(b.latitude)
    &&& bullet_cluster(d) == Ok::<Option<usize>, Fault>(b.bullet_cluster)
    &&& enable_advanced_effects(d) == Ok::<bool, Fault>(b.enable_advanced_effects)
    &&& bc_segments(d) == Ok::<Option<Seq<(Double, Double)>>, Fault>(optional_seq(b.bc_segments))
    &&& bc_segments_data(d) == Ok::<Option<Seq<BCSegmentData>>, Fault>(
        optional_seq(b.bc_segments_data),
    )
    &&& custom_drag_table(d, refusal) == Ok::<Option<(Seq<Double>, Seq<Double>)>, Fault>(
        table_axes(b.custom_drag_table),
    )
    &&& is_twist_right(d) == Ok::<bool, Fault>(b.is_twist_right)
    &&& shooting_angle(d) == Ok::<Double, Fault>(b.shooting_angle)
    &&& b.bc_type_str is Some
    &&& muzzle_velocity(d) == Ok::<Double, Fault>(b.muzzle_velocity)
    &&& twist_rate(d) == Ok::<Double, Fault>(b.twist_rate)
    &&& bullet_length(d) == Ok::<Double, Fault>(b.bullet_length)
    &&& bullet_diameter(d) == Ok::<Double, Fault>(b.bullet_diameter)
    &&& target_distance(d) == Ok::<Double, Fault>(b.target_distance)
    &&& muzzle_angle(d) == Ok::<Double, Fault>(b.muzzle_angle)
    &&& wind_speed(d) == Ok::<Double, Fault>(b.wind_speed)
    &&& wind_angle(d) == Ok::<Double, Fault>(b.wind_angle)
    &&& temperature(d) == Ok::<Double, Fault>(b.temperature)
    &&& pressure(d) == Ok::<Double, Fault>(b.pressure)
    &&& humidity(d) == Ok::<Double, Fault>(b.humidity)
    &&& enable_coriolis(d) == Ok::<bool, Fault>(b.enable_coriolis)
    &&& (shot_direction(d) matches Ok(bearing) && b.shot_azimuth == radians(bearing))
    &&& use_powder_sensitivity(d) == Ok::<bool, Fault>(b.use_powder_sensitivity)
    &&& powder_temp_sensitivity(d) == Ok::<Double, Fault>(b.powder_temp_sensitivity)
    &&& powder_temp(d) == Ok::<Double, Fault>(b.powder_temp)
    &&& tipoff_yaw(d) == Ok::<Double, Fault>(b.tipoff_yaw)
    &&& tipoff_decay_distance(d) == Ok::<Double, Fault>(b.tipoff_decay_distance)
    &&& ground_threshold(d) == Ok::<Double, Fault>(b.ground_threshold)
    &&& caliber_inches(d) == Ok::<Double, Fault>(b.caliber_inches)
    &&& weight_grains(d) == Ok::<Double, Fault>(b.weight_grains)
    &&& use_bc_segments(d) == Ok::<bool, Fault>(b.use_bc_segments)
    &&& bullet_id(d) == Ok::<Option<Seq<char>>, Fault>(optional_view(b.bullet_id))
    &&& use_enhanced_spin_drift(d) == Ok::<bool, Fault>(b.use_enhanced_spin_drift)
    &&& use_form_factor(d) == Ok::<bool, Fault>(b.use_form_factor)
    &&& manufacturer(d) == Ok::<Option<Seq<char>>, Fault>(optional_view(b.manufacturer))
    &&& bullet_model(d) == Ok::<Option<Seq<char>>, Fault>(optional_view(b.bullet_model))
    &&& enable_wind_shear(d) == Ok::<bool, Fault>(b.enable_wind_shear)
    &&& wind_shear_model(d) == Ok::<Seq<char>, Fault>(b.wind_shear_model@)
    &&& use_cluster_bc(d) == Ok::<bool, Fault>(b.use_cluster_bc)
    &&& enable_aerodynamic_jump(d) == Ok::<bool, Fault>(b.enable_aerodynamic_jump)
    &&& use_rk4(d) == Ok::<bool, Fault>(b.use_rk4)
    &&& use_adaptive_rk45(d) == Ok::<bool, Fault>(b.use_adaptive_rk45)
    &&& enable_trajectory_sampling(d) == Ok::<bool, Fault>(b.enable_trajectory_sampling)
    &&& sample_interval(d) == Ok::<Double, Fault>(b.sample_interval)
    &&& sight_height(d) == Ok::<Double, Fault>(b.sight_height)
    &&& muzzle_height(d) == Ok::<Double, Fault>(b.muzzle_height)
    &&& target_height(d) == Ok::<Double, Fault>(b.target_height)
    &&& cant_angle(d) == Ok::<Double, Fault>(b.cant_angle)
    &&& b.enable_magnus == b.enable_advanced_effects
    &&& b.azimuth_angle == constant(ZERO)
    &&& !b.enable_pitch_damping
    &&& !b.enable_precession_nutation
}

/// Reads the inputs from a dictionary.  No key has to be present.  `refusal` is
/// what is said of the dictionary's drag table if it is not sound.
pub fn ballistic_inputs_from_dict(d: &Dict, refusal: &str) -> (r: Result<
    BallisticInputs,
    Exception,
>)
    ensures
        match r {
            Ok(b) => parse_fault(*d, refusal@) is None && reads_as(
                *d,
                refusal@,
                b,
            ),
            Err(e) => parse_fault(*d, refusal@) == Some(e@),
        },
{
    let identity: Identity = match read_identity(d, refusal) {
        Ok(v) => v,
        Err(e) => return Err(e),
    };
    let advanced_effects: bool = identity.enable_advanced_effects;
    let coriolis: bool = advanced_effects && identity.latitude.is_some();
    let shot: Shot = match read_shot(d, coriolis) {
        Ok(v) => v,
        Err(e) => return Err(e),
    };
    let bullet: Bullet = match read_bullet(d, advanced_effects) {
        Ok(v) => v,
        Err(e) => return Err(e),
    };
    let solve: Solve = match read_solve(d) {
        Ok(v) => v,
        Err(e) => return Err(e),
    };
    Ok(
        BallisticInputs {
            bc_value: identity.bc_value,
            bc_type: identity.bc_type,
            bc_type_str: Some(identity.bc_type_str),
            bullet_mass: identity.bullet_mass,
            altitude: identity.altitude,
            latitude: identity.latitude,
            bullet_cluster: identity.bullet_cluster,
            enable_advanced_effects: identity.enable_advanced_effects,
            bc_segments: identity.bc_segments,
            bc_segments_data: identity.bc_segments_data,
            custom_drag_table: identity.custom_drag_table,
            is_twist_right: identity.is_twist_right,
            shooting_angle: identity.shooting_angle,
            enable_magnus: advanced_effects,
            azimuth_angle: Double::from_bits(ZERO),
            muzzle_velocity: shot.muzzle_velocity,
            twist_rate: shot.twist_rate,
            bullet_length: shot.bullet_length,
            bullet_diameter: shot.bullet_diameter,
            target_distance: shot.target_distance,
            muzzle_angle: shot.muzzle_angle,
            wind_speed: shot.wind_speed,
            wind_angle: shot.wind_angle,
            temperature: shot.temperature,
            pressure: shot.pressure,
            humidity: shot.humidity,
            enable_coriolis: shot.enable_coriolis,
            shot_azimuth: to_radians(shot.shot_direction),
            use_powder_sensitivity: bullet.use_powder_sensitivity,
            powder_temp_sensitivity: bullet.powder_temp_sensitivity,
            powder_temp: bullet.powder_temp,
            tipoff_yaw: bullet.tipoff_yaw,
            tipoff_decay_distance: bullet.tipoff_decay_distance,
            ground_threshold: bullet.ground_threshold,
            caliber_inches: bullet.caliber_inches,
            weight_grains: bullet.weight_grains,
            use_bc_segments: bullet.use_bc_segments,
            bullet_id: bullet.bullet_id,
            use_enhanced_spin_drift: bullet.use_enhanced_spin_drift,
            use_form_factor: bullet.use_form_factor,
            manufacturer: bullet.manufacturer,
            bullet_model: bullet.bullet_model,
            enable_wind_shear: solve.enable_wind_shear,
            wind_shear_model: solve.wind_shear_model,
            use_cluster_bc: solve.use_cluster_bc,
            enable_aerodynamic_jump: solve.enable_aerodynamic_jump,
            use_rk4: solve.use_rk4,
            use_adaptive_rk45: solve.use_adaptive_rk45,
            enable_trajectory_sampling: solve.enable_trajectory_sampling,
            sample_interval: solve.sample_interval,
            sight_height: solve.sight_height,
            muzzle_height: solve.muzzle_height,
            target_height: solve.target_height,
            cant_angle: solve.cant_angle,
            enable_pitch_damping: false,
            enable_precession_nutation: false,
        },
    )
}

/// Zero, of either sign.
#[verifier::opaque]
pub open spec fn zero(x: Double) -> bool {
    x.same_number(constant(ZERO))
}

/// Mass, diameter and length in SI units.  The caliber in inches and the weight
/// in grains are filled in where they are zero.
pub open spec fn si_geometry(b: BallisticInputs) -> BallisticInputs {
    BallisticInputs {
        caliber_inches: if zero(b.caliber_inches) {
            b.bullet_diameter
        } else {
            b.caliber_inches
        },
        weight_grains: if zero(b.weight_grains) {
            b.bullet_mass
        } else {
            b.weight_grains
        },
        bullet_mass: scaled(b.bullet_mass, GRAINS_TO_KG),
        bullet_diameter: scaled(b.bullet_diameter, INCHES_TO_METERS),
        bullet_length: scaled(b.bullet_length, INCHES_TO_METERS),
        ..b
    }
}

/// Converts mass, diameter and length to SI units.
pub fn geometry_mass_to_si(inputs: &mut BallisticInputs)
    ensures
        *final(inputs) == si_geometry(*old(inputs)),
{
    proof {
        reveal(zero);
    }
    let none: Double = Double::from_bits(ZERO);
    let caliber: Double = if inputs.caliber_inches.eq_number(none) {
        inputs.bullet_diameter
    } else {
        inputs.caliber_inches
    };
    let weight: Double = if inputs.weight_grains.eq_number(none) {
        inputs.bullet_mass
    } else {
        inputs.weight_grains
    };
    inputs.caliber_inches = caliber;
    inputs.weight_grains = weight;
    inputs.bullet_mass = scale(inputs.bullet_mass, GRAINS_TO_KG);
    inputs.bullet_diameter = scale(inputs.bullet_diameter, INCHES_TO_METERS);
    inputs.bullet_length = scale(inputs.bullet_length, INCHES_TO_METERS);
}

/// All inputs in SI units and radians, the humidity as a fraction.  The
/// shooting angle is in radians already.
pub open spec fn si(b: BallisticInputs) -> BallisticInputs {
    BallisticInputs {
        muzzle_velocity: scaled(b.muzzle_velocity, FPS_TO_MPS),
        target_distance: scaled(b.target_distance, YARDS_TO_METERS),
        altitude: scaled(b.altitude, FEET_TO_METERS),
        sight_height: scaled(b.sight_height, INCHES_TO_METERS),
        muzzle_height: scaled(b.muzzle_height, INCHES_TO_METERS),
        target_height: scaled(b.target_height, INCHES_TO_METERS),
        wind_speed: scaled(b.wind_speed, KMH_TO_MPS),
        wind_angle: radians(b.wind_angle),
        muzzle_angle: radians(b.muzzle_angle),
        cant_angle: radians(b.cant_angle),
        humidity: unscaled(b.humidity, HUNDRED),
        ..si_geometry(b)
    }
}

/// Converts all inputs to SI units and radians.
pub fn full_to_si(inputs: &mut BallisticInputs)
    ensures
        *final(inputs) == si(*old(inputs)),
{
    geometry_mass_to_si(inputs);
    inputs.muzzle_velocity = scale(inputs.muzzle_velocity, FPS_TO_MPS);
    inputs.target_distance = scale(inputs.target_distance, YARDS_TO_METERS);
    inputs.altitude = scale(inputs.altitude, FEET_TO_METERS);
    inputs.sight_height = scale(inputs.sight_height, INCHES_TO_METERS);
    inputs.muzzle_height = scale(inputs.muzzle_height, INCHES_TO_METERS);
    inputs.target_height = scale(inputs.target_height, INCHES_TO_METERS);
    inputs.wind_speed = scale(inputs.wind_speed, KMH_TO_MPS);
    inputs.wind_angle = to_radians(inputs.wind_angle);
    inputs.muzzle_angle = to_radians(inputs.muzzle_angle);
    inputs.cant_angle = to_radians(inputs.cant_angle);
    inputs.humidity = unscale(inputs.humidity, HUNDRED);
}

} // verus!
