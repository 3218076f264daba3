//! Requests for stability, spin drift, transonic drag and the local atmosphere.

use vstd::prelude::*;
use crate::dict::Dict;
use crate::double::Double;
use crate::exception::{outcome, value_fault, Exception, Fault};
use crate::inputs::{ballistic_inputs_from_dict, parse_fault, reads_as, BallisticInputs};
use crate::text::{contains, decimal, join2, numeral, occurs, optional_text};
use crate::units::{constant, FIFTY, TWO, ZERO};

verus! {

/// 600.0, a velocity in m/s
pub const TYPICAL_VELOCITY: u64 = 0x4082_c000_0000_0000;

/// 850.0, a muzzle velocity in m/s
pub const TYPICAL_MUZZLE_VELOCITY: u64 = 0x408a_9000_0000_0000;

/// 39.37, inches in a meter
pub const INCHES_PER_METER: u64 = 0x4043_af5c_28f5_c28f;

/// PI
pub const PI: u64 = 0x4009_21fb_5444_2d18;

/// 0.0078232, the .308 caliber in meters
pub const TYPICAL_CALIBER: u64 = 0x3f80_059c_2133_566f;

/// 0.0108, a mass in kg
pub const TYPICAL_MASS: u64 = 0x3f86_1e4f_765f_d8ae;

/// 1.225, the density of air at sea level in kg/m^3
pub const SEA_LEVEL_DENSITY: u64 = 0x3ff3_9999_9999_999a;

/// 273.15, the freezing point of water in kelvins
pub const FREEZING_POINT: u64 = 0x4071_1266_6666_6666;

/// The shape of a bullet.
#[derive(Clone, Copy, Debug, PartialEq, Eq, Structural)]
pub enum ProjectileShape {
    Spitzer,
    RoundNose,
    FlatBase,
    BoatTail,
}

/// A capital letter made small; any other character as it is.
pub open spec fn small_letter(c: char) -> char {
    if 'A' <= c <= 'Z' {
        ((c as u32) + 32) as char
    } else {
        c
    }
}

/// A text with its capital letters made small.
pub open spec fn small_letters(s: Seq<char>) -> Seq<char> {
    s.map_values(|c: char| small_letter(c))
}

/// The shape that a text names, in whatever case; one that names none is a
/// spitzer.
pub open spec fn named_shape(s: Seq<char>) -> ProjectileShape {
    let t = small_letters(s);
    if t == "round_nose"@ {
        ProjectileShape::RoundNose
    } else if t == "flat_base"@ {
        ProjectileShape::FlatBase
    } else if t == "boat_tail"@ {
        ProjectileShape::BoatTail
    } else {
        ProjectileShape::Spitzer
    }
}

/// Calls `ballistics_engine::transonic_drag::ProjectileShape::from_str`, which
/// compares the text in lower case with the names of the shapes and takes a
/// spitzer for anything else.  Only the letters A to Z have a lower case among
/// the letters of those names.
#[verifier::external_body]
fn shape_from_str(s: &str) -> (r: ProjectileShape)
    ensures
        r == named_shape(s@),
{
    match ballistics_engine::transonic_drag::ProjectileShape::from_str(s) {
        ballistics_engine::transonic_drag::ProjectileShape::Spitzer => ProjectileShape::Spitzer,
        ballistics_engine::transonic_drag::ProjectileShape::RoundNose => ProjectileShape::RoundNose,
        ballistics_engine::transonic_drag::ProjectileShape::FlatBase => ProjectileShape::FlatBase,
        ballistics_engine::transonic_drag::ProjectileShape::BoatTail => ProjectileShape::BoatTail,
    }
}

/// A request for the transonic drag correction.
#[derive(Clone, Copy, Debug, PartialEq, Eq, Structural)]
pub struct TransonicCall {
    pub mach: Double,
    pub base_cd: Double,
    pub shape: ProjectileShape,
    pub include_wave_drag: bool,
}

/// The request for the transonic drag correction.
pub open spec fn transonic_call(
    mach: Double,
    base_cd: Double,
    shape: Option<Seq<char>>,
    include_wave_drag: Option<bool>,
) -> TransonicCall {
    TransonicCall {
        mach,
        base_cd,
        shape: match shape {
            Some(s) => named_shape(s),
            None => ProjectileShape::Spitzer,
        },
        include_wave_drag: include_wave_drag != Some(false),
    }
}

/// The request for the transonic drag correction.  Without a shape it is for a
/// spitzer; the wave drag is in unless it is left out.
pub fn transonic_correction(
    mach: Double,
    base_cd: Double,
    shape_str: Option<&str>,
    include_wave_drag: Option<bool>,
) -> (r: TransonicCall)
    ensures
        r == transonic_call(mach, base_cd, optional_text(shape_str), include_wave_drag),
{
    let shape: ProjectileShape = match shape_str {
        Some(s) => shape_from_str(s),
        None => ProjectileShape::Spitzer,
    };
    let include_wave_drag: bool = match include_wave_drag {
        Some(b) => b,
        None => true,
    };
    TransonicCall { mach, base_cd, shape, include_wave_drag }
}

/// The name of a shape.
pub open spec fn shape_name(shape: ProjectileShape) -> Seq<char> {
    match shape {
        ProjectileShape::Spitzer => "spitzer"@,
        ProjectileShape::RoundNose => "round_nose"@,
        ProjectileShape::FlatBase => "flat_base"@,
        ProjectileShape::BoatTail => "boat_tail"@,
    }
}

/// The name of the shape that was found.
pub fn get_projectile_shape(shape: ProjectileShape) -> (r: String)
    ensures
        r@ == shape_name(shape),
{
    match shape {
        ProjectileShape::Spitzer => "spitzer".to_owned(),
        ProjectileShape::RoundNose => "round_nose".to_owned(),
        ProjectileShape::FlatBase => "flat_base".to_owned(),
        ProjectileShape::BoatTail => "boat_tail".to_owned(),
    }
}

/// A request for the spin drift.
#[derive(Debug, PartialEq, Eq)]
pub struct SpinDriftCall {
    pub stability_factor: Double,
    pub time_of_flight_s: Double,
    pub velocity_mps: Double,
    pub muzzle_velocity_mps: Double,
    pub spin_rate_rad_s: Double,
    pub caliber_m: Double,
    pub mass_kg: Double,
    pub air_density_kg_m3: Double,
    pub is_right_twist: bool,
    pub bullet_type: String,
}

/// What a query comes to: an answer already, or a request to be made.
#[derive(Debug, PartialEq, Eq)]
pub enum Query<A, C> {
    Known(A),
    Ask(C),
}

/// There is no spin, no time to drift, or no stability.
pub open spec fn drifts_not(time_s: Double, stability: Double, twist_rate: Double) -> bool {
    twist_rate.same_number(constant(ZERO)) || time_s.at_most(constant(ZERO)) || stability.at_most(
        constant(ZERO),
    )
}

/// The spin at the muzzle in radians per second, for a twist in inches per turn.
pub open spec fn muzzle_spin(twist_rate: Double) -> Double {
    constant(TYPICAL_MUZZLE_VELOCITY).product(constant(INCHES_PER_METER)).quotient(
        twist_rate,
    ).product(constant(TWO)).product(constant(PI))
}

/// The request for the spin drift of a typical .308 match bullet.
pub open spec fn typical_spin_drift(
    time_s: Double,
    stability: Double,
    twist_rate: Double,
    is_twist_right: bool,
    call: SpinDriftCall,
) -> bool {
    &&& call.stability_factor == stability
    &&& call.time_of_flight_s == time_s
    &&& call.velocity_mps == constant(TYPICAL_VELOCITY)
    &&& call.muzzle_velocity_mps == constant(TYPICAL_MUZZLE_VELOCITY)
    &&& call.spin_rate_rad_s == muzzle_spin(twist_rate)
    &&& call.caliber_m == constant(TYPICAL_CALIBER)
    &&& call.mass_kg == constant(TYPICAL_MASS)
    &&& call.air_density_kg_m3 == constant(SEA_LEVEL_DENSITY)
    &&& call.is_right_twist == is_twist_right
    &&& call.bullet_type@ == "match"@
}

/// The spin drift of a typical .308 match bullet: none without spin, time or
/// stability, and else a request.
pub fn compute_spin_drift(
    time_s: Double,
    stability: Double,
    twist_rate: Double,
    is_twist_right: bool,
) -> (r: Query<Double, SpinDriftCall>)
    ensures
        match r {
            Query::Known(drift) => drifts_not(time_s, stability, twist_rate) && drift == constant(
                ZERO,
            ),
            Query::Ask(call) => !drifts_not(time_s, stability, twist_rate) && typical_spin_drift(
                time_s,
                stability,
                twist_rate,
                is_twist_right,
                call,
            ),
        },
{
    let zero: Double = Double::from_bits(ZERO);
    if twist_rate.eq_number(zero) || time_s.le(zero) || stability.le(zero) {
        return Query::Known(zero);
    }
    let muzzle_velocity_mps: Double = Double::from_bits(TYPICAL_MUZZLE_VELOCITY);
    let spin_rate_rad_s: Double = muzzle_velocity_mps.times(
        Double::from_bits(INCHES_PER_METER),
    ).over(twist_rate).times(Double::from_bits(TWO)).times(Double::from_bits(PI));
    Query::Ask(
        SpinDriftCall {
            stability_factor: stability,
            time_of_flight_s: time_s,
            velocity_mps: Double::from_bits(TYPICAL_VELOCITY),
            muzzle_velocity_mps,
            spin_rate_rad_s,
            caliber_m: Double::from_bits(TYPICAL_CALIBER),
            mass_kg: Double::from_bits(TYPICAL_MASS),
            air_density_kg_m3: Double::from_bits(SEA_LEVEL_DENSITY),
            is_right_twist: is_twist_right,
            bullet_type: "match".to_owned(),
        },
    )
}

/// The text under `bullet_model`, empty where there is none.
pub open spec fn bullet_model_text(d: Dict) -> Seq<char> {
    match d.given("bullet_model"@) {
        Some(v) => match v.text {
            Ok(s) => s@,
            Err(_) => ""@,
        },
        None => ""@,
    }
}

/// The type of a bullet, by its model.
pub open spec fn bullet_type(model: Seq<char>) -> Seq<char> {
    if occurs(model, "Match"@) || occurs(model, "SMK"@) {
        "match"@
    } else if occurs(model, "VLD"@) {
        "vld"@
    } else if occurs(model, "Hybrid"@) {
        "hybrid"@
    } else {
        "match"@
    }
}

/// The type of the bullet that a dictionary describes.
pub fn bullet_type_from_dict(inputs: &Dict) -> (r: String)
    ensures
        r@ == bullet_type(bullet_model_text(*inputs)),
{
    let model: String = match inputs.get_given("bullet_model") {
        Some(v) => match &v.text {
            Ok(s) => s.clone(),
            Err(_) => "".to_owned(),
        },
        None => "".to_owned(),
    };
    let s: &str = model.as_str();
    if contains(s, "Match") || contains(s, "SMK") {
        "match".to_owned()
    } else if contains(s, "VLD") {
        "vld".to_owned()
    } else if contains(s, "Hybrid") {
        "hybrid".to_owned()
    } else {
        "match".to_owned()
    }
}

/// A request for the gyroscopic stability, in imperial units but for the air,
/// whose density is to be found for a temperature in degrees Celsius, a pressure
/// in hPa and a humidity in percent.
#[derive(Debug, PartialEq, Eq)]
pub struct StabilityCall {
    pub mass_grains: Double,
    pub velocity_fps: Double,
    pub twist_rate_inches: Double,
    pub caliber_inches: Double,
    pub length_inches: Double,
    pub temp_c: Double,
    pub pressure_hpa: Double,
    pub humidity_percent: Double,
    pub temp_k: Double,
    pub bullet_type: String,
    pub has_boat_tail: bool,
    pub has_plastic_tip: bool,
}

/// The request for inputs read as `b` in the atmosphere of four numbers.
pub open spec fn stability_call(
    b: BallisticInputs,
    model: Seq<char>,
    atmos_params: Seq<Double>,
    call: StabilityCall,
) -> bool {
    &&& call.mass_grains == b.bullet_mass
    &&& call.velocity_fps == b.muzzle_velocity
    &&& call.twist_rate_inches == b.twist_rate
    &&& call.caliber_inches == b.bullet_diameter
    &&& call.length_inches == b.bullet_length
    &&& call.temp_c == atmos_params[1]
    &&& call.pressure_hpa == atmos_params[2]
    &&& call.humidity_percent == constant(FIFTY)
    &&& call.temp_k == atmos_params[1].sum(constant(FREEZING_POINT))
    &&& call.bullet_type@ == bullet_type(model)
    &&& call.has_boat_tail
    &&& !call.has_plastic_tip
}

/// The request for the gyroscopic stability of the bullet that a dictionary
/// describes, in the atmosphere of a station.
pub fn compute_stability_coefficient(
    inputs: &Dict,
    refusal: &str,
    atmos_params: &Vec<Double>,
) -> (r: Result<StabilityCall, Exception>)
    ensures
        match parse_fault(*inputs, refusal@) {
            Some(f) => r matches Err(e) && e@ == f,
            None => if atmos_params.len() != 4 {
                r matches Err(e) && e@ == value_fault(
                    "Atmosphere params must contain 4 values, got "@ + numeral(
                        atmos_params@.len(),
                    ),
                )
            } else {
                r matches Ok(call) && exists|b: BallisticInputs|
                    reads_as(*inputs, refusal@, b) && stability_call(
                        b,
                        bullet_model_text(*inputs),
                        atmos_params@,
                        call,
                    )
            },
        },
{
    let bi: BallisticInputs = match ballistic_inputs_from_dict(inputs, refusal) {
        Ok(b) => b,
        Err(e) => return Err(e),
    };
    if atmos_params.len() != 4 {
        return Err(
            Exception::value_error(
                join2(
                    "Atmosphere params must contain 4 values, got ",
                    decimal(atmos_params.len() as u64).as_str(),
                ),
            ),
        );
    }
    let temp_c: Double = atmos_params[1];
    let call: StabilityCall = StabilityCall {
        mass_grains: bi.bullet_mass,
        velocity_fps: bi.muzzle_velocity,
        twist_rate_inches: bi.twist_rate,
        caliber_inches: bi.bullet_diameter,
        length_inches: bi.bullet_length,
        temp_c,
        pressure_hpa: atmos_params[2],
        humidity_percent: Double::from_bits(FIFTY),
        temp_k: temp_c.plus(Double::from_bits(FREEZING_POINT)),
        bullet_type: bullet_type_from_dict(inputs),
        has_boat_tail: true,
        has_plastic_tip: false,
    };
    assert(reads_as(*inputs, refusal@, bi) && stability_call(
        bi,
        bullet_model_text(*inputs),
        atmos_params@,
        call,
    ));
    Ok(call)
}

/// A request for the atmosphere at an altitude in meters, from that of a station:
/// altitude in meters, degrees Celsius, hPa, density ratio.
#[derive(Clone, Copy, Debug, PartialEq, Eq, Structural)]
pub struct LocalAtmosphereCall {
    pub altitude_m: Double,
    pub base_altitude_m: Double,
    pub base_temp_c: Double,
    pub base_pressure_hpa: Double,
    pub base_density_ratio: Double,
}

/// What a query for the atmosphere at an altitude comes to.
pub open spec fn local_atmosphere(altitude_m: Double, params: Seq<Double>) -> Result<
    Query<(Double, Double), LocalAtmosphereCall>,
    Fault,
> {
    if params.len() == 2 {
        Ok(Query::Known((params[0], params[1])))
    } else if params.len() == 4 {
        Ok(
            Query::Ask(
                LocalAtmosphereCall {
                    altitude_m,
                    base_altitude_m: params[0],
                    base_temp_c: params[1],
                    base_pressure_hpa: params[2],
                    base_density_ratio: params[3],
                },
            ),
        )
    } else {
        Err(
            value_fault(
                "Atmosphere params must contain 2 or 4 values, got "@ + numeral(params.len()),
            ),
        )
    }
}

/// The atmosphere at an altitude: two numbers are the density and the speed of
/// sound themselves, four describe a station.
pub fn get_local_atmosphere(altitude_m: Double, atmos_params: &Vec<Double>) -> (r: Result<
    Query<(Double, Double), LocalAtmosphereCall>,
    Exception,
>)
    ensures
        outcome(r) == local_atmosphere(altitude_m, atmos_params@),
{
    if atmos_params.len() == 2 {
        Ok(Query::Known((atmos_params[0], atmos_params[1])))
    } else if atmos_params.len() == 4 {
        Ok(
            Query::Ask(
                LocalAtmosphereCall {
                    altitude_m,
                    base_altitude_m: atmos_params[0],
                    base_temp_c: atmos_params[1],
                    base_pressure_hpa: atmos_params[2],
                    base_density_ratio: atmos_params[3],
                },
            ),
        )
    } else {
        Err(
            Exception::value_error(
                join2(
                    "Atmosphere params must contain 2 or 4 values, got ",
                    decimal(atmos_params.len() as u64).as_str(),
                ),
            ),
        )
    }
}

} // verus!
