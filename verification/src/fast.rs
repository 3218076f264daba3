//! Requests to the fast integrator, to the single integration step and to the
//! search for a zero from imperial values.

use vstd::prelude::*;
use crate::conditions::{atmosphere_in_si, to_celsius, wind_in_si, AtmosphericConditions};
use crate::conditions::WindConditions;
use crate::dict::Dict;
use crate::double::Double;
use crate::exception::{outcome, value_fault, Exception, Fault};
use crate::fields::optional_seq;
use crate::inputs::{ballistic_inputs_from_dict, geometry_mass_to_si, parse_fault, reads_as};
use crate::inputs::{si_geometry, BallisticInputs};
use crate::solver::{AtmoSegment, WindSegment, ZeroCall};
use crate::text::{join2, same_text};
use crate::units::{constant, scale, scaled, to_radians};
use crate::units::{FEET_TO_METERS, FPS_TO_MPS, GRAINS_TO_KG, INCHES_TO_METERS, INHG_TO_HPA};
use crate::units::{KMH_TO_MPS, MPH_TO_MPS, YARDS_TO_METERS, ZERO};

verus! {

/// A wind as three numbers: speed, direction in degrees, and the downrange
/// distance in meters up to which it blows.
pub type WindTuple = (Double, Double, Double);

/// A vector: downrange, up, to the right.
pub type Vector = (Double, Double, Double);

/// A wind in m/s that was given in km/h.
pub open spec fn wind_in_mps(w: WindTuple) -> WindTuple {
    (scaled(w.0, KMH_TO_MPS), w.1, w.2)
}

/// Winds in m/s that were given in km/h.
pub fn wind_segments_kmh_to_mps(segments: &Vec<WindTuple>) -> (r: Vec<WindTuple>)
    ensures
        r@ == segments@.map_values(|w: WindTuple| wind_in_mps(w)),
{
    let mut out: Vec<WindTuple> = Vec::new();
    let mut i: usize = 0;
    while i < segments.len()
        invariant
            i <= segments.len(),
            out@ == segments@.take(i as int).map_values(|w: WindTuple| wind_in_mps(w)),
        decreases segments.len() - i,
    {
        out.push((scale(segments[i].0, KMH_TO_MPS), segments[i].1, segments[i].2));
        i = i + 1;
    }
    assert(segments@.take(i as int) == segments@);
    out
}

/// A wind in km/h, with no updraft.
pub open spec fn level_segment(w: WindTuple) -> WindSegment {
    WindSegment { speed_kmh: w.0, angle_deg: w.1, until_m: w.2, vertical_mps: constant(ZERO) }
}

/// Winds in km/h, with no updraft.
pub open spec fn level_segments(segments: Seq<WindTuple>) -> Seq<WindSegment> {
    segments.map_values(|w: WindTuple| level_segment(w))
}

/// Winds in km/h, with no updraft.
pub fn to_wind_segments(segments: &Vec<WindTuple>) -> (r: Vec<WindSegment>)
    ensures
        r@ == level_segments(segments@),
{
    let mut out: Vec<WindSegment> = Vec::new();
    let mut i: usize = 0;
    while i < segments.len()
        invariant
            i <= segments.len(),
            out@ == level_segments(segments@.take(i as int)),
        decreases segments.len() - i,
    {
        out.push(
            WindSegment {
                speed_kmh: segments[i].0,
                angle_deg: segments[i].1,
                until_m: segments[i].2,
                vertical_mps: Double::from_bits(ZERO),
            },
        );
        i = i + 1;
    }
    assert(segments@.take(i as int) == segments@);
    out
}

/// A position and a velocity.
#[derive(Clone, Copy, Debug, PartialEq, Eq)]
pub struct State {
    pub position: Vector,
    pub velocity: Vector,
}

/// The state that six numbers stand for.
pub open spec fn state_of(v: Seq<Double>) -> State {
    State { position: (v[0], v[1], v[2]), velocity: (v[3], v[4], v[5]) }
}

/// A station: altitude in meters, degrees Celsius, hPa, density ratio.
pub type Station = (Double, Double, Double, Double);

/// The station that four numbers stand for.
pub open spec fn station_of(v: Seq<Double>) -> Station {
    (v[0], v[1], v[2], v[3])
}

/// A request to the fast integrator.
#[derive(Debug, PartialEq, Eq)]
pub struct FastIntegrateCall {
    pub inputs: BallisticInputs,
    pub wind_segments: Vec<WindSegment>,
    pub horiz: Double,
    pub vert: Double,
    pub initial_state: State,
    pub t_span: (Double, Double),
    pub atmo_params: Station,
    /// None for the one atmosphere of the station.
    pub atmo_segments: Option<Vec<AtmoSegment>>,
}

/// What is wrong with the arguments of a fast integration.
pub open spec fn fast_integrate_fault(
    inputs: Dict,
    refusal: Seq<char>,
    initial_state: Seq<Double>,
    atmo_params: Seq<Double>,
) -> Option<Fault> {
    if let Some(f) = parse_fault(inputs, refusal) {
        Some(f)
    } else if initial_state.len() != 6 {
        Some(value_fault("Initial state must have 6 elements"@))
    } else if atmo_params.len() != 4 {
        Some(value_fault("Atmospheric parameters must have 4 elements"@))
    } else {
        None
    }
}

/// The request that the arguments of a fast integration lead to, with inputs read
/// as `b`.
pub open spec fn integration_call(
    b: BallisticInputs,
    winds: Seq<WindTuple>,
    horiz: Double,
    vert: Double,
    initial_state: Seq<Double>,
    t_span: (Double, Double),
    atmo_params: Seq<Double>,
    atmo_segments: Seq<AtmoSegment>,
    call: FastIntegrateCall,
) -> bool {
    &&& call.inputs == si_geometry(b)
    &&& call.wind_segments@ == level_segments(winds)
    &&& call.horiz == horiz
    &&& call.vert == vert
    &&& call.initial_state == state_of(initial_state)
    &&& call.t_span == t_span
    &&& call.atmo_params == station_of(atmo_params)
    &&& optional_seq(call.atmo_segments) == if atmo_segments.len() == 0 {
        None
    } else {
        Some(atmo_segments)
    }
}

/// The request for a fast integration.
pub fn fast_integrate(
    inputs: &Dict,
    refusal: &str,
    wind_segments: &Vec<WindTuple>,
    horiz: Double,
    vert: Double,
    initial_state: &Vec<Double>,
    t_span: (Double, Double),
    atmo_params: &Vec<Double>,
    atmo_segments: Vec<AtmoSegment>,
) -> (r: Result<FastIntegrateCall, Exception>)
    ensures
        match r {
            Ok(call) => {
                &&& fast_integrate_fault(
                    *inputs,
                    refusal@,
                    initial_state@,
                    atmo_params@,
                ) is None
                &&& exists|b: BallisticInputs|
                    reads_as(*inputs, refusal@, b) && integration_call(
                        b,
                        wind_segments@,
                        horiz,
                        vert,
                        initial_state@,
                        t_span,
                        atmo_params@,
                        atmo_segments@,
                        call,
                    )
                &&& call.atmo_segments == if atmo_segments@.len() == 0 {
                    None
                } else {
                    Some(atmo_segments)
                }
            },
            Err(e) => fast_integrate_fault(
                *inputs,
                refusal@,
                initial_state@,
                atmo_params@,
            ) == Some(e@),
        },
{
    let mut bi: BallisticInputs = match ballistic_inputs_from_dict(inputs, refusal) {
        Ok(b) => b,
        Err(e) => return Err(e),
    };
    let ghost read = bi;
    geometry_mass_to_si(&mut bi);
    if initial_state.len() != 6 {
        return Err(Exception::value_error("Initial state must have 6 elements".to_owned()));
    }
    if atmo_params.len() != 4 {
        return Err(
            Exception::value_error("Atmospheric parameters must have 4 elements".to_owned()),
        );
    }
    let ghost segments = atmo_segments@;
    let zones: Option<Vec<AtmoSegment>> = if atmo_segments.len() == 0 {
        None
    } else {
        Some(atmo_segments)
    };
    let call: FastIntegrateCall = FastIntegrateCall {
        inputs: bi,
        wind_segments: to_wind_segments(wind_segments),
        horiz,
        vert,
        initial_state: State {
            position: (initial_state[0], initial_state[1], initial_state[2]),
            velocity: (initial_state[3], initial_state[4], initial_state[5]),
        },
        t_span,
        atmo_params: (atmo_params[0], atmo_params[1], atmo_params[2], atmo_params[3]),
        atmo_segments: zones,
    };
    assert(reads_as(*inputs, refusal@, read) && integration_call(
        read,
        wind_segments@,
        horiz,
        vert,
        initial_state@,
        t_span,
        atmo_params@,
        segments,
        call,
    ));
    Ok(call)
}

/// What is raised when the integrator's states make no matrix.
pub fn matrix_failure(complaint: &str) -> (r: Exception)
    ensures
        r@ == value_fault("y matrix shape error: "@ + complaint@),
{
    Exception::value_error(join2("y matrix shape error: ", complaint))
}

/// How the wind changes with altitude.
#[derive(Clone, Copy, Debug, PartialEq, Eq, Structural)]
pub enum ShearModel {
    Logarithmic,
    PowerLaw,
    EkmanSpiral,
    NoShear,
}

/// The model that a text names; a text that names none is taken for the power
/// law.
pub open spec fn shear_model(s: Seq<char>) -> ShearModel {
    if s == "logarithmic"@ {
        ShearModel::Logarithmic
    } else if s == "ekman_spiral"@ {
        ShearModel::EkmanSpiral
    } else if s == "none"@ {
        ShearModel::NoShear
    } else {
        ShearModel::PowerLaw
    }
}

/// Reads the name of a shear model.
pub fn parse_shear_model(s: &str) -> (r: ShearModel)
    ensures
        r == shear_model(s@),
{
    if same_text(s, "logarithmic") {
        ShearModel::Logarithmic
    } else if same_text(s, "ekman_spiral") {
        ShearModel::EkmanSpiral
    } else if same_text(s, "none") {
        ShearModel::NoShear
    } else {
        ShearModel::PowerLaw
    }
}

/// A request for the wind at a position.
#[derive(Debug, PartialEq, Eq)]
pub enum WindQuery {
    /// A wind that changes with altitude.
    Sheared {
        model: ShearModel,
        /// Speed in m/s and direction in degrees at the surface, if a wind is
        /// given.
        surface: Option<(Double, Double)>,
        /// In m/s.
        winds: Vec<WindTuple>,
        altitude: Double,
    },
    /// A wind that is the same at every altitude.
    Uniform { segments: Vec<WindSegment> },
}

/// The inputs ask for a wind that changes with altitude.
pub open spec fn sheared(b: BallisticInputs) -> bool {
    b.enable_wind_shear && b.wind_shear_model@ != "none"@
}

/// The request for the wind that the inputs and the winds given lead to.
pub open spec fn queries(b: BallisticInputs, winds: Seq<WindTuple>, q: WindQuery) -> bool {
    match q {
        WindQuery::Sheared { model, surface, winds: in_mps, altitude } => {
            &&& sheared(b)
            &&& model == shear_model(b.wind_shear_model@)
            &&& surface == if winds.len() == 0 {
                None
            } else {
                Some((scaled(winds[0].0, KMH_TO_MPS), winds[0].1))
            }
            &&& in_mps@ == winds.map_values(|w: WindTuple| wind_in_mps(w))
            &&& altitude == b.altitude
        },
        WindQuery::Uniform { segments } => !sheared(b) && segments@ == level_segments(winds),
    }
}

/// The request for the wind at a position.
pub fn wind_query(bi: &BallisticInputs, wind_segments: &Vec<WindTuple>) -> (r: WindQuery)
    ensures
        queries(*bi, wind_segments@, r),
{
    if bi.enable_wind_shear && !same_text(bi.wind_shear_model.as_str(), "none") {
        let surface: Option<(Double, Double)> = if wind_segments.len() == 0 {
            None
        } else {
            Some((scale(wind_segments[0].0, KMH_TO_MPS), wind_segments[0].1))
        };
        WindQuery::Sheared {
            model: parse_shear_model(bi.wind_shear_model.as_str()),
            surface,
            winds: wind_segments_kmh_to_mps(wind_segments),
            altitude: bi.altitude,
        }
    } else {
        WindQuery::Uniform { segments: to_wind_segments(wind_segments) }
    }
}

/// A request for the derivatives of a state, but for the wind and the rotation
/// of the earth.
#[derive(Debug, PartialEq, Eq)]
pub struct DerivativesCall {
    pub state: State,
    pub atmos: Station,
    pub inputs: BallisticInputs,
    pub wind: WindQuery,
}

/// What is wrong with the arguments that describe a state.
pub open spec fn derivatives_fault(
    state: Seq<Double>,
    atmos_params: Seq<Double>,
    inputs: Dict,
    refusal: Seq<char>,
) -> Option<Fault> {
    if state.len() != 6 {
        Some(value_fault("State array must have 6 elements"@))
    } else if atmos_params.len() != 4 {
        Some(value_fault("Atmospheric parameters must have 4 elements"@))
    } else {
        parse_fault(inputs, refusal)
    }
}

/// The request for the derivatives of a state, up to the wind at its position.
pub fn derivatives(
    state: &Vec<Double>,
    inputs: &Dict,
    refusal: &str,
    wind_segments: &Vec<WindTuple>,
    atmos_params: &Vec<Double>,
) -> (r: Result<DerivativesCall, Exception>)
    ensures
        match r {
            Ok(call) => {
                &&& derivatives_fault(state@, atmos_params@, *inputs, refusal@) is None
                &&& call.state == state_of(state@)
                &&& call.atmos == station_of(atmos_params@)
                &&& exists|b: BallisticInputs|
                    reads_as(*inputs, refusal@, b) && call.inputs == si_geometry(b)
                &&& queries(call.inputs, wind_segments@, call.wind)
            },
            Err(e) => derivatives_fault(state@, atmos_params@, *inputs, refusal@)
                == Some(e@),
        },
{
    if state.len() != 6 {
        return Err(Exception::value_error("State array must have 6 elements".to_owned()));
    }
    if atmos_params.len() != 4 {
        return Err(
            Exception::value_error("Atmospheric parameters must have 4 elements".to_owned()),
        );
    }
    let mut bi: BallisticInputs = match ballistic_inputs_from_dict(inputs, refusal) {
        Ok(b) => b,
        Err(e) => return Err(e),
    };
    let ghost read = bi;
    geometry_mass_to_si(&mut bi);
    let wind: WindQuery = wind_query(&bi, wind_segments);
    assert(reads_as(*inputs, refusal@, read) && bi == si_geometry(read));
    Ok(
        DerivativesCall {
            state: State {
                position: (state[0], state[1], state[2]),
                velocity: (state[3], state[4], state[5]),
            },
            atmos: (atmos_params[0], atmos_params[1], atmos_params[2], atmos_params[3]),
            inputs: bi,
            wind,
        },
    )
}

/// The wind found and the rotation of the earth, or what is wrong with them.
pub open spec fn surroundings(wind: Result<Vector, String>, omega: Option<Seq<Double>>) -> Result<
    (Vector, Option<Vector>),
    Fault,
> {
    match wind {
        Err(e) => Err(value_fault(e@)),
        Ok(w) => match omega {
            None => Ok((w, None)),
            Some(o) => if o.len() == 3 {
                Ok((w, Some((o[0], o[1], o[2]))))
            } else {
                Err(value_fault("Omega vector must have 3 elements"@))
            },
        },
    }
}

/// The wind found and the rotation of the earth; or the complaint about the
/// winds, or a rotation that is no vector.
pub fn derivatives_surroundings(
    wind: Result<Vector, String>,
    omega_vector: Option<&Vec<Double>>,
) -> (r: Result<(Vector, Option<Vector>), Exception>)
    ensures
        outcome(r) == surroundings(
            wind,
            match omega_vector {
                Some(o) => Some(o@),
                None => None,
            },
        ),
{
    let w: Vector = match wind {
        Ok(w) => w,
        Err(e) => return Err(Exception::value_error(e)),
    };
    match omega_vector {
        None => Ok((w, None)),
        Some(o) => if o.len() == 3 {
            Ok((w, Some((o[0], o[1], o[2]))))
        } else {
            Err(Exception::value_error("Omega vector must have 3 elements".to_owned()))
        },
    }
}

/// The request that inputs read as `b` and imperial conditions lead to.  The
/// inputs are imperial throughout, the twist too.
pub open spec fn imperial_zero_call(
    b: BallisticInputs,
    target_distance_yards: Double,
    target_height_inches: Double,
    wind_speed_mph: Double,
    wind_direction_deg: Double,
    temperature_f: Double,
    pressure_inhg: Double,
    humidity_pct: Double,
    altitude_ft: Double,
) -> ZeroCall {
    ZeroCall {
        inputs: BallisticInputs {
            muzzle_velocity: scaled(b.muzzle_velocity, FPS_TO_MPS),
            bullet_mass: scaled(b.bullet_mass, GRAINS_TO_KG),
            bullet_diameter: scaled(b.bullet_diameter, INCHES_TO_METERS),
            bullet_length: scaled(b.bullet_length, INCHES_TO_METERS),
            twist_rate: scaled(b.twist_rate, INCHES_TO_METERS),
            sight_height: scaled(b.sight_height, INCHES_TO_METERS),
            ..b
        },
        target_distance: scaled(target_distance_yards, YARDS_TO_METERS),
        target_height: scaled(target_height_inches, INCHES_TO_METERS),
        wind: wind_in_si(wind_speed_mph, wind_direction_deg, constant(ZERO)),
        atmosphere: atmosphere_in_si(temperature_f, pressure_inhg, humidity_pct, altitude_ft),
    }
}

/// The zeroing request for a dictionary of imperial inputs and imperial
/// conditions.
pub fn calculate_zero_angle(
    inputs: &Dict,
    refusal: &str,
    target_distance_yards: Double,
    target_height_inches: Double,
    wind_speed_mph: Double,
    wind_direction_deg: Double,
    temperature_f: Double,
    pressure_inhg: Double,
    humidity_pct: Double,
    altitude_ft: Double,
) -> (r: Result<ZeroCall, Exception>)
    ensures
        match r {
            Ok(call) => parse_fault(*inputs, refusal@) is None && exists|
                b: BallisticInputs,
            |
                reads_as(*inputs, refusal@, b) && call == imperial_zero_call(
                    b,
                    target_distance_yards,
                    target_height_inches,
                    wind_speed_mph,
                    wind_direction_deg,
                    temperature_f,
                    pressure_inhg,
                    humidity_pct,
                    altitude_ft,
                ),
            Err(e) => parse_fault(*inputs, refusal@) == Some(e@),
        },
{
    let mut bi: BallisticInputs = match ballistic_inputs_from_dict(inputs, refusal) {
        Ok(b) => b,
        Err(e) => return Err(e),
    };
    let ghost read = bi;
    bi.muzzle_velocity = scale(bi.muzzle_velocity, FPS_TO_MPS);
    bi.bullet_mass = scale(bi.bullet_mass, GRAINS_TO_KG);
    bi.bullet_diameter = scale(bi.bullet_diameter, INCHES_TO_METERS);
    bi.bullet_length = scale(bi.bullet_length, INCHES_TO_METERS);
    bi.twist_rate = scale(bi.twist_rate, INCHES_TO_METERS);
    bi.sight_height = scale(bi.sight_height, INCHES_TO_METERS);
    let call: ZeroCall = ZeroCall {
        inputs: bi,
        target_distance: scale(target_distance_yards, YARDS_TO_METERS),
        target_height: scale(target_height_inches, INCHES_TO_METERS),
        wind: WindConditions {
            speed: scale(wind_speed_mph, MPH_TO_MPS),
            direction: to_radians(wind_direction_deg),
            vertical_speed: Double::from_bits(ZERO),
        },
        atmosphere: AtmosphericConditions {
            temperature: to_celsius(temperature_f),
            pressure: scale(pressure_inhg, INHG_TO_HPA),
            humidity: humidity_pct,
            altitude: scale(altitude_ft, FEET_TO_METERS),
        },
    };
    assert(reads_as(*inputs, refusal@, read) && call == imperial_zero_call(
        read,
        target_distance_yards,
        target_height_inches,
        wind_speed_mph,
        wind_direction_deg,
        temperature_f,
        pressure_inhg,
        humidity_pct,
        altitude_ft,
    ));
    Ok(call)
}

} // verus!
