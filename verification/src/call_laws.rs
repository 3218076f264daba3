//! What the calls of the library give back, whatever they are given.

use vstd::prelude::*;
use crate::conditions::{atmosphere_of, standard_atmosphere, still_air, wind_of};
use crate::conditions::{AtmosphericConditions, PyAtmosphericConditions, PyWindConditions};
use crate::conditions::WindConditions;
use crate::dict::Dict;
use crate::double::Double;
use crate::exception::{Exception, ExceptionKind};
use crate::fast::{calculate_zero_angle, derivatives, fast_integrate, wind_query, DerivativesCall};
use crate::fast::{FastIntegrateCall, WindQuery, WindTuple};
use crate::inputs::{full_to_si, geometry_mass_to_si, parse_fault, si, si_geometry, zero};
use crate::inputs::BallisticInputs;
use crate::montecarlo::{run_monte_carlo, MonteCarloCall};
use crate::outcome_laws::{law_parameters_read_back, parameter_value};
use crate::py_inputs::{same_inputs, PyBallisticInputs};
use crate::run_laws::{law_unknown_parameter_is_ignored, law_wind_segments_keep_their_order};
use crate::run_laws::parameter_name;
use crate::sampling::{apply_parameter, arrival_at_target, full_solver_call, mc_inputs_to_si};
use crate::sampling::{point_at_range, station_request, Crossing, FullSolverCall, StationRequest};
use crate::solver::{auto_zero_inputs, read_wind_segments, zero_angle, AtmoSegment};
use crate::solver::{PyTrajectorySolver, WindSegment, ZeroCall};
use crate::trajectory::{PyTrajectoryPoint, PyTrajectoryResult, TrajectoryPoint, TrajectoryResult};
use crate::unit_laws::{law_factors_stand_for_their_units, law_scaled_measures};
use crate::unit_laws::{law_scaling_mirrors, law_small_numbers_stand_for_themselves};
use crate::unit_laws::{law_typical_values_stand_for_themselves, measures, stands_for};
use crate::units::{constant, DEGREES_TO_RADIANS, FEET_TO_METERS, FPS_TO_MPS, GRAINS_TO_KG};
use crate::units::{INCHES_TO_METERS, INHG_TO_HPA, KMH_TO_MPS, MPH_TO_MPS, YARDS_TO_METERS, ZERO};

verus! {

/// A reported point is in yards and feet per second, on its own side: two points on
/// opposite sides are reported on opposite sides, and alike but for that.
pub proof fn law_points_are_reported_on_their_side(
    p: &TrajectoryPoint,
    q: &TrajectoryPoint,
    height: Double,
    mass: Double,
    r: PyTrajectoryPoint,
    s: PyTrajectoryPoint,
)
    requires
        call_ensures(PyTrajectoryPoint::from_rust, (p, height, mass), r),
        call_ensures(PyTrajectoryPoint::from_rust, (q, height, mass), s),
        *q == (TrajectoryPoint { z: p.z.negated(), ..*p }),
        !p.z.nan(),
    ensures
        measures(r.x, p.x, 10000, 9144),
        measures(r.y, p.y.difference(height), 10000, 9144),
        measures(r.z, p.z, 10000, 9144),
        measures(r.velocity_fps, p.velocity_magnitude, 10000, 3048),
        r.time == p.time,
        s == (PyTrajectoryPoint { z: r.z.negated(), ..r }),
{
    law_factors_stand_for_their_units();
    law_scaled_measures(p.x, YARDS_TO_METERS, 9144, 10000);
    law_scaled_measures(p.y.difference(height), YARDS_TO_METERS, 9144, 10000);
    law_scaled_measures(p.z, YARDS_TO_METERS, 9144, 10000);
    law_scaled_measures(p.velocity_magnitude, FPS_TO_MPS, 3048, 10000);
    law_scaling_mirrors(p.z, YARDS_TO_METERS);
}

/// Every point of a trajectory is reported, in its order, by the report on points.
pub proof fn law_trajectories_report_their_points(
    t: TrajectoryResult,
    mass: Double,
    r: PyTrajectoryResult,
    i: int,
    p: PyTrajectoryPoint,
)
    requires
        call_ensures(PyTrajectoryResult::from_rust, (t, mass), r),
        0 <= i < t.points.len(),
        call_ensures(
            PyTrajectoryPoint::from_rust,
            (&t.points@[i], t.line_of_sight_height_m, mass),
            p,
        ),
    ensures
        r.points.len() == t.points.len(),
        r.points@[i] == p,
        r.time_of_flight == t.time_of_flight,
        r.transonic_mach == t.transonic_mach,
        r.sampled_points is Some <==> t.sampled_points is Some,
{
}

/// The rows of the winds are read in their order, each number in its place: the speed,
/// the angle, the distance and, if there are four, the updraft.
pub proof fn law_wind_rows_are_read_in_order(
    rows: &Vec<Result<Vec<Double>, Exception>>,
    r: Result<Vec<WindSegment>, Exception>,
    i: int,
)
    requires
        call_ensures(read_wind_segments, (rows,), r),
        0 <= i < rows.len(),
    ensures
        r matches Ok(s) ==> {
            &&& s.len() == rows.len()
            &&& rows@[i] matches Ok(v) && {
                &&& v.len() == 3 || v.len() == 4
                &&& s@[i].speed_kmh == v@[0]
                &&& s@[i].angle_deg == v@[1]
                &&& s@[i].until_m == v@[2]
                &&& v.len() == 4 ==> s@[i].vertical_mps == v@[3]
                &&& v.len() == 3 ==> s@[i].vertical_mps == constant(ZERO)
            }
        },
{
    if let Ok(s) = r {
        law_wind_segments_keep_their_order(rows@, s@, i);
    }
}

/// A zeroing request takes the wind that is given, or else that of the inputs, and the
/// atmosphere that is given, or else that of the inputs, each apart from the other; the
/// distance is in yards and the height in inches.
pub proof fn law_zeroing_takes_what_is_given(
    inputs: &Dict,
    refusal: &str,
    yards: Double,
    inches: Double,
    wind: Option<PyWindConditions>,
    air: Option<PyAtmosphericConditions>,
    r: Result<ZeroCall, Exception>,
)
    requires
        call_ensures(auto_zero_inputs, (inputs, refusal, yards, inches, wind, air), r),
    ensures
        r is Ok <==> parse_fault(*inputs, refusal@) is None,
        r matches Ok(c) ==> {
            &&& wind matches Some(w) ==> c.wind == w.si()
            &&& wind is None ==> c.wind == wind_of(c.inputs)
            &&& air matches Some(a) ==> c.atmosphere == a.si()
            &&& air is None ==> c.atmosphere == atmosphere_of(c.inputs)
            &&& measures(c.target_distance, yards, 9144, 10000)
            &&& measures(c.target_height, inches, 254, 10000)
        },
{
    law_factors_stand_for_their_units();
    law_scaled_measures(yards, YARDS_TO_METERS, 9144, 10000);
    law_scaled_measures(inches, INCHES_TO_METERS, 254, 10000);
}

/// A wind that changes with altitude is asked for with the first wind at the surface,
/// whatever winds follow it, and every wind in its order; one that does not change is
/// asked for by its segments.
pub proof fn law_wind_requests_start_at_the_first_wind(
    b: &BallisticInputs,
    winds: &Vec<WindTuple>,
    q: WindQuery,
    i: int,
)
    requires
        call_ensures(wind_query, (b, winds), q),
    ensures
        q is Sheared <==> b.enable_wind_shear && b.wind_shear_model@ != "none"@,
        q matches WindQuery::Sheared { model, surface, winds: all, altitude } ==> {
            &&& altitude == b.altitude
            &&& all.len() == winds.len()
            &&& surface is None <==> winds.len() == 0
            &&& surface matches Some(s) ==> {
                &&& measures(s.0, winds@[0].0, 1000, 3600)
                &&& s.1 == winds@[0].1
                &&& s.0 == all@[0].0
            }
            &&& 0 <= i < winds.len() ==> {
                &&& measures(all@[i].0, winds@[i].0, 1000, 3600)
                &&& all@[i].1 == winds@[i].1
                &&& all@[i].2 == winds@[i].2
            }
        },
        q matches WindQuery::Uniform { segments } ==> {
            &&& segments.len() == winds.len()
            &&& 0 <= i < winds.len() ==> {
                &&& segments@[i].speed_kmh == winds@[i].0
                &&& segments@[i].angle_deg == winds@[i].1
                &&& segments@[i].until_m == winds@[i].2
                &&& segments@[i].vertical_mps == constant(ZERO)
            }
        },
{
    law_factors_stand_for_their_units();
    if winds.len() > 0 {
        law_scaled_measures(winds@[0].0, KMH_TO_MPS, 1000, 3600);
    }
    if 0 <= i < winds.len() {
        law_scaled_measures(winds@[i].0, KMH_TO_MPS, 1000, 3600);
    }
}

/// Derivatives are asked for of six numbers, in the air of four, with the numbers in
/// their order; a state or an air of another length is refused before the dictionary is
/// read.
pub proof fn law_derivatives_are_of_the_state(
    state: &Vec<Double>,
    inputs: &Dict,
    refusal: &str,
    winds: &Vec<WindTuple>,
    air: &Vec<Double>,
    r: Result<DerivativesCall, Exception>,
)
    requires
        call_ensures(derivatives, (state, inputs, refusal, winds, air), r),
    ensures
        r is Ok <==> state.len() == 6 && air.len() == 4 && parse_fault(*inputs, refusal@) is None,
        state.len() != 6 ==> (r matches Err(e) && e.kind == ExceptionKind::ValueError && e.message@
            == "State array must have 6 elements"@),
        state.len() == 6 && air.len() != 4 ==> (r matches Err(e) && e.kind
            == ExceptionKind::ValueError && e.message@
            == "Atmospheric parameters must have 4 elements"@),
        r matches Ok(c) ==> {
            let (p, v, a) = (c.state.position, c.state.velocity, c.atmos);
            &&& seq![p.0, p.1, p.2, v.0, v.1, v.2] == state@
            &&& seq![a.0, a.1, a.2, a.3] == air@
            &&& c.wind is Sheared <==> c.inputs.enable_wind_shear && c.inputs.wind_shear_model@
                != "none"@
        },
{
    if state.len() == 6 {
        let s = state@;
        assert(seq![s[0], s[1], s[2], s[3], s[4], s[5]] =~= s);
    }
    if air.len() == 4 {
        let a = air@;
        assert(seq![a[0], a[1], a[2], a[3]] =~= a);
    }
}

/// An integration is asked for from six numbers, in the air of four, with the numbers in
/// their order; a dictionary that cannot be read is complained of first.
pub proof fn law_integrations_start_from_the_state(
    inputs: &Dict,
    refusal: &str,
    winds: &Vec<WindTuple>,
    horiz: Double,
    vert: Double,
    state: &Vec<Double>,
    span: (Double, Double),
    air: &Vec<Double>,
    zones: Vec<AtmoSegment>,
    r: Result<FastIntegrateCall, Exception>,
)
    requires
        call_ensures(
            fast_integrate,
            (inputs, refusal, winds, horiz, vert, state, span, air, zones),
            r,
        ),
    ensures
        r is Ok <==> state.len() == 6 && air.len() == 4 && parse_fault(*inputs, refusal@) is None,
        parse_fault(*inputs, refusal@) matches Some(f) ==> (r matches Err(e) && e@ == f),
        r matches Ok(c) ==> {
            let (p, v, a) = (c.initial_state.position, c.initial_state.velocity, c.atmo_params);
            &&& seq![p.0, p.1, p.2, v.0, v.1, v.2] == state@
            &&& seq![a.0, a.1, a.2, a.3] == air@
            &&& c.horiz == horiz && c.vert == vert && c.t_span == span
            &&& c.wind_segments.len() == winds.len()
            &&& zones.len() == 0 ==> c.atmo_segments is None
            &&& zones.len() > 0 ==> c.atmo_segments == Some(zones)
        },
{
    if state.len() == 6 {
        let s = state@;
        assert(seq![s[0], s[1], s[2], s[3], s[4], s[5]] =~= s);
    }
    if air.len() == 4 {
        let a = air@;
        assert(seq![a[0], a[1], a[2], a[3]] =~= a);
    }
}

/// The conversion of mass and size is a part of the full one, and leaves everything
/// else as it is.
pub proof fn law_geometry_is_a_part_of_the_conversion(b: BallisticInputs)
    ensures
        ({
            let (g, s) = (si_geometry(b), si(b));
            &&& g.bullet_mass == s.bullet_mass && g.bullet_diameter == s.bullet_diameter
            &&& g.bullet_length == s.bullet_length && g.caliber_inches == s.caliber_inches
            &&& g.weight_grains == s.weight_grains
            &&& g.muzzle_velocity == b.muzzle_velocity && g.twist_rate == b.twist_rate
            &&& g.altitude == b.altitude && g.target_distance == b.target_distance
            &&& g.wind_speed == b.wind_speed && g.wind_angle == b.wind_angle
            &&& g.humidity == b.humidity && g.temperature == b.temperature
            &&& g.pressure == b.pressure && g.muzzle_angle == b.muzzle_angle
            &&& g.shooting_angle == b.shooting_angle && g.cant_angle == b.cant_angle
            &&& g.sight_height == b.sight_height && g.muzzle_height == b.muzzle_height
            &&& g.target_height == b.target_height && g.bc_value == b.bc_value
            &&& g.bc_type == b.bc_type && g.latitude == b.latitude
            &&& g.shot_azimuth == b.shot_azimuth && g.is_twist_right == b.is_twist_right
            &&& g.wind_shear_model == b.wind_shear_model
            &&& g.enable_wind_shear == b.enable_wind_shear
        }),
{
}

/// A sampling takes the wind and the atmosphere that are given, or else those of the
/// inputs, each apart from the other.
pub proof fn law_samplings_take_what_is_given(
    inputs: &Dict,
    refusal: &str,
    params: &Dict,
    wind: Option<PyWindConditions>,
    air: Option<PyAtmosphericConditions>,
    r: Result<MonteCarloCall, Exception>,
)
    requires
        call_ensures(run_monte_carlo, (inputs, refusal, params, wind, air), r),
    ensures
        parse_fault(*inputs, refusal@) matches Some(f) ==> (r matches Err(e) && e@ == f),
        r matches Ok(c) ==> {
            &&& wind matches Some(w) ==> c.base_wind == w.si()
            &&& wind is None ==> c.base_wind == wind_of(c.inputs)
            &&& air matches Some(a) ==> {
                &&& c.inputs.temperature == a.si().temperature
                &&& c.inputs.pressure == a.si().pressure
                &&& c.inputs.altitude == a.si().altitude
                &&& measures(c.inputs.humidity, a.si().humidity, 1, 100)
            }
        },
{
    law_factors_stand_for_their_units();
    if let Some(a) = air {
        law_scaled_measures(a.si().humidity, crate::units::HUNDRED, 100, 1);
    }
}

/// Winds and atmospheres hold the numbers that they are made of; without any there is no
/// wind, and the air is at 59 degrees Fahrenheit, 29.92 inches of mercury and 50 percent
/// at sea level.
pub proof fn law_conditions_hold_their_numbers(
    x: Double,
    y: Double,
    z: Double,
    t: Double,
    w: PyWindConditions,
    a: PyAtmosphericConditions,
)
    requires
        call_ensures(PyWindConditions::new, (x, y, z), w),
        call_ensures(PyAtmosphericConditions::new, (x, y, z, t), a),
    ensures
        seq![w.speed_mph, w.direction_degrees, w.vertical_speed_mps] == seq![x, y, z],
        seq![a.temperature_f, a.pressure_inhg, a.humidity_percent, a.altitude_feet] == seq![
            x,
            y,
            z,
            t,
        ],
        still_air().speed_mph.zero() && still_air().direction_degrees.zero(),
        still_air().vertical_speed_mps.zero(),
        stands_for(standard_atmosphere().temperature_f.bits, 59, 1),
        stands_for(standard_atmosphere().pressure_inhg.bits, 2992, 100),
        stands_for(standard_atmosphere().humidity_percent.bits, 50, 1),
        standard_atmosphere().altitude_feet.zero(),
{
    law_typical_values_stand_for_themselves();
    law_small_numbers_stand_for_themselves();
}

/// A wind is converted from miles per hour and degrees, its updraft as it is.
pub proof fn law_winds_are_converted(w: &PyWindConditions, r: WindConditions)
    requires
        call_ensures(PyWindConditions::to_rust, (w,), r),
    ensures
        measures(r.speed, w.speed_mph, 44704, 100000),
        measures(r.direction, w.direction_degrees, 31415926535897932, 1800000000000000000),
        r.vertical_speed == w.vertical_speed_mps,
{
    law_factors_stand_for_their_units();
    law_scaled_measures(w.speed_mph, MPH_TO_MPS, 44704, 100000);
    law_scaled_measures(
        w.direction_degrees,
        DEGREES_TO_RADIANS,
        31415926535897932,
        1800000000000000000,
    );
}

/// An atmosphere is converted from inches of mercury and feet, its humidity as it is.
pub proof fn law_atmospheres_are_converted(a: &PyAtmosphericConditions, r: AtmosphericConditions)
    requires
        call_ensures(PyAtmosphericConditions::to_rust, (a,), r),
    ensures
        measures(r.pressure, a.pressure_inhg, 338639, 10000),
        measures(r.altitude, a.altitude_feet, 3048, 10000),
        r.humidity == a.humidity_percent,
{
    law_factors_stand_for_their_units();
    law_scaled_measures(a.pressure_inhg, INHG_TO_HPA, 338639, 10000);
    law_scaled_measures(a.altitude_feet, FEET_TO_METERS, 3048, 10000);
}

/// An angle that was found is given back as it is, and else a complaint is raised.
pub proof fn law_angles_are_given_back(
    yards: &str,
    found: Result<Double, String>,
    r: Result<Double, Exception>,
)
    requires
        call_ensures(zero_angle, (yards, found), r),
    ensures
        found matches Ok(a) ==> r == Ok::<Double, Exception>(a),
        found is Err ==> (r matches Err(e) && e.kind == ExceptionKind::RuntimeError),
{
}

/// What a run is solved for and where it arrives are those of its inputs: the wind, the
/// atmosphere and the distance.
pub proof fn law_runs_are_of_their_inputs(
    b: &BallisticInputs,
    call: Option<FullSolverCall>,
    solved: &Option<TrajectoryResult>,
    arrived: Option<Crossing>,
    read: Option<Crossing>,
    t: TrajectoryResult,
)
    requires
        call_ensures(full_solver_call, (b,), call),
        call_ensures(arrival_at_target, (b, solved), arrived),
        *solved == Some(t),
        call_ensures(point_at_range, (&t.points, b.target_distance), read),
    ensures
        call matches Some(c) ==> c.wind == wind_of(*b) && c.atmosphere == atmosphere_of(*b),
        call is Some <==> b.target_distance.finite() && constant(ZERO).below(b.target_distance),
        arrived is Some ==> arrived == read,
{
}

/// What is asked of the station is the inputs' own air and twist, and the time of the
/// arrival.
pub proof fn law_station_requests_are_of_the_arrival(
    b: &BallisticInputs,
    arrived: &Crossing,
    r: StationRequest,
)
    requires
        call_ensures(station_request, (b, arrived), r),
    ensures
        r.altitude == b.altitude,
        r.temperature == b.temperature,
        r.pressure == b.pressure,
        r.humidity_percent == atmosphere_of(*b).humidity,
        r.time == arrived.time,
        r.is_twist_right == b.is_twist_right,
{
}

/// A new solver works on the inputs it is given, in the wind and the atmosphere that are
/// given, or else in still and standard air, with nothing set.
pub proof fn law_new_solvers_are_as_given(
    inputs: &PyBallisticInputs,
    wind: Option<PyWindConditions>,
    air: Option<PyAtmosphericConditions>,
    s: PyTrajectorySolver,
)
    requires
        call_ensures(PyTrajectorySolver::new, (inputs, wind, air), s),
    ensures
        same_inputs(s.inputs, inputs.inner),
        s.bullet_mass_kg == inputs.inner.bullet_mass,
        wind matches Some(w) ==> s.wind == w.si(),
        wind is None ==> s.wind == still_air().si(),
        air matches Some(a) ==> s.atmosphere == a.si(),
        air is None ==> s.atmosphere == standard_atmosphere().si(),
        s.max_range is None && s.time_step is None,
        s.wind_segments.len() == 0 && s.atmo_segments.len() == 0,
{
    assert(s.settings().wind_segments == s.wind_segments@);
    assert(s.settings().atmo_segments == s.atmo_segments@);
}

/// A range or a time step that is set is held, and nothing else changes.
pub proof fn law_ranges_and_steps_are_set_apart(
    s: &mut PyTrajectorySolver,
    t: &mut PyTrajectorySolver,
    x: Double,
)
    requires
        call_ensures(PyTrajectorySolver::set_max_range, (s, x), ()),
        call_ensures(PyTrajectorySolver::set_time_step, (t, x), ()),
    ensures
        final(s).max_range == Some(x),
        final(s).time_step == old(s).time_step,
        final(t).time_step == Some(x),
        final(t).max_range == old(t).max_range,
        final(s).inputs == old(s).inputs && final(t).inputs == old(t).inputs,
        final(s).wind == old(s).wind && final(t).wind == old(t).wind,
        final(s).atmosphere == old(s).atmosphere && final(t).atmosphere == old(t).atmosphere,
        final(s).bullet_mass_kg == old(s).bullet_mass_kg,
        final(t).bullet_mass_kg == old(t).bullet_mass_kg,
        final(s).wind_segments@ == old(s).wind_segments@,
        final(t).wind_segments@ == old(t).wind_segments@,
        final(s).atmo_segments@ == old(s).atmo_segments@,
        final(t).atmo_segments@ == old(t).atmo_segments@,
{
    let (a, b) = (final(s).settings(), old(s).settings());
    let (c, d) = (final(t).settings(), old(t).settings());
    assert(a == b.with_max_range(x) && c == d.with_time_step(x));
}

/// Winds that are set are those of the rows, and nothing else changes; if a row is
/// malformed nothing changes at all.
pub proof fn law_wind_segments_are_set_apart(
    s: &mut PyTrajectorySolver,
    rows: &Vec<Result<Vec<Double>, Exception>>,
    r: Result<(), Exception>,
    read: Result<Vec<WindSegment>, Exception>,
)
    requires
        call_ensures(PyTrajectorySolver::set_wind_segments, (s, rows), r),
        call_ensures(read_wind_segments, (rows,), read),
    ensures
        r is Ok <==> read is Ok,
        r is Err ==> *final(s) == *old(s),
        read matches Ok(w) ==> {
            &&& final(s).wind_segments@ == w@
            &&& final(s).wind == old(s).wind && final(s).atmosphere == old(s).atmosphere
            &&& final(s).max_range == old(s).max_range && final(s).time_step == old(s).time_step
            &&& final(s).inputs == old(s).inputs
            &&& final(s).bullet_mass_kg == old(s).bullet_mass_kg
            &&& final(s).atmo_segments@ == old(s).atmo_segments@
        },
{
    if let Ok(w) = read {
        let (a, b) = (final(s).settings(), old(s).settings());
        assert(a == b.with_wind_segments(w@));
    }
}

/// Atmospheres that are set are held, and nothing else changes.
pub proof fn law_atmo_segments_are_set_apart(s: &mut PyTrajectorySolver, zones: Vec<AtmoSegment>)
    requires
        call_ensures(PyTrajectorySolver::set_atmo_segments, (s, zones), ()),
    ensures
        final(s).atmo_segments@ == zones@,
        final(s).wind_segments@ == old(s).wind_segments@,
        final(s).wind == old(s).wind && final(s).atmosphere == old(s).atmosphere,
        final(s).max_range == old(s).max_range && final(s).time_step == old(s).time_step,
        final(s).inputs == old(s).inputs,
        final(s).bullet_mass_kg == old(s).bullet_mass_kg,
{
    let (a, b) = (final(s).settings(), old(s).settings());
    assert(a == b.with_atmo_segments(zones@));
}

/// A parameter that is set in the inputs of a run is held there.
pub proof fn law_parameters_are_set_apart(
    b: &mut BallisticInputs,
    name: &str,
    other: Seq<char>,
    x: Double,
)
    requires
        call_ensures(apply_parameter, (b, name, x), ()),
    ensures
        parameter_name(name@) ==> parameter_value(*final(b), name@) == Some(x),
        other != name@ ==> parameter_value(*final(b), other) == parameter_value(*old(b), other),
        !parameter_name(name@) ==> *final(b) == *old(b),
{
    law_parameters_read_back(*old(b), name@, other, x);
    if !parameter_name(name@) {
        law_unknown_parameter_is_ignored(*old(b), name@, x);
    }
}

/// Inputs are converted in place: all of them, those of a run, or mass and size alone.
pub proof fn law_inputs_are_converted_in_place(
    b: &mut BallisticInputs,
    c: &mut BallisticInputs,
    d: &mut BallisticInputs,
)
    requires
        call_ensures(full_to_si, (b,), ()),
        call_ensures(mc_inputs_to_si, (c,), ()),
        call_ensures(geometry_mass_to_si, (d,), ()),
    ensures
        measures(final(b).muzzle_velocity, old(b).muzzle_velocity, 3048, 10000),
        measures(final(b).bullet_mass, old(b).bullet_mass, 6479891, 100000000000),
        measures(final(c).muzzle_velocity, old(c).muzzle_velocity, 3048, 10000),
        measures(final(c).bullet_mass, old(c).bullet_mass, 6479891, 100000000000),
        measures(final(d).bullet_mass, old(d).bullet_mass, 6479891, 100000000000),
        final(d).muzzle_velocity == old(d).muzzle_velocity,
        final(c).sight_height.zero() && final(c).muzzle_height.zero(),
{
    law_factors_stand_for_their_units();
    law_scaled_measures(old(b).muzzle_velocity, FPS_TO_MPS, 3048, 10000);
    law_scaled_measures(old(c).muzzle_velocity, FPS_TO_MPS, 3048, 10000);
    law_scaled_measures(old(b).bullet_mass, GRAINS_TO_KG, 6479891, 100000000000);
    law_scaled_measures(old(c).bullet_mass, GRAINS_TO_KG, 6479891, 100000000000);
    law_scaled_measures(old(d).bullet_mass, GRAINS_TO_KG, 6479891, 100000000000);
}

/// A zeroing in imperial units is in the wind and the air that are given, without an
/// updraft, and converts the size, the twist, the mass and the speed of the bullet.
pub proof fn law_imperial_zeroing_converts_what_is_given(
    inputs: &Dict,
    refusal: &str,
    yards: Double,
    inches: Double,
    mph: Double,
    degrees: Double,
    fahrenheit: Double,
    inhg: Double,
    percent: Double,
    feet: Double,
    r: Result<ZeroCall, Exception>,
)
    requires
        call_ensures(
            calculate_zero_angle,
            (inputs, refusal, yards, inches, mph, degrees, fahrenheit, inhg, percent, feet),
            r,
        ),
    ensures
        r is Ok <==> parse_fault(*inputs, refusal@) is None,
        r matches Ok(c) ==> {
            &&& measures(c.target_distance, yards, 9144, 10000)
            &&& measures(c.target_height, inches, 254, 10000)
            &&& measures(c.wind.speed, mph, 44704, 100000)
            &&& measures(c.wind.direction, degrees, 31415926535897932, 1800000000000000000)
            &&& c.wind.vertical_speed == constant(ZERO)
            &&& measures(c.atmosphere.pressure, inhg, 338639, 10000)
            &&& measures(c.atmosphere.altitude, feet, 3048, 10000)
            &&& c.atmosphere.humidity == percent
        },
{
    law_factors_stand_for_their_units();
    law_scaled_measures(yards, YARDS_TO_METERS, 9144, 10000);
    law_scaled_measures(inches, INCHES_TO_METERS, 254, 10000);
    law_scaled_measures(mph, MPH_TO_MPS, 44704, 100000);
    law_scaled_measures(degrees, DEGREES_TO_RADIANS, 31415926535897932, 1800000000000000000);
    law_scaled_measures(inhg, INHG_TO_HPA, 338639, 10000);
    law_scaled_measures(feet, FEET_TO_METERS, 3048, 10000);
}

} // verus!
