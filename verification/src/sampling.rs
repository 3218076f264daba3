//! Monte Carlo samples: the parameters drawn for one run, and what the full
//! solver makes of it.

use vstd::prelude::*;
use crate::conditions::{atmosphere_of, percent, wind_of, AtmosphericConditions, WindConditions};
use crate::double::Double;
use crate::inputs::{geometry_mass_to_si, si_geometry, BallisticInputs};
use crate::py_inputs::same_inputs;
use crate::text::same_text;
use crate::trajectory::{TrajectoryPoint, TrajectoryResult};
use crate::units::{constant, radians, scale, scaled, to_radians, unscale, unscaled};
use crate::units::{FEET_TO_METERS, FPS_TO_MPS, HUNDRED, THOUSAND, TWO, YARDS_TO_METERS, ZERO};

verus! {

/// 0.2777778, km/h in m/s
pub const SAMPLE_KMH_TO_MPS: u64 = 0x3fd1_c71c_89a3_8251;

/// 0.999, the share of the distance that a run has to cover
pub const REACH: u64 = 0x3fef_f7ce_d916_872b;

/// 1e-10
pub const TINY: u64 = 0x3ddb_7cdf_d9d7_bdbb;

/// The value of a parameter after the one called `name` was set.
#[verifier::opaque]
pub open spec fn set_if(name: Seq<char>, own: Seq<char>, value: Double, before: Double) -> Double {
    if name == own {
        value
    } else {
        before
    }
}

fn choose_value(name: &str, own: &str, value: Double, before: Double) -> (r: Double)
    ensures
        r == set_if(name@, own@, value, before),
{
    reveal(set_if);
    if same_text(name, own) {
        value
    } else {
        before
    }
}

/// The inputs with the parameter called `name` set to a value.  A name that no
/// parameter has changes nothing.
pub open spec fn with_parameter(b: BallisticInputs, name: Seq<char>, value: Double) -> BallisticInputs {
    BallisticInputs {
        bc_value: set_if(name, "bc_value"@, value, b.bc_value),
        bullet_mass: set_if(name, "bullet_mass"@, value, b.bullet_mass),
        muzzle_velocity: set_if(name, "muzzle_velocity"@, value, b.muzzle_velocity),
        wind_speed: set_if(name, "wind_speed"@, value, b.wind_speed),
        wind_angle: set_if(name, "wind_angle"@, value, b.wind_angle),
        target_distance: set_if(name, "target_distance"@, value, b.target_distance),
        muzzle_angle: set_if(name, "muzzle_angle"@, value, b.muzzle_angle),
        altitude: set_if(name, "altitude"@, value, b.altitude),
        temperature: set_if(name, "temperature"@, value, b.temperature),
        pressure: set_if(name, "pressure"@, value, b.pressure),
        humidity: set_if(name, "humidity"@, value, b.humidity),
        twist_rate: set_if(name, "twist_rate"@, value, b.twist_rate),
        bullet_length: set_if(name, "bullet_length"@, value, b.bullet_length),
        bullet_diameter: set_if(name, "bullet_diameter"@, value, b.bullet_diameter),
        latitude: if name == "latitude"@ {
            Some(value)
        } else {
            b.latitude
        },
        ..b
    }
}

/// Sets the parameter called `name`; an unknown name is ignored.
pub fn apply_parameter(inp: &mut BallisticInputs, name: &str, value: Double)
    ensures
        *final(inp) == with_parameter(*old(inp), name@, value),
{
    inp.bc_value = choose_value(name, "bc_value", value, inp.bc_value);
    inp.bullet_mass = choose_value(name, "bullet_mass", value, inp.bullet_mass);
    inp.muzzle_velocity = choose_value(name, "muzzle_velocity", value, inp.muzzle_velocity);
    inp.wind_speed = choose_value(name, "wind_speed", value, inp.wind_speed);
    inp.wind_angle = choose_value(name, "wind_angle", value, inp.wind_angle);
    inp.target_distance = choose_value(name, "target_distance", value, inp.target_distance);
    inp.muzzle_angle = choose_value(name, "muzzle_angle", value, inp.muzzle_angle);
    inp.altitude = choose_value(name, "altitude", value, inp.altitude);
    inp.temperature = choose_value(name, "temperature", value, inp.temperature);
    inp.pressure = choose_value(name, "pressure", value, inp.pressure);
    inp.humidity = choose_value(name, "humidity", value, inp.humidity);
    inp.twist_rate = choose_value(name, "twist_rate", value, inp.twist_rate);
    inp.bullet_length = choose_value(name, "bullet_length", value, inp.bullet_length);
    inp.bullet_diameter = choose_value(name, "bullet_diameter", value, inp.bullet_diameter);
    let latitude: Option<Double> = if same_text(name, "latitude") {
        Some(value)
    } else {
        inp.latitude
    };
    inp.latitude = latitude;
}

/// The inputs of a run in SI units and radians, the humidity as a fraction, and
/// the drop measured from the bore: sight, muzzle and target heights are zero.
pub open spec fn sample_si(b: BallisticInputs) -> BallisticInputs {
    BallisticInputs {
        target_distance: scaled(b.target_distance, YARDS_TO_METERS),
        muzzle_velocity: scaled(b.muzzle_velocity, FPS_TO_MPS),
        altitude: scaled(b.altitude, FEET_TO_METERS),
        sight_height: constant(ZERO),
        muzzle_height: constant(ZERO),
        target_height: constant(ZERO),
        wind_speed: scaled(b.wind_speed, SAMPLE_KMH_TO_MPS),
        wind_angle: radians(b.wind_angle),
        muzzle_angle: radians(b.muzzle_angle),
        humidity: unscaled(b.humidity, HUNDRED),
        ..si_geometry(b)
    }
}

/// Converts the inputs of a run to SI units, the drop measured from the bore.
pub fn mc_inputs_to_si(i: &mut BallisticInputs)
    ensures
        *final(i) == sample_si(*old(i)),
{
    geometry_mass_to_si(i);
    i.target_distance = scale(i.target_distance, YARDS_TO_METERS);
    i.muzzle_velocity = scale(i.muzzle_velocity, FPS_TO_MPS);
    i.altitude = scale(i.altitude, FEET_TO_METERS);
    i.sight_height = Double::from_bits(ZERO);
    i.muzzle_height = Double::from_bits(ZERO);
    i.target_height = Double::from_bits(ZERO);
    i.wind_speed = scale(i.wind_speed, SAMPLE_KMH_TO_MPS);
    i.wind_angle = to_radians(i.wind_angle);
    i.muzzle_angle = to_radians(i.muzzle_angle);
    i.humidity = unscale(i.humidity, HUNDRED);
}

/// The inputs with the first `n` named parameters set to the values of a row.
/// A name without a value in the row changes nothing.
pub open spec fn with_parameters(
    b: BallisticInputs,
    names: Seq<String>,
    row: Seq<Double>,
    n: int,
) -> BallisticInputs
    decreases n,
{
    if n <= 0 {
        b
    } else if n <= row.len() {
        with_parameter(with_parameters(b, names, row, n - 1), names[n - 1]@, row[n - 1])
    } else {
        with_parameters(b, names, row, n - 1)
    }
}

/// The inputs of one run, in SI units.
pub open spec fn sample_of(b: BallisticInputs, names: Seq<String>, row: Seq<Double>) -> BallisticInputs {
    sample_si(with_parameters(b, names, row, names.len() as int))
}

/// Setting a parameter keeps sameness.
proof fn lemma_same_parameter(
    a: BallisticInputs,
    b: BallisticInputs,
    name: Seq<char>,
    value: Double,
)
    requires
        same_inputs(a, b),
    ensures
        same_inputs(with_parameter(a, name, value), with_parameter(b, name, value)),
{
}

/// Setting parameters keeps sameness.
proof fn lemma_same_parameters(
    a: BallisticInputs,
    b: BallisticInputs,
    names: Seq<String>,
    row: Seq<Double>,
    n: int,
)
    requires
        same_inputs(a, b),
    ensures
        same_inputs(with_parameters(a, names, row, n), with_parameters(b, names, row, n)),
    decreases n,
{
    if n > 0 {
        lemma_same_parameters(a, b, names, row, n - 1);
        if n <= row.len() {
            lemma_same_parameter(
                with_parameters(a, names, row, n - 1),
                with_parameters(b, names, row, n - 1),
                names[n - 1]@,
                row[n - 1],
            );
        }
    }
}

/// Conversion keeps sameness.
proof fn lemma_same_si(a: BallisticInputs, b: BallisticInputs)
    requires
        same_inputs(a, b),
    ensures
        same_inputs(sample_si(a), sample_si(b)),
{
}

/// The inputs of one run: the base inputs with the row's values set, in SI units.
pub fn sample_inputs(base: &BallisticInputs, names: &Vec<String>, row: &Vec<Double>) -> (r:
    BallisticInputs)
    ensures
        same_inputs(r, sample_of(*base, names@, row@)),
{
    let mut ri: BallisticInputs = base.copy();
    let ghost start = ri;
    let mut j: usize = 0;
    while j < names.len()
        invariant
            j <= names.len(),
            ri == with_parameters(start, names@, row@, j as int),
        decreases names.len() - j,
    {
        if j < row.len() {
            apply_parameter(&mut ri, names[j].as_str(), row[j]);
        }
        j = j + 1;
    }
    proof {
        lemma_same_parameters(start, *base, names@, row@, names.len() as int);
        lemma_same_si(ri, with_parameters(*base, names@, row@, names.len() as int));
    }
    mc_inputs_to_si(&mut ri);
    ri
}

/// What a trajectory is like at a downrange distance.
#[derive(Clone, Copy, Debug, PartialEq, Eq, Structural)]
pub struct Crossing {
    pub y: Double,
    pub z: Double,
    pub velocity: Double,
    pub energy: Double,
    pub time: Double,
}

/// A point itself.
pub open spec fn crossing_at(p: TrajectoryPoint) -> Crossing {
    Crossing {
        y: p.y,
        z: p.z,
        velocity: p.velocity_magnitude,
        energy: p.kinetic_energy,
        time: p.time,
    }
}

/// The value a share `t` of the way from `a` to `b`.
pub open spec fn blend(a: Double, b: Double, t: Double) -> Double {
    a.sum(t.product(b.difference(a)))
}

/// The distance lies between two points, ends included.
pub open spec fn between(p1: TrajectoryPoint, p2: TrajectoryPoint, range: Double) -> bool {
    p1.x.at_most(range) && range.at_most(p2.x)
}

/// What holds between two points: linear interpolation, or the first point where
/// the two are hardly apart.
pub open spec fn crossing_between(p1: TrajectoryPoint, p2: TrajectoryPoint, range: Double) -> Crossing {
    let dx = p2.x.difference(p1.x);
    let t = range.difference(p1.x).quotient(dx);
    if dx.absolute().below(constant(TINY)) {
        crossing_at(p1)
    } else {
        Crossing {
            y: blend(p1.y, p2.y, t),
            z: blend(p1.z, p2.z, t),
            velocity: blend(p1.velocity_magnitude, p2.velocity_magnitude, t),
            energy: blend(p1.kinetic_energy, p2.kinetic_energy, t),
            time: blend(p1.time, p2.time, t),
        }
    }
}

/// What a trajectory is like at a distance: that of the first two neighbours
/// that it lies between, or else that of the last point.
pub open spec fn crossing(points: Seq<TrajectoryPoint>, range: Double) -> Option<Crossing>
    decreases points.len(),
{
    if points.len() == 0 {
        None
    } else if points.len() == 1 {
        Some(crossing_at(points[0]))
    } else if between(points[0], points[1], range) {
        Some(crossing_between(points[0], points[1], range))
    } else {
        crossing(points.drop_first(), range)
    }
}

fn blended(a: Double, b: Double, t: Double) -> (r: Double)
    ensures
        r == blend(a, b, t),
{
    a.plus(t.times(b.minus(a)))
}

fn read_point(p: &TrajectoryPoint) -> (r: Crossing)
    ensures
        r == crossing_at(*p),
{
    Crossing {
        y: p.y,
        z: p.z,
        velocity: p.velocity_magnitude,
        energy: p.kinetic_energy,
        time: p.time,
    }
}

/// Reads the trajectory at a downrange distance.
pub fn point_at_range(points: &Vec<TrajectoryPoint>, target_range: Double) -> (r: Option<Crossing>)
    ensures
        r == crossing(points@, target_range),
{
    if points.len() == 0 {
        return None;
    }
    let mut i: usize = 0;
    assert(points@.skip(0) == points@);
    while i + 1 < points.len()
        invariant
            i < points.len(),
            crossing(points@, target_range) == crossing(points@.skip(i as int), target_range),
        decreases points.len() - i,
    {
        let p1: &TrajectoryPoint = &points[i];
        let p2: &TrajectoryPoint = &points[i + 1];
        if p1.x.le(target_range) && target_range.le(p2.x) {
            let dx: Double = p2.x.minus(p1.x);
            if dx.abs().lt(Double::from_bits(TINY)) {
                return Some(read_point(p1));
            }
            let t: Double = target_range.minus(p1.x).over(dx);
            return Some(
                Crossing {
                    y: blended(p1.y, p2.y, t),
                    z: blended(p1.z, p2.z, t),
                    velocity: blended(p1.velocity_magnitude, p2.velocity_magnitude, t),
                    energy: blended(p1.kinetic_energy, p2.kinetic_energy, t),
                    time: blended(p1.time, p2.time, t),
                },
            );
        }
        assert(points@.skip(i as int).drop_first() == points@.skip(i + 1));
        i = i + 1;
    }
    Some(read_point(&points[i]))
}

/// A request to solve one run: the wind, the atmosphere and how far to go.
#[derive(Clone, Copy, Debug, PartialEq, Eq, Structural)]
pub struct FullSolverCall {
    pub wind: WindConditions,
    pub atmosphere: AtmosphericConditions,
    pub max_range: Double,
}

/// Twice the distance, and never less than twice a kilometer.
pub open spec fn room_for(distance: Double) -> Double {
    (if distance.below(constant(THOUSAND)) {
        constant(THOUSAND)
    } else {
        distance
    }).product(constant(TWO))
}

/// A distance that a run can be solved for: finite and positive.
pub open spec fn solvable(distance: Double) -> bool {
    distance.finite() && constant(ZERO).below(distance)
}

/// The request to solve one run, if its distance can be solved for.
pub open spec fn run_call(ri: BallisticInputs) -> Option<FullSolverCall> {
    if solvable(ri.target_distance) {
        Some(
            FullSolverCall {
                wind: wind_of(ri),
                atmosphere: atmosphere_of(ri),
                max_range: room_for(ri.target_distance),
            },
        )
    } else {
        None
    }
}

/// The request to solve one run, if its distance can be solved for.
pub fn full_solver_call(ri: &BallisticInputs) -> (r: Option<FullSolverCall>)
    ensures
        r == run_call(*ri),
{
    let distance: Double = ri.target_distance;
    if !(distance.is_finite() && Double::from_bits(ZERO).lt(distance)) {
        return None;
    }
    let thousand: Double = Double::from_bits(THOUSAND);
    let reach: Double = if distance.lt(thousand) {
        thousand
    } else {
        distance
    };
    Some(
        FullSolverCall {
            wind: ri.own_wind(),
            atmosphere: ri.own_atmosphere(),
            max_range: reach.times(Double::from_bits(TWO)),
        },
    )
}

/// Where a run arrives: nowhere if it could not be solved or falls short of the
/// target.
pub open spec fn arrival(distance: Double, solved: Option<TrajectoryResult>) -> Option<Crossing> {
    match solved {
        None => None,
        Some(t) => if t.max_range.below(distance.product(constant(REACH))) {
            None
        } else {
            crossing(t.points@, distance)
        },
    }
}

/// Reads where a run arrives at the target distance.
pub fn arrival_at_target(ri: &BallisticInputs, solved: &Option<TrajectoryResult>) -> (r: Option<
    Crossing,
>)
    ensures
        r == arrival(ri.target_distance, *solved),
{
    match solved {
        None => None,
        Some(t) => if t.max_range.lt(ri.target_distance.times(Double::from_bits(REACH))) {
            None
        } else {
            point_at_range(&t.points, ri.target_distance)
        },
    }
}

/// What the speed of sound and the spin drift of a run are found from: the
/// station's altitude in meters, degrees Celsius, hPa and percent, the time of
/// flight and the twist.
#[derive(Clone, Copy, Debug, PartialEq, Eq, Structural)]
pub struct StationRequest {
    pub altitude: Double,
    pub temperature: Double,
    pub pressure: Double,
    pub humidity_percent: Double,
    pub time: Double,
    pub is_twist_right: bool,
}

/// The request for the speed of sound and the spin drift of a run that arrives.
pub open spec fn station_call(ri: BallisticInputs, arrived: Crossing) -> StationRequest {
    StationRequest {
        altitude: ri.altitude,
        temperature: ri.temperature,
        pressure: ri.pressure,
        humidity_percent: percent(ri.humidity),
        time: arrived.time,
        is_twist_right: ri.is_twist_right,
    }
}

/// The request for the speed of sound and the spin drift of a run that arrives.
pub fn station_request(ri: &BallisticInputs, arrived: &Crossing) -> (r: StationRequest)
    ensures
        r == station_call(*ri, *arrived),
{
    StationRequest {
        altitude: ri.altitude,
        temperature: ri.temperature,
        pressure: ri.pressure,
        humidity_percent: ri.humidity_percent(),
        time: arrived.time,
        is_twist_right: ri.is_twist_right,
    }
}

/// The outcome of one run, in SI units.
#[derive(Clone, Copy, Debug, PartialEq, Eq, Structural)]
pub struct TrajectoryOutput {
    pub drop: Double,
    pub wind_drift: Double,
    pub time: Double,
    pub velocity: Double,
    pub energy: Double,
    pub mach: Double,
    pub spin_drift: Double,
    pub distance: Double,
}

/// The outcome of a run that arrives.  The drop is measured down from the line
/// of sight; the lateral position holds the spin drift already, and what of it
/// is spin drift is reported only where it was asked for.
pub open spec fn run_output(
    ri: BallisticInputs,
    arrived: Crossing,
    speed_of_sound: Double,
    litz_drift_m: Double,
) -> TrajectoryOutput {
    TrajectoryOutput {
        drop: ri.muzzle_height.sum(ri.sight_height).difference(arrived.y),
        wind_drift: arrived.z,
        time: arrived.time,
        velocity: arrived.velocity,
        energy: arrived.energy,
        mach: arrived.velocity.quotient(speed_of_sound),
        spin_drift: if ri.use_enhanced_spin_drift {
            litz_drift_m
        } else {
            constant(ZERO)
        },
        distance: ri.target_distance,
    }
}

/// The outcome of a run, from where it arrives, the speed of sound at the
/// station and the spin drift over its time of flight.
pub fn solve_via_full_solver(
    ri: &BallisticInputs,
    arrived: &Crossing,
    speed_of_sound: Double,
    litz_drift_m: Double,
) -> (r: TrajectoryOutput)
    ensures
        r == run_output(*ri, *arrived, speed_of_sound, litz_drift_m),
{
    let line_of_sight_y: Double = ri.muzzle_height.plus(ri.sight_height);
    TrajectoryOutput {
        drop: line_of_sight_y.minus(arrived.y),
        wind_drift: arrived.z,
        time: arrived.time,
        velocity: arrived.velocity,
        energy: arrived.energy,
        mach: arrived.velocity.over(speed_of_sound),
        spin_drift: if ri.use_enhanced_spin_drift {
            litz_drift_m
        } else {
            Double::from_bits(ZERO)
        },
        distance: ri.target_distance,
    }
}

} // verus!
