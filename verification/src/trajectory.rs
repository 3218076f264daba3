//! Trajectories: as they are computed, in SI units, and as they are reported, in
//! yards, fps and foot-pounds.

use vstd::prelude::*;
use crate::double::Double;
use crate::units::{constant, unscale, unscaled};
use crate::units::{FPS_TO_MPS, FTLBS_TO_JOULES, HALF, YARDS_TO_METERS};

verus! {

/// A computed point: seconds, meters above the ground, m/s, joules.
#[derive(Clone, Copy, Debug, PartialEq, Eq, Structural)]
pub struct TrajectoryPoint {
    pub time: Double,
    /// Downrange.
    pub x: Double,
    /// Up from the ground.
    pub y: Double,
    /// To the right.
    pub z: Double,
    pub velocity_magnitude: Double,
    pub kinetic_energy: Double,
}

/// What can happen at a sample.
#[derive(Clone, Copy, Debug, PartialEq, Eq, Structural)]
pub enum TrajectoryFlag {
    ZeroCrossing,
    MachTransition,
    Apex,
}

/// The name of what happens at a sample.
pub open spec fn flag_name(flag: TrajectoryFlag) -> Seq<char> {
    match flag {
        TrajectoryFlag::ZeroCrossing => "zero_crossing"@,
        TrajectoryFlag::MachTransition => "mach_transition"@,
        TrajectoryFlag::Apex => "apex"@,
    }
}

impl TrajectoryFlag {
    /// The name of what happens.
    pub fn name(self) -> (r: String)
        ensures
            r@ == flag_name(self),
    {
        match self {
            TrajectoryFlag::ZeroCrossing => "zero_crossing".to_owned(),
            TrajectoryFlag::MachTransition => "mach_transition".to_owned(),
            TrajectoryFlag::Apex => "apex".to_owned(),
        }
    }
}

/// A sample at a regular downrange distance.
#[derive(Debug, PartialEq, Eq)]
pub struct TrajectorySample {
    pub distance_m: Double,
    pub drop_m: Double,
    pub wind_drift_m: Double,
    pub velocity_mps: Double,
    pub energy_j: Double,
    pub time_s: Double,
    pub flags: Vec<TrajectoryFlag>,
}

/// A reported sample, with what happens there by name.
#[derive(Debug, PartialEq, Eq)]
pub struct SampleRow {
    pub distance_m: Double,
    pub drop_m: Double,
    pub wind_drift_m: Double,
    pub velocity_mps: Double,
    pub energy_j: Double,
    pub time_s: Double,
    pub flags: Vec<String>,
}

/// A computed trajectory.
#[derive(Debug, PartialEq, Eq)]
pub struct TrajectoryResult {
    pub max_range: Double,
    pub max_height: Double,
    pub time_of_flight: Double,
    pub impact_velocity: Double,
    pub impact_energy: Double,
    /// How high the line of sight is above the ground, in meters.
    pub line_of_sight_height_m: Double,
    pub points: Vec<TrajectoryPoint>,
    pub sampled_points: Option<Vec<TrajectorySample>>,
    pub transonic_mach: Option<Double>,
}

/// A reported point; the coordinates are in yards.
#[derive(Clone, Copy, Debug, PartialEq, Eq, Structural)]
pub struct PyTrajectoryPoint {
    pub time: Double,
    /// Downrange.
    pub x: Double,
    /// Up from the line of sight.
    pub y: Double,
    /// To the right.
    pub z: Double,
    pub velocity_fps: Double,
    pub energy_ftlbs: Double,
}

/// A reported trajectory.
#[derive(Debug, PartialEq, Eq)]
pub struct PyTrajectoryResult {
    pub max_range_yards: Double,
    pub max_height_yards: Double,
    pub time_of_flight: Double,
    pub impact_velocity_fps: Double,
    pub impact_energy_ftlbs: Double,
    pub points: Vec<PyTrajectoryPoint>,
    /// The samples, if sampling was asked for, in SI units.
    pub sampled_points: Option<Vec<SampleRow>>,
    /// The Mach number at which the bullet turns transonic, if it does.
    pub transonic_mach: Option<Double>,
}

/// The kinetic energy in foot-pounds of a mass in kg at a speed in m/s.
pub open spec fn energy_ftlbs(mass_kg: Double, speed: Double) -> Double {
    unscaled(constant(HALF).product(mass_kg).product(speed).product(speed), FTLBS_TO_JOULES)
}

/// A computed point as it is reported: in yards, and its height relative to the
/// line of sight.
pub open spec fn reported_point(
    p: TrajectoryPoint,
    line_of_sight_height_m: Double,
    bullet_mass_kg: Double,
) -> PyTrajectoryPoint {
    PyTrajectoryPoint {
        time: p.time,
        x: unscaled(p.x, YARDS_TO_METERS),
        y: unscaled(p.y.difference(line_of_sight_height_m), YARDS_TO_METERS),
        z: unscaled(p.z, YARDS_TO_METERS),
        velocity_fps: unscaled(p.velocity_magnitude, FPS_TO_MPS),
        energy_ftlbs: energy_ftlbs(bullet_mass_kg, p.velocity_magnitude),
    }
}

impl PyTrajectoryPoint {
    /// Reports a computed point of a bullet of the given mass, its height relative to
    /// a line of sight of the given height.
    pub fn from_rust(
        point: &TrajectoryPoint,
        line_of_sight_height_m: Double,
        bullet_mass_kg: Double,
    ) -> (r: PyTrajectoryPoint)
        ensures
            r == reported_point(*point, line_of_sight_height_m, bullet_mass_kg),
    {
        let speed: Double = point.velocity_magnitude;
        PyTrajectoryPoint {
            time: point.time,
            x: unscale(point.x, YARDS_TO_METERS),
            y: unscale(point.y.minus(line_of_sight_height_m), YARDS_TO_METERS),
            z: unscale(point.z, YARDS_TO_METERS),
            velocity_fps: unscale(speed, FPS_TO_MPS),
            energy_ftlbs: unscale(
                Double::from_bits(HALF).times(bullet_mass_kg).times(speed).times(speed),
                FTLBS_TO_JOULES,
            ),
        }
    }
}

/// A sample is reported so.
pub open spec fn row_of(s: TrajectorySample, r: SampleRow) -> bool {
    &&& r.distance_m == s.distance_m
    &&& r.drop_m == s.drop_m
    &&& r.wind_drift_m == s.wind_drift_m
    &&& r.velocity_mps == s.velocity_mps
    &&& r.energy_j == s.energy_j
    &&& r.time_s == s.time_s
    &&& r.flags@.len() == s.flags@.len()
    &&& forall|i: int|
        0 <= i < s.flags@.len() ==> (#[trigger] r.flags@[i])@ == flag_name(s.flags@[i])
}

/// The samples are reported so, one for one.
pub open spec fn rows_of(samples: Option<Vec<TrajectorySample>>, rows: Option<Vec<SampleRow>>) -> bool {
    match samples {
        None => rows is None,
        Some(s) => {
            &&& rows matches Some(r)
            &&& r@.len() == s@.len()
            &&& forall|i: int| 0 <= i < s@.len() ==> row_of(#[trigger] s@[i], r@[i])
        },
    }
}

/// Reports one sample.
fn report_sample(s: &TrajectorySample) -> (r: SampleRow)
    ensures
        row_of(*s, r),
{
    let mut flags: Vec<String> = Vec::new();
    let mut i: usize = 0;
    while i < s.flags.len()
        invariant
            i <= s.flags.len(),
            flags.len() == i,
            forall|j: int| 0 <= j < i ==> (#[trigger] flags@[j])@ == flag_name(s.flags@[j]),
        decreases s.flags.len() - i,
    {
        flags.push(s.flags[i].name());
        i = i + 1;
    }
    SampleRow {
        distance_m: s.distance_m,
        drop_m: s.drop_m,
        wind_drift_m: s.wind_drift_m,
        velocity_mps: s.velocity_mps,
        energy_j: s.energy_j,
        time_s: s.time_s,
        flags,
    }
}

/// Reports the samples.
fn report_samples(samples: &Option<Vec<TrajectorySample>>) -> (r: Option<Vec<SampleRow>>)
    ensures
        rows_of(*samples, r),
{
    match samples {
        None => None,
        Some(s) => {
            let mut rows: Vec<SampleRow> = Vec::new();
            let mut i: usize = 0;
            while i < s.len()
                invariant
                    i <= s.len(),
                    rows.len() == i,
                    forall|j: int| 0 <= j < i ==> row_of(#[trigger] s@[j], rows@[j]),
                decreases s.len() - i,
            {
                rows.push(report_sample(&s[i]));
                i = i + 1;
            }
            Some(rows)
        },
    }
}

/// A computed trajectory is reported so.
pub open spec fn reported_as(
    result: TrajectoryResult,
    bullet_mass_kg: Double,
    r: PyTrajectoryResult,
) -> bool {
    &&& r.max_range_yards == unscaled(result.max_range, YARDS_TO_METERS)
    &&& r.max_height_yards == unscaled(result.max_height, YARDS_TO_METERS)
    &&& r.time_of_flight == result.time_of_flight
    &&& r.impact_velocity_fps == unscaled(result.impact_velocity, FPS_TO_MPS)
    &&& r.impact_energy_ftlbs == unscaled(result.impact_energy, FTLBS_TO_JOULES)
    &&& r.points@ == result.points@.map_values(
        |p: TrajectoryPoint|
            reported_point(p, result.line_of_sight_height_m, bullet_mass_kg),
    )
    &&& rows_of(result.sampled_points, r.sampled_points)
    &&& r.transonic_mach == result.transonic_mach
}

impl PyTrajectoryResult {
    /// Reports a computed trajectory of a bullet of the given mass.
    pub fn from_rust(result: TrajectoryResult, bullet_mass_kg: Double) -> (r: PyTrajectoryResult)
        ensures
            reported_as(result, bullet_mass_kg, r),
    {
        let mut points: Vec<PyTrajectoryPoint> = Vec::new();
        let mut i: usize = 0;
        while i < result.points.len()
            invariant
                i <= result.points.len(),
                points@ == result.points@.take(i as int).map_values(
                    |p: TrajectoryPoint|
                        reported_point(p, result.line_of_sight_height_m, bullet_mass_kg),
                ),
            decreases result.points.len() - i,
        {
            points.push(
                PyTrajectoryPoint::from_rust(
                    &result.points[i],
                    result.line_of_sight_height_m,
                    bullet_mass_kg,
                ),
            );
            i = i + 1;
        }
        assert(result.points@.take(result.points.len() as int) == result.points@);
        PyTrajectoryResult {
            max_range_yards: unscale(result.max_range, YARDS_TO_METERS),
            max_height_yards: unscale(result.max_height, YARDS_TO_METERS),
            time_of_flight: result.time_of_flight,
            impact_velocity_fps: unscale(result.impact_velocity, FPS_TO_MPS),
            impact_energy_ftlbs: unscale(result.impact_energy, FTLBS_TO_JOULES),
            points,
            sampled_points: report_samples(&result.sampled_points),
            transonic_mach: result.transonic_mach,
        }
    }
}

} // verus!
