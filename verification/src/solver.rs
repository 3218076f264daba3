//! The trajectory solver object and the zeroing call.

use vstd::prelude::*;
use crate::conditions::{atmosphere_of, standard_atmosphere, still_air, wind_of};
use crate::conditions::{AtmosphericConditions, PyAtmosphericConditions, PyWindConditions};
use crate::conditions::WindConditions;
use crate::dict::Dict;
use crate::double::Double;
use crate::exception::{outcome, runtime_fault, value_fault, Exception, Fault};
use crate::inputs::{ballistic_inputs_from_dict, full_to_si, parse_fault, reads_as, si};
use crate::inputs::BallisticInputs;
use crate::py_inputs::{same_inputs, PyBallisticInputs};
use crate::text::join2;
use crate::trajectory::{reported_as, PyTrajectoryResult, TrajectoryResult};
use crate::units::{constant, scale, scaled, INCHES_TO_METERS, YARDS_TO_METERS, ZERO};

verus! {

/// The wind up to a downrange distance.
#[derive(Clone, Copy, Debug, PartialEq, Eq, Structural)]
pub struct WindSegment {
    pub speed_kmh: Double,
    pub angle_deg: Double,
    pub until_m: Double,
    /// Positive for an updraft.
    pub vertical_mps: Double,
}

/// The atmosphere up to a downrange distance: degrees Celsius, hPa, percent,
/// meters.
pub type AtmoSegment = (Double, Double, Double, Double);

/// What is said of a wind segment of the wrong length.
pub open spec fn wind_segment_message() -> Seq<char> {
    "wind segment tuples must have 3 or 4 elements: (speed_kmh, angle_deg, until_m[, vertical_mps])"@
}

/// A wind segment as a sequence of three or four numbers; with three there is
/// no updraft.
pub open spec fn wind_segment(row: Result<Vec<Double>, Exception>) -> Result<WindSegment, Fault> {
    match row {
        Err(e) => Err(e@),
        Ok(v) => if v@.len() == 3 || v@.len() == 4 {
            Ok(
                WindSegment {
                    speed_kmh: v@[0],
                    angle_deg: v@[1],
                    until_m: v@[2],
                    vertical_mps: if v@.len() == 4 {
                        v@[3]
                    } else {
                        constant(ZERO)
                    },
                },
            )
        } else {
            Err(value_fault(wind_segment_message()))
        },
    }
}

/// The wind segments, or the fault of the first that is none.
pub open spec fn wind_segments(rows: Seq<Result<Vec<Double>, Exception>>) -> Result<
    Seq<WindSegment>,
    Fault,
>
    decreases rows.len(),
{
    if rows.len() == 0 {
        Ok(Seq::empty())
    } else {
        match wind_segments(rows.drop_last()) {
            Err(f) => Err(f),
            Ok(segments) => match wind_segment(rows.last()) {
                Err(f) => Err(f),
                Ok(s) => Ok(segments.push(s)),
            },
        }
    }
}

/// Reads one wind segment.
fn read_wind_segment(row: &Result<Vec<Double>, Exception>) -> (r: Result<WindSegment, Exception>)
    ensures
        match r {
            Ok(s) => wind_segment(*row) == Ok::<WindSegment, Fault>(s),
            Err(e) => wind_segment(*row) == Err::<WindSegment, Fault>(e@),
        },
{
    match row {
        Err(e) => Err(e.again()),
        Ok(v) => if v.len() == 3 || v.len() == 4 {
            let vertical_mps: Double = if v.len() == 4 {
                v[3]
            } else {
                Double::from_bits(ZERO)
            };
            Ok(WindSegment { speed_kmh: v[0], angle_deg: v[1], until_m: v[2], vertical_mps })
        } else {
            Err(
                Exception::value_error(
                    "wind segment tuples must have 3 or 4 elements: (speed_kmh, angle_deg, until_m[, vertical_mps])".to_owned(),
                ),
            )
        },
    }
}

/// A fault among the first rows is the fault of all rows.
proof fn lemma_wind_segments_fault(rows: Seq<Result<Vec<Double>, Exception>>, n: int)
    requires
        0 <= n <= rows.len(),
        wind_segments(rows.take(n)) is Err,
    ensures
        wind_segments(rows) == wind_segments(rows.take(n)),
    decreases rows.len() - n,
{
    if n == rows.len() {
        assert(rows.take(n) == rows);
    } else {
        assert(rows.take(n + 1).drop_last() == rows.take(n));
        lemma_wind_segments_fault(rows, n + 1);
    }
}

/// Reads wind segments.
pub fn read_wind_segments(rows: &Vec<Result<Vec<Double>, Exception>>) -> (r: Result<
    Vec<WindSegment>,
    Exception,
>)
    ensures
        match r {
            Ok(s) => wind_segments(rows@) == Ok::<Seq<WindSegment>, Fault>(s@),
            Err(e) => wind_segments(rows@) == Err::<Seq<WindSegment>, Fault>(e@),
        },
{
    let mut out: Vec<WindSegment> = Vec::new();
    let mut i: usize = 0;
    while i < rows.len()
        invariant
            i <= rows.len(),
            wind_segments(rows@.take(i as int)) == Ok::<Seq<WindSegment>, Fault>(out@),
        decreases rows.len() - i,
    {
        assert(rows@.take(i + 1).drop_last() == rows@.take(i as int));
        match read_wind_segment(&rows[i]) {
            Ok(s) => {
                out.push(s);
            },
            Err(e) => {
                proof {
                    lemma_wind_segments_fault(rows@, i + 1);
                }
                return Err(e);
            },
        }
        i = i + 1;
    }
    assert(rows@.take(i as int) == rows@);
    Ok(out)
}

/// Everything that a trajectory is solved from.
#[derive(Debug, PartialEq, Eq)]
pub struct PyTrajectorySolver {
    pub inputs: BallisticInputs,
    pub wind: WindConditions,
    pub atmosphere: AtmosphericConditions,
    pub bullet_mass_kg: Double,
    /// The greatest distance to solve for, in meters, if it was set.
    pub max_range: Option<Double>,
    /// The fixed time step in seconds, if it was set.
    pub time_step: Option<Double>,
    /// With no segments the wind is `wind` everywhere.
    pub wind_segments: Vec<WindSegment>,
    /// With no segments the atmosphere is `atmosphere` everywhere.
    pub atmo_segments: Vec<AtmoSegment>,
}

/// The solver's fields, segments taken for their contents.
pub struct SolverSettings {
    pub inputs: BallisticInputs,
    pub wind: WindConditions,
    pub atmosphere: AtmosphericConditions,
    pub bullet_mass_kg: Double,
    pub max_range: Option<Double>,
    pub time_step: Option<Double>,
    pub wind_segments: Seq<WindSegment>,
    pub atmo_segments: Seq<AtmoSegment>,
}

/// The settings of a new solver.  Without a wind the air is still; without an
/// atmosphere it is the standard one.
pub open spec fn fresh_settings(
    inputs: BallisticInputs,
    wind: Option<PyWindConditions>,
    atmosphere: Option<PyAtmosphericConditions>,
) -> SolverSettings {
    SolverSettings {
        inputs,
        wind: (match wind {
            Some(w) => w,
            None => still_air(),
        }).si(),
        atmosphere: (match atmosphere {
            Some(a) => a,
            None => standard_atmosphere(),
        }).si(),
        bullet_mass_kg: inputs.bullet_mass,
        max_range: None,
        time_step: None,
        wind_segments: Seq::empty(),
        atmo_segments: Seq::empty(),
    }
}

impl SolverSettings {
    /// The settings with the greatest distance set.
    pub open spec fn with_max_range(self, range_m: Double) -> SolverSettings {
        SolverSettings { max_range: Some(range_m), ..self }
    }

    /// The settings with the time step set.
    pub open spec fn with_time_step(self, step_s: Double) -> SolverSettings {
        SolverSettings { time_step: Some(step_s), ..self }
    }

    /// The settings with the wind segments set.
    pub open spec fn with_wind_segments(self, segments: Seq<WindSegment>) -> SolverSettings {
        SolverSettings { wind_segments: segments, ..self }
    }

    /// The settings with the atmosphere segments set.
    pub open spec fn with_atmo_segments(self, segments: Seq<AtmoSegment>) -> SolverSettings {
        SolverSettings { atmo_segments: segments, ..self }
    }
}

/// What the caller gets for what a computation gave.
pub open spec fn solution(
    computed: Result<TrajectoryResult, String>,
    bullet_mass_kg: Double,
    r: Result<PyTrajectoryResult, Exception>,
) -> bool {
    match computed {
        Ok(t) => r matches Ok(p) && reported_as(t, bullet_mass_kg, p),
        Err(e) => r matches Err(x) && x@ == value_fault("Trajectory calculation failed: "@ + e@),
    }
}

impl PyTrajectorySolver {
    /// The settings of this solver.
    pub open spec fn settings(self) -> SolverSettings {
        SolverSettings {
            inputs: self.inputs,
            wind: self.wind,
            atmosphere: self.atmosphere,
            bullet_mass_kg: self.bullet_mass_kg,
            max_range: self.max_range,
            time_step: self.time_step,
            wind_segments: self.wind_segments@,
            atmo_segments: self.atmo_segments@,
        }
    }

    /// A solver for the inputs.  Without a wind the air is still; without an
    /// atmosphere it is the standard one.
    pub fn new(
        inputs: &PyBallisticInputs,
        wind: Option<PyWindConditions>,
        atmosphere: Option<PyAtmosphericConditions>,
    ) -> (r: PyTrajectorySolver)
        ensures
            same_inputs(r.inputs, inputs.inner),
            r.settings() == fresh_settings(r.inputs, wind, atmosphere),
    {
        let own: BallisticInputs = inputs.to_rust();
        let bullet_mass_kg: Double = own.bullet_mass;
        let w: PyWindConditions = match wind {
            Some(w) => w,
            None => PyWindConditions::default(),
        };
        let a: PyAtmosphericConditions = match atmosphere {
            Some(a) => a,
            None => PyAtmosphericConditions::default(),
        };
        PyTrajectorySolver {
            inputs: own,
            wind: w.to_rust(),
            atmosphere: a.to_rust(),
            bullet_mass_kg,
            max_range: None,
            time_step: None,
            wind_segments: Vec::new(),
            atmo_segments: Vec::new(),
        }
    }

    /// What the caller gets for what the computation gave: its trajectory, or its
    /// complaint.
    pub fn solve(&self, computed: Result<TrajectoryResult, String>) -> (r: Result<
        PyTrajectoryResult,
        Exception,
    >)
        ensures
            solution(computed, self.bullet_mass_kg, r),
    {
        match computed {
            Ok(t) => Ok(PyTrajectoryResult::from_rust(t, self.bullet_mass_kg)),
            Err(e) => Err(
                Exception::value_error(join2("Trajectory calculation failed: ", e.as_str())),
            ),
        }
    }

    /// Sets the greatest distance to solve for, in meters.
    pub fn set_max_range(&mut self, range_m: Double)
        ensures
            final(self).settings() == old(self).settings().with_max_range(range_m),
    {
        self.max_range = Some(range_m);
    }

    /// Sets the fixed time step in seconds.
    pub fn set_time_step(&mut self, step_s: Double)
        ensures
            final(self).settings() == old(self).settings().with_time_step(step_s),
    {
        self.time_step = Some(step_s);
    }

    /// Sets the wind by downrange distance.  Each segment has three numbers, or
    /// four with an updraft.  An empty list goes back to the one wind.  Nothing
    /// changes when a segment is malformed.
    pub fn set_wind_segments(&mut self, segments: &Vec<Result<Vec<Double>, Exception>>) -> (r:
        Result<(), Exception>)
        ensures
            match wind_segments(segments@) {
                Ok(s) => r is Ok && final(self).settings() == old(self).settings().with_wind_segments(
                    s,
                ),
                Err(f) => r matches Err(e) && e@ == f && *final(self) == *old(self),
            },
    {
        match read_wind_segments(segments) {
            Ok(s) => {
                self.wind_segments = s;
                Ok(())
            },
            Err(e) => Err(e),
        }
    }

    /// Sets the atmosphere by downrange distance.  An empty list goes back to the
    /// one atmosphere.
    pub fn set_atmo_segments(&mut self, segments: Vec<AtmoSegment>)
        ensures
            final(self).settings() == old(self).settings().with_atmo_segments(segments@),
    {
        self.atmo_segments = segments;
    }
}

/// A request for the barrel elevation that zeroes at a target, in SI units.
#[derive(Debug, PartialEq, Eq)]
pub struct ZeroCall {
    pub inputs: BallisticInputs,
    pub target_distance: Double,
    pub target_height: Double,
    pub wind: WindConditions,
    pub atmosphere: AtmosphericConditions,
}

/// The request that a dictionary read as `b` leads to, with the wind and the
/// atmosphere given, or else those of the dictionary.
pub open spec fn auto_zero_call(
    b: BallisticInputs,
    zero_distance_yards: Double,
    target_height_inches: Double,
    wind: Option<PyWindConditions>,
    atmo: Option<PyAtmosphericConditions>,
) -> ZeroCall {
    ZeroCall {
        inputs: si(b),
        target_distance: scaled(zero_distance_yards, YARDS_TO_METERS),
        target_height: scaled(target_height_inches, INCHES_TO_METERS),
        wind: match wind {
            Some(w) => w.si(),
            None => wind_of(si(b)),
        },
        atmosphere: match atmo {
            Some(a) => a.si(),
            None => atmosphere_of(si(b)),
        },
    }
}

/// The zeroing request for a dictionary of inputs.
pub fn auto_zero_inputs(
    inputs: &Dict,
    refusal: &str,
    zero_distance_yards: Double,
    target_height_inches: Double,
    wind: Option<PyWindConditions>,
    atmo: Option<PyAtmosphericConditions>,
) -> (r: Result<ZeroCall, Exception>)
    ensures
        match r {
            Ok(call) => parse_fault(*inputs, refusal@) is None && exists|
                b: BallisticInputs,
            |
                reads_as(*inputs, refusal@, b) && call == auto_zero_call(
                    b,
                    zero_distance_yards,
                    target_height_inches,
                    wind,
                    atmo,
                ),
            Err(e) => parse_fault(*inputs, refusal@) == Some(e@),
        },
{
    let mut bi: BallisticInputs = match ballistic_inputs_from_dict(inputs, refusal) {
        Ok(b) => b,
        Err(e) => return Err(e),
    };
    let ghost read = bi;
    full_to_si(&mut bi);
    let wind_si: WindConditions = match wind {
        Some(w) => w.to_rust(),
        None => bi.own_wind(),
    };
    let atmosphere: AtmosphericConditions = match atmo {
        Some(a) => a.to_rust(),
        None => bi.own_atmosphere(),
    };
    let call: ZeroCall = ZeroCall {
        inputs: bi,
        target_distance: scale(zero_distance_yards, YARDS_TO_METERS),
        target_height: scale(target_height_inches, INCHES_TO_METERS),
        wind: wind_si,
        atmosphere,
    };
    assert(reads_as(*inputs, refusal@, read) && call == auto_zero_call(
        read,
        zero_distance_yards,
        target_height_inches,
        wind,
        atmo,
    ));
    Ok(call)
}

/// What the caller gets for what the search for a zero gave.
pub open spec fn zero_found(
    distance_yards: Seq<char>,
    found: Result<Double, String>,
) -> Result<Double, Fault> {
    match found {
        Ok(angle) => Ok(angle),
        Err(e) => Err(
            runtime_fault(
                "Unable to find zero angle for target distance "@ + distance_yards + " yards: "@
                    + e@,
            ),
        ),
    }
}

/// What the caller gets for what the search for a zero gave: its angle, or its
/// complaint with the distance asked for.
pub fn zero_angle(distance_yards: &str, found: Result<Double, String>) -> (r: Result<
    Double,
    Exception,
>)
    ensures
        outcome(r) == zero_found(distance_yards@, found),
{
    match found {
        Ok(angle) => Ok(angle),
        Err(e) => {
            let mut s: String = join2(
                "Unable to find zero angle for target distance ",
                distance_yards,
            );
            s.append(" yards: ");
            s.append(e.as_str());
            Err(Exception::runtime_error(s))
        },
    }
}

} // verus!
