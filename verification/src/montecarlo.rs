//! Monte Carlo runs: the statistics of many samples, and the request for a
//! sampling by the driver.

use vstd::prelude::*;
use crate::conditions::{wind_of, AtmosphericConditions, PyAtmosphericConditions};
use crate::conditions::{PyWindConditions, WindConditions};
use crate::dict::{f64_field, opt_index, opt_number, Dict};
use crate::double::Double;
use crate::exception::{value_fault, Exception, Fault};
use crate::inputs::{ballistic_inputs_from_dict, full_to_si, parse_fault, reads_as, si};
use crate::inputs::BallisticInputs;
use crate::sampling::TrajectoryOutput;
use crate::sorting::{sort_numbers, sorted};
use crate::text::{join2, same_text};
use crate::units::{constant, scale, scaled, unscale, unscaled, HALF, HUNDRED, ONE, ZERO};

verus! {

/// 39.3701, inches in a meter
pub const M_TO_INCHES: u64 = 0x4043_af5f_6fd2_1ff3;

/// 3.28084, feet in a meter
pub const M_TO_FEET: u64 = 0x400a_3f29_0abb_44e5;

/// 0.737562, foot-pounds in a joule
pub const J_TO_FTLBS: u64 = 0x3fe7_9a1b_9f98_b71c;

/// -0.0, where a sum starts
pub const NOTHING: u64 = 0x8000_0000_0000_0000;

/// 0.05
pub const RANK_5: u64 = 0x3fa9_9999_9999_999a;

/// 0.1
pub const RANK_10: u64 = 0x3fb9_9999_9999_999a;

/// 0.25
pub const RANK_25: u64 = 0x3fd0_0000_0000_0000;

/// 0.75
pub const RANK_75: u64 = 0x3fe8_0000_0000_0000;

/// 0.9
pub const RANK_90: u64 = 0x3fec_cccc_cccc_cccd;

/// 0.95
pub const RANK_95: u64 = 0x3fee_6666_6666_6666;

/// 0.001
pub const THOUSANDTH: u64 = 0x3f50_624d_d2f1_a9fc;

/// 0.01
pub const HUNDREDTH: u64 = 0x3f84_7ae1_47ae_147b;

/// A number of threads that can run is not zero.
pub fn check_threads(num_threads: Option<usize>) -> (r: Result<Option<usize>, Exception>)
    ensures
        if num_threads == Some(0usize) {
            r matches Err(e) && e@ == value_fault("Thread count must be greater than 0"@)
        } else {
            r == Ok::<Option<usize>, Exception>(num_threads)
        },
{
    match num_threads {
        Some(n) => if n == 0 {
            Err(Exception::value_error("Thread count must be greater than 0".to_owned()))
        } else {
            Ok(Some(n))
        },
        None => Ok(None),
    }
}

/// What is raised when the threads cannot be started.
pub fn thread_pool_failure(complaint: &str) -> (r: Exception)
    ensures
        r@ == value_fault("Failed to build thread pool: "@ + complaint@),
{
    Exception::value_error(join2("Failed to build thread pool: ", complaint))
}

/// The value of the named field of an outcome; a name that no field has gives
/// zero.
pub open spec fn output_field(r: TrajectoryOutput, f: Seq<char>) -> Double {
    if f == "drop_m"@ {
        r.drop
    } else if f == "wind_drift_m"@ {
        r.wind_drift
    } else if f == "time_of_flight_s"@ {
        r.time
    } else if f == "final_vel_fps"@ {
        scaled(r.velocity, M_TO_FEET)
    } else if f == "energy_ft_lbs"@ {
        scaled(r.energy, J_TO_FTLBS)
    } else if f == "mach"@ {
        r.mach
    } else {
        constant(ZERO)
    }
}

/// The value of the named field of an outcome.
pub fn field_value(r: &TrajectoryOutput, f: &str) -> (v: Double)
    ensures
        v == output_field(*r, f@),
{
    if same_text(f, "drop_m") {
        r.drop
    } else if same_text(f, "wind_drift_m") {
        r.wind_drift
    } else if same_text(f, "time_of_flight_s") {
        r.time
    } else if same_text(f, "final_vel_fps") {
        scale(r.velocity, M_TO_FEET)
    } else if same_text(f, "energy_ft_lbs") {
        scale(r.energy, J_TO_FTLBS)
    } else if same_text(f, "mach") {
        r.mach
    } else {
        Double::from_bits(ZERO)
    }
}

/// The outcomes of the runs that succeeded.
pub open spec fn valid(results: Seq<Option<TrajectoryOutput>>) -> Seq<TrajectoryOutput>
    decreases results.len(),
{
    if results.len() == 0 {
        Seq::empty()
    } else {
        match results.last() {
            Some(o) => valid(results.drop_last()).push(o),
            None => valid(results.drop_last()),
        }
    }
}

/// Collects the outcomes of the runs that succeeded.
pub fn valid_runs(results: &Vec<Option<TrajectoryOutput>>) -> (r: Vec<TrajectoryOutput>)
    ensures
        r@ == valid(results@),
        r.len() <= results.len(),
{
    let mut out: Vec<TrajectoryOutput> = Vec::new();
    let mut i: usize = 0;
    while i < results.len()
        invariant
            i <= results.len(),
            out@ == valid(results@.take(i as int)),
            out.len() <= i,
        decreases results.len() - i,
    {
        assert(results@.take(i + 1).drop_last() == results@.take(i as int));
        match results[i] {
            Some(o) => {
                out.push(o);
            },
            None => {},
        }
        i = i + 1;
    }
    assert(results@.take(i as int) == results@);
    out
}

/// The values of the named field, in the order of the runs.
pub open spec fn field_values(runs: Seq<TrajectoryOutput>, f: Seq<char>) -> Seq<Double> {
    runs.map_values(|o: TrajectoryOutput| output_field(o, f))
}

/// Collects the values of the named field.
fn collect_field(runs: &Vec<TrajectoryOutput>, f: &str) -> (r: Vec<Double>)
    ensures
        r@ == field_values(runs@, f@),
{
    let mut out: Vec<Double> = Vec::new();
    let mut i: usize = 0;
    while i < runs.len()
        invariant
            i <= runs.len(),
            out@ == field_values(runs@.take(i as int), f@),
        decreases runs.len() - i,
    {
        out.push(field_value(&runs[i], f));
        i = i + 1;
    }
    assert(runs@.take(i as int) == runs@);
    out
}

/// Something for each of the fields that statistics are made of.
#[derive(Debug, PartialEq, Eq)]
pub struct PerField<T> {
    pub drop_m: T,
    pub wind_drift_m: T,
    pub time_of_flight_s: T,
    pub final_vel_fps: T,
    pub energy_ft_lbs: T,
    pub mach: T,
}

/// The sorted values of the named field.
pub open spec fn sorted_field(results: Seq<Option<TrajectoryOutput>>, f: Seq<char>) -> Seq<Double> {
    sorted(field_values(valid(results), f))
}

/// The sorted values of each field, whose percentiles a summary needs.
pub fn sorted_fields(results: &Vec<Option<TrajectoryOutput>>) -> (r: PerField<Vec<Double>>)
    ensures
        r.drop_m@ == sorted_field(results@, "drop_m"@),
        r.wind_drift_m@ == sorted_field(results@, "wind_drift_m"@),
        r.time_of_flight_s@ == sorted_field(results@, "time_of_flight_s"@),
        r.final_vel_fps@ == sorted_field(results@, "final_vel_fps"@),
        r.energy_ft_lbs@ == sorted_field(results@, "energy_ft_lbs"@),
        r.mach@ == sorted_field(results@, "mach"@),
{
    let runs: Vec<TrajectoryOutput> = valid_runs(results);
    PerField {
        drop_m: sort_numbers(&collect_field(&runs, "drop_m")),
        wind_drift_m: sort_numbers(&collect_field(&runs, "wind_drift_m")),
        time_of_flight_s: sort_numbers(&collect_field(&runs, "time_of_flight_s")),
        final_vel_fps: sort_numbers(&collect_field(&runs, "final_vel_fps")),
        energy_ft_lbs: sort_numbers(&collect_field(&runs, "energy_ft_lbs")),
        mach: sort_numbers(&collect_field(&runs, "mach")),
    }
}

/// Something for each of the percentiles that are reported.
#[derive(Clone, Copy, Debug, PartialEq, Eq, Structural)]
pub struct FieldPercentiles {
    pub p5: Double,
    pub p10: Double,
    pub p25: Double,
    pub p50: Double,
    pub p75: Double,
    pub p90: Double,
    pub p95: Double,
}

/// The rank of each percentile, between 0 and 1.
pub open spec fn ranks() -> FieldPercentiles {
    FieldPercentiles {
        p5: constant(RANK_5),
        p10: constant(RANK_10),
        p25: constant(RANK_25),
        p50: constant(HALF),
        p75: constant(RANK_75),
        p90: constant(RANK_90),
        p95: constant(RANK_95),
    }
}

/// The rank of each percentile, between 0 and 1.
pub fn percentile_ranks() -> (r: FieldPercentiles)
    ensures
        r == ranks(),
{
    FieldPercentiles {
        p5: Double::from_bits(RANK_5),
        p10: Double::from_bits(RANK_10),
        p25: Double::from_bits(RANK_25),
        p50: Double::from_bits(HALF),
        p75: Double::from_bits(RANK_75),
        p90: Double::from_bits(RANK_90),
        p95: Double::from_bits(RANK_95),
    }
}

/// The percentiles of a field: of one run only the middle one is reported.
#[derive(Clone, Copy, Debug, PartialEq, Eq, Structural)]
pub enum Percentiles {
    Single { p50: Double },
    Full(FieldPercentiles),
}

/// The statistics of one field.
#[derive(Clone, Copy, Debug, PartialEq, Eq, Structural)]
pub struct FieldStatistics {
    pub mean: Double,
    pub std: Double,
    pub min: Double,
    pub max: Double,
    pub percentiles: Percentiles,
}

/// The numbers added up from left to right.
pub open spec fn total(s: Seq<Double>) -> Double
    decreases s.len(),
{
    if s.len() == 0 {
        constant(NOTHING)
    } else {
        total(s.drop_last()).sum(s.last())
    }
}

/// The mean of some numbers.
pub open spec fn mean(s: Seq<Double>) -> Double {
    total(s).quotient(Double::nearest(s.len()))
}

/// The square of the distance from `m`.
pub open spec fn squared_deviation(x: Double, m: Double) -> Double {
    x.difference(m).product(x.difference(m))
}

/// The squares of the distances from `m`.
pub open spec fn squared_deviations(s: Seq<Double>, m: Double) -> Seq<Double> {
    s.map_values(|x: Double| squared_deviation(x, m))
}

/// The sample standard deviation of some numbers.
pub open spec fn standard_deviation(s: Seq<Double>) -> Double {
    total(squared_deviations(s, mean(s))).quotient(
        Double::nearest(s.len()).difference(constant(ONE)),
    ).root()
}

/// The statistics of a field, from its sorted values and their percentiles.
pub open spec fn field_statistics(s: Seq<Double>, percentiles: FieldPercentiles) -> FieldStatistics {
    if s.len() == 1 {
        FieldStatistics {
            mean: s[0],
            std: constant(ZERO),
            min: s[0],
            max: s[0],
            percentiles: Percentiles::Single { p50: s[0] },
        }
    } else {
        FieldStatistics {
            mean: mean(s),
            std: standard_deviation(s),
            min: s[0],
            max: s[s.len() - 1],
            percentiles: Percentiles::Full(percentiles),
        }
    }
}

fn add_up(s: &Vec<Double>) -> (r: Double)
    ensures
        r == total(s@),
{
    let mut sum: Double = Double::from_bits(NOTHING);
    let mut i: usize = 0;
    while i < s.len()
        invariant
            i <= s.len(),
            sum == total(s@.take(i as int)),
        decreases s.len() - i,
    {
        assert(s@.take(i + 1).drop_last() == s@.take(i as int));
        sum = sum.plus(s[i]);
        i = i + 1;
    }
    assert(s@.take(i as int) == s@);
    sum
}

/// The statistics of a field, from its sorted values and their percentiles.
pub fn statistics_of_field(s: &Vec<Double>, percentiles: FieldPercentiles) -> (r: FieldStatistics)
    requires
        s.len() > 0,
    ensures
        r == field_statistics(s@, percentiles),
{
    if s.len() == 1 {
        let v: Double = s[0];
        return FieldStatistics {
            mean: v,
            std: Double::from_bits(ZERO),
            min: v,
            max: v,
            percentiles: Percentiles::Single { p50: v },
        };
    }
    let n: Double = Double::of_count(s.len() as u64);
    let mean: Double = add_up(s).over(n);
    let mut squares: Vec<Double> = Vec::new();
    let mut i: usize = 0;
    while i < s.len()
        invariant
            i <= s.len(),
            squares@ == squared_deviations(s@.take(i as int), mean),
        decreases s.len() - i,
    {
        let deviation: Double = s[i].minus(mean);
        squares.push(deviation.times(deviation));
        i = i + 1;
    }
    assert(s@.take(i as int) == s@);
    let variance: Double = add_up(&squares).over(n.minus(Double::from_bits(ONE)));
    FieldStatistics {
        mean,
        std: variance.sqrt(),
        min: s[0],
        max: s[s.len() - 1],
        percentiles: Percentiles::Full(percentiles),
    }
}

/// The wind drift of each run.
pub open spec fn wind_drifts(runs: Seq<TrajectoryOutput>) -> Seq<Double> {
    runs.map_values(|o: TrajectoryOutput| o.wind_drift)
}

/// The drop of each run.
pub open spec fn drops(runs: Seq<TrajectoryOutput>) -> Seq<Double> {
    runs.map_values(|o: TrajectoryOutput| o.drop)
}

/// How far an impact is from the point of aim.
pub open spec fn radial_miss(o: TrajectoryOutput) -> Double {
    o.wind_drift.product(o.wind_drift).sum(o.drop.product(o.drop)).root()
}

/// How far each impact is from the point of aim.
pub open spec fn radial_misses(runs: Seq<TrajectoryOutput>) -> Seq<Double> {
    runs.map_values(|o: TrajectoryOutput| radial_miss(o))
}

/// Whether the dispersion is reported: if it is asked for and two runs
/// succeeded.
pub open spec fn reports_dispersion(
    results: Seq<Option<TrajectoryOutput>>,
    include_dispersion: bool,
) -> bool {
    include_dispersion && valid(results).len() >= 2
}

/// The impacts of the runs that succeeded.
#[derive(Debug, PartialEq, Eq)]
pub struct Impacts {
    pub wind_drift: Vec<Double>,
    pub drop: Vec<Double>,
    /// The distances from the point of aim, sorted.
    pub sorted_miss: Vec<Double>,
}

fn misses_of(runs: &Vec<TrajectoryOutput>) -> (r: Vec<Double>)
    ensures
        r@ == radial_misses(runs@),
{
    let mut out: Vec<Double> = Vec::new();
    let mut i: usize = 0;
    while i < runs.len()
        invariant
            i <= runs.len(),
            out@ == radial_misses(runs@.take(i as int)),
        decreases runs.len() - i,
    {
        let x: Double = runs[i].wind_drift;
        let y: Double = runs[i].drop;
        out.push(x.times(x).plus(y.times(y)).sqrt());
        i = i + 1;
    }
    assert(runs@.take(i as int) == runs@);
    out
}

/// The impacts, whose spread a summary needs if it reports the dispersion.
pub fn impacts(results: &Vec<Option<TrajectoryOutput>>, include_dispersion: bool) -> (r: Option<
    Impacts,
>)
    ensures
        match r {
            Some(i) => {
                &&& reports_dispersion(results@, include_dispersion)
                &&& i.wind_drift@ == wind_drifts(valid(results@))
                &&& i.drop@ == drops(valid(results@))
                &&& i.sorted_miss@ == sorted(radial_misses(valid(results@)))
            },
            None => !reports_dispersion(results@, include_dispersion),
        },
{
    let runs: Vec<TrajectoryOutput> = valid_runs(results);
    if !include_dispersion || runs.len() < 2 {
        return None;
    }
    let mut wind_drift: Vec<Double> = Vec::new();
    let mut drop: Vec<Double> = Vec::new();
    let mut i: usize = 0;
    while i < runs.len()
        invariant
            i <= runs.len(),
            wind_drift@ == wind_drifts(runs@.take(i as int)),
            drop@ == drops(runs@.take(i as int)),
        decreases runs.len() - i,
    {
        wind_drift.push(runs[i].wind_drift);
        drop.push(runs[i].drop);
        i = i + 1;
    }
    assert(runs@.take(i as int) == runs@);
    let sorted_miss: Vec<Double> = sort_numbers(&misses_of(&runs));
    Some(Impacts { wind_drift, drop, sorted_miss })
}

/// An ellipse: its center, its semi-axes in meters, its rotation in degrees.
#[derive(Clone, Copy, Debug, PartialEq, Eq, Structural)]
pub struct Ellipse {
    pub center_x: Double,
    pub center_y: Double,
    pub semi_major: Double,
    pub semi_minor: Double,
    pub rotation_deg: Double,
}

/// What was found of the impacts: the circular error probable about their mean,
/// the confidence ellipse, points to draw, and the median miss.
#[derive(Debug, PartialEq, Eq)]
pub struct Spread {
    pub cep: Double,
    pub ellipse: Ellipse,
    pub points: Vec<(Double, Double)>,
    pub median_miss: Double,
}

/// An ellipse in meters and in inches.
#[derive(Clone, Copy, Debug, PartialEq, Eq, Structural)]
pub struct EllipseReport {
    pub center_x_m: Double,
    pub center_y_m: Double,
    pub center_x_inches: Double,
    pub center_y_inches: Double,
    pub semi_major_m: Double,
    pub semi_minor_m: Double,
    pub semi_major_inches: Double,
    pub semi_minor_inches: Double,
    pub rotation_deg: Double,
}

/// An ellipse in meters and in inches.
pub open spec fn ellipse_report(e: Ellipse) -> EllipseReport {
    EllipseReport {
        center_x_m: e.center_x,
        center_y_m: e.center_y,
        center_x_inches: scaled(e.center_x, M_TO_INCHES),
        center_y_inches: scaled(e.center_y, M_TO_INCHES),
        semi_major_m: e.semi_major,
        semi_minor_m: e.semi_minor,
        semi_major_inches: scaled(e.semi_major, M_TO_INCHES),
        semi_minor_inches: scaled(e.semi_minor, M_TO_INCHES),
        rotation_deg: e.rotation_deg,
    }
}

/// How the impacts are dispersed.
#[derive(Debug, PartialEq, Eq)]
pub struct Dispersion {
    pub cep_m: Double,
    pub cep_inches: Double,
    pub hit_probability: Double,
    pub hit_radius_m: Double,
    pub target_plane_cep_m: Double,
    pub target_plane_cep_inches: Double,
    pub ellipse: EllipseReport,
    pub sample_points: Vec<(Double, Double)>,
}

/// How many of the misses are within the radius.
pub open spec fn hits(misses: Seq<Double>, radius: Double) -> nat
    decreases misses.len(),
{
    if misses.len() == 0 {
        0
    } else if misses.last().at_most(radius) {
        hits(misses.drop_last(), radius) + 1
    } else {
        hits(misses.drop_last(), radius)
    }
}

/// The share that `part` is of `whole`; nothing is no share of nothing.
pub open spec fn share(part: nat, whole: nat) -> Double {
    if whole > 0 {
        Double::nearest(part).quotient(Double::nearest(whole))
    } else {
        constant(ZERO)
    }
}

fn share_of(part: usize, whole: usize) -> (r: Double)
    ensures
        r == share(part as nat, whole as nat),
{
    if whole > 0 {
        Double::of_count(part as u64).over(Double::of_count(whole as u64))
    } else {
        Double::from_bits(ZERO)
    }
}

fn count_hits(misses: &Vec<Double>, radius: Double) -> (r: usize)
    ensures
        r == hits(misses@, radius),
        r <= misses.len(),
{
    let mut n: usize = 0;
    let mut i: usize = 0;
    while i < misses.len()
        invariant
            i <= misses.len(),
            n <= i,
            n == hits(misses@.take(i as int), radius),
        decreases misses.len() - i,
    {
        assert(misses@.take(i + 1).drop_last() == misses@.take(i as int));
        if misses[i].le(radius) {
            n = n + 1;
        }
        i = i + 1;
    }
    assert(misses@.take(i as int) == misses@);
    n
}

/// The dispersion of the runs, from the spread of their impacts.  Every run that
/// was tried counts, one that failed as a miss.
pub open spec fn dispersed_as(
    results: Seq<Option<TrajectoryOutput>>,
    hit_radius: Double,
    spread: Spread,
    d: Dispersion,
) -> bool {
    &&& d.cep_m == spread.cep
    &&& d.cep_inches == scaled(spread.cep, M_TO_INCHES)
    &&& d.hit_probability == share(hits(radial_misses(valid(results)), hit_radius), results.len())
    &&& d.hit_radius_m == hit_radius
    &&& d.target_plane_cep_m == spread.median_miss
    &&& d.target_plane_cep_inches == scaled(spread.median_miss, M_TO_INCHES)
    &&& d.ellipse == ellipse_report(spread.ellipse)
    &&& d.sample_points@ == spread.points@
}

/// Reports the dispersion of the runs.
pub fn dispersion(results: &Vec<Option<TrajectoryOutput>>, hit_radius: Double, spread: Spread) -> (r:
    Dispersion)
    ensures
        dispersed_as(results@, hit_radius, spread, r),
{
    let runs: Vec<TrajectoryOutput> = valid_runs(results);
    let n: usize = count_hits(&misses_of(&runs), hit_radius);
    let e: Ellipse = spread.ellipse;
    Dispersion {
        cep_m: spread.cep,
        cep_inches: scale(spread.cep, M_TO_INCHES),
        hit_probability: share_of(n, results.len()),
        hit_radius_m: hit_radius,
        target_plane_cep_m: spread.median_miss,
        target_plane_cep_inches: scale(spread.median_miss, M_TO_INCHES),
        ellipse: EllipseReport {
            center_x_m: e.center_x,
            center_y_m: e.center_y,
            center_x_inches: scale(e.center_x, M_TO_INCHES),
            center_y_inches: scale(e.center_y, M_TO_INCHES),
            semi_major_m: e.semi_major,
            semi_minor_m: e.semi_minor,
            semi_major_inches: scale(e.semi_major, M_TO_INCHES),
            semi_minor_inches: scale(e.semi_minor, M_TO_INCHES),
            rotation_deg: e.rotation_deg,
        },
        sample_points: spread.points,
    }
}

/// How many runs there were.
#[derive(Clone, Copy, Debug, PartialEq, Eq, Structural)]
pub struct Metadata {
    pub valid_runs: usize,
    pub failed_runs: usize,
    pub total_runs: usize,
    pub success_rate: Double,
}

/// The summary of many runs.
#[derive(Debug, PartialEq, Eq)]
pub struct MonteCarloSummary {
    /// None if no run succeeded.
    pub statistics: Option<PerField<FieldStatistics>>,
    /// None unless it was asked for and two runs succeeded.
    pub dispersion: Option<Dispersion>,
    pub metadata: Metadata,
}

/// The statistics of all fields.
pub open spec fn statistics(
    results: Seq<Option<TrajectoryOutput>>,
    percentiles: PerField<FieldPercentiles>,
) -> Option<PerField<FieldStatistics>> {
    if valid(results).len() == 0 {
        None
    } else {
        Some(
            PerField {
                drop_m: field_statistics(sorted_field(results, "drop_m"@), percentiles.drop_m),
                wind_drift_m: field_statistics(
                    sorted_field(results, "wind_drift_m"@),
                    percentiles.wind_drift_m,
                ),
                time_of_flight_s: field_statistics(
                    sorted_field(results, "time_of_flight_s"@),
                    percentiles.time_of_flight_s,
                ),
                final_vel_fps: field_statistics(
                    sorted_field(results, "final_vel_fps"@),
                    percentiles.final_vel_fps,
                ),
                energy_ft_lbs: field_statistics(
                    sorted_field(results, "energy_ft_lbs"@),
                    percentiles.energy_ft_lbs,
                ),
                mach: field_statistics(sorted_field(results, "mach"@), percentiles.mach),
            },
        )
    }
}

/// The caller's hit radius, or else the default one.
pub open spec fn radius_or(hit_radius_m: Option<Double>, default_hit_radius_m: Double) -> Double {
    match hit_radius_m {
        Some(radius) => radius,
        None => default_hit_radius_m,
    }
}

/// The caller's hit radius, or else the default one.
pub fn hit_radius(hit_radius_m: Option<Double>, default_hit_radius_m: Double) -> (r: Double)
    ensures
        r == radius_or(hit_radius_m, default_hit_radius_m),
{
    match hit_radius_m {
        Some(radius) => radius,
        None => default_hit_radius_m,
    }
}

/// The runs are counted so.
pub open spec fn counted(results: Seq<Option<TrajectoryOutput>>, m: Metadata) -> bool {
    &&& m.valid_runs == valid(results).len()
    &&& m.failed_runs == results.len() - valid(results).len()
    &&& m.total_runs == results.len()
    &&& m.success_rate == share(valid(results).len(), results.len())
}

/// Summarises runs: from their outcomes, the percentiles of their sorted fields
/// and, where the dispersion is reported, the spread of their impacts.  Without a hit radius of the caller's it is
/// the default one.
pub fn monte_carlo_parallel(
    results: &Vec<Option<TrajectoryOutput>>,
    percentiles: PerField<FieldPercentiles>,
    spread: Option<Spread>,
    include_dispersion: bool,
    hit_radius_m: Option<Double>,
    default_hit_radius_m: Double,
) -> (r: MonteCarloSummary)
    requires
        reports_dispersion(results@, include_dispersion) ==> spread is Some,
    ensures
        r.statistics == statistics(results@, percentiles),
        match r.dispersion {
            Some(d) => reports_dispersion(results@, include_dispersion) && (spread matches Some(s)
                && dispersed_as(
                results@,
                radius_or(hit_radius_m, default_hit_radius_m),
                s,
                d,
            )),
            None => !reports_dispersion(results@, include_dispersion),
        },
        counted(results@, r.metadata),
{
    let runs: Vec<TrajectoryOutput> = valid_runs(results);
    let statistics: Option<PerField<FieldStatistics>> = if runs.len() == 0 {
        None
    } else {
        let f: PerField<Vec<Double>> = sorted_fields(results);
        proof {
            crate::sorting::law_sorting_keeps_items(field_values(runs@, "drop_m"@));
            crate::sorting::law_sorting_keeps_items(field_values(runs@, "wind_drift_m"@));
            crate::sorting::law_sorting_keeps_items(field_values(runs@, "time_of_flight_s"@));
            crate::sorting::law_sorting_keeps_items(field_values(runs@, "final_vel_fps"@));
            crate::sorting::law_sorting_keeps_items(field_values(runs@, "energy_ft_lbs"@));
            crate::sorting::law_sorting_keeps_items(field_values(runs@, "mach"@));
        }
        Some(
            PerField {
                drop_m: statistics_of_field(&f.drop_m, percentiles.drop_m),
                wind_drift_m: statistics_of_field(&f.wind_drift_m, percentiles.wind_drift_m),
                time_of_flight_s: statistics_of_field(
                    &f.time_of_flight_s,
                    percentiles.time_of_flight_s,
                ),
                final_vel_fps: statistics_of_field(&f.final_vel_fps, percentiles.final_vel_fps),
                energy_ft_lbs: statistics_of_field(&f.energy_ft_lbs, percentiles.energy_ft_lbs),
                mach: statistics_of_field(&f.mach, percentiles.mach),
            },
        )
    };
    let radius: Double = hit_radius(hit_radius_m, default_hit_radius_m);
    let reported: Option<Dispersion> = match spread {
        Some(s) => if include_dispersion && runs.len() >= 2 {
            Some(dispersion(results, radius, s))
        } else {
            None
        },
        None => None,
    };
    let metadata: Metadata = Metadata {
        valid_runs: runs.len(),
        failed_runs: results.len() - runs.len(),
        total_runs: results.len(),
        success_rate: share_of(runs.len(), results.len()),
    };
    MonteCarloSummary { statistics, dispersion: reported, metadata }
}

/// How the driver samples, in SI units.
#[derive(Clone, Copy, Debug, PartialEq, Eq, Structural)]
pub struct MonteCarloParams {
    pub num_simulations: usize,
    pub velocity_std_dev: Double,
    pub angle_std_dev: Double,
    pub bc_std_dev: Double,
    pub wind_speed_std_dev: Double,
    pub target_distance: Option<Double>,
    pub base_wind_speed: Double,
    pub base_wind_direction: Double,
    pub azimuth_std_dev: Double,
}

/// A request to the driver.
#[derive(Debug, PartialEq, Eq)]
pub struct MonteCarloCall {
    pub inputs: BallisticInputs,
    pub base_wind: WindConditions,
    pub params: MonteCarloParams,
    pub wind_direction_std_dev: Double,
}

/// The number of samples, by default 1000.
pub open spec fn num_simulations(params: Dict) -> Result<usize, Fault> {
    match params.optional_index("num_simulations"@) {
        Ok(Some(n)) => Ok(n),
        Ok(None) => Ok(1000),
        Err(f) => Err(f),
    }
}

/// A number among the parameters.
pub open spec fn parameter(params: Dict, key: Seq<char>, default: u64) -> Result<Double, Fault> {
    params.number(key, None, constant(default))
}

/// The first fault among the parameters.
pub open spec fn params_fault(params: Dict) -> Option<Fault> {
    if let Err(f) = num_simulations(params) {
        Some(f)
    } else if let Err(f) = params.optional_number("target_distance"@) {
        Some(f)
    } else if let Err(f) = parameter(params, "velocity_std_dev"@, ONE) {
        Some(f)
    } else if let Err(f) = parameter(params, "angle_std_dev"@, THOUSANDTH) {
        Some(f)
    } else if let Err(f) = parameter(params, "bc_std_dev"@, HUNDREDTH) {
        Some(f)
    } else if let Err(f) = parameter(params, "wind_speed_std_dev"@, ONE) {
        Some(f)
    } else if let Err(f) = parameter(params, "base_wind_speed"@, ZERO) {
        Some(f)
    } else if let Err(f) = parameter(params, "base_wind_direction"@, ZERO) {
        Some(f)
    } else if let Err(f) = parameter(params, "azimuth_std_dev"@, THOUSANDTH) {
        Some(f)
    } else if let Err(f) = parameter(params, "wind_direction_std_dev"@, THOUSANDTH) {
        Some(f)
    } else {
        None
    }
}

/// The parameters are what the dictionary says.
pub open spec fn params_read_as(params: Dict, p: MonteCarloParams, wind_direction: Double) -> bool {
    &&& num_simulations(params) == Ok::<usize, Fault>(p.num_simulations)
    &&& params.optional_number("target_distance"@) == Ok::<Option<Double>, Fault>(p.target_distance)
    &&& parameter(params, "velocity_std_dev"@, ONE) == Ok::<Double, Fault>(p.velocity_std_dev)
    &&& parameter(params, "angle_std_dev"@, THOUSANDTH) == Ok::<Double, Fault>(p.angle_std_dev)
    &&& parameter(params, "bc_std_dev"@, HUNDREDTH) == Ok::<Double, Fault>(p.bc_std_dev)
    &&& parameter(params, "wind_speed_std_dev"@, ONE) == Ok::<Double, Fault>(p.wind_speed_std_dev)
    &&& parameter(params, "base_wind_speed"@, ZERO) == Ok::<Double, Fault>(p.base_wind_speed)
    &&& parameter(params, "base_wind_direction"@, ZERO) == Ok::<Double, Fault>(p.base_wind_direction)
    &&& parameter(params, "azimuth_std_dev"@, THOUSANDTH) == Ok::<Double, Fault>(p.azimuth_std_dev)
    &&& parameter(params, "wind_direction_std_dev"@, THOUSANDTH) == Ok::<Double, Fault>(
        wind_direction,
    )
}

fn read_parameter(params: &Dict, key: &str, default: u64) -> (r: Result<Double, Exception>)
    ensures
        match r {
            Ok(v) => parameter(*params, key@, default) == Ok::<Double, Fault>(v),
            Err(e) => parameter(*params, key@, default) == Err::<Double, Fault>(e@),
        },
{
    f64_field(params, key, None, Double::from_bits(default))
}

/// Reads the parameters of a sampling, the spread of the wind direction apart.
pub fn read_params(params: &Dict) -> (r: Result<(MonteCarloParams, Double), Exception>)
    ensures
        match r {
            Ok(p) => params_fault(*params) is None && params_read_as(*params, p.0, p.1),
            Err(e) => params_fault(*params) == Some(e@),
        },
{
    let num_simulations: usize = match opt_index(params, "num_simulations") {
        Ok(Some(n)) => n,
        Ok(None) => 1000,
        Err(e) => return Err(e),
    };
    let target_distance: Option<Double> = match opt_number(params, "target_distance") {
        Ok(v) => v,
        Err(e) => return Err(e),
    };
    let velocity_std_dev: Double = match read_parameter(params, "velocity_std_dev", ONE) {
        Ok(v) => v,
        Err(e) => return Err(e),
    };
    let angle_std_dev: Double = match read_parameter(params, "angle_std_dev", THOUSANDTH) {
        Ok(v) => v,
        Err(e) => return Err(e),
    };
    let bc_std_dev: Double = match read_parameter(params, "bc_std_dev", HUNDREDTH) {
        Ok(v) => v,
        Err(e) => return Err(e),
    };
    let wind_speed_std_dev: Double = match read_parameter(params, "wind_speed_std_dev", ONE) {
        Ok(v) => v,
        Err(e) => return Err(e),
    };
    let base_wind_speed: Double = match read_parameter(params, "base_wind_speed", ZERO) {
        Ok(v) => v,
        Err(e) => return Err(e),
    };
    let base_wind_direction: Double = match read_parameter(params, "base_wind_direction", ZERO) {
        Ok(v) => v,
        Err(e) => return Err(e),
    };
    let azimuth_std_dev: Double = match read_parameter(params, "azimuth_std_dev", THOUSANDTH) {
        Ok(v) => v,
        Err(e) => return Err(e),
    };
    let wind_direction: Double = match read_parameter(
        params,
        "wind_direction_std_dev",
        THOUSANDTH,
    ) {
        Ok(v) => v,
        Err(e) => return Err(e),
    };
    Ok(
        (
            MonteCarloParams {
                num_simulations,
                velocity_std_dev,
                angle_std_dev,
                bc_std_dev,
                wind_speed_std_dev,
                target_distance,
                base_wind_speed,
                base_wind_direction,
                azimuth_std_dev,
            },
            wind_direction,
        ),
    )
}

/// The inputs in an atmosphere that is given apart, if it is.
pub open spec fn in_atmosphere(b: BallisticInputs, atmo: Option<PyAtmosphericConditions>) -> BallisticInputs {
    match atmo {
        Some(a) => BallisticInputs {
            temperature: a.si().temperature,
            pressure: a.si().pressure,
            humidity: unscaled(a.si().humidity, HUNDRED),
            altitude: a.si().altitude,
            ..b
        },
        None => b,
    }
}

fn move_to_atmosphere(b: &mut BallisticInputs, atmo: Option<PyAtmosphericConditions>)
    ensures
        *final(b) == in_atmosphere(*old(b), atmo),
{
    match atmo {
        Some(a) => {
            let air: AtmosphericConditions = a.to_rust();
            b.temperature = air.temperature;
            b.pressure = air.pressure;
            b.humidity = unscale(air.humidity, HUNDRED);
            b.altitude = air.altitude;
        },
        None => {},
    }
}

/// The wind that is given apart, or else that of the inputs.
pub open spec fn base_wind(b: BallisticInputs, wind: Option<PyWindConditions>) -> WindConditions {
    match wind {
        Some(w) => w.si(),
        None => wind_of(b),
    }
}

/// The request to the driver for a dictionary of inputs and one of parameters.
/// A wind or an atmosphere that is given goes before that of the inputs.
pub fn run_monte_carlo(
    inputs: &Dict,
    refusal: &str,
    params: &Dict,
    wind: Option<PyWindConditions>,
    atmo: Option<PyAtmosphericConditions>,
) -> (r: Result<MonteCarloCall, Exception>)
    ensures
        match r {
            Ok(call) => {
                &&& parse_fault(*inputs, refusal@) is None
                &&& params_fault(*params) is None
                &&& params_read_as(*params, call.params, call.wind_direction_std_dev)
                &&& exists|b: BallisticInputs|
                    reads_as(*inputs, refusal@, b) && call.inputs == in_atmosphere(
                        si(b),
                        atmo,
                    ) && call.base_wind == base_wind(si(b), wind)
            },
            Err(e) => match parse_fault(*inputs, refusal@) {
                Some(f) => e@ == f,
                None => params_fault(*params) == Some(e@),
            },
        },
{
    let mut bi: BallisticInputs = match ballistic_inputs_from_dict(inputs, refusal) {
        Ok(b) => b,
        Err(e) => return Err(e),
    };
    let ghost read = bi;
    full_to_si(&mut bi);
    let blowing: WindConditions = match wind {
        Some(w) => w.to_rust(),
        None => bi.own_wind(),
    };
    move_to_atmosphere(&mut bi, atmo);
    let (mc_params, wind_direction_std_dev) = match read_params(params) {
        Ok(p) => p,
        Err(e) => return Err(e),
    };
    assert(reads_as(*inputs, refusal@, read) && bi == in_atmosphere(si(read), atmo)
        && blowing == base_wind(si(read), wind));
    Ok(MonteCarloCall { inputs: bi, base_wind: blowing, params: mc_params, wind_direction_std_dev })
}

/// What the driver found.
#[derive(Debug, PartialEq, Eq)]
pub struct MonteCarloResults {
    pub hit_probability: Double,
    /// The median miss of the samples that arrived, if any did.
    pub target_plane_cep: Option<Double>,
    pub target_arrival_count: usize,
    pub target_shortfall_fraction: Double,
    pub ranges: Vec<Double>,
    pub impact_velocities: Vec<Double>,
    /// Downrange, up, to the right.
    pub impact_positions: Vec<(Double, Double, Double)>,
}

/// The report on a sampling.
#[derive(Debug, PartialEq, Eq)]
pub struct MonteCarloReport {
    pub hit_probability: Double,
    pub hit_radius_m: Double,
    pub target_plane_cep_m: Option<Double>,
    pub target_arrival_count: usize,
    pub target_shortfall_fraction: Double,
    pub num_samples: usize,
    pub ranges_m: Vec<Double>,
    pub impact_velocities_mps: Vec<Double>,
    pub impact_positions_yz_m: Vec<(Double, Double)>,
}

/// The vertical and lateral parts of the impacts.
pub open spec fn target_plane(positions: Seq<(Double, Double, Double)>) -> Seq<(Double, Double)> {
    positions.map_values(|p: (Double, Double, Double)| (p.1, p.2))
}

/// A sampling is reported so.
pub open spec fn sampling_report(
    f: MonteCarloResults,
    hit_radius_m: Double,
    p: MonteCarloReport,
) -> bool {
    &&& p.hit_probability == f.hit_probability
    &&& p.hit_radius_m == hit_radius_m
    &&& p.target_plane_cep_m == f.target_plane_cep
    &&& p.target_arrival_count == f.target_arrival_count
    &&& p.target_shortfall_fraction == f.target_shortfall_fraction
    &&& p.num_samples == f.impact_positions.len()
    &&& p.ranges_m == f.ranges
    &&& p.impact_velocities_mps == f.impact_velocities
    &&& p.impact_positions_yz_m@ == target_plane(f.impact_positions@)
}

/// Reports on a sampling, or raises the driver's complaint.
pub fn monte_carlo_report(found: Result<MonteCarloResults, String>, hit_radius_m: Double) -> (r: Result<
    MonteCarloReport,
    Exception,
>)
    ensures
        match found {
            Ok(f) => r matches Ok(p) && sampling_report(f, hit_radius_m, p),
            Err(e) => r matches Err(x) && x@ == value_fault("Monte Carlo run failed: "@ + e@),
        },
{
    let f: MonteCarloResults = match found {
        Ok(f) => f,
        Err(e) => {
            return Err(Exception::value_error(join2("Monte Carlo run failed: ", e.as_str())));
        },
    };
    let mut plane: Vec<(Double, Double)> = Vec::new();
    let mut i: usize = 0;
    while i < f.impact_positions.len()
        invariant
            i <= f.impact_positions.len(),
            plane@ == target_plane(f.impact_positions@.take(i as int)),
        decreases f.impact_positions.len() - i,
    {
        plane.push((f.impact_positions[i].1, f.impact_positions[i].2));
        i = i + 1;
    }
    assert(f.impact_positions@.take(i as int) == f.impact_positions@);
    Ok(
        MonteCarloReport {
            hit_probability: f.hit_probability,
            hit_radius_m,
            target_plane_cep_m: f.target_plane_cep,
            target_arrival_count: f.target_arrival_count,
            target_shortfall_fraction: f.target_shortfall_fraction,
            num_samples: f.impact_positions.len(),
            ranges_m: f.ranges,
            impact_velocities_mps: f.impact_velocities,
            impact_positions_yz_m: plane,
        },
    )
}

} // verus!
