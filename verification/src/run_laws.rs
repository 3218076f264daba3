//! Laws of the Monte Carlo runs, of the winds and of the trajectories.

use vstd::prelude::*;
use vstd::arithmetic::power2::*;
use vstd::seq_lib::*;
use crate::conditions::percent;
use crate::double::{lemma_magnitude_increases, lemma_round_zero, Double};
use crate::exception::{Exception, Fault};
use crate::fast::{level_segments, queries, shear_model, wind_in_mps, ShearModel, WindQuery};
use crate::fast::WindTuple;
use crate::inputs::BallisticInputs;
use crate::montecarlo::{field_statistics, field_values, hits, output_field, radial_misses, share};
use crate::montecarlo::{sorted_field, valid, FieldPercentiles, Percentiles};
use crate::nearest::law_share_is_between_zero_and_one;
use crate::rounding::magnitude;
use crate::sampling::{between, crossing, crossing_at, crossing_between, run_output, sample_of};
use crate::sampling::{sample_si, set_if, with_parameter, with_parameters, Crossing};
use crate::sampling::TrajectoryOutput;
use crate::solver::{wind_segment, wind_segments, WindSegment};
use crate::sorting::{law_sorting_keeps_items, law_sorting_orders, no_nan, sorted};
use crate::trajectory::{reported_point, TrajectoryPoint};
use crate::units::{constant, scaled, unscaled, HUNDRED, KMH_TO_MPS, ONE, YARDS_TO_METERS, ZERO};

verus! {

/// The names of the parameters that a run can vary.
pub open spec fn parameter_name(name: Seq<char>) -> bool {
    ||| name == "bc_value"@
    ||| name == "bullet_mass"@
    ||| name == "muzzle_velocity"@
    ||| name == "wind_speed"@
    ||| name == "wind_angle"@
    ||| name == "target_distance"@
    ||| name == "muzzle_angle"@
    ||| name == "altitude"@
    ||| name == "temperature"@
    ||| name == "pressure"@
    ||| name == "humidity"@
    ||| name == "latitude"@
    ||| name == "twist_rate"@
    ||| name == "bullet_length"@
    ||| name == "bullet_diameter"@
}

/// A parameter with an unknown name changes nothing.
pub proof fn law_unknown_parameter_is_ignored(b: BallisticInputs, name: Seq<char>, value: Double)
    requires
        !parameter_name(name),
    ensures
        with_parameter(b, name, value) == b,
{
    reveal(set_if);
}

proof fn lemma_same_columns(
    b: BallisticInputs,
    names: Seq<String>,
    row: Seq<Double>,
    other_names: Seq<String>,
    other_row: Seq<Double>,
    n: int,
)
    requires
        n <= names.len(),
        n <= other_names.len(),
        n <= row.len(),
        n <= other_row.len(),
        forall|i: int| 0 <= i < n ==> #[trigger] names[i] == other_names[i],
        forall|i: int| 0 <= i < n ==> #[trigger] row[i] == other_row[i],
    ensures
        with_parameters(b, names, row, n) == with_parameters(b, other_names, other_row, n),
    decreases n,
{
    if n > 0 {
        lemma_same_columns(b, names, row, other_names, other_row, n - 1);
        assert(names[n - 1] == other_names[n - 1] && row[n - 1] == other_row[n - 1]);
    }
}

proof fn lemma_no_column(b: BallisticInputs, names: Seq<String>, row: Seq<Double>, n: int)
    requires
        n >= row.len(),
    ensures
        with_parameters(b, names, row, n) == with_parameters(b, names, row, row.len() as int),
    decreases n,
{
    if n > row.len() {
        lemma_no_column(b, names, row, n - 1);
    }
}

/// How many of the names have a column.
spec fn named(names: Seq<String>, row: Seq<Double>) -> int {
    if names.len() <= row.len() {
        names.len() as int
    } else {
        row.len() as int
    }
}

proof fn lemma_named(b: BallisticInputs, names: Seq<String>, row: Seq<Double>)
    ensures
        sample_of(b, names, row) == sample_si(with_parameters(b, names, row, named(names, row))),
{
    if names.len() > row.len() {
        lemma_no_column(b, names, row, names.len() as int);
    }
}

/// An extra column at the end of a row changes nothing unless it has the name of
/// a parameter.
pub proof fn law_extra_column_is_ignored(
    b: BallisticInputs,
    names: Seq<String>,
    row: Seq<Double>,
    value: Double,
)
    requires
        row.len() < names.len() ==> !parameter_name(names[row.len() as int]@),
    ensures
        sample_of(b, names, row.push(value)) == sample_of(b, names, row),
{
    let wide = row.push(value);
    let n = named(names, row);
    lemma_named(b, names, row);
    lemma_named(b, names, wide);
    lemma_same_columns(b, names, row, names, wide, n);
    if row.len() < names.len() {
        law_unknown_parameter_is_ignored(
            with_parameters(b, names, row, n),
            names[n]@,
            value,
        );
    }
}

/// An extra name at the end of the names changes nothing if it has no column.
pub proof fn law_name_without_a_column_is_ignored(
    b: BallisticInputs,
    names: Seq<String>,
    row: Seq<Double>,
    name: String,
)
    requires
        row.len() <= names.len(),
    ensures
        sample_of(b, names.push(name), row) == sample_of(b, names, row),
{
    lemma_named(b, names, row);
    lemma_named(b, names.push(name), row);
    lemma_same_columns(b, names, row, names.push(name), row, row.len() as int);
}

/// An extra column together with a name for it changes nothing unless the name is
/// that of a parameter.
pub proof fn law_extra_named_column_is_ignored(
    b: BallisticInputs,
    names: Seq<String>,
    row: Seq<Double>,
    name: String,
    value: Double,
)
    requires
        row.len() == names.len(),
        !parameter_name(name@),
    ensures
        sample_of(b, names.push(name), row.push(value)) == sample_of(b, names, row),
{
    law_name_without_a_column_is_ignored(b, names, row, name);
    law_extra_column_is_ignored(b, names.push(name), row, value);
}

/// Of two values for one parameter the later holds.
pub proof fn law_later_value_holds(
    b: BallisticInputs,
    name: Seq<char>,
    earlier: Double,
    later: Double,
)
    ensures
        with_parameter(with_parameter(b, name, earlier), name, later) == with_parameter(
            b,
            name,
            later,
        ),
{
    assert forall|own: Seq<char>, before: Double| #[trigger]
        set_if(name, own, later, set_if(name, own, earlier, before)) == set_if(
            name,
            own,
            later,
            before,
        ) by {
        reveal(set_if);
    }
}

/// The drop of a run is measured from the bore: it does not depend on the sight,
/// muzzle and target heights of the inputs.
pub proof fn law_drop_is_from_the_bore(
    b: BallisticInputs,
    names: Seq<String>,
    row: Seq<Double>,
    arrived: Crossing,
    speed_of_sound: Double,
    litz_drift_m: Double,
)
    ensures
        sample_of(b, names, row).sight_height == constant(ZERO),
        sample_of(b, names, row).muzzle_height == constant(ZERO),
        sample_of(b, names, row).target_height == constant(ZERO),
        run_output(sample_of(b, names, row), arrived, speed_of_sound, litz_drift_m).drop
            == constant(ZERO).difference(arrived.y),
{
    assert(constant(ZERO).sum(constant(ZERO)) == constant(ZERO)) by {
        reveal(Double::sum);
        assert(magnitude(0) == 0);
    }
}

/// The runs that succeeded are some of all runs.
pub proof fn law_valid_runs_are_runs(results: Seq<Option<TrajectoryOutput>>)
    ensures
        valid(results).len() <= results.len(),
    decreases results.len(),
{
    if results.len() > 0 {
        law_valid_runs_are_runs(results.drop_last());
    }
}

/// The hits are some of the misses measured.
pub proof fn law_hits_are_runs(misses: Seq<Double>, radius: Double)
    ensures
        hits(misses, radius) <= misses.len(),
    decreases misses.len(),
{
    if misses.len() > 0 {
        law_hits_are_runs(misses.drop_last(), radius);
    }
}

/// A larger radius is hit at least as often.
pub proof fn law_larger_radius_hits_more(misses: Seq<Double>, small: Double, large: Double)
    requires
        small.at_most(large),
    ensures
        hits(misses, small) <= hits(misses, large),
    decreases misses.len(),
{
    if misses.len() > 0 {
        law_larger_radius_hits_more(misses.drop_last(), small, large);
    }
}

/// The success rate and the hit probability lie between zero and one.
pub proof fn law_rates_are_between_zero_and_one(
    results: Seq<Option<TrajectoryOutput>>,
    radius: Double,
)
    requires
        results.len() <= u64::MAX,
    ensures
        constant(ZERO).at_most(share(valid(results).len(), results.len())),
        share(valid(results).len(), results.len()).at_most(constant(ONE)),
        constant(ZERO).at_most(share(hits(radial_misses(valid(results)), radius), results.len())),
        share(hits(radial_misses(valid(results)), radius), results.len()).at_most(constant(ONE)),
{
    let misses = radial_misses(valid(results));
    law_valid_runs_are_runs(results);
    law_hits_are_runs(misses, radius);
    if results.len() > 0 {
        law_share_is_between_zero_and_one(valid(results).len(), results.len());
        law_share_is_between_zero_and_one(hits(misses, radius), results.len());
    } else {
        lemma_magnitude_increases(0, ONE as nat);
        assert(magnitude(0) == 0);
    }
}

/// The statistics of a single run are its value, with no deviation.
pub proof fn law_single_run(
    results: Seq<Option<TrajectoryOutput>>,
    f: Seq<char>,
    percentiles: FieldPercentiles,
)
    requires
        valid(results).len() == 1,
    ensures
        ({
            let s = field_statistics(sorted_field(results, f), percentiles);
            let v = output_field(valid(results)[0], f);
            &&& s.mean == v
            &&& s.min == v
            &&& s.max == v
            &&& s.std == constant(ZERO)
            &&& s.percentiles == (Percentiles::Single { p50: v })
        }),
{
    let values = field_values(valid(results), f);
    reveal_with_fuel(sorted, 2);
    assert(sorted(values) == seq![values[0]]);
}

/// Among numbers the least and the greatest value of a field bound every run.
pub proof fn law_extremes_bound_the_runs(
    results: Seq<Option<TrajectoryOutput>>,
    f: Seq<char>,
    percentiles: FieldPercentiles,
    i: int,
)
    requires
        0 <= i < valid(results).len(),
        no_nan(field_values(valid(results), f)),
    ensures
        ({
            let s = field_statistics(sorted_field(results, f), percentiles);
            let v = output_field(valid(results)[i], f);
            s.min.at_most(v) && v.at_most(s.max)
        }),
{
    broadcast use group_to_multiset_ensures;

    let values = field_values(valid(results), f);
    let r = sorted(values);
    law_sorting_keeps_items(values);
    law_sorting_orders(values);
    assert(values.contains(values[i]));
    assert(r.to_multiset().contains(values[i]));
    assert(r.contains(values[i]));
    let k = choose|k: int| 0 <= k < r.len() && r[k] == values[i];
    assert(r[0].at_most(r[k]));
    assert(r[k].at_most(r[r.len() - 1]));
}

/// A trajectory is read between the first two neighbours that the distance lies
/// between.
pub proof fn law_first_neighbours_are_read(points: Seq<TrajectoryPoint>, range: Double, i: int)
    requires
        0 <= i < points.len() - 1,
        between(points[i], points[i + 1], range),
        forall|j: int| 0 <= j < i ==> !between(#[trigger] points[j], points[j + 1], range),
    ensures
        crossing(points, range) == Some(crossing_between(points[i], points[i + 1], range)),
    decreases i,
{
    if i > 0 {
        let rest = points.drop_first();
        assert(!between(points[0], points[1], range));
        assert forall|j: int| 0 <= j < i - 1 implies !between(
            #[trigger] rest[j],
            rest[j + 1],
            range,
        ) by {
            assert(!between(points[j + 1], points[j + 2], range));
        }
        law_first_neighbours_are_read(rest, range, i - 1);
    }
}

/// A distance between no two neighbours reads the last point.
pub proof fn law_last_point_is_read_otherwise(points: Seq<TrajectoryPoint>, range: Double)
    requires
        points.len() > 0,
        forall|j: int|
            0 <= j < points.len() - 1 ==> !between(#[trigger] points[j], points[j + 1], range),
    ensures
        crossing(points, range) == Some(crossing_at(points.last())),
    decreases points.len(),
{
    if points.len() > 1 {
        let rest = points.drop_first();
        assert(!between(points[0], points[1], range));
        assert forall|j: int| 0 <= j < rest.len() - 1 implies !between(
            #[trigger] rest[j],
            rest[j + 1],
            range,
        ) by {
            assert(!between(points[j + 1], points[j + 2], range));
        }
        law_last_point_is_read_otherwise(rest, range);
        assert(rest.last() == points.last());
    }
}

/// A humidity in percent lies between 0 and 100.
pub proof fn law_percent_is_in_range(fraction: Double)
    requires
        !fraction.nan(),
    ensures
        constant(ZERO).at_most(percent(fraction)),
        percent(fraction).at_most(constant(HUNDRED)),
{
    lemma_magnitude_increases(0, HUNDRED as nat);
    assert(magnitude(0) == 0);
    assert(!fraction.product(constant(HUNDRED)).nan()) by {
        reveal(Double::product);
    }
}

/// Winds for the shear model and for the uniform one come from the same km/h: of
/// each pair the first is the second in m/s, from the same direction up to the
/// same distance.
pub proof fn law_winds_share_their_units(segments: Seq<WindTuple>, i: int)
    requires
        0 <= i < segments.len(),
    ensures
        ({
            let sheared = segments.map_values(|w: WindTuple| wind_in_mps(w));
            let uniform = level_segments(segments);
            &&& sheared.len() == segments.len()
            &&& uniform.len() == segments.len()
            &&& sheared[i].0 == scaled(uniform[i].speed_kmh, KMH_TO_MPS)
            &&& sheared[i].1 == uniform[i].angle_deg
            &&& sheared[i].2 == uniform[i].until_m
            &&& uniform[i].vertical_mps == constant(ZERO)
        }),
{
}

/// Wind segments are read one for one, in their order.
pub proof fn law_wind_segments_keep_their_order(
    rows: Seq<Result<Vec<Double>, Exception>>,
    segments: Seq<WindSegment>,
    i: int,
)
    requires
        wind_segments(rows) == Ok::<Seq<WindSegment>, Fault>(segments),
        0 <= i < rows.len(),
    ensures
        segments.len() == rows.len(),
        wind_segment(rows[i]) == Ok::<WindSegment, Fault>(segments[i]),
    decreases rows.len(),
{
    let rest = rows.drop_last();
    let before = wind_segments(rest)->Ok_0;
    assert(segments == before.push(wind_segment(rows.last())->Ok_0));
    if i < rest.len() {
        law_wind_segments_keep_their_order(rest, before, i);
    } else if rest.len() > 0 {
        law_wind_segments_keep_their_order(rest, before, 0);
    }
}

/// A name of no shear model is taken for the power law: it gives the same request
/// for the wind.
pub proof fn law_unknown_shear_is_the_power_law(
    b: BallisticInputs,
    c: BallisticInputs,
    winds: Seq<WindTuple>,
    q: WindQuery,
)
    requires
        b.wind_shear_model@ != "none"@,
        b.wind_shear_model@ != "logarithmic"@,
        b.wind_shear_model@ != "power_law"@,
        b.wind_shear_model@ != "ekman_spiral"@,
        c.wind_shear_model@ == "power_law"@,
        b.enable_wind_shear == c.enable_wind_shear,
        b.altitude == c.altitude,
    ensures
        shear_model(b.wind_shear_model@) == ShearModel::PowerLaw,
        shear_model(c.wind_shear_model@) == ShearModel::PowerLaw,
        queries(b, winds, q) == queries(c, winds, q),
{
    reveal_strlit("none");
    reveal_strlit("logarithmic");
    reveal_strlit("power_law");
    reveal_strlit("ekman_spiral");
    assert("power_law"@.len() != "none"@.len());
    assert("power_law"@.len() != "logarithmic"@.len());
    assert("power_law"@.len() != "ekman_spiral"@.len());
}

/// A point on the line of sight is reported at height zero.
pub proof fn law_line_of_sight_is_height_zero(p: TrajectoryPoint, bullet_mass_kg: Double)
    requires
        p.y.finite(),
    ensures
        reported_point(p, p.y, bullet_mass_kg).y.zero(),
{
    let rise = p.y.difference(p.y);
    assert(rise.zero()) by {
        reveal(Double::sum);
    }
    assert(unscaled(rise, YARDS_TO_METERS).zero()) by {
        reveal(Double::quotient);
        assert(magnitude(0) == 0);
        lemma_magnitude_increases(0, YARDS_TO_METERS as nat);
        lemma_round_zero(magnitude(YARDS_TO_METERS as nat));
        assert(0 * pow2(1074) == 0) by (nonlinear_arith);
    }
}

} // verus!
