//! What the summary of many runs means.

use vstd::prelude::*;
use crate::dict::Dict;
use crate::double::{lemma_magnitude_increases, Double};
use crate::exception::{value_fault, Exception};
use crate::input_laws::given_number;
use crate::mean_laws::law_means_are_totals_shared;
use crate::montecarlo::{check_threads, counted, dispersed_as, drops, field_statistics};
use crate::montecarlo::{field_values, hits, impacts, monte_carlo_parallel, monte_carlo_report};
use crate::montecarlo::{output_field, params_read_as, radial_miss, radial_misses, radius_or};
use crate::montecarlo::{ranks, reports_dispersion, sampling_report, share, sorted_fields};
use crate::montecarlo::{standard_deviation, statistics, total, valid, wind_drifts, Dispersion};
use crate::montecarlo::{FieldPercentiles, Impacts, Metadata, MonteCarloParams, MonteCarloReport};
use crate::montecarlo::{MonteCarloResults, MonteCarloSummary, PerField, Percentiles, Spread};
use crate::montecarlo::{J_TO_FTLBS, M_TO_FEET, M_TO_INCHES};
use crate::nearest::{distance, lemma_nearest_count, lemma_one, lemma_relative_error};
use crate::rounding::{magnitude, HIDDEN, INFINITE, SIGNIFICAND_END};
use crate::run_laws::{law_extremes_bound_the_runs, law_single_run};
use crate::sampling::TrajectoryOutput;
use crate::sorting::no_nan;
use crate::sum_laws::{law_product_mirrors, law_quotient_of_equals, law_sum_commutes};
use crate::unit_laws::{law_factors_stand_for_their_units, law_ranks_stand_for_their_shares};
use crate::unit_laws::{law_scaled_measures, law_scaling_keeps_order};
use crate::unit_laws::{law_small_numbers_stand_for_themselves, measures, stands_for};
use crate::units::{constant, scaled, ONE, ZERO};

verus! {

/// The fields of an outcome are its numbers: the speed in feet per second, the
/// energy in foot-pounds, the others as they are.
pub proof fn law_fields_are_the_outcome(o: TrajectoryOutput, f: Seq<char>)
    ensures
        output_field(o, "drop_m"@) == o.drop,
        output_field(o, "wind_drift_m"@) == o.wind_drift,
        output_field(o, "time_of_flight_s"@) == o.time,
        output_field(o, "mach"@) == o.mach,
        measures(output_field(o, "final_vel_fps"@), o.velocity, 328084, 100000),
        measures(output_field(o, "energy_ft_lbs"@), o.energy, 737562, 1000000),
        f != "drop_m"@ && f != "wind_drift_m"@ && f != "time_of_flight_s"@ && f
            != "final_vel_fps"@ && f != "energy_ft_lbs"@ && f != "mach"@ ==> output_field(o, f)
            == constant(ZERO),
{
    reveal_strlit("drop_m");
    reveal_strlit("wind_drift_m");
    reveal_strlit("time_of_flight_s");
    reveal_strlit("final_vel_fps");
    reveal_strlit("energy_ft_lbs");
    reveal_strlit("mach");
    assert("drop_m"@.len() == 6 && "wind_drift_m"@.len() == 12 && "time_of_flight_s"@.len() == 16);
    assert("final_vel_fps"@.len() == 13 && "energy_ft_lbs"@.len() == 13 && "mach"@.len() == 4);
    assert("final_vel_fps"@[0] != "energy_ft_lbs"@[0]);
    law_factors_stand_for_their_units();
    law_scaled_measures(o.velocity, M_TO_FEET, 328084, 100000);
    law_scaled_measures(o.energy, J_TO_FTLBS, 737562, 1000000);
}

/// A run that failed leaves no outcome, and one that succeeded leaves its own,
/// behind those before it.
pub proof fn law_failed_runs_leave_nothing(
    results: Seq<Option<TrajectoryOutput>>,
    o: TrajectoryOutput,
)
    ensures
        valid(Seq::empty()) == Seq::<TrajectoryOutput>::empty(),
        valid(results.push(None)) == valid(results),
        valid(results.push(Some(o))) == valid(results).push(o),
{
    assert(results.push(None).drop_last() == results);
    assert(results.push(Some(o)).drop_last() == results);
}

/// The runs that succeeded and those that failed are all the runs, one more run
/// counts on one side, and the rate is the share of those that succeeded.
pub proof fn law_runs_are_counted(
    results: Seq<Option<TrajectoryOutput>>,
    o: TrajectoryOutput,
    m: Metadata,
    failed: Metadata,
    succeeded: Metadata,
)
    requires
        counted(results, m),
        counted(results.push(None), failed),
        counted(results.push(Some(o)), succeeded),
    ensures
        m.valid_runs + m.failed_runs == m.total_runs == results.len(),
        failed.valid_runs == m.valid_runs && failed.failed_runs == m.failed_runs + 1,
        succeeded.valid_runs == m.valid_runs + 1 && succeeded.failed_runs == m.failed_runs,
        m.success_rate == share(m.valid_runs as nat, m.total_runs as nat),
        m.failed_runs == 0 && m.total_runs > 0 ==> m.success_rate == constant(ONE),
        m.valid_runs == 0 ==> m.success_rate == constant(ZERO),
{
    law_failed_runs_leave_nothing(results, o);
    law_share_is_the_ratio(m.valid_runs as nat, m.total_runs as nat, m.valid_runs as nat);
}

/// A share is the part over the whole, to within one part in `2^50`: the whole is
/// all of itself, nothing is no share, and a greater part is no less.
pub proof fn law_share_is_the_ratio(part: nat, whole: nat, more: nat)
    requires
        part <= more <= u64::MAX,
        whole <= u64::MAX,
    ensures
        whole > 0 ==> share(whole, whole) == constant(ONE),
        share(0, whole) == constant(ZERO),
        share(part, 0) == constant(ZERO),
        share(part, whole).at_most(share(more, whole)),
        whole > 0 ==> measures(share(part, whole), Double::nearest(part), 1, whole),
        part > 0 ==> stands_for(Double::nearest(part).bits, part, 1),
{
    lemma_count(part);
    lemma_count(whole);
    lemma_count(more);
    if whole > 0 {
        let n = Double::nearest(whole);
        assert(n == constant(n.bits));
        law_quotient_of_equals(n);
        law_scaled_measures(Double::nearest(part), n.bits, whole, 1);
        lemma_counts_in_order(part, more);
        law_scaling_keeps_order(Double::nearest(part), Double::nearest(more), n.bits);
        lemma_count(0);
        crate::unit_laws::law_scaling_mirrors(Double::nearest(0), n.bits);
    }
}

proof fn lemma_counts_in_order(a: nat, b: nat)
    requires
        a <= b <= u64::MAX,
    ensures
        Double::nearest(a).at_most(Double::nearest(b)),
{
    lemma_nearest_count(a);
    lemma_nearest_count(b);
    let p = vstd::arithmetic::power2::pow2(1074);
    assert(a * p <= b * p) by (nonlinear_arith)
        requires
            a <= b,
    ;
    crate::nearest::law_rounding_keeps_order(a * p, b * p, 1);
    if Double::nearest(a).pattern() < Double::nearest(b).pattern() {
        lemma_magnitude_increases(Double::nearest(a).pattern(), Double::nearest(b).pattern());
    }
}

pub proof fn lemma_count(n: nat)
    requires
        n <= u64::MAX,
    ensures
        Double::nearest(n).finite(),
        n == 0 ==> Double::nearest(n) == constant(ZERO),
        n > 0 ==> 0 < Double::nearest(n).bits < INFINITE && stands_for(
            Double::nearest(n).bits,
            n,
            1,
        ),
{
    let p = vstd::arithmetic::power2::pow2(1074);
    lemma_nearest_count(n);
    if n == 0 {
        reveal(Double::nearest);
        crate::double::lemma_round_zero(1);
        assert(0 * p == 0) by (nonlinear_arith);
    } else {
        let pattern = Double::nearest(n).pattern();
        lemma_one();
        crate::unit_laws::lemma_not_tiny(n * p, 1);
        lemma_relative_error(n * p, 1);
        let off = distance(pattern, n * p, 1);
        assert(off * HIDDEN <= off * SIGNIFICAND_END) by (nonlinear_arith)
            requires
                off >= 0,
                HIDDEN <= SIGNIFICAND_END,
        ;
        assert(magnitude(pattern) * 1 == magnitude(pattern));
        assert(Double::nearest(n).bits == pattern);
    }
}

/// How far an impact is from the point of aim does not depend on the side, nor on
/// which of its two offsets is which; a greater offset is no smaller miss.
pub proof fn law_misses_are_alike_on_all_sides(
    o: TrajectoryOutput,
    lateral: TrajectoryOutput,
    vertical: TrajectoryOutput,
    turned: TrajectoryOutput,
)
    requires
        o.wind_drift.finite(),
        o.drop.finite(),
        lateral.wind_drift == o.wind_drift.negated(),
        lateral.drop == o.drop,
        vertical.wind_drift == o.wind_drift,
        vertical.drop == o.drop.negated(),
        turned.wind_drift == o.drop,
        turned.drop == o.wind_drift,
    ensures
        radial_miss(lateral) == radial_miss(o),
        radial_miss(vertical) == radial_miss(o),
        radial_miss(turned) == radial_miss(o),
{
    assert(!o.wind_drift.product(o.wind_drift).nan() && !o.drop.product(o.drop).nan()) by {
        reveal(Double::product);
    }
    law_product_mirrors(o.wind_drift, o.wind_drift);
    law_product_mirrors(o.drop, o.drop);
    law_sum_commutes(o.wind_drift.product(o.wind_drift), o.drop.product(o.drop));
}

/// Hits are the misses within the radius, each counted once.
pub proof fn law_hits_are_within_the_radius(misses: Seq<Double>, miss: Double, radius: Double)
    ensures
        hits(Seq::empty(), radius) == 0,
        miss.at_most(radius) ==> hits(misses.push(miss), radius) == hits(misses, radius) + 1,
        !miss.at_most(radius) ==> hits(misses.push(miss), radius) == hits(misses, radius),
{
    assert(misses.push(miss).drop_last() == misses);
}

/// The impacts of the runs that succeeded, in their order: each miss is that of its
/// own run.
pub proof fn law_impacts_are_those_of_the_runs(runs: Seq<TrajectoryOutput>, i: int)
    requires
        0 <= i < runs.len(),
    ensures
        wind_drifts(runs).len() == runs.len(),
        drops(runs).len() == runs.len(),
        radial_misses(runs).len() == runs.len(),
        wind_drifts(runs)[i] == runs[i].wind_drift,
        drops(runs)[i] == runs[i].drop,
        radial_misses(runs)[i] == radial_miss(runs[i]),
{
}

/// Every run that was tried counts for the probability of a hit, one that failed as
/// a miss: the dispersion reports the share of all runs whose miss is within the
/// radius, whatever was found of their spread.
pub proof fn law_failed_runs_are_misses(
    results: Seq<Option<TrajectoryOutput>>,
    o: TrajectoryOutput,
    radius: Double,
    spread: Spread,
    other: Spread,
    d: Dispersion,
    failed: Dispersion,
    hit: Dispersion,
)
    requires
        dispersed_as(results, radius, spread, d),
        dispersed_as(results.push(None), radius, other, failed),
        dispersed_as(results.push(Some(o)), radius, other, hit),
    ensures
        ({
            let k = hits(radial_misses(valid(results)), radius);
            &&& d.hit_probability == share(k, results.len())
            &&& failed.hit_probability == share(k, results.len() + 1)
            &&& radial_miss(o).at_most(radius) ==> hit.hit_probability == share(
                k + 1,
                results.len() + 1,
            )
            &&& !radial_miss(o).at_most(radius) ==> hit.hit_probability
                == failed.hit_probability
        }),
        d.hit_radius_m == radius,
{
    law_failed_runs_leave_nothing(results, o);
    assert(radial_misses(valid(results).push(o)) == radial_misses(valid(results)).push(
        radial_miss(o),
    ));
    law_hits_are_within_the_radius(radial_misses(valid(results)), radial_miss(o), radius);
}

/// Lengths of the dispersion are reported as they were found, in meters, and in
/// inches of 39.3701 to the meter.
pub proof fn law_dispersion_is_in_meters_and_inches(
    results: Seq<Option<TrajectoryOutput>>,
    radius: Double,
    spread: Spread,
    d: Dispersion,
)
    requires
        dispersed_as(results, radius, spread, d),
    ensures
        ({
            let (e, r) = (spread.ellipse, d.ellipse);
            &&& seq![d.cep_m, d.target_plane_cep_m, d.hit_radius_m] == seq![
                spread.cep,
                spread.median_miss,
                radius,
            ]
            &&& seq![r.center_x_m, r.center_y_m, r.semi_major_m, r.semi_minor_m, r.rotation_deg]
                == seq![e.center_x, e.center_y, e.semi_major, e.semi_minor, e.rotation_deg]
            &&& measures(d.cep_inches, spread.cep, 393701, 10000)
            &&& measures(d.target_plane_cep_inches, spread.median_miss, 393701, 10000)
            &&& measures(r.center_x_inches, e.center_x, 393701, 10000)
            &&& measures(r.center_y_inches, e.center_y, 393701, 10000)
            &&& measures(r.semi_major_inches, e.semi_major, 393701, 10000)
            &&& measures(r.semi_minor_inches, e.semi_minor, 393701, 10000)
            &&& d.sample_points@ == spread.points@
        }),
{
    law_factors_stand_for_their_units();
    law_scaled_measures(spread.cep, M_TO_INCHES, 393701, 10000);
    law_scaled_measures(spread.median_miss, M_TO_INCHES, 393701, 10000);
    law_scaled_measures(spread.ellipse.center_x, M_TO_INCHES, 393701, 10000);
    law_scaled_measures(spread.ellipse.center_y, M_TO_INCHES, 393701, 10000);
    law_scaled_measures(spread.ellipse.semi_major, M_TO_INCHES, 393701, 10000);
    law_scaled_measures(spread.ellipse.semi_minor, M_TO_INCHES, 393701, 10000);
}

/// The dispersion is reported if it is asked for and two runs succeeded: runs that
/// failed do not count for it.
pub proof fn law_dispersion_needs_two_impacts(
    results: Seq<Option<TrajectoryOutput>>,
    o: TrajectoryOutput,
    p: TrajectoryOutput,
)
    ensures
        !reports_dispersion(results, false),
        reports_dispersion(results.push(Some(o)).push(Some(p)), true),
        reports_dispersion(results.push(None), true) == reports_dispersion(results, true),
        valid(results).len() == 0 ==> !reports_dispersion(results.push(Some(o)), true),
{
    law_failed_runs_leave_nothing(results, o);
    law_failed_runs_leave_nothing(results.push(Some(o)), p);
}

/// The impacts are handed out for the runs that the dispersion is reported of, the
/// lateral and the vertical offset of each run at its place.
pub proof fn law_impacts_are_handed_out(
    results: &Vec<Option<TrajectoryOutput>>,
    include_dispersion: bool,
    found: Option<Impacts>,
    i: int,
)
    requires
        call_ensures(impacts, (results, include_dispersion), found),
    ensures
        found is Some <==> include_dispersion && valid(results@).len() >= 2,
        found matches Some(f) ==> {
            &&& f.wind_drift.len() == f.drop.len() == f.sorted_miss.len() == valid(results@).len()
            &&& 0 <= i < valid(results@).len() ==> f.wind_drift@[i] == valid(
                results@,
            )[i].wind_drift && f.drop@[i] == valid(results@)[i].drop
            &&& f.sorted_miss@.to_multiset() == radial_misses(valid(results@)).to_multiset()
        },
{
    crate::sorting::law_sorting_keeps_items(radial_misses(valid(results@)));
    if found is Some {
        let misses = radial_misses(valid(results@));
        crate::sorting::law_sorting_keeps_items(misses);
        broadcast use vstd::seq_lib::group_to_multiset_ensures;
        assert(crate::sorting::sorted(misses).len() == misses.len());
    }
}

/// The statistics of each field are those of that field's own values: of one run its
/// value, of more runs the percentiles that were handed in, and in any case extremes
/// that bound every run's value.
pub proof fn law_each_field_has_its_own_statistics(
    results: Seq<Option<TrajectoryOutput>>,
    p: PerField<FieldPercentiles>,
    i: int,
)
    requires
        0 <= i < valid(results).len(),
        no_nan(field_values(valid(results), "drop_m"@)),
        no_nan(field_values(valid(results), "wind_drift_m"@)),
        no_nan(field_values(valid(results), "time_of_flight_s"@)),
        no_nan(field_values(valid(results), "final_vel_fps"@)),
        no_nan(field_values(valid(results), "energy_ft_lbs"@)),
        no_nan(field_values(valid(results), "mach"@)),
    ensures
        statistics(results, p) matches Some(s) && {
            let o = valid(results)[i];
            &&& s.drop_m.min.at_most(o.drop) && o.drop.at_most(s.drop_m.max)
            &&& s.wind_drift_m.min.at_most(o.wind_drift) && o.wind_drift.at_most(
                s.wind_drift_m.max,
            )
            &&& s.time_of_flight_s.min.at_most(o.time) && o.time.at_most(s.time_of_flight_s.max)
            &&& s.final_vel_fps.min.at_most(output_field(o, "final_vel_fps"@)) && output_field(
                o,
                "final_vel_fps"@,
            ).at_most(s.final_vel_fps.max)
            &&& s.energy_ft_lbs.min.at_most(output_field(o, "energy_ft_lbs"@)) && output_field(
                o,
                "energy_ft_lbs"@,
            ).at_most(s.energy_ft_lbs.max)
            &&& s.mach.min.at_most(o.mach) && o.mach.at_most(s.mach.max)
        },
{
    law_fields_are_the_outcome(valid(results)[i], "mach"@);
    law_extremes_bound_the_runs(results, "drop_m"@, p.drop_m, i);
    law_extremes_bound_the_runs(results, "wind_drift_m"@, p.wind_drift_m, i);
    law_extremes_bound_the_runs(results, "time_of_flight_s"@, p.time_of_flight_s, i);
    law_extremes_bound_the_runs(results, "final_vel_fps"@, p.final_vel_fps, i);
    law_extremes_bound_the_runs(results, "energy_ft_lbs"@, p.energy_ft_lbs, i);
    law_extremes_bound_the_runs(results, "mach"@, p.mach, i);
}

/// The percentiles of a field are those handed in for it, but of one run it is the
/// run's value that is reported, as mean, extremes and median, with no deviation;
/// without runs there are no statistics.
pub proof fn law_percentiles_go_to_their_fields(
    results: Seq<Option<TrajectoryOutput>>,
    p: PerField<FieldPercentiles>,
)
    ensures
        statistics(results, p) is None <==> valid(results).len() == 0,
        valid(results).len() >= 2 ==> (statistics(results, p) matches Some(s) && {
            &&& s.drop_m.percentiles == Percentiles::Full(p.drop_m)
            &&& s.wind_drift_m.percentiles == Percentiles::Full(p.wind_drift_m)
            &&& s.time_of_flight_s.percentiles == Percentiles::Full(p.time_of_flight_s)
            &&& s.final_vel_fps.percentiles == Percentiles::Full(p.final_vel_fps)
            &&& s.energy_ft_lbs.percentiles == Percentiles::Full(p.energy_ft_lbs)
            &&& s.mach.percentiles == Percentiles::Full(p.mach)
        }),
        valid(results).len() == 1 ==> (statistics(results, p) matches Some(s) && {
            let o = valid(results)[0];
            &&& s.drop_m.mean == o.drop && s.drop_m.min == o.drop && s.drop_m.max == o.drop
            &&& s.wind_drift_m.mean == o.wind_drift && s.time_of_flight_s.mean == o.time
            &&& s.mach.mean == o.mach && s.drop_m.std == constant(ZERO)
            &&& s.drop_m.percentiles == (Percentiles::Single { p50: o.drop })
            &&& s.wind_drift_m.percentiles == (Percentiles::Single { p50: o.wind_drift })
            &&& s.time_of_flight_s.percentiles == (Percentiles::Single { p50: o.time })
            &&& s.mach.percentiles == (Percentiles::Single { p50: o.mach })
            &&& s.final_vel_fps.mean == output_field(o, "final_vel_fps"@)
            &&& s.energy_ft_lbs.mean == output_field(o, "energy_ft_lbs"@)
        }),
{
    let runs = valid(results);
    if runs.len() >= 2 {
        lemma_sorted_count(results, "drop_m"@);
        lemma_sorted_count(results, "wind_drift_m"@);
        lemma_sorted_count(results, "time_of_flight_s"@);
        lemma_sorted_count(results, "final_vel_fps"@);
        lemma_sorted_count(results, "energy_ft_lbs"@);
        lemma_sorted_count(results, "mach"@);
    } else if runs.len() == 1 {
        law_fields_are_the_outcome(runs[0], "mach"@);
        law_single_run(results, "drop_m"@, p.drop_m);
        law_single_run(results, "wind_drift_m"@, p.wind_drift_m);
        law_single_run(results, "time_of_flight_s"@, p.time_of_flight_s);
        law_single_run(results, "final_vel_fps"@, p.final_vel_fps);
        law_single_run(results, "energy_ft_lbs"@, p.energy_ft_lbs);
        law_single_run(results, "mach"@, p.mach);
    }
}

proof fn lemma_sorted_count(results: Seq<Option<TrajectoryOutput>>, f: Seq<char>)
    ensures
        crate::montecarlo::sorted_field(results, f).len() == valid(results).len(),
{
    broadcast use vstd::seq_lib::group_to_multiset_ensures;

    let values = field_values(valid(results), f);
    crate::sorting::law_sorting_keeps_items(values);
    assert(crate::sorting::sorted(values).to_multiset().len() == values.to_multiset().len());
}

/// The sorted values that the percentiles are taken of are, field by field, the
/// values of the runs that succeeded.
pub proof fn law_sorted_fields_are_the_values(
    results: &Vec<Option<TrajectoryOutput>>,
    found: PerField<Vec<Double>>,
)
    requires
        call_ensures(sorted_fields, (results,), found),
    ensures
        found.drop_m@.to_multiset() == drops(valid(results@)).to_multiset(),
        found.wind_drift_m@.to_multiset() == wind_drifts(valid(results@)).to_multiset(),
        found.time_of_flight_s@.to_multiset() == valid(results@).map_values(
            |o: TrajectoryOutput| o.time,
        ).to_multiset(),
        found.mach@.to_multiset() == valid(results@).map_values(
            |o: TrajectoryOutput| o.mach,
        ).to_multiset(),
        found.final_vel_fps@.to_multiset() == valid(results@).map_values(
            |o: TrajectoryOutput| scaled(o.velocity, M_TO_FEET),
        ).to_multiset(),
        found.energy_ft_lbs@.to_multiset() == valid(results@).map_values(
            |o: TrajectoryOutput| scaled(o.energy, J_TO_FTLBS),
        ).to_multiset(),
{
    let runs = valid(results@);
    assert forall|o: TrajectoryOutput|
        {
            &&& #[trigger] output_field(o, "drop_m"@) == o.drop
            &&& output_field(o, "wind_drift_m"@) == o.wind_drift
            &&& output_field(o, "time_of_flight_s"@) == o.time
            &&& output_field(o, "final_vel_fps"@) == scaled(o.velocity, M_TO_FEET)
            &&& output_field(o, "energy_ft_lbs"@) == scaled(o.energy, J_TO_FTLBS)
            &&& output_field(o, "mach"@) == o.mach
        } by {
        lemma_scaled_fields(o);
    }
    assert forall|i: int| 0 <= i < runs.len() implies {
        &&& field_values(runs, "drop_m"@)[i] == runs[i].drop
        &&& field_values(runs, "wind_drift_m"@)[i] == runs[i].wind_drift
        &&& field_values(runs, "time_of_flight_s"@)[i] == runs[i].time
        &&& field_values(runs, "final_vel_fps"@)[i] == scaled(runs[i].velocity, M_TO_FEET)
        &&& field_values(runs, "energy_ft_lbs"@)[i] == scaled(runs[i].energy, J_TO_FTLBS)
        &&& field_values(runs, "mach"@)[i] == runs[i].mach
    } by {
        lemma_scaled_fields(runs[i]);
    }
    assert(field_values(runs, "drop_m"@) =~= drops(runs));
    assert(field_values(runs, "wind_drift_m"@) =~= wind_drifts(runs));
    assert(field_values(runs, "time_of_flight_s"@) =~= runs.map_values(
        |o: TrajectoryOutput| o.time,
    ));
    assert(field_values(runs, "final_vel_fps"@) =~= runs.map_values(
        |o: TrajectoryOutput| scaled(o.velocity, M_TO_FEET),
    ));
    assert(field_values(runs, "energy_ft_lbs"@) =~= runs.map_values(
        |o: TrajectoryOutput| scaled(o.energy, J_TO_FTLBS),
    ));
    assert(field_values(runs, "mach"@) =~= runs.map_values(|o: TrajectoryOutput| o.mach));
    crate::sorting::law_sorting_keeps_items(field_values(runs, "drop_m"@));
    crate::sorting::law_sorting_keeps_items(field_values(runs, "wind_drift_m"@));
    crate::sorting::law_sorting_keeps_items(field_values(runs, "time_of_flight_s"@));
    crate::sorting::law_sorting_keeps_items(field_values(runs, "final_vel_fps"@));
    crate::sorting::law_sorting_keeps_items(field_values(runs, "energy_ft_lbs"@));
    crate::sorting::law_sorting_keeps_items(field_values(runs, "mach"@));
}

proof fn lemma_scaled_fields(o: TrajectoryOutput)
    ensures
        output_field(o, "drop_m"@) == o.drop,
        output_field(o, "wind_drift_m"@) == o.wind_drift,
        output_field(o, "time_of_flight_s"@) == o.time,
        output_field(o, "mach"@) == o.mach,
        output_field(o, "final_vel_fps"@) == scaled(o.velocity, M_TO_FEET),
        output_field(o, "energy_ft_lbs"@) == scaled(o.energy, J_TO_FTLBS),
{
    reveal_strlit("drop_m");
    reveal_strlit("wind_drift_m");
    reveal_strlit("time_of_flight_s");
    reveal_strlit("final_vel_fps");
    reveal_strlit("energy_ft_lbs");
    reveal_strlit("mach");
    assert("drop_m"@.len() == 6 && "wind_drift_m"@.len() == 12 && "time_of_flight_s"@.len() == 16);
    assert("final_vel_fps"@.len() == 13 && "energy_ft_lbs"@.len() == 13 && "mach"@.len() == 4);
    assert("final_vel_fps"@[0] != "energy_ft_lbs"@[0]);
}

/// The ranks are 5, 10, 25, 50, 75, 90 and 95 in a hundred.
pub proof fn law_ranks_are_in_a_hundred()
    ensures
        stands_for(ranks().p5.bits, 5, 100),
        stands_for(ranks().p10.bits, 10, 100),
        stands_for(ranks().p25.bits, 25, 100),
        stands_for(ranks().p50.bits, 50, 100),
        stands_for(ranks().p75.bits, 75, 100),
        stands_for(ranks().p90.bits, 90, 100),
        stands_for(ranks().p95.bits, 95, 100),
{
    law_ranks_stand_for_their_shares();
}

/// A hit radius of the caller's goes before the default one.
pub proof fn law_the_callers_radius_goes_first(radius: Double, default: Double, other: Double)
    ensures
        radius_or(Some(radius), default) == radius,
        radius_or(Some(radius), default) == radius_or(Some(radius), other),
        radius_or(None, default) == default,
{
}

/// A summary reports the dispersion if it is asked for and two runs succeeded, with
/// the hit radius that is given; the counts are those of all runs, and the
/// statistics do not depend on whether the dispersion is asked for.
pub proof fn law_summaries_report_what_is_asked(
    results: &Vec<Option<TrajectoryOutput>>,
    p: PerField<FieldPercentiles>,
    spread: Option<Spread>,
    include_dispersion: bool,
    radius: Option<Double>,
    default: Double,
    r: MonteCarloSummary,
    without: MonteCarloSummary,
)
    requires
        call_ensures(
            monte_carlo_parallel,
            (results, p, spread, include_dispersion, radius, default),
            r,
        ),
        call_ensures(monte_carlo_parallel, (results, p, None, false, radius, default), without),
    ensures
        r.dispersion is Some <==> include_dispersion && valid(results@).len() >= 2,
        r.dispersion matches Some(d) ==> {
            &&& radius matches Some(x) ==> d.hit_radius_m == x
            &&& radius is None ==> d.hit_radius_m == default
            &&& spread matches Some(s) && d.cep_m == s.cep
        },
        without.dispersion is None,
        without.statistics == r.statistics,
        without.metadata == r.metadata,
        r.metadata.total_runs == results.len(),
        r.statistics is None <==> r.metadata.valid_runs == 0,
{
}

/// Threads are refused if there are to be none, and otherwise run as many as asked.
pub proof fn law_some_thread_must_run(threads: Option<usize>, r: Result<Option<usize>, Exception>)
    requires
        call_ensures(check_threads, (threads,), r),
    ensures
        threads is None ==> r matches Ok(None),
        threads matches Some(n) ==> n > 0 ==> r == Ok::<Option<usize>, Exception>(Some(n)),
        threads == Some(0usize) ==> r is Err,
{
}

/// What a sampling reports is what was found: the numbers as they are, and of each
/// impact its height and its lateral position, in the order of the samples.
pub proof fn law_samplings_are_reported_as_found(
    f: MonteCarloResults,
    radius: Double,
    p: MonteCarloReport,
    i: int,
)
    requires
        sampling_report(f, radius, p),
        0 <= i < f.impact_positions.len(),
    ensures
        p.hit_probability == f.hit_probability,
        p.hit_radius_m == radius,
        p.target_plane_cep_m == f.target_plane_cep,
        p.target_arrival_count == f.target_arrival_count,
        p.target_shortfall_fraction == f.target_shortfall_fraction,
        p.ranges_m@ == f.ranges@,
        p.impact_velocities_mps@ == f.impact_velocities@,
        p.num_samples == p.impact_positions_yz_m.len() == f.impact_positions.len(),
        p.impact_positions_yz_m@[i].0 == f.impact_positions@[i].1,
        p.impact_positions_yz_m@[i].1 == f.impact_positions@[i].2,
{
}

/// A driver that complains has its complaint raised, and one that does not has its
/// findings reported.
pub proof fn law_samplings_are_reported_or_raised(
    found: Result<MonteCarloResults, String>,
    radius: Double,
    r: Result<MonteCarloReport, Exception>,
)
    requires
        call_ensures(monte_carlo_report, (found, radius), r),
    ensures
        found is Ok <==> r is Ok,
        found matches Err(e) ==> (r matches Err(x) && x@ == value_fault(
            "Monte Carlo run failed: "@ + e@,
        )),
        found matches Ok(f) ==> (r matches Ok(p) && p.hit_radius_m == radius
            && p.hit_probability == f.hit_probability),
{
}

/// Each parameter of a sampling is the number given under its own name; one that is
/// not given is, in its unit, 1 for the speeds, 1/100 for the ballistic coefficient,
/// 1/1000 for the angles, and 0 for the wind.
pub proof fn law_parameters_are_read_by_their_names(
    params: Dict,
    p: MonteCarloParams,
    w: Double,
    x: Double,
)
    requires
        params_read_as(params, p, w),
    ensures
        given_number(params, "velocity_std_dev"@, x) ==> p.velocity_std_dev == x,
        given_number(params, "angle_std_dev"@, x) ==> p.angle_std_dev == x,
        given_number(params, "bc_std_dev"@, x) ==> p.bc_std_dev == x,
        given_number(params, "wind_speed_std_dev"@, x) ==> p.wind_speed_std_dev == x,
        given_number(params, "base_wind_speed"@, x) ==> p.base_wind_speed == x,
        given_number(params, "base_wind_direction"@, x) ==> p.base_wind_direction == x,
        given_number(params, "azimuth_std_dev"@, x) ==> p.azimuth_std_dev == x,
        given_number(params, "wind_direction_std_dev"@, x) ==> w == x,
        given_number(params, "target_distance"@, x) ==> p.target_distance == Some(x),
        params.given("num_simulations"@) matches Some(v) ==> v.index == Ok::<usize, Exception>(
            p.num_simulations,
        ),
        params.given("num_simulations"@) is None ==> p.num_simulations == 1000,
        params.given("target_distance"@) is None ==> p.target_distance is None,
        params.given("velocity_std_dev"@) is None ==> stands_for(p.velocity_std_dev.bits, 1, 1),
        params.given("wind_speed_std_dev"@) is None ==> stands_for(
            p.wind_speed_std_dev.bits,
            1,
            1,
        ),
        params.given("bc_std_dev"@) is None ==> stands_for(p.bc_std_dev.bits, 1, 100),
        params.given("angle_std_dev"@) is None ==> stands_for(p.angle_std_dev.bits, 1, 1000),
        params.given("azimuth_std_dev"@) is None ==> stands_for(p.azimuth_std_dev.bits, 1, 1000),
        params.given("wind_direction_std_dev"@) is None ==> stands_for(w.bits, 1, 1000),
        params.given("base_wind_speed"@) is None ==> p.base_wind_speed.zero(),
        params.given("base_wind_direction"@) is None ==> p.base_wind_direction.zero(),
{
    law_ranks_stand_for_their_shares();
    law_small_numbers_stand_for_themselves();
}

/// The statistics of two numbers or more: their mean and deviation, the first and the last
/// of them as extremes, and the percentiles that were handed in.
pub proof fn law_statistics_are_of_the_values(s: Seq<Double>, p: FieldPercentiles)
    requires
        2 <= s.len() <= u64::MAX,
    ensures
        ({
            let f = field_statistics(s, p);
            &&& measures(f.mean, total(s), 1, s.len())
            &&& f.std == standard_deviation(s)
            &&& f.min == s.first() && f.max == s.last()
            &&& f.percentiles == Percentiles::Full(p)
        }),
{
    law_means_are_totals_shared(s);
}

} // verus!
