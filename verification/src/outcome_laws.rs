//! What the outcomes of runs mean.

use vstd::prelude::*;
use crate::conditions::{atmosphere_of, wind_of};
use crate::double::{lemma_magnitude_increases, Double};
use crate::effect_laws::lemma_quotient_is_near;
use crate::inputs::BallisticInputs;
use crate::mean_laws::{apart, law_sums_are_close};
use crate::nearest::lemma_relative_error;
use crate::order_laws::agree;
use crate::report_laws::nearly;
use crate::rounding::{magnitude, INFINITE, SIGNIFICAND_END};
use crate::run_laws::parameter_name;
use crate::sampling::{arrival, between, blend, crossing, crossing_at, crossing_between, room_for};
use crate::sampling::{run_call, run_output, set_if, solve_via_full_solver, station_call};
use crate::sampling::{with_parameter, with_parameters, Crossing, TrajectoryOutput, REACH, TINY};
use crate::sum_laws::{law_difference_of_equals, law_differences_keep_order};
use crate::sum_laws::{law_differences_reverse_order, law_products_keep_order};
use crate::sum_laws::{law_quotient_of_equals, law_sum_commutes, law_sums_keep_order};
use crate::sum_laws::law_zero_adds_nothing;
use crate::trajectory::{TrajectoryPoint, TrajectoryResult};
use crate::unit_laws::{law_factors_stand_for_their_units, law_scaled_measures};
use crate::unit_laws::{law_scaling_keeps_order, law_scaling_mirrors};
use crate::unit_laws::law_small_numbers_stand_for_themselves;
use crate::unit_laws::{law_typical_values_stand_for_themselves, lemma_not_tiny, measures};
use crate::unit_laws::{ordinary, stands_for};
use crate::units::{constant, scaled, ONE, THOUSAND, TWO, ZERO};

verus! {

/// The wind drift of a run is the lateral position where it arrives, whatever the
/// inputs, the speed of sound and the spin drift that is reported beside it: with
/// the report of the spin drift on or off it is the same, and an arrival as far on
/// the other side has the opposite wind drift.
pub proof fn law_wind_drift_is_the_lateral_position(
    ri: BallisticInputs,
    other: BallisticInputs,
    arrived: Crossing,
    mirrored: Crossing,
    speed_of_sound: Double,
    other_speed: Double,
    litz_drift_m: Double,
    other_drift: Double,
)
    requires
        mirrored == (Crossing { z: arrived.z.negated(), ..arrived }),
    ensures
        run_output(ri, arrived, speed_of_sound, litz_drift_m).wind_drift == arrived.z,
        run_output(ri, arrived, speed_of_sound, litz_drift_m).wind_drift == run_output(
            other,
            arrived,
            other_speed,
            other_drift,
        ).wind_drift,
        run_output(ri, mirrored, speed_of_sound, litz_drift_m).wind_drift == run_output(
            ri,
            arrived,
            speed_of_sound,
            litz_drift_m,
        ).wind_drift.negated(),
        run_output(ri, mirrored, speed_of_sound, litz_drift_m).drop == run_output(
            ri,
            arrived,
            speed_of_sound,
            litz_drift_m,
        ).drop,
{
}

/// Whatever is solved for an arrival reports its lateral position as the wind drift,
/// with the report of the spin drift on or off.
pub proof fn law_solving_reports_the_lateral_position(
    ri: &BallisticInputs,
    other: &BallisticInputs,
    arrived: &Crossing,
    speed_of_sound: Double,
    litz_drift_m: Double,
    other_drift: Double,
    solved: TrajectoryOutput,
    again: TrajectoryOutput,
)
    requires
        call_ensures(solve_via_full_solver, (ri, arrived, speed_of_sound, litz_drift_m), solved),
        call_ensures(solve_via_full_solver, (other, arrived, speed_of_sound, other_drift), again),
    ensures
        solved.wind_drift == arrived.z,
        solved.wind_drift == again.wind_drift,
{
}

/// The spin drift is reported if it is asked for and is zero if it is not, and
/// nothing else of the outcome depends on it.
pub proof fn law_spin_drift_is_reported_apart(
    ri: BallisticInputs,
    arrived: Crossing,
    speed_of_sound: Double,
    litz_drift_m: Double,
    other_drift: Double,
)
    ensures
        ({
            let o = run_output(ri, arrived, speed_of_sound, litz_drift_m);
            let p = run_output(ri, arrived, speed_of_sound, other_drift);
            &&& ri.use_enhanced_spin_drift ==> o.spin_drift == litz_drift_m
            &&& !ri.use_enhanced_spin_drift ==> o.spin_drift == constant(ZERO)
            &&& o.drop == p.drop && o.wind_drift == p.wind_drift && o.time == p.time
            &&& o.velocity == p.velocity && o.energy == p.energy && o.mach == p.mach
            &&& o.distance == p.distance
        }),
{
}

/// Time, speed and energy of a run are those with which it arrives, and its distance
/// is the target's.
pub proof fn law_outcomes_are_those_of_the_arrival(
    ri: BallisticInputs,
    arrived: Crossing,
    speed_of_sound: Double,
    litz_drift_m: Double,
)
    ensures
        ({
            let o = run_output(ri, arrived, speed_of_sound, litz_drift_m);
            seq![o.wind_drift, o.velocity, o.energy, o.time, o.distance] == seq![
                arrived.z,
                arrived.velocity,
                arrived.energy,
                arrived.time,
                ri.target_distance,
            ]
        }),
{
}

/// The higher a run arrives the less it drops; on the line of sight the drop is
/// zero.
pub proof fn law_higher_arrivals_drop_less(
    ri: BallisticInputs,
    arrived: Crossing,
    higher: Crossing,
    speed_of_sound: Double,
    litz_drift_m: Double,
)
    requires
        arrived.y.at_most(higher.y),
        arrived.y.finite(),
        higher.y.finite(),
        ri.muzzle_height.sum(ri.sight_height).finite(),
    ensures
        run_output(ri, higher, speed_of_sound, litz_drift_m).drop.at_most(
            run_output(ri, arrived, speed_of_sound, litz_drift_m).drop,
        ),
        arrived.y == ri.muzzle_height.sum(ri.sight_height) ==> run_output(
            ri,
            arrived,
            speed_of_sound,
            litz_drift_m,
        ).drop.zero(),
{
    let sight = ri.muzzle_height.sum(ri.sight_height);
    assert(!sight.difference(arrived.y).nan() && !sight.difference(higher.y).nan()) by {
        reveal(Double::sum);
    }
    law_differences_reverse_order(arrived.y, higher.y, sight);
    law_difference_of_equals(sight);
}

/// Where the bore is the datum, the drop is how far below it a run arrives: the
/// height with its sign changed.
pub proof fn law_drop_from_the_bore_is_the_height_reversed(
    ri: BallisticInputs,
    arrived: Crossing,
    speed_of_sound: Double,
    litz_drift_m: Double,
)
    requires
        ri.muzzle_height == constant(ZERO),
        ri.sight_height == constant(ZERO),
        !arrived.y.nan(),
    ensures
        agree(
            run_output(ri, arrived, speed_of_sound, litz_drift_m).drop,
            arrived.y.negated(),
        ),
{
    law_zero_adds_nothing(constant(ZERO), constant(ZERO));
    law_zero_adds_nothing(arrived.y.negated(), ri.muzzle_height.sum(ri.sight_height));
}

/// A run that arrives at the speed of sound arrives at Mach 1, and a faster one at
/// no smaller Mach number.
pub proof fn law_mach_is_speed_by_the_speed_of_sound(
    ri: BallisticInputs,
    arrived: Crossing,
    faster: Crossing,
    speed_of_sound: Double,
    litz_drift_m: Double,
)
    requires
        speed_of_sound.finite(),
        !speed_of_sound.is_negative(),
        !speed_of_sound.zero(),
        arrived.velocity.at_most(faster.velocity),
    ensures
        arrived.velocity == speed_of_sound ==> run_output(
            ri,
            arrived,
            speed_of_sound,
            litz_drift_m,
        ).mach == constant(ONE),
        run_output(ri, arrived, speed_of_sound, litz_drift_m).mach.at_most(
            run_output(ri, faster, speed_of_sound, litz_drift_m).mach,
        ),
{
    law_quotient_of_equals(speed_of_sound);
    let bits = speed_of_sound.bits;
    assert(speed_of_sound == constant(bits));
    law_scaling_keeps_order(arrived.velocity, faster.velocity, bits);
}

/// What is asked of the station is the inputs' altitude, temperature, pressure and
/// twist, their humidity in percent and the time of flight; where the run arrives
/// does not matter but for the time.
pub proof fn law_stations_are_those_of_the_inputs(
    ri: BallisticInputs,
    arrived: Crossing,
    other: Crossing,
)
    ensures
        ({
            let r = station_call(ri, arrived);
            &&& seq![r.altitude, r.temperature, r.pressure, r.time] == seq![
                atmosphere_of(ri).altitude,
                atmosphere_of(ri).temperature,
                atmosphere_of(ri).pressure,
                arrived.time,
            ]
            &&& r.humidity_percent == atmosphere_of(ri).humidity
            &&& r.is_twist_right == ri.is_twist_right
            &&& other.time == arrived.time ==> station_call(ri, other) == r
        }),
{
}

/// A run is solved if its distance is finite and positive, in the wind and the
/// atmosphere of its own inputs, with room for twice the distance and for two
/// kilometers at least.
pub proof fn law_runs_are_solved_in_their_own_conditions(ri: BallisticInputs)
    ensures
        run_call(ri) is Some <==> ri.target_distance.finite() && constant(ZERO).below(
            ri.target_distance,
        ),
        run_call(ri) matches Some(c) ==> {
            &&& c.wind == wind_of(ri)
            &&& c.atmosphere == atmosphere_of(ri)
            &&& constant(THOUSAND).at_most(ri.target_distance) ==> measures(
                c.max_range,
                ri.target_distance,
                2,
                1,
            )
            &&& ri.target_distance.below(constant(THOUSAND)) ==> measures(
                c.max_range,
                constant(THOUSAND),
                2,
                1,
            )
        },
{
    law_small_numbers_stand_for_themselves();
    law_scaled_measures(ri.target_distance, TWO, 2, 1);
    law_scaled_measures(constant(THOUSAND), TWO, 2, 1);
}

/// A farther target is given no less room.
pub proof fn law_farther_targets_have_more_room(d: Double, farther: Double)
    requires
        d.at_most(farther),
    ensures
        room_for(d).at_most(room_for(farther)),
        room_for(constant(ZERO)).at_most(room_for(d)),
{
    assert(magnitude(0) == 0);
    lemma_magnitude_increases(0, THOUSAND as nat);
    let k = constant(THOUSAND);
    let reach = |x: Double|
        if x.below(k) {
            k
        } else {
            x
        };
    law_scaling_keeps_order(reach(d), reach(farther), TWO);
    law_scaling_keeps_order(k, reach(d), TWO);
}

/// A run arrives unless it could not be solved or ends short of 0.999 of the
/// distance; one that goes farther arrives too, and where a run arrives is read at
/// the target's distance, however far it goes on.
pub proof fn law_runs_arrive_unless_they_fall_short(
    distance: Double,
    t: TrajectoryResult,
    farther: TrajectoryResult,
)
    requires
        t.points == farther.points,
        t.max_range.at_most(farther.max_range),
        distance.finite(),
        t.points@.len() > 0,
    ensures
        arrival(distance, None) is None,
        arrival(distance, Some(t)) is Some ==> arrival(distance, Some(farther)) == arrival(
            distance,
            Some(t),
        ),
        arrival(distance, Some(t)) is Some ==> arrival(distance, Some(t)) == crossing(
            t.points@,
            distance,
        ),
        arrival(distance, Some(t)) is None <==> t.max_range.below(scaled(distance, REACH)),
        measures(scaled(distance, REACH), distance, 999, 1000),
{
    law_factors_stand_for_their_units();
    law_scaled_measures(distance, REACH, 999, 1000);
    lemma_crossing_found(t.points@, distance);
}

proof fn lemma_crossing_found(points: Seq<TrajectoryPoint>, range: Double)
    requires
        points.len() > 0,
    ensures
        crossing(points, range) is Some,
    decreases points.len(),
{
    if points.len() > 1 && !between(points[0], points[1], range) {
        lemma_crossing_found(points.drop_first(), range);
    }
}

/// A point as it is read: its numbers.
pub open spec fn crossing_numbers(c: Crossing) -> Seq<Double> {
    seq![c.y, c.z, c.velocity, c.energy, c.time]
}

/// The numbers of a point that vary along a trajectory.
pub open spec fn point_numbers(p: TrajectoryPoint) -> Seq<Double> {
    seq![p.y, p.z, p.velocity_magnitude, p.kinetic_energy, p.time]
}

/// Two neighbours that are apart and whose numbers have finite differences.
pub open spec fn well_apart(p: TrajectoryPoint, q: TrajectoryPoint) -> bool {
    &&& p.x.finite() && q.x.finite()
    &&& q.x.difference(p.x).finite()
    &&& constant(TINY).at_most(q.x.difference(p.x))
    &&& forall|k: int|
        0 <= k < 5 ==> (#[trigger] point_numbers(p)[k]).finite() && point_numbers(
            q,
        )[k].difference(point_numbers(p)[k]).finite()
}

/// A number between two points depends on that number of the points alone, in the
/// same way for each: height, lateral position, speed, energy and time.
pub proof fn law_each_number_is_interpolated_alike(
    p: TrajectoryPoint,
    q: TrajectoryPoint,
    u: TrajectoryPoint,
    v: TrajectoryPoint,
    range: Double,
    j: int,
    k: int,
)
    requires
        0 <= j < 5,
        0 <= k < 5,
        p.x == u.x,
        q.x == v.x,
        point_numbers(p)[j] == point_numbers(u)[k],
        point_numbers(q)[j] == point_numbers(v)[k],
    ensures
        crossing_numbers(crossing_between(p, q, range))[j] == crossing_numbers(
            crossing_between(u, v, range),
        )[k],
        crossing_numbers(crossing_at(p))[j] == point_numbers(p)[j],
{
}

/// At the first of two neighbours its own numbers are read.
pub proof fn law_a_point_reads_as_itself(p: TrajectoryPoint, q: TrajectoryPoint, k: int)
    requires
        well_apart(p, q),
        0 <= k < 5,
    ensures
        agree(
            crossing_numbers(crossing_between(p, q, p.x))[k],
            point_numbers(p)[k],
        ),
{
    let dx = q.x.difference(p.x);
    lemma_apart(dx);
    let t = p.x.difference(p.x).quotient(dx);
    law_difference_of_equals(p.x);
    assert(t.zero()) by {
        law_scaling_mirrors(constant(ZERO), dx.bits);
        assert(constant(dx.bits) == dx);
    }
    let (a, b) = (point_numbers(p)[k], point_numbers(q)[k]);
    let rise = b.difference(a);
    assert(t.product(rise).zero()) by {
        lemma_zero_product(t, rise);
    }
    law_zero_adds_nothing(a, t.product(rise));
    assert(crossing_numbers(crossing_between(p, q, p.x))[k] == blend(a, b, t));
}

pub proof fn lemma_zero_product(z: Double, a: Double)
    requires
        z.zero(),
        a.finite(),
    ensures
        z.product(a).zero(),
{
    reveal(Double::product);
    assert(magnitude(0) == 0);
    vstd::arithmetic::power2::lemma_pow2_pos(1074);
    crate::double::lemma_round_zero(vstd::arithmetic::power2::pow2(1074));
    assert(0 * magnitude(a.pattern()) == 0) by (nonlinear_arith);
}

/// A distance that is not tiny is positive and its own size.
proof fn lemma_apart(dx: Double)
    requires
        dx.finite(),
        constant(TINY).at_most(dx),
    ensures
        !dx.is_negative(),
        dx.pattern() > 0,
        dx.absolute() == dx,
        !dx.absolute().below(constant(TINY)),
        0 < dx.bits < INFINITE,
{
    assert(magnitude(0) == 0);
    lemma_magnitude_increases(0, TINY as nat);
}

/// At the second of two neighbours what is read is the first one's number and the
/// whole difference.
pub proof fn law_the_next_point_is_reached(p: TrajectoryPoint, q: TrajectoryPoint, k: int)
    requires
        well_apart(p, q),
        0 <= k < 5,
    ensures
        crossing_numbers(crossing_between(p, q, q.x))[k] == point_numbers(p)[k].sum(
            point_numbers(q)[k].difference(point_numbers(p)[k]),
        ),
{
    let dx = q.x.difference(p.x);
    lemma_apart(dx);
    law_quotient_of_equals(dx);
    let (a, b) = (point_numbers(p)[k], point_numbers(q)[k]);
    let rise = b.difference(a);
    lemma_one_times(rise);
    assert(crossing_numbers(crossing_between(p, q, q.x))[k] == blend(a, b, constant(ONE)));
}

pub proof fn lemma_one_times(a: Double)
    requires
        a.finite(),
    ensures
        constant(ONE).product(a) == a,
{
    reveal(Double::product);
    crate::nearest::lemma_one();
    vstd::arithmetic::power2::lemma_pow2_pos(1074);
    crate::nearest::law_exact_ratio_is_kept(
        a.pattern(),
        vstd::arithmetic::power2::pow2(1074),
    );
    vstd::arithmetic::mul::lemma_mul_is_commutative(
        magnitude(a.pattern()) as int,
        vstd::arithmetic::power2::pow2(1074) as int,
    );
}

/// A number that does not fall from one point to the next does not fall in between:
/// read farther out it is no less.
pub proof fn law_interpolation_keeps_rising(
    p: TrajectoryPoint,
    q: TrajectoryPoint,
    range: Double,
    farther: Double,
    k: int,
)
    requires
        well_apart(p, q),
        between(p, q, range),
        between(p, q, farther),
        p.x.below(range) || range == p.x,
        range.below(farther) || farther == range,
        range.finite(),
        farther.finite(),
        0 <= k < 5,
        constant(ZERO).at_most(point_numbers(q)[k].difference(point_numbers(p)[k])),
        !point_numbers(q)[k].difference(point_numbers(p)[k]).is_negative(),
        crossing_numbers(crossing_between(p, q, range))[k].finite(),
        crossing_numbers(crossing_between(p, q, farther))[k].finite(),
    ensures
        crossing_numbers(crossing_between(p, q, range))[k].at_most(
            crossing_numbers(crossing_between(p, q, farther))[k],
        ),
{
    let dx = q.x.difference(p.x);
    lemma_apart(dx);
    assert(constant(dx.bits) == dx);
    let (r, s) = (range.difference(p.x), farther.difference(p.x));
    assert(!r.nan() && !s.nan()) by {
        reveal(Double::sum);
    }
    law_differences_keep_order(range, farther, p.x);
    assert(!p.x.difference(p.x).nan()) by {
        law_difference_of_equals(p.x);
    }
    law_differences_keep_order(p.x, range, p.x);
    law_difference_of_equals(p.x);
    lemma_not_negative(range, p.x);
    lemma_not_negative(farther, p.x);
    let (t, u) = (r.quotient(dx), s.quotient(dx));
    law_scaling_keeps_order(r, s, dx.bits);
    law_scaling_mirrors(r, dx.bits);
    law_scaling_mirrors(s, dx.bits);
    assert(!t.is_negative() && !u.is_negative()) by {
        reveal(Double::quotient);
    }
    let (a, b) = (point_numbers(p)[k], point_numbers(q)[k]);
    let rise = b.difference(a);
    let (x, y) = (t.product(rise), u.product(rise));
    assert(crossing_numbers(crossing_between(p, q, range))[k] == blend(a, b, t));
    assert(crossing_numbers(crossing_between(p, q, farther))[k] == blend(a, b, u));
    assert(!x.nan() && !y.nan()) by {
        reveal(Double::sum);
    }
    law_products_keep_order(t, u, rise);
    law_sum_commutes(a, x);
    law_sum_commutes(a, y);
    law_sums_keep_order(x, y, a);
}

/// A number less itself or less a smaller one is not negative.
proof fn lemma_not_negative(a: Double, b: Double)
    requires
        a.finite(),
        b.finite(),
        b.below(a) || a == b,
    ensures
        !a.difference(b).is_negative(),
{
    if a == b {
        law_difference_of_equals(a);
    } else {
        reveal(Double::sum);
    }
}

/// The parameter that a name stands for.
pub open spec fn parameter_value(b: BallisticInputs, name: Seq<char>) -> Option<Double> {
    if name == "bc_value"@ {
        Some(b.bc_value)
    } else if name == "bullet_mass"@ {
        Some(b.bullet_mass)
    } else if name == "muzzle_velocity"@ {
        Some(b.muzzle_velocity)
    } else if name == "wind_speed"@ {
        Some(b.wind_speed)
    } else if name == "wind_angle"@ {
        Some(b.wind_angle)
    } else if name == "target_distance"@ {
        Some(b.target_distance)
    } else if name == "muzzle_angle"@ {
        Some(b.muzzle_angle)
    } else if name == "altitude"@ {
        Some(b.altitude)
    } else if name == "temperature"@ {
        Some(b.temperature)
    } else if name == "pressure"@ {
        Some(b.pressure)
    } else if name == "humidity"@ {
        Some(b.humidity)
    } else if name == "latitude"@ {
        b.latitude
    } else if name == "twist_rate"@ {
        Some(b.twist_rate)
    } else if name == "bullet_length"@ {
        Some(b.bullet_length)
    } else if name == "bullet_diameter"@ {
        Some(b.bullet_diameter)
    } else {
        None
    }
}

/// A parameter that is set reads back, and every other one stays as it was.
pub proof fn law_parameters_read_back(
    b: BallisticInputs,
    name: Seq<char>,
    other: Seq<char>,
    value: Double,
)
    ensures
        parameter_name(name) ==> parameter_value(with_parameter(b, name, value), name) == Some(
            value,
        ),
        other != name ==> parameter_value(with_parameter(b, name, value), other)
            == parameter_value(b, other),
{
    reveal(set_if);
}

/// What is no parameter stays as it is, whatever is set.
pub proof fn law_parameters_leave_the_rest(b: BallisticInputs, name: Seq<char>, value: Double)
    ensures
        with_parameter(b, name, value).bc_type == b.bc_type,
        with_parameter(b, name, value).enable_advanced_effects == b.enable_advanced_effects,
        with_parameter(b, name, value).enable_magnus == b.enable_magnus,
        with_parameter(b, name, value).enable_coriolis == b.enable_coriolis,
        with_parameter(b, name, value).is_twist_right == b.is_twist_right,
        with_parameter(b, name, value).shooting_angle == b.shooting_angle,
        with_parameter(b, name, value).azimuth_angle == b.azimuth_angle,
        with_parameter(b, name, value).shot_azimuth == b.shot_azimuth,
        with_parameter(b, name, value).use_powder_sensitivity == b.use_powder_sensitivity,
        with_parameter(b, name, value).powder_temp_sensitivity == b.powder_temp_sensitivity,
        with_parameter(b, name, value).powder_temp == b.powder_temp,
        with_parameter(b, name, value).tipoff_yaw == b.tipoff_yaw,
        with_parameter(b, name, value).tipoff_decay_distance == b.tipoff_decay_distance,
        with_parameter(b, name, value).ground_threshold == b.ground_threshold,
        with_parameter(b, name, value).bc_segments == b.bc_segments,
        with_parameter(b, name, value).caliber_inches == b.caliber_inches,
        with_parameter(b, name, value).weight_grains == b.weight_grains,
        with_parameter(b, name, value).use_bc_segments == b.use_bc_segments,
        with_parameter(b, name, value).bullet_id == b.bullet_id,
        with_parameter(b, name, value).bc_segments_data == b.bc_segments_data,
        with_parameter(b, name, value).use_enhanced_spin_drift == b.use_enhanced_spin_drift,
        with_parameter(b, name, value).use_form_factor == b.use_form_factor,
        with_parameter(b, name, value).manufacturer == b.manufacturer,
        with_parameter(b, name, value).bullet_model == b.bullet_model,
        with_parameter(b, name, value).enable_wind_shear == b.enable_wind_shear,
        with_parameter(b, name, value).wind_shear_model == b.wind_shear_model,
        with_parameter(b, name, value).use_cluster_bc == b.use_cluster_bc,
        with_parameter(b, name, value).bullet_cluster == b.bullet_cluster,
        with_parameter(b, name, value).custom_drag_table == b.custom_drag_table,
        with_parameter(b, name, value).bc_type_str == b.bc_type_str,
        with_parameter(b, name, value).enable_pitch_damping == b.enable_pitch_damping,
        with_parameter(b, name, value).enable_precession_nutation == b.enable_precession_nutation,
        with_parameter(b, name, value).enable_aerodynamic_jump == b.enable_aerodynamic_jump,
        with_parameter(b, name, value).use_rk4 == b.use_rk4,
        with_parameter(b, name, value).use_adaptive_rk45 == b.use_adaptive_rk45,
        with_parameter(b, name, value).enable_trajectory_sampling == b.enable_trajectory_sampling,
        with_parameter(b, name, value).sample_interval == b.sample_interval,
        with_parameter(b, name, value).sight_height == b.sight_height,
        with_parameter(b, name, value).muzzle_height == b.muzzle_height,
        with_parameter(b, name, value).target_height == b.target_height,
        with_parameter(b, name, value).cant_angle == b.cant_angle,
{
}

/// The last of the first columns with a name sets its parameter, and a parameter that no
/// column is named after stays as it was.
pub proof fn law_columns_set_their_parameters(
    b: BallisticInputs,
    names: Seq<String>,
    row: Seq<Double>,
    n: int,
    j: int,
    other: Seq<char>,
)
    requires
        0 <= j < n <= names.len(),
        j < row.len(),
        parameter_name(names[j]@),
        forall|k: int| j < k < n ==> (#[trigger] names[k])@ != names[j]@,
        forall|k: int| 0 <= k < n ==> (#[trigger] names[k])@ != other,
    ensures
        parameter_value(with_parameters(b, names, row, n), names[j]@) == Some(row[j]),
        parameter_value(with_parameters(b, names, row, n), other) == parameter_value(b, other),
{
    lemma_unnamed_stays(b, names, row, 0, n, other);
    lemma_unnamed_stays(b, names, row, j + 1, n, names[j]@);
    law_parameters_read_back(with_parameters(b, names, row, j), names[j]@, other, row[j]);
}

proof fn lemma_unnamed_stays(
    b: BallisticInputs,
    names: Seq<String>,
    row: Seq<Double>,
    from: int,
    n: int,
    other: Seq<char>,
)
    requires
        0 <= from <= n <= names.len(),
        forall|k: int| from <= k < n ==> (#[trigger] names[k])@ != other,
    ensures
        parameter_value(with_parameters(b, names, row, n), other) == parameter_value(
            with_parameters(b, names, row, from),
            other,
        ),
    decreases n - from,
{
    if from < n {
        lemma_unnamed_stays(b, names, row, from, n - 1, other);
        assert(names[n - 1]@ != other);
        if n <= row.len() {
            law_parameters_read_back(
                with_parameters(b, names, row, n - 1),
                names[n - 1]@,
                other,
                row[n - 1],
            );
        }
    }
}

/// Two points less than `1e-10` apart downrange read as the first of them.
pub proof fn law_points_hardly_apart_read_as_the_first(
    p: TrajectoryPoint,
    q: TrajectoryPoint,
    range: Double,
)
    requires
        q.x.difference(p.x).absolute().below(constant(TINY)),
    ensures
        crossing_numbers(crossing_between(p, q, range)) == point_numbers(p),
        stands_for(TINY, 1, 10000000000),
{
    law_typical_values_stand_for_themselves();
}

/// The drop is how far the arrival is below the line of sight, which is the height of the
/// sight above that of the muzzle, to within one part in `2^53`.
pub proof fn law_drop_is_below_the_line_of_sight(
    ri: BallisticInputs,
    arrived: Crossing,
    speed_of_sound: Double,
    litz_drift_m: Double,
)
    requires
        arrived.y.finite(),
        ri.muzzle_height.finite(),
        ri.sight_height.finite(),
        ri.muzzle_height.sum(ri.sight_height).finite(),
        ri.muzzle_height.sum(ri.sight_height).difference(arrived.y).finite(),
    ensures
        ({
            let sight = ri.muzzle_height.sum(ri.sight_height).units();
            let drop = run_output(ri, arrived, speed_of_sound, litz_drift_m).drop.units();
            &&& apart(drop, sight - arrived.y.units()) * SIGNIFICAND_END <= apart(
                sight,
                arrived.y.units(),
            )
            &&& apart(sight, ri.muzzle_height.units() + ri.sight_height.units()) * SIGNIFICAND_END
                <= apart(ri.muzzle_height.units() + ri.sight_height.units(), 0)
        }),
{
    let sight = ri.muzzle_height.sum(ri.sight_height);
    law_sums_are_close(ri.muzzle_height, ri.sight_height);
    law_sums_are_close(sight, arrived.y.negated());
    assert(arrived.y.negated().units() == -arrived.y.units());
}

/// Between two points a number goes up in proportion to the distance from the first: the
/// gain times the whole distance is the whole rise times the distance, up to rounding.
pub proof fn law_interpolation_is_linear(
    p: TrajectoryPoint,
    q: TrajectoryPoint,
    range: Double,
    k: int,
)
    requires
        well_apart(p, q),
        0 <= k < 5,
        range.finite(),
        p.x.below(range),
        range.difference(p.x).finite(),
        ordinary(range.difference(p.x).quotient(q.x.difference(p.x))),
        ordinary(
            range.difference(p.x).quotient(q.x.difference(p.x)).product(
                point_numbers(q)[k].difference(point_numbers(p)[k]),
            ),
        ),
        point_numbers(p)[k].sum(
            range.difference(p.x).quotient(q.x.difference(p.x)).product(
                point_numbers(q)[k].difference(point_numbers(p)[k]),
            ),
        ).finite(),
    ensures
        ({
            let r = crossing_numbers(crossing_between(p, q, range))[k].units();
            let rise = point_numbers(q)[k].difference(point_numbers(p)[k]).units();
            let whole = q.x.difference(p.x).units();
            let part = range.difference(p.x).units();
            apart((r - point_numbers(p)[k].units()) * whole, rise * part) * SIGNIFICAND_END <= 2 * (
            whole * apart(r, 0)) + 3 * (apart(rise, 0) * part)
        }),
{
    let (a, b) = (point_numbers(p)[k], point_numbers(q)[k]);
    let (d, dx, g) = (b.difference(a), q.x.difference(p.x), range.difference(p.x));
    lemma_apart(dx);
    lemma_not_negative(range, p.x);
    let t = g.quotient(dx);
    let m = t.product(d);
    let out = a.sum(m);
    assert(crossing_numbers(crossing_between(p, q, range))[k] == blend(a, b, t));
    assert(a.finite());
    law_sums_are_close(a, m);
    assert(!t.is_negative() && m.is_negative() == d.is_negative()) by {
        reveal(Double::quotient);
        reveal(Double::product);
    }
    let (s, w) = (magnitude(t.pattern()), magnitude(dx.pattern()));
    let (f, e) = (magnitude(g.pattern()), magnitude(d.pattern()));
    let (n, unit) = (magnitude(m.pattern()), vstd::arithmetic::power2::pow2(1074));
    vstd::arithmetic::power2::lemma_pow2_pos(1074);
    assert(apart((s * w) as int, (f * unit) as int) * SIGNIFICAND_END <= f * unit) by {
        reveal(Double::quotient);
        assert(magnitude(0) == 0);
        lemma_magnitude_increases(0, dx.pattern());
        lemma_not_tiny(f * unit, w);
        lemma_relative_error(f * unit, w);
    }
    assert(apart((n * unit) as int, (s * e) as int) * SIGNIFICAND_END <= s * e) by {
        reveal(Double::product);
        lemma_not_tiny(s * e, unit);
        lemma_relative_error(s * e, unit);
    }
    lemma_proportion(s as int, w as int, f as int, e as int, n as int, unit as int);
    let (x, y, r) = (a.units(), m.units(), out.units());
    let (whole, part, rise) = (dx.units(), g.units(), d.units());
    assert(whole == w && part == f);
    assert(apart(y * whole, rise * part) == apart((n * w) as int, (e * f) as int)) by {
        if d.is_negative() {
            assert((-(n as int)) * w == -(n * w)) by (nonlinear_arith);
            assert((-(e as int)) * f == -(e * f)) by (nonlinear_arith);
        }
    }
    lemma_gain(x, y, r, whole, rise * part, apart(rise, 0) * part);
}

/// If `s * w` is near `f * u` and `n * u` is near `s * e`, then `n * w` is near `e * f`.
proof fn lemma_proportion(s: int, w: int, f: int, e: int, n: int, u: int)
    requires
        s >= 0,
        w >= 0,
        f >= 0,
        e >= 0,
        n >= 0,
        u > 0,
        apart(s * w, f * u) * SIGNIFICAND_END <= f * u,
        apart(n * u, s * e) * SIGNIFICAND_END <= s * e,
    ensures
        apart(n * w, e * f) * SIGNIFICAND_END <= 3 * (e * f),
{
    let z = SIGNIFICAND_END as int;
    let (i, j) = (apart(s * w, f * u), apart(n * u, s * e));
    assert(s * w <= 2 * (f * u)) by (nonlinear_arith)
        requires
            i * z <= f * u,
            s * w <= f * u + i,
            z >= 1,
            i >= 0,
    ;
    let far = apart(n * w, e * f);
    // (n * w - e * f) * u == (n * u - s * e) * w + e * (s * w - f * u)
    assert(far * u <= j * w + e * i) by (nonlinear_arith)
        requires
            far == (if n * w >= e * f { n * w - e * f } else { e * f - n * w }),
            i == (if s * w >= f * u { s * w - f * u } else { f * u - s * w }),
            j == (if n * u >= s * e { n * u - s * e } else { s * e - n * u }),
            w >= 0,
            e >= 0,
            u > 0,
    ;
    assert(j * w * z <= s * e * w) by (nonlinear_arith)
        requires
            j * z <= s * e,
            w >= 0,
    ;
    assert(s * e * w <= e * (2 * (f * u))) by (nonlinear_arith)
        requires
            s * w <= 2 * (f * u),
            e >= 0,
    ;
    assert(e * i * z <= e * (f * u)) by (nonlinear_arith)
        requires
            i * z <= f * u,
            e >= 0,
    ;
    assert(far * u * z <= 3 * (e * f) * u) by (nonlinear_arith)
        requires
            far * u <= j * w + e * i,
            j * w * z <= e * (2 * (f * u)),
            e * i * z <= e * (f * u),
            z >= 0,
    ;
    assert(far * z <= 3 * (e * f)) by (nonlinear_arith)
        requires
            far * u * z <= 3 * (e * f) * u,
            u > 0,
    ;
}

proof fn lemma_gain(x: int, y: int, r: int, whole: int, due: int, size: int)
    requires
        whole >= 0,
        apart(r, x + y) * SIGNIFICAND_END <= apart(x + y, 0),
        apart(y * whole, due) * SIGNIFICAND_END <= 3 * size,
    ensures
        apart((r - x) * whole, due) * SIGNIFICAND_END <= 2 * (whole * apart(r, 0)) + 3 * size,
{
    let z = SIGNIFICAND_END as int;
    let (i, j) = (apart(r, x + y), apart(y * whole, due));
    let v = apart(x + y, 0);
    assert(v <= 2 * apart(r, 0)) by (nonlinear_arith)
        requires
            i * z <= v,
            v <= apart(r, 0) + i,
            z >= 2,
            i >= 0,
    ;
    let far = apart((r - x) * whole, due);
    assert(far <= i * whole + j) by (nonlinear_arith)
        requires
            far == (if (r - x) * whole >= due { (r - x) * whole - due } else {
                due - (r - x) * whole
            }),
            i == (if r >= x + y { r - (x + y) } else { x + y - r }),
            j == (if y * whole >= due { y * whole - due } else { due - y * whole }),
            whole >= 0,
    ;
    assert(i * whole * z <= 2 * (whole * apart(r, 0))) by (nonlinear_arith)
        requires
            i * z <= v,
            v <= 2 * apart(r, 0),
            whole >= 0,
    ;
    assert(far * z <= (i * whole + j) * z) by (nonlinear_arith)
        requires
            far <= i * whole + j,
            z >= 0,
    ;
    assert((i * whole + j) * z == i * whole * z + j * z) by (nonlinear_arith);
}

/// The Mach number times the speed of sound is the speed, to within one part in `2^48`.
pub proof fn law_mach_times_sound_is_the_speed(
    ri: BallisticInputs,
    arrived: Crossing,
    speed_of_sound: Double,
    litz_drift_m: Double,
)
    requires
        arrived.velocity.finite(),
        speed_of_sound.finite(),
        speed_of_sound.pattern() > 0,
        ordinary(arrived.velocity.quotient(speed_of_sound)),
    ensures
        nearly(
            magnitude(run_output(ri, arrived, speed_of_sound, litz_drift_m).mach.pattern())
                * magnitude(speed_of_sound.pattern()),
            magnitude(arrived.velocity.pattern()) * vstd::arithmetic::power2::pow2(1074),
            1,
        ),
{
    lemma_quotient_is_near(arrived.velocity, speed_of_sound);
}

} // verus!
