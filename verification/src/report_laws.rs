//! What the reports of trajectories mean.

use vstd::prelude::*;
use vstd::arithmetic::power2::*;
use crate::double::Double;
use crate::exception::ExceptionKind;
use crate::nearest::{distance, lemma_relative_error};
use crate::outcome_laws::lemma_zero_product;
use crate::rounding::{magnitude, round_ratio, HIDDEN, SIGNIFICAND_END};
use crate::solver::solution;
use crate::sum_laws::law_product_commutes;
use crate::trajectory::{energy_ftlbs, flag_name, reported_as, reported_point, row_of, rows_of};
use crate::trajectory::{PyTrajectoryResult, SampleRow, TrajectoryFlag, TrajectoryPoint};
use crate::trajectory::{TrajectoryResult, TrajectorySample};
use crate::unit_laws::{in_range, law_factors_stand_for_their_units, law_scaled_measures};
use crate::unit_laws::{law_scaling_keeps_order, law_scaling_mirrors, lemma_not_tiny, measures};
use crate::unit_laws::ordinary;
use crate::units::{constant, FPS_TO_MPS, FTLBS_TO_JOULES, HALF, YARDS_TO_METERS};

verus! {

/// A point mirrored left to right is reported mirrored left to right, and the same
/// otherwise.
pub proof fn law_reports_keep_the_side(
    p: TrajectoryPoint,
    mirrored: TrajectoryPoint,
    line_of_sight_height_m: Double,
    bullet_mass_kg: Double,
)
    requires
        !p.z.nan(),
        mirrored == (TrajectoryPoint { z: p.z.negated(), ..p }),
    ensures
        ({
            let r = reported_point(p, line_of_sight_height_m, bullet_mass_kg);
            let m = reported_point(mirrored, line_of_sight_height_m, bullet_mass_kg);
            &&& m.z == r.z.negated()
            &&& m.time == r.time && m.x == r.x && m.y == r.y
            &&& m.velocity_fps == r.velocity_fps && m.energy_ftlbs == r.energy_ftlbs
            &&& r.z.is_negative() == p.z.is_negative()
        }),
{
    law_scaling_mirrors(p.z, YARDS_TO_METERS);
    law_factors_stand_for_their_units();
    law_scaled_measures(p.z, YARDS_TO_METERS, 9144, 10000);
}

/// The coordinates are reported in yards of 0.9144 meters and the speed in feet of
/// 0.3048 meters per second; the time stays.
pub proof fn law_reports_are_in_yards(
    p: TrajectoryPoint,
    line_of_sight_height_m: Double,
    bullet_mass_kg: Double,
)
    ensures
        ({
            let r = reported_point(p, line_of_sight_height_m, bullet_mass_kg);
            let rise = p.y.difference(line_of_sight_height_m);
            &&& r.time == p.time
            &&& measures(r.x, p.x, 10000, 9144)
            &&& measures(r.y, rise, 10000, 9144)
            &&& measures(r.z, p.z, 10000, 9144)
            &&& measures(r.velocity_fps, p.velocity_magnitude, 10000, 3048)
        }),
{
    law_factors_stand_for_their_units();
    law_scaled_measures(p.x, YARDS_TO_METERS, 9144, 10000);
    law_scaled_measures(p.y.difference(line_of_sight_height_m), YARDS_TO_METERS, 9144, 10000);
    law_scaled_measures(p.z, YARDS_TO_METERS, 9144, 10000);
    law_scaled_measures(p.velocity_magnitude, FPS_TO_MPS, 3048, 10000);
}

/// Of two points the one farther out, higher, more to the right or faster is
/// reported so.
pub proof fn law_reports_keep_the_order(
    p: TrajectoryPoint,
    q: TrajectoryPoint,
    line_of_sight_height_m: Double,
    bullet_mass_kg: Double,
)
    ensures
        ({
            let r = reported_point(p, line_of_sight_height_m, bullet_mass_kg);
            let s = reported_point(q, line_of_sight_height_m, bullet_mass_kg);
            &&& p.x.at_most(q.x) ==> r.x.at_most(s.x)
            &&& p.z.at_most(q.z) ==> r.z.at_most(s.z)
            &&& p.velocity_magnitude.at_most(q.velocity_magnitude) ==> r.velocity_fps.at_most(
                s.velocity_fps,
            )
            &&& p.y.difference(line_of_sight_height_m).at_most(
                q.y.difference(line_of_sight_height_m),
            ) ==> r.y.at_most(s.y)
        }),
{
    if p.x.at_most(q.x) {
        law_scaling_keeps_order(p.x, q.x, YARDS_TO_METERS);
    }
    if p.z.at_most(q.z) {
        law_scaling_keeps_order(p.z, q.z, YARDS_TO_METERS);
    }
    if p.velocity_magnitude.at_most(q.velocity_magnitude) {
        law_scaling_keeps_order(p.velocity_magnitude, q.velocity_magnitude, FPS_TO_MPS);
    }
    let (a, b) = (p.y.difference(line_of_sight_height_m), q.y.difference(line_of_sight_height_m));
    if a.at_most(b) {
        law_scaling_keeps_order(a, b, YARDS_TO_METERS);
    }
}

/// The two natural numbers are equal to within `e` parts in `2^48`.
pub open spec fn nearly(x: nat, y: nat, e: nat) -> bool {
    let off = if x >= y { x - y } else { y - x };
    off * 0x1_0000_0000_0000 <= e * y
}

pub proof fn lemma_nearly_chain(x: nat, y: nat, z: nat, e: nat, f: nat)
    requires
        nearly(x, y, e),
        nearly(y, z, f),
        e <= 16,
        f <= 16,
    ensures
        nearly(x, z, e + f + 1),
{
    let off = if x >= y { x - y } else { y - x };
    let far = if y >= z { y - z } else { z - y };
    let all = if x >= z { x - z } else { z - x };
    assert(all <= off + far);
    assert(e * y <= e * z + 16 * far) by (nonlinear_arith)
        requires
            y <= z + far,
            e <= 16,
            far >= 0,
    ;
    assert(f * z <= 16 * z) by (nonlinear_arith)
        requires
            f <= 16,
    ;
    assert((e + f + 1) * z == e * z + f * z + z) by (nonlinear_arith);
}

pub proof fn lemma_nearly_times(x: nat, y: nat, e: nat, c: nat)
    requires
        nearly(x, y, e),
    ensures
        nearly(x * c, y * c, e),
{
    let off = if x >= y { x - y } else { y - x };
    let far = if x * c >= y * c { x * c - y * c } else { y * c - x * c };
    assert(far == off * c) by (nonlinear_arith)
        requires
            off == (if x >= y { x - y } else { y - x }),
            far == (if x * c >= y * c { x * c - y * c } else { y * c - x * c }),
    ;
    assert((off * c) * 0x1_0000_0000_0000 <= e * (y * c)) by (nonlinear_arith)
        requires
            off * 0x1_0000_0000_0000 <= e * y,
            c >= 0,
    ;
}

pub proof fn lemma_nearly_product(a: Double, b: Double)
    requires
        a.finite(),
        b.finite(),
        ordinary(a.product(b)),
    ensures
        a.product(b).is_negative() == (a.is_negative() != b.is_negative()),
        nearly(
            magnitude(a.product(b).pattern()) * pow2(1074),
            magnitude(a.pattern()) * magnitude(b.pattern()),
            1,
        ),
{
    reveal(Double::product);
    lemma_pow2_pos(1074);
    let (m, n, p) = (magnitude(a.pattern()), magnitude(b.pattern()), pow2(1074));
    let pattern = round_ratio(m * n, p);
    assert(a.product(b).pattern() == pattern);
    lemma_not_tiny(m * n, p);
    lemma_relative_error(m * n, p);
    let off = distance(pattern, m * n, p);
    assert(off * 0x1_0000_0000_0000 <= off * SIGNIFICAND_END) by (nonlinear_arith)
        requires
            SIGNIFICAND_END >= 0x1_0000_0000_0000,
            off >= 0,
    ;
}

/// Twice the reported energy, in joules of 1.35582 to the foot-pound, is the mass
/// times the square of the speed, to within one part in `2^44`, wherever nothing on
/// the way is tiny or infinite.
pub proof fn law_energy_is_half_mass_times_speed_squared(mass_kg: Double, speed: Double)
    requires
        mass_kg.finite(),
        speed.finite(),
        ordinary(constant(HALF).product(mass_kg)),
        ordinary(constant(HALF).product(mass_kg).product(speed)),
        ordinary(constant(HALF).product(mass_kg).product(speed).product(speed)),
        in_range(
            constant(HALF).product(mass_kg).product(speed).product(speed),
            100000,
            135582,
        ),
    ensures
        ({
            let (e, m, v) = (
                magnitude(energy_ftlbs(mass_kg, speed).pattern()),
                magnitude(mass_kg.pattern()),
                magnitude(speed.pattern()),
            );
            let p = pow2(1074);
            let (got, due) = (e * 135582 * 2 * p * p, 100000 * m * v * v);
            &&& (if got >= due { got - due } else { due - got }) * 0x1000_0000_0000 <= due
            &&& energy_ftlbs(mass_kg, speed).is_negative() == mass_kg.is_negative()
        }),
{
    let p = pow2(1074);
    let h = constant(HALF).product(mass_kg);
    let a = h.product(speed);
    let b = a.product(speed);
    let e = energy_ftlbs(mass_kg, speed);
    let (em, bm, am, hm) = (
        magnitude(e.pattern()),
        magnitude(b.pattern()),
        magnitude(a.pattern()),
        magnitude(h.pattern()),
    );
    let (m, v) = (magnitude(mass_kg.pattern()), magnitude(speed.pattern()));
    law_factors_stand_for_their_units();
    law_scaled_measures(b, FTLBS_TO_JOULES, 135582, 100000);
    lemma_pow2_pos(1074);
    lemma_nearly_product(constant(HALF), mass_kg);
    lemma_nearly_product(h, speed);
    lemma_nearly_product(a, speed);
    let half = magnitude(HALF as nat);
    assert(half * 2 == p) by {
        let hid = HIDDEN as nat;
        assert(HALF as nat / hid == 1022 && HALF as nat % hid == 0);
        lemma_pow2_adds(1021, 53);
        lemma2_to64();
        lemma2_to64_rest();
        let q = pow2(1021);
        assert(half == hid * q);
        assert((hid * q) * 2 == q * pow2(53)) by (nonlinear_arith)
            requires
                pow2(53) == 2 * hid,
        ;
    }
    assert(nearly(em * 135582, bm * 100000, 1));
    // In turn: the quotient, the two products with the speed, and the halved mass.
    let c0 = 2 * p * p;
    lemma_nearly_times(em * 135582, bm * 100000, 1, c0);
    lemma_nearly_times(bm * p, am * v, 1, 100000 * 2 * p);
    lemma_nearly_times(am * p, hm * v, 1, v * 100000 * 2);
    lemma_nearly_times(hm * p, half * m, 1, v * v * 100000 * 2);
    let (x0, x1) = ((em * 135582) * c0, (bm * 100000) * c0);
    let x2 = (am * v) * (100000 * 2 * p);
    let x3 = (hm * v) * (v * 100000 * 2);
    assert(x1 == (bm * p) * (100000 * 2 * p)) by (nonlinear_arith)
        requires
            x1 == (bm * 100000) * (2 * p * p),
    ;
    assert(x2 == (am * p) * (v * 100000 * 2)) by (nonlinear_arith)
        requires
            x2 == (am * v) * (100000 * 2 * p),
    ;
    lemma_nearly_chain(x0, x1, x2, 1, 1);
    lemma_nearly_chain(x0, x2, x3, 3, 1);
    // The last step is taken a further time by the unit of the halved mass.
    let (y0, y3) = (x0 * p, x3 * p);
    let y4 = (half * m) * (v * v * 100000 * 2);
    assert(y3 == (hm * p) * (v * v * 100000 * 2)) by (nonlinear_arith)
        requires
            y3 == ((hm * v) * (v * 100000 * 2)) * p,
    ;
    lemma_nearly_times(x0, x3, 5, p);
    lemma_nearly_chain(y0, y3, y4, 5, 1);
    let (got, due) = (em * 135582 * 2 * p * p, 100000 * m * v * v);
    assert(y0 == got * p) by (nonlinear_arith)
        requires
            y0 == ((em * 135582) * (2 * p * p)) * p,
            got == em * 135582 * 2 * p * p,
    ;
    assert(y4 == due * p) by (nonlinear_arith)
        requires
            y4 == (half * m) * (v * v * 100000 * 2),
            half * 2 == p,
            due == 100000 * m * v * v,
    ;
    let off = if got >= due { got - due } else { due - got };
    let far = if y0 >= y4 { y0 - y4 } else { y4 - y0 };
    assert(far == off * p) by (nonlinear_arith)
        requires
            y0 == got * p,
            y4 == due * p,
            off == (if got >= due { got - due } else { due - got }),
            far == (if y0 >= y4 { y0 - y4 } else { y4 - y0 }),
    ;
    assert(off * 0x1_0000_0000_0000 <= 7 * due) by (nonlinear_arith)
        requires
            (off * p) * 0x1_0000_0000_0000 <= 7 * (due * p),
            p > 0,
    ;
}

/// The energy of a point is that of the mass at its speed, whatever else holds of
/// the point.
pub proof fn law_energy_is_of_the_speed(
    p: TrajectoryPoint,
    q: TrajectoryPoint,
    height: Double,
    other_height: Double,
    bullet_mass_kg: Double,
)
    requires
        p.velocity_magnitude == q.velocity_magnitude,
    ensures
        reported_point(p, height, bullet_mass_kg).energy_ftlbs == reported_point(
            q,
            other_height,
            bullet_mass_kg,
        ).energy_ftlbs,
        reported_point(p, height, bullet_mass_kg).energy_ftlbs == energy_ftlbs(
            bullet_mass_kg,
            p.velocity_magnitude,
        ),
{
}

/// A trajectory is reported point for point, each against the trajectory's own line
/// of sight, and its figures in yards, fps and foot-pounds.
pub proof fn law_trajectories_are_reported_point_for_point(
    t: TrajectoryResult,
    bullet_mass_kg: Double,
    r: PyTrajectoryResult,
    i: int,
)
    requires
        reported_as(t, bullet_mass_kg, r),
        0 <= i < t.points@.len(),
    ensures
        r.points@.len() == t.points@.len(),
        r.points@[i].time == t.points@[i].time,
        measures(r.points@[i].x, t.points@[i].x, 10000, 9144),
        measures(
            r.points@[i].y,
            t.points@[i].y.difference(t.line_of_sight_height_m),
            10000,
            9144,
        ),
        measures(r.points@[i].z, t.points@[i].z, 10000, 9144),
        measures(r.points@[i].velocity_fps, t.points@[i].velocity_magnitude, 10000, 3048),
        r.points@[i].energy_ftlbs == energy_ftlbs(bullet_mass_kg, t.points@[i].velocity_magnitude),
{
    law_reports_are_in_yards(t.points@[i], t.line_of_sight_height_m, bullet_mass_kg);
}

/// The figures of a trajectory are reported in yards, fps and foot-pounds; its time
/// and its Mach number stay.
pub proof fn law_figures_are_reported_in_their_units(
    t: TrajectoryResult,
    bullet_mass_kg: Double,
    r: PyTrajectoryResult,
)
    requires
        reported_as(t, bullet_mass_kg, r),
    ensures
        measures(r.max_range_yards, t.max_range, 10000, 9144),
        measures(r.max_height_yards, t.max_height, 10000, 9144),
        r.time_of_flight == t.time_of_flight,
        measures(r.impact_velocity_fps, t.impact_velocity, 10000, 3048),
        measures(r.impact_energy_ftlbs, t.impact_energy, 100000, 135582),
        r.transonic_mach == t.transonic_mach,
{
    law_factors_stand_for_their_units();
    law_scaled_measures(t.max_range, YARDS_TO_METERS, 9144, 10000);
    law_scaled_measures(t.max_height, YARDS_TO_METERS, 9144, 10000);
    law_scaled_measures(t.impact_velocity, FPS_TO_MPS, 3048, 10000);
    law_scaled_measures(t.impact_energy, FTLBS_TO_JOULES, 135582, 100000);
}

/// The numbers of a sample, in the order in which its report names them.
pub open spec fn sample_numbers(s: TrajectorySample) -> Seq<Double> {
    seq![s.distance_m, s.drop_m, s.wind_drift_m, s.velocity_mps, s.energy_j, s.time_s]
}

/// The numbers of a row.
pub open spec fn row_numbers(r: SampleRow) -> Seq<Double> {
    seq![r.distance_m, r.drop_m, r.wind_drift_m, r.velocity_mps, r.energy_j, r.time_s]
}

/// The samples are reported one for one, with the numbers they have and in their
/// order, and each thing that happens there by a name of its own.
pub proof fn law_samples_are_reported_as_they_are(
    samples: Option<Vec<TrajectorySample>>,
    rows: Option<Vec<SampleRow>>,
    i: int,
    j: int,
)
    requires
        rows_of(samples, rows),
    ensures
        rows is Some <==> samples is Some,
        samples matches Some(s) ==> (rows matches Some(r) && r@.len() == s@.len() && (0 <= i
            < s@.len() ==> row_numbers(r@[i]) == sample_numbers(s@[i]) && r@[i].flags@.len()
            == s@[i].flags@.len() && (0 <= j < s@[i].flags@.len() ==> (r@[i].flags@[j]@
            == "apex"@ <==> s@[i].flags@[j] == TrajectoryFlag::Apex) && (r@[i].flags@[j]@
            == "zero_crossing"@ <==> s@[i].flags@[j] == TrajectoryFlag::ZeroCrossing) && (
        r@[i].flags@[j]@ == "mach_transition"@ <==> s@[i].flags@[j]
            == TrajectoryFlag::MachTransition)))),
{
    reveal_strlit("apex");
    reveal_strlit("zero_crossing");
    reveal_strlit("mach_transition");
    assert("apex"@.len() == 4 && "zero_crossing"@.len() == 13 && "mach_transition"@.len() == 15);
    if let Some(s) = samples {
        let r = rows->0;
        if 0 <= i < s@.len() {
            assert(row_of(s@[i], r@[i]));
            if 0 <= j < s@[i].flags@.len() {
                assert(r@[i].flags@[j]@ == flag_name(s@[i].flags@[j]));
            }
        }
    }
}

/// A computation that succeeds is reported with the solver's own bullet mass, and
/// one that fails is raised as a `ValueError` that ends with the complaint.
pub proof fn law_solutions_are_reported_or_raised(
    computed: Result<TrajectoryResult, String>,
    bullet_mass_kg: Double,
    r: Result<PyTrajectoryResult, crate::exception::Exception>,
)
    requires
        solution(computed, bullet_mass_kg, r),
    ensures
        r is Ok <==> computed is Ok,
        computed matches Ok(t) ==> reported_as(t, bullet_mass_kg, r->Ok_0),
        computed matches Err(e) ==> ({
            let x = r->Err_0;
            &&& x.kind == ExceptionKind::ValueError
            &&& x.message@.len() > e@.len()
            &&& x.message@.skip(x.message@.len() - e@.len()) == e@
        }),
{
    reveal_strlit("Trajectory calculation failed: ");
    if let Err(e) = computed {
        let x = r->Err_0;
        let head = "Trajectory calculation failed: "@;
        assert(x@.message == x.message@);
        assert(x.message@ == head + e@);
        assert((head + e@).skip(head.len() as int) =~= e@);
    }
}

/// What does not move, or weighs nothing, has no energy.
pub proof fn law_no_speed_is_no_energy(mass_kg: Double, speed: Double)
    requires
        mass_kg.finite(),
        speed.finite(),
        constant(HALF).product(mass_kg).finite(),
    ensures
        speed.zero() ==> energy_ftlbs(mass_kg, speed).zero(),
        mass_kg.zero() ==> energy_ftlbs(mass_kg, speed).zero(),
{
    let h = constant(HALF).product(mass_kg);
    if mass_kg.zero() {
        law_product_commutes(constant(HALF), mass_kg);
        lemma_zero_product(mass_kg, constant(HALF));
        lemma_zero_product(h, speed);
        lemma_zero_product(h.product(speed), speed);
    }
    if speed.zero() {
        law_product_commutes(h, speed);
        lemma_zero_product(speed, h);
        lemma_zero_product(h.product(speed), speed);
    }
    law_factors_stand_for_their_units();
    law_scaled_measures(h.product(speed).product(speed), FTLBS_TO_JOULES, 135582, 100000);
}

} // verus!
