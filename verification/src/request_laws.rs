//! What the requests mean: each argument goes where it belongs, in the units that
//! are asked for, and nowhere else.

use vstd::prelude::*;
use crate::conditions::{atmosphere_of, celsius, percent, still_air, wind_of};
use crate::conditions::{PyAtmosphericConditions, PyWindConditions};
use crate::double::Double;
use crate::exception::{Exception, ExceptionKind, Fault};
use crate::fast::{imperial_zero_call, integration_call, level_segment, queries, shear_model};
use crate::fast::{state_of, station_of, surroundings, wind_in_mps, FastIntegrateCall, ShearModel};
use crate::fast::{State, Vector, WindQuery, WindTuple};
use crate::inputs::{si, BallisticInputs};
use crate::montecarlo::{base_wind, in_atmosphere};
use crate::outcome_laws::lemma_one_times;
use crate::report_laws::{lemma_nearly_chain, nearly};
use crate::rounding::magnitude;
use crate::solver::{auto_zero_call, fresh_settings, wind_segment, wind_segments, zero_found};
use crate::solver::{AtmoSegment, SolverSettings, WindSegment};
use crate::sum_laws::{law_differences_keep_order, law_product_commutes};
use crate::text::{occurs, occurs_at};
use crate::unit_laws::{in_range, law_factors_stand_for_their_units, law_scaled_measures};
use crate::unit_laws::{law_scaling_keeps_order, law_scaling_mirrors, measures, ordinary};
use crate::unit_laws::stands_for;
use crate::units::{constant, scaled, unscaled, DEGREES_TO_RADIANS, FEET_TO_METERS, FIVE};
use crate::units::{GRAINS_TO_KG, HUNDRED, INCHES_TO_METERS, INHG_TO_HPA, KMH_TO_MPS, MPH_TO_MPS};
use crate::units::{NINE, ONE, THIRTY_TWO, YARDS_TO_METERS, ZERO};

verus! {

/// The numbers of a wind segment, in the order in which a row gives them.
pub open spec fn segment_numbers(s: WindSegment) -> Seq<Double> {
    seq![s.speed_kmh, s.angle_deg, s.until_m, s.vertical_mps]
}

/// A row reads as the segment whose numbers it gives: speed, angle, end and
/// updraft; without the fourth number there is no updraft.
pub proof fn law_rows_read_as_their_segments(row: Vec<Double>, s: WindSegment)
    ensures
        row@ == segment_numbers(s) ==> wind_segment(Ok(row)) == Ok::<WindSegment, Fault>(s),
        row@ == segment_numbers(s).take(3) && s.vertical_mps == constant(ZERO) ==> wind_segment(
            Ok(row),
        ) == Ok::<WindSegment, Fault>(s),
        row@.len() != 3 && row@.len() != 4 ==> (wind_segment(Ok(row)) matches Err(f) && f.kind
            == ExceptionKind::ValueError),
        row@.len() == 3 || row@.len() == 4 ==> wind_segment(Ok(row)) is Ok,
{
    let t = segment_numbers(s).take(3);
    assert(t.len() == 3 && t[0] == s.speed_kmh && t[1] == s.angle_deg && t[2] == s.until_m);
}

/// Two rows that differ in one number only read as segments that differ in what
/// that number stands for only.
pub proof fn law_each_number_of_a_row_has_its_place(
    row: Vec<Double>,
    other: Vec<Double>,
    k: int,
)
    requires
        row@.len() == 3 || row@.len() == 4,
        0 <= k < row@.len(),
        other@ == row@.update(k, other@[k]),
    ensures
        wind_segment(Ok(row)) is Ok,
        wind_segment(Ok(other)) is Ok,
        ({
            let (s, t) = (wind_segment(Ok(row))->Ok_0, wind_segment(Ok(other))->Ok_0);
            &&& k != 0 ==> t.speed_kmh == s.speed_kmh
            &&& k != 1 ==> t.angle_deg == s.angle_deg
            &&& k != 2 ==> t.until_m == s.until_m
            &&& k != 3 ==> t.vertical_mps == s.vertical_mps
            &&& k == 0 ==> t.speed_kmh == other@[0]
            &&& k == 1 ==> t.angle_deg == other@[1]
            &&& k == 2 ==> t.until_m == other@[2]
            &&& k == 3 ==> t.vertical_mps == other@[3]
        }),
{
}

/// Three numbers read as the same segment as the tuple of them does elsewhere.
pub proof fn law_readers_of_winds_agree(row: Vec<Double>, w: WindTuple)
    requires
        row@ == seq![w.0, w.1, w.2],
    ensures
        wind_segment(Ok(row)) == Ok::<WindSegment, Fault>(level_segment(w)),
        level_segment(w).vertical_mps == constant(ZERO),
{
}

/// Winds are read if every row can be, and else the first row that cannot be
/// decides; what was raised while reading a row is passed on.
pub proof fn law_first_bad_row_decides(rows: Seq<Result<Vec<Double>, Exception>>, n: int)
    requires
        0 <= n <= rows.len(),
        forall|i: int| 0 <= i < n ==> wind_segment(#[trigger] rows[i]) is Ok,
    ensures
        n == rows.len() ==> wind_segments(rows) is Ok,
        n < rows.len() && wind_segment(rows[n]) is Err ==> (wind_segments(rows) matches Err(f) && f
            == wind_segment(rows[n])->Err_0),
        n < rows.len() ==> (rows[n] matches Err(e) ==> (wind_segment(rows[n]) matches Err(f) && f
            == e@)),
    decreases rows.len(),
{
    if rows.len() > 0 {
        let rest = rows.drop_last();
        if n == rows.len() {
            assert forall|i: int| 0 <= i < rest.len() implies wind_segment(
                #[trigger] rest[i],
            ) is Ok by {
                assert(rest[i] == rows[i]);
            }
            law_first_bad_row_decides(rest, n - 1);
            assert(wind_segment(rows[n - 1]) is Ok);
        } else {
            assert forall|i: int| 0 <= i < n implies wind_segment(#[trigger] rest[i]) is Ok by {
                assert(rest[i] == rows[i]);
            }
            if n == rows.len() - 1 {
                law_first_bad_row_decides(rest, n);
            } else {
                law_first_bad_row_decides(rest, n);
                assert(rest[n] == rows[n]);
            }
        }
    }
}

/// A wind given in mph and degrees, in m/s and radians; its updraft stays.
pub proof fn law_winds_become_metric(w: PyWindConditions)
    ensures
        measures(w.si().speed, w.speed_mph, 44704, 100000),
        measures(w.si().direction, w.direction_degrees, 31415926535897932, 1800000000000000000),
        w.si().vertical_speed == w.vertical_speed_mps,
{
    law_factors_stand_for_their_units();
    law_scaled_measures(w.speed_mph, MPH_TO_MPS, 44704, 100000);
    law_scaled_measures(
        w.direction_degrees,
        DEGREES_TO_RADIANS,
        31415926535897932,
        1800000000000000000,
    );
}

/// An atmosphere given in inches of mercury and feet, in hPa and meters; its
/// humidity stays.
pub proof fn law_atmospheres_become_metric(a: PyAtmosphericConditions)
    ensures
        measures(a.si().pressure, a.pressure_inhg, 338639, 10000),
        measures(a.si().altitude, a.altitude_feet, 3048, 10000),
        a.si().humidity == a.humidity_percent,
        a.si().temperature == celsius(a.temperature_f),
{
    law_factors_stand_for_their_units();
    law_scaled_measures(a.pressure_inhg, INHG_TO_HPA, 338639, 10000);
    law_scaled_measures(a.altitude_feet, FEET_TO_METERS, 3048, 10000);
}

/// Nine degrees Fahrenheit are five degrees Celsius: nine times the result is five
/// times what the temperature is above 32, to within three parts in `2^48`, and on
/// its side of zero; a warmer temperature is not colder.
pub proof fn law_nine_fahrenheit_are_five_celsius(t: Double, warmer: Double)
    requires
        t.finite(),
        warmer.finite(),
        t.at_most(warmer),
    ensures
        celsius(t).at_most(celsius(warmer)),
        ({
            let above = t.difference(constant(THIRTY_TWO));
            &&& celsius(t).is_negative() == above.is_negative()
            &&& above.zero() ==> celsius(t).zero()
            &&& above.finite() && in_range(above, 5, 1) && in_range(
                scaled(above, FIVE),
                1,
                9,
            ) ==> nearly(
                magnitude(celsius(t).pattern()) * 9,
                magnitude(above.pattern()) * 5,
                3,
            )
        }),
{
    let (a, b) = (t.difference(constant(THIRTY_TWO)), warmer.difference(constant(THIRTY_TWO)));
    assert(!a.nan() && !b.nan()) by {
        reveal(Double::sum);
    }
    law_differences_keep_order(t, warmer, constant(THIRTY_TWO));
    law_scaling_keeps_order(a, b, FIVE);
    law_scaling_keeps_order(scaled(a, FIVE), scaled(b, FIVE), NINE);
    lemma_five_and_nine();
    law_scaled_measures(a, FIVE, 5, 1);
    law_scaled_measures(scaled(a, FIVE), NINE, 9, 1);
    let c = celsius(t);
    assert(c == unscaled(scaled(a, FIVE), NINE));
    if a.finite() && in_range(a, 5, 1) && in_range(scaled(a, FIVE), 1, 9) {
        assert(ordinary(scaled(a, FIVE)) && ordinary(c));
        let (x, y, z) = (
            magnitude(c.pattern()),
            magnitude(scaled(a, FIVE).pattern()),
            magnitude(a.pattern()),
        );
        assert(nearly(x * 9, y * 1, 1));
        assert(nearly(y * 1, z * 5, 1));
        lemma_nearly_chain(x * 9, y * 1, z * 5, 1, 1);
    }
}

proof fn lemma_five_and_nine()
    ensures
        stands_for(FIVE, 5, 1),
        stands_for(NINE, 9, 1),
{
    crate::unit_laws::law_small_numbers_stand_for_themselves();
}

/// The humidity in percent: none below zero, a hundred above one, the hundredfold
/// between, and never less for a moister air.
pub proof fn law_humidity_is_in_percent(fraction: Double, moister: Double)
    requires
        fraction.at_most(moister),
    ensures
        percent(fraction).at_most(percent(moister)),
        fraction.at_most(constant(ZERO)) ==> percent(fraction).zero(),
        constant(ZERO).below(percent(fraction)) && percent(fraction).below(constant(HUNDRED))
            ==> measures(percent(fraction), fraction, 100, 1),
{
    law_factors_stand_for_their_units();
    law_scaled_measures(fraction, HUNDRED, 100, 1);
    law_scaling_keeps_order(fraction, moister, HUNDRED);
    assert(magnitude(0) == 0);
    if fraction.at_most(constant(ZERO)) {
        law_scaling_keeps_order(fraction, constant(ZERO), HUNDRED);
        law_scaled_measures(constant(ZERO), HUNDRED, 100, 1);
        let p = scaled(fraction, HUNDRED);
        if p.pattern() > 0 {
            crate::double::lemma_magnitude_increases(0, p.pattern());
        }
    }
    assert(constant(ZERO).below(constant(HUNDRED))) by {
        crate::double::lemma_magnitude_increases(0, HUNDRED as nat);
    }
}

/// Of inputs that hold their own conditions the wind is their speed and angle with
/// no updraft, and the atmosphere their temperature, pressure and altitude with the
/// humidity in percent; what the wind is does not touch the atmosphere, nor the
/// other way round.
pub proof fn law_own_conditions_are_apart(b: BallisticInputs, c: BallisticInputs)
    ensures
        b.wind_speed == c.wind_speed && b.wind_angle == c.wind_angle <==> wind_of(b) == wind_of(c),
        b.temperature == c.temperature && b.pressure == c.pressure && b.humidity == c.humidity
            && b.altitude == c.altitude ==> atmosphere_of(b) == atmosphere_of(c),
        seq![wind_of(b).speed, wind_of(b).direction, wind_of(b).vertical_speed] == seq![
            b.wind_speed,
            b.wind_angle,
            constant(ZERO),
        ],
        seq![
            atmosphere_of(b).temperature,
            atmosphere_of(b).pressure,
            atmosphere_of(b).altitude,
        ] == seq![b.temperature, b.pressure, b.altitude],
        atmosphere_of(b).humidity == percent(b.humidity),
{
}

/// The wind and the atmosphere of a zeroing request are chosen apart: one that is
/// given is the one of the request whether or not the other is given, and one that
/// is not given is that of the inputs, whatever the other is.
pub proof fn law_zeroing_chooses_wind_and_atmosphere_apart(
    b: BallisticInputs,
    distance: Double,
    height: Double,
    wind: Option<PyWindConditions>,
    atmo: Option<PyAtmosphericConditions>,
    other_wind: Option<PyWindConditions>,
    other_atmo: Option<PyAtmosphericConditions>,
)
    ensures
        auto_zero_call(b, distance, height, wind, atmo).wind == auto_zero_call(
            b,
            distance,
            height,
            wind,
            other_atmo,
        ).wind,
        auto_zero_call(b, distance, height, wind, atmo).atmosphere == auto_zero_call(
            b,
            distance,
            height,
            other_wind,
            atmo,
        ).atmosphere,
        auto_zero_call(b, distance, height, wind, atmo).inputs == auto_zero_call(
            b,
            distance,
            height,
            other_wind,
            other_atmo,
        ).inputs,
        wind matches Some(w) ==> auto_zero_call(b, distance, height, wind, atmo).wind == w.si(),
        atmo matches Some(a) ==> auto_zero_call(b, distance, height, wind, atmo).atmosphere
            == a.si(),
{
}

/// A zeroing request asks for the distance in meters and the height in meters; the
/// conditions given are asked for in SI units, and those of the dictionary where
/// none are given.
pub proof fn law_zeroing_requests_are_metric(
    b: BallisticInputs,
    distance_yards: Double,
    height_inches: Double,
    wind: Option<PyWindConditions>,
    atmo: Option<PyAtmosphericConditions>,
)
    ensures
        ({
            let call = auto_zero_call(b, distance_yards, height_inches, wind, atmo);
            &&& measures(call.target_distance, distance_yards, 9144, 10000)
            &&& measures(call.target_height, height_inches, 254, 10000)
            &&& wind matches Some(w) ==> measures(call.wind.speed, w.speed_mph, 44704, 100000)
                && measures(
                call.wind.direction,
                w.direction_degrees,
                31415926535897932,
                1800000000000000000,
            ) && call.wind.vertical_speed == w.vertical_speed_mps
            &&& wind is None ==> measures(call.wind.speed, b.wind_speed, 1000, 3600) && measures(
                call.wind.direction,
                b.wind_angle,
                31415926535897932,
                1800000000000000000,
            ) && call.wind.vertical_speed == constant(ZERO)
            &&& atmo matches Some(a) ==> call.atmosphere.temperature == celsius(a.temperature_f)
                && measures(call.atmosphere.pressure, a.pressure_inhg, 338639, 10000)
                && call.atmosphere.humidity == a.humidity_percent && measures(
                call.atmosphere.altitude,
                a.altitude_feet,
                3048,
                10000,
            )
            &&& atmo is None ==> call.atmosphere.temperature == b.temperature
                && call.atmosphere.pressure == b.pressure && measures(
                call.atmosphere.altitude,
                b.altitude,
                3048,
                10000,
            ) && call.atmosphere.humidity == percent(unscaled(b.humidity, HUNDRED))
        }),
{
    law_factors_stand_for_their_units();
    law_scaled_measures(distance_yards, YARDS_TO_METERS, 9144, 10000);
    law_scaled_measures(height_inches, INCHES_TO_METERS, 254, 10000);
    law_scaled_measures(b.wind_speed, KMH_TO_MPS, 1000, 3600);
    law_scaled_measures(
        b.wind_angle,
        DEGREES_TO_RADIANS,
        31415926535897932,
        1800000000000000000,
    );
    law_scaled_measures(b.altitude, FEET_TO_METERS, 3048, 10000);
    if let Some(w) = wind {
        law_winds_become_metric(w);
    }
    if let Some(a) = atmo {
        law_atmospheres_become_metric(a);
    }
}

/// A wind that is given is the same in every request that takes it, and so is one
/// that is left to the inputs.
pub proof fn law_requests_share_the_wind(
    b: BallisticInputs,
    distance: Double,
    height: Double,
    wind: Option<PyWindConditions>,
    atmo: Option<PyAtmosphericConditions>,
)
    ensures
        base_wind(si(b), wind) == auto_zero_call(b, distance, height, wind, atmo).wind,
        wind matches Some(w) ==> fresh_settings(b, wind, atmo).wind == base_wind(si(b), wind),
        atmo matches Some(a) ==> fresh_settings(b, wind, atmo).atmosphere == auto_zero_call(
            b,
            distance,
            height,
            wind,
            atmo,
        ).atmosphere,
{
}

/// An atmosphere that is given for a sampling takes the place of that of the inputs
/// and leaves the wind, the bullet and the shot as they are; none given leaves all.
pub proof fn law_given_atmosphere_is_moved_into(
    b: BallisticInputs,
    atmo: Option<PyAtmosphericConditions>,
)
    ensures
        ({
            let c = in_atmosphere(b, atmo);
            &&& wind_of(c) == wind_of(b)
            &&& c.muzzle_velocity == b.muzzle_velocity && c.bullet_mass == b.bullet_mass
            &&& c.target_distance == b.target_distance && c.muzzle_angle == b.muzzle_angle
            &&& c.bc_value == b.bc_value && c.twist_rate == b.twist_rate
            &&& c.sight_height == b.sight_height && c.shooting_angle == b.shooting_angle
            &&& atmo matches Some(a) ==> c.temperature == celsius(a.temperature_f) && measures(
                c.pressure,
                a.pressure_inhg,
                338639,
                10000,
            ) && measures(c.altitude, a.altitude_feet, 3048, 10000) && measures(
                c.humidity,
                a.humidity_percent,
                1,
                100,
            )
            &&& atmo is None ==> c == b
        }),
{
    law_factors_stand_for_their_units();
    if let Some(a) = atmo {
        law_atmospheres_become_metric(a);
        law_scaled_measures(a.humidity_percent, HUNDRED, 100, 1);
    }
}

/// The conditions given to a new solver are its own, each apart from the other;
/// still air and the standard atmosphere stand in for what is not given, and
/// nothing else is set.
pub proof fn law_new_solvers_take_the_conditions_given(
    b: BallisticInputs,
    wind: Option<PyWindConditions>,
    atmo: Option<PyAtmosphericConditions>,
    other_wind: Option<PyWindConditions>,
    other_atmo: Option<PyAtmosphericConditions>,
)
    ensures
        fresh_settings(b, wind, atmo).wind == fresh_settings(b, wind, other_atmo).wind,
        fresh_settings(b, wind, atmo).atmosphere == fresh_settings(b, other_wind, atmo).atmosphere,
        wind matches Some(w) ==> fresh_settings(b, wind, atmo).wind == w.si(),
        wind is None ==> ({
            let w = fresh_settings(b, wind, atmo).wind;
            w.speed.zero() && w.direction.zero() && w.vertical_speed.zero()
        }),
        atmo matches Some(a) ==> fresh_settings(b, wind, atmo).atmosphere == a.si(),
        fresh_settings(b, wind, atmo).inputs == b,
        fresh_settings(b, wind, atmo).bullet_mass_kg == b.bullet_mass,
        fresh_settings(b, wind, atmo).max_range is None,
        fresh_settings(b, wind, atmo).time_step is None,
        fresh_settings(b, wind, atmo).wind_segments.len() == 0,
        fresh_settings(b, wind, atmo).atmo_segments.len() == 0,
{
    law_winds_become_metric(still_air());
}

/// What is set on a solver reads back, the last value holds, and the rest stays;
/// settings of different kinds can be made in any order.
pub proof fn law_settings_are_apart(
    s: SolverSettings,
    range_m: Double,
    step_s: Double,
    winds: Seq<WindSegment>,
    zones: Seq<AtmoSegment>,
    before: Double,
)
    ensures
        s.with_max_range(range_m).max_range == Some(range_m),
        s.with_time_step(step_s).time_step == Some(step_s),
        s.with_wind_segments(winds).wind_segments == winds,
        s.with_atmo_segments(zones).atmo_segments == zones,
        s.with_max_range(before).with_max_range(range_m) == s.with_max_range(range_m),
        s.with_time_step(before).with_time_step(step_s) == s.with_time_step(step_s),
        s.with_max_range(range_m).with_time_step(step_s) == s.with_time_step(step_s).with_max_range(
            range_m,
        ),
        s.with_wind_segments(winds).with_atmo_segments(zones) == s.with_atmo_segments(
            zones,
        ).with_wind_segments(winds),
        s.with_max_range(range_m).with_wind_segments(winds) == s.with_wind_segments(
            winds,
        ).with_max_range(range_m),
        ({
            let t = s.with_max_range(range_m).with_time_step(step_s).with_wind_segments(
                winds,
            ).with_atmo_segments(zones);
            &&& t.inputs == s.inputs && t.wind == s.wind && t.atmosphere == s.atmosphere
            &&& t.bullet_mass_kg == s.bullet_mass_kg
            &&& t.max_range == Some(range_m) && t.time_step == Some(step_s)
            &&& t.wind_segments == winds && t.atmo_segments == zones
        }),
        s.with_max_range(range_m).time_step == s.time_step,
        s.with_time_step(step_s).max_range == s.max_range,
        s.with_max_range(range_m).wind_segments == s.wind_segments,
        s.with_wind_segments(winds).atmo_segments == s.atmo_segments,
        s.with_atmo_segments(zones).wind_segments == s.wind_segments,
{
}

/// The angle found is given back as it is; a search that fails is raised as a
/// `RuntimeError` that ends with the complaint and names the distance before it.
pub proof fn law_zeros_are_given_back_or_raised(
    distance: Seq<char>,
    found: Result<Double, String>,
)
    ensures
        found matches Ok(angle) ==> zero_found(distance, found) == Ok::<Double, Fault>(angle),
        found matches Err(e) ==> (zero_found(distance, found) matches Err(f) && f.kind
            == ExceptionKind::RuntimeError && f.message.len() > distance.len() + e@.len()
            && f.message.skip(f.message.len() - e@.len()) == e@ && occurs(
            f.message.take(f.message.len() - e@.len()),
            distance + " yards"@,
        )),
{
    reveal_strlit("Unable to find zero angle for target distance ");
    reveal_strlit(" yards: ");
    reveal_strlit(" yards");
    if let Err(e) = found {
        let head = "Unable to find zero angle for target distance "@;
        let m = head + distance + " yards: "@ + e@;
        assert(m.skip(m.len() - e@.len()) =~= e@);
        let (part, at) = (m.take(m.len() - e@.len()), head.len() as int);
        assert(part.subrange(at, at + (distance + " yards"@).len()) =~= distance + " yards"@);
        assert(occurs_at(part, distance + " yards"@, at));
    }
}

/// With a wind that changes with altitude the surface layer is the first of the
/// winds in m/s, and winds put behind the first leave it as it is; without winds
/// there is none.
pub proof fn law_surface_is_the_first_wind(
    b: BallisticInputs,
    winds: Seq<WindTuple>,
    more: Seq<WindTuple>,
    q: WindQuery,
    longer: WindQuery,
)
    requires
        queries(b, winds, q),
        queries(b, winds + more, longer),
        q is Sheared,
    ensures
        longer is Sheared,
        longer->model == q->model,
        longer->altitude == q->altitude,
        winds.len() > 0 ==> longer->surface == q->surface,
        winds.len() > 0 ==> (q->surface matches Some(layer) && measures(
            layer.0,
            winds[0].0,
            1000,
            3600,
        ) && layer.1 == winds[0].1 && layer.0 == q->winds@[0].0 && layer.1 == q->winds@[0].1),
        winds.len() == 0 ==> q->surface is None,
        longer->winds@.take(winds.len() as int) == q->winds@,
{
    law_factors_stand_for_their_units();
    if winds.len() > 0 {
        law_scaled_measures(winds[0].0, KMH_TO_MPS, 1000, 3600);
        assert((winds + more)[0] == winds[0]);
        assert(q->winds@[0] == wind_in_mps(winds[0]));
    }
    assert(longer->winds@.take(winds.len() as int) =~= q->winds@) by {
        assert forall|i: int| 0 <= i < winds.len() implies longer->winds@[i] == q->winds@[i] by {
            assert((winds + more)[i] == winds[i]);
        }
    }
}

/// The winds are asked for one for one: in m/s, with their direction and their end,
/// where they change with altitude, and else in km/h as they are, with no updraft.
pub proof fn law_winds_are_asked_for_one_for_one(
    b: BallisticInputs,
    winds: Seq<WindTuple>,
    q: WindQuery,
    i: int,
)
    requires
        queries(b, winds, q),
        0 <= i < winds.len(),
    ensures
        q is Sheared <==> b.enable_wind_shear && b.wind_shear_model@ != "none"@,
        q is Sheared ==> q->winds@.len() == winds.len() && measures(
            q->winds@[i].0,
            winds[i].0,
            1000,
            3600,
        ) && q->winds@[i].1 == winds[i].1 && q->winds@[i].2 == winds[i].2 && q->altitude
            == b.altitude,
        q is Uniform ==> q->segments@.len() == winds.len() && segment_numbers(q->segments@[i])
            == seq![winds[i].0, winds[i].1, winds[i].2, constant(ZERO)],
{
    law_factors_stand_for_their_units();
    law_scaled_measures(winds[i].0, KMH_TO_MPS, 1000, 3600);
    if q is Sheared {
        assert(q->winds@[i] == wind_in_mps(winds[i]));
    } else {
        assert(q->segments@[i] == level_segment(winds[i]));
    }
}

/// Each shear model has a name by which it is read, and no two share one.
pub proof fn law_shear_models_are_read_by_their_names()
    ensures
        shear_model("logarithmic"@) == ShearModel::Logarithmic,
        shear_model("power_law"@) == ShearModel::PowerLaw,
        shear_model("ekman_spiral"@) == ShearModel::EkmanSpiral,
        shear_model("none"@) == ShearModel::NoShear,
        forall|s: Seq<char>|
            #![trigger shear_model(s)]
            (shear_model(s) == ShearModel::Logarithmic ==> s == "logarithmic"@) && (shear_model(s)
                == ShearModel::EkmanSpiral ==> s == "ekman_spiral"@) && (shear_model(s)
                == ShearModel::NoShear ==> s == "none"@),
{
    reveal_strlit("none");
    reveal_strlit("logarithmic");
    reveal_strlit("power_law");
    reveal_strlit("ekman_spiral");
    assert("power_law"@.len() == 9 && "none"@.len() == 4);
    assert("logarithmic"@.len() == 11 && "ekman_spiral"@.len() == 12);
}

/// The numbers of a state, position before velocity.
pub open spec fn state_numbers(s: State) -> Seq<Double> {
    seq![
        s.position.0,
        s.position.1,
        s.position.2,
        s.velocity.0,
        s.velocity.1,
        s.velocity.2,
    ]
}

/// Six numbers are the state that has them, and four the station.
pub proof fn law_states_and_stations_keep_their_numbers(v: Seq<Double>)
    ensures
        v.len() == 6 ==> state_numbers(state_of(v)) == v,
        v.len() == 4 ==> seq![station_of(v).0, station_of(v).1, station_of(v).2, station_of(v).3]
            == v,
{
    if v.len() == 6 {
        assert(state_numbers(state_of(v)) =~= v);
    }
    if v.len() == 4 {
        assert(seq![station_of(v).0, station_of(v).1, station_of(v).2, station_of(v).3] =~= v);
    }
}

/// A request to the integrator carries the numbers it was given.
pub proof fn law_integrations_carry_their_arguments(
    b: BallisticInputs,
    winds: Seq<WindTuple>,
    horiz: Double,
    vert: Double,
    state: Seq<Double>,
    t_span: (Double, Double),
    station: Seq<Double>,
    zones: Seq<AtmoSegment>,
    call: FastIntegrateCall,
    i: int,
)
    requires
        integration_call(b, winds, horiz, vert, state, t_span, station, zones, call),
        state.len() == 6,
        station.len() == 4,
    ensures
        state_numbers(call.initial_state) + seq![
            call.atmo_params.0,
            call.atmo_params.1,
            call.atmo_params.2,
            call.atmo_params.3,
            call.horiz,
            call.vert,
            call.t_span.0,
            call.t_span.1,
        ] == state + station + seq![horiz, vert, t_span.0, t_span.1],
        call.wind_segments@.len() == winds.len(),
        0 <= i < winds.len() ==> segment_numbers(call.wind_segments@[i]) == seq![
            winds[i].0,
            winds[i].1,
            winds[i].2,
            constant(ZERO),
        ],
        zones.len() > 0 ==> (call.atmo_segments matches Some(z) && z@ == zones),
        zones.len() == 0 ==> call.atmo_segments is None,
        measures(call.inputs.bullet_mass, b.bullet_mass, 6479891, 100000000000),
        measures(call.inputs.bullet_diameter, b.bullet_diameter, 254, 10000),
        measures(call.inputs.bullet_length, b.bullet_length, 254, 10000),
        call.inputs.muzzle_velocity == b.muzzle_velocity,
        call.inputs.bc_value == b.bc_value,
{
    law_states_and_stations_keep_their_numbers(state);
    law_states_and_stations_keep_their_numbers(station);
    law_factors_stand_for_their_units();
    law_scaled_measures(b.bullet_mass, GRAINS_TO_KG, 6479891, 100000000000);
    law_scaled_measures(b.bullet_diameter, INCHES_TO_METERS, 254, 10000);
    law_scaled_measures(b.bullet_length, INCHES_TO_METERS, 254, 10000);
    if 0 <= i < winds.len() {
        assert(call.wind_segments@[i] == level_segment(winds[i]));
    }
    let p = call.atmo_params;
    assert(seq![p.0, p.1, p.2, p.3, call.horiz, call.vert, call.t_span.0, call.t_span.1]
        =~= seq![p.0, p.1, p.2, p.3] + seq![horiz, vert, t_span.0, t_span.1]);
    assert(state + (station + seq![horiz, vert, t_span.0, t_span.1]) =~= state + station + seq![
        horiz,
        vert,
        t_span.0,
        t_span.1,
    ]);
}

/// The wind that was found and the rotation that was given are handed on as they
/// are; a complaint about the winds comes before one about the rotation.
pub proof fn law_surroundings_are_handed_on(
    wind: Result<Vector, String>,
    omega: Option<Seq<Double>>,
)
    ensures
        wind matches Err(e) ==> (surroundings(wind, omega) matches Err(f) && f.message == e@
            && f.kind == ExceptionKind::ValueError),
        wind is Ok && omega is None ==> (surroundings(wind, omega) matches Ok(s) && s.0
            == wind->Ok_0 && s.1 is None),
        wind is Ok && (omega matches Some(o) && o.len() == 3) ==> (surroundings(
            wind,
            omega,
        ) matches Ok(s) && s.0 == wind->Ok_0 && (s.1 matches Some(w) && seq![w.0, w.1, w.2]
            == omega->0)),
        wind is Ok && (omega matches Some(o) && o.len() != 3) ==> surroundings(wind, omega) is Err,
{
    if let Some(o) = omega {
        if o.len() == 3 {
            assert(seq![o[0], o[1], o[2]] =~= o);
        }
    }
}

/// The imperial zeroing request asks for what the other one asks for with the same
/// conditions given and no updraft; the inputs become metric but for what the
/// request itself does not read, and the twist too.
pub proof fn law_imperial_zeroing_is_zeroing(
    b: BallisticInputs,
    distance: Double,
    height: Double,
    w: PyWindConditions,
    a: PyAtmosphericConditions,
)
    requires
        w.vertical_speed_mps == constant(ZERO),
    ensures
        ({
            let call = imperial_zero_call(
                b,
                distance,
                height,
                w.speed_mph,
                w.direction_degrees,
                a.temperature_f,
                a.pressure_inhg,
                a.humidity_percent,
                a.altitude_feet,
            );
            let other = auto_zero_call(b, distance, height, Some(w), Some(a));
            &&& call.target_distance == other.target_distance
            &&& call.target_height == other.target_height
            &&& call.wind == other.wind
            &&& call.atmosphere == other.atmosphere
            &&& call.inputs.muzzle_velocity == other.inputs.muzzle_velocity
            &&& call.inputs.bullet_mass == other.inputs.bullet_mass
            &&& call.inputs.bullet_diameter == other.inputs.bullet_diameter
            &&& call.inputs.bullet_length == other.inputs.bullet_length
            &&& call.inputs.sight_height == other.inputs.sight_height
            &&& call.inputs.bc_value == other.inputs.bc_value
            &&& call.inputs.bc_type == other.inputs.bc_type
            &&& call.inputs.shooting_angle == other.inputs.shooting_angle
            &&& call.inputs.is_twist_right == other.inputs.is_twist_right
            &&& measures(call.inputs.twist_rate, b.twist_rate, 254, 10000)
            &&& call.inputs.altitude == b.altitude && call.inputs.temperature == b.temperature
            &&& call.inputs.pressure == b.pressure && call.inputs.humidity == b.humidity
            &&& call.inputs.wind_speed == b.wind_speed && call.inputs.wind_angle == b.wind_angle
            &&& call.inputs.muzzle_angle == b.muzzle_angle
            &&& call.inputs.muzzle_height == b.muzzle_height
            &&& call.inputs.target_height == b.target_height
            &&& call.inputs.target_distance == b.target_distance
            &&& call.inputs.cant_angle == b.cant_angle
            &&& call.inputs.caliber_inches == b.caliber_inches
            &&& call.inputs.weight_grains == b.weight_grains
        }),
{
    law_factors_stand_for_their_units();
    law_scaled_measures(b.twist_rate, INCHES_TO_METERS, 254, 10000);
}

/// A fraction up to one is its hundredfold in percent, one from one on is a hundred, and
/// what is no number stays none.
pub proof fn law_fractions_become_percent(fraction: Double)
    ensures
        constant(ZERO).at_most(fraction) && fraction.at_most(constant(ONE)) ==> measures(
            percent(fraction),
            fraction,
            100,
            1,
        ),
        constant(ONE).at_most(fraction) ==> percent(fraction).same_number(constant(HUNDRED)),
        fraction.nan() ==> percent(fraction).nan(),
{
    law_factors_stand_for_their_units();
    law_scaled_measures(fraction, HUNDRED, 100, 1);
    let (one, all) = (constant(ONE), constant(HUNDRED));
    lemma_one_times(all);
    law_product_commutes(one, all);
    assert(scaled(one, HUNDRED) == all);
    assert(magnitude(0) == 0);
    crate::double::lemma_magnitude_increases(0, HUNDRED as nat);
    if constant(ZERO).at_most(fraction) && fraction.at_most(one) {
        law_scaling_keeps_order(fraction, one, HUNDRED);
        law_scaling_keeps_order(constant(ZERO), fraction, HUNDRED);
        law_scaling_mirrors(constant(ZERO), HUNDRED);
    }
    if one.at_most(fraction) {
        law_scaling_keeps_order(one, fraction, HUNDRED);
    }
    if fraction.nan() {
        assert(scaled(fraction, HUNDRED).nan()) by {
            reveal(Double::product);
        }
    }
}

} // verus!
