//! What the requests for drag, drift, stability and air mean.

use vstd::prelude::*;
use vstd::arithmetic::power2::*;
use crate::dict::Dict;
use crate::double::{lemma_magnitude_increases, Double};
use crate::effects::{bullet_model_text, bullet_type, compute_spin_drift};
use crate::effects::{compute_stability_coefficient, local_atmosphere, muzzle_spin, named_shape};
use crate::effects::{shape_name, small_letter, small_letters, stability_call, transonic_call};
use crate::effects::{typical_spin_drift, ProjectileShape, Query, SpinDriftCall, StabilityCall};
use crate::effects::{FREEZING_POINT, INCHES_PER_METER, PI, TYPICAL_MUZZLE_VELOCITY};
use crate::exception::Exception;
use crate::input_laws::given_text;
use crate::inputs::{parse_fault, BallisticInputs};
use crate::mean_laws::{apart, law_sums_are_close};
use crate::nearest::{distance, lemma_relative_error, CLOSENESS};
use crate::report_laws::{lemma_nearly_chain, lemma_nearly_times, nearly};
use crate::rounding::{magnitude, round_ratio, HIDDEN, SIGNIFICAND_END};
use crate::sum_laws::{law_sums_keep_order, law_zero_adds_nothing};
use crate::text::{occurs, occurs_at};
use crate::unit_laws::{in_range, law_scaled_is_multiplied, law_scaled_measures};
use crate::unit_laws::law_small_numbers_stand_for_themselves;
use crate::unit_laws::{law_typical_values_stand_for_themselves, lemma_not_tiny, ordinary};
use crate::unit_laws::{stands_for, times};
use crate::units::{constant, scaled, TWO, ZERO};

verus! {

/// A shape is read back by its name, in whatever case; a text that names no shape is
/// read as a spitzer.
pub proof fn law_shapes_read_back(shape: ProjectileShape, s: Seq<char>)
    ensures
        named_shape(shape_name(shape)) == shape,
        small_letters(s) == shape_name(shape) ==> named_shape(s) == shape,
        named_shape(small_letters(s)) == named_shape(s),
        named_shape(s) != ProjectileShape::Spitzer ==> small_letters(s) == shape_name(
            named_shape(s),
        ),
{
    lemma_shape_names();
    lemma_letters_stay_small(s);
    lemma_letters_stay_small(shape_name(shape));
    assert(small_letters("round_nose"@) =~= "round_nose"@);
    assert(small_letters("flat_base"@) =~= "flat_base"@);
    assert(small_letters("boat_tail"@) =~= "boat_tail"@);
    assert(small_letters("spitzer"@) =~= "spitzer"@);
}

proof fn lemma_shape_names()
    ensures
        "round_nose"@ != "flat_base"@,
        "round_nose"@ != "boat_tail"@,
        "flat_base"@ != "boat_tail"@,
        "spitzer"@ != "round_nose"@,
        "spitzer"@ != "flat_base"@,
        "spitzer"@ != "boat_tail"@,
        forall|i: int|
            0 <= i < "round_nose"@.len() ==> !('A' <= #[trigger] "round_nose"@[i] <= 'Z'),
        forall|i: int| 0 <= i < "flat_base"@.len() ==> !('A' <= #[trigger] "flat_base"@[i] <= 'Z'),
        forall|i: int| 0 <= i < "boat_tail"@.len() ==> !('A' <= #[trigger] "boat_tail"@[i] <= 'Z'),
        forall|i: int| 0 <= i < "spitzer"@.len() ==> !('A' <= #[trigger] "spitzer"@[i] <= 'Z'),
{
    reveal_strlit("round_nose");
    reveal_strlit("flat_base");
    reveal_strlit("boat_tail");
    reveal_strlit("spitzer");
    assert("round_nose"@.len() == 10 && "flat_base"@.len() == 9);
    assert("boat_tail"@.len() == 9 && "spitzer"@.len() == 7);
    assert("flat_base"@[0] != "boat_tail"@[0]);
}

proof fn lemma_letters_stay_small(s: Seq<char>)
    ensures
        small_letters(small_letters(s)) == small_letters(s),
{
    assert forall|i: int| 0 <= i < s.len() implies small_letters(small_letters(s))[i]
        == small_letters(s)[i] by {
        let c = s[i];
        if 'A' <= c <= 'Z' {
            assert(small_letter(c) as u32 == c as u32 + 32);
        }
    }
    assert(small_letters(small_letters(s)) =~= small_letters(s));
}

/// Only the capital letters are made small, each the letter 32 places on.
pub proof fn law_capital_letters_are_made_small(s: Seq<char>, i: int)
    requires
        0 <= i < s.len(),
    ensures
        small_letters(s).len() == s.len(),
        'A' <= s[i] <= 'Z' ==> small_letters(s)[i] as int == s[i] as int + 32,
        !('A' <= s[i] <= 'Z') ==> small_letters(s)[i] == s[i],
{
}

/// The request for the transonic correction hands on what it is given; the wave drag
/// is in unless it is left out, and without a shape it is for a spitzer.
pub proof fn law_transonic_requests_hand_on(
    mach: Double,
    base_cd: Double,
    shape: Option<Seq<char>>,
    wave: Option<bool>,
)
    ensures
        ({
            let c = transonic_call(mach, base_cd, shape, wave);
            &&& c.mach == mach && c.base_cd == base_cd
            &&& wave is None ==> c.include_wave_drag
            &&& wave matches Some(w) ==> c.include_wave_drag == w
            &&& shape is None ==> c.shape == ProjectileShape::Spitzer
            &&& shape matches Some(s) ==> c.shape == named_shape(s)
        }),
{
}

/// A bullet drifts by its spin unless it has no spin, no time or no stability, and
/// what is asked then carries the time, the stability and the side that were given.
/// With the other hand of twist only the side changes.
pub proof fn law_spin_drift_needs_spin_time_and_stability(
    time_s: Double,
    stability: Double,
    twist_rate: Double,
    right: bool,
    r: Query<Double, SpinDriftCall>,
    mirrored: Query<Double, SpinDriftCall>,
)
    requires
        call_ensures(compute_spin_drift, (time_s, stability, twist_rate, right), r),
        call_ensures(compute_spin_drift, (time_s, stability, twist_rate, !right), mirrored),
    ensures
        r is Known <==> twist_rate.zero() || time_s.at_most(constant(ZERO)) || stability.at_most(
            constant(ZERO),
        ),
        r matches Query::Known(d) ==> d.zero(),
        r is Known <==> mirrored is Known,
        r matches Query::Ask(c) ==> {
            &&& c.time_of_flight_s == time_s && c.stability_factor == stability
            &&& c.is_right_twist == right
            &&& mirrored matches Query::Ask(m) && {
                &&& m.is_right_twist == !right
                &&& m.spin_rate_rad_s == c.spin_rate_rad_s && m.velocity_mps == c.velocity_mps
                &&& m.caliber_m == c.caliber_m && m.mass_kg == c.mass_kg
                &&& m.time_of_flight_s == c.time_of_flight_s
                &&& m.stability_factor == c.stability_factor
            }
        },
{
    assert(magnitude(0) == 0);
    if twist_rate.pattern() > 0 && !twist_rate.nan() {
        lemma_magnitude_increases(0, twist_rate.pattern());
    }
}

/// The typical bullet: 600 m/s, 850 m/s at the muzzle, 7.8232 mm, 10.8 g, a match
/// bullet in air of 1.225 kg to the cubic meter.
pub proof fn law_the_typical_bullet_is_a_308_match(
    time_s: Double,
    stability: Double,
    twist_rate: Double,
    right: bool,
    c: SpinDriftCall,
)
    requires
        typical_spin_drift(time_s, stability, twist_rate, right, c),
    ensures
        stands_for(c.velocity_mps.bits, 600, 1),
        stands_for(c.muzzle_velocity_mps.bits, 850, 1),
        stands_for(c.caliber_m.bits, 78232, 10000000),
        stands_for(c.mass_kg.bits, 108, 10000),
        stands_for(c.air_density_kg_m3.bits, 1225, 1000),
        c.bullet_type@ == "match"@,
{
    law_typical_values_stand_for_themselves();
}

/// The spin times the twist is the muzzle velocity in inches per second times two pi,
/// to within a few parts in `2^48`, wherever nothing on the way is tiny or infinite;
/// a twist the other way round spins the other way round.
pub proof fn law_spin_is_the_turns_of_the_twist(twist: Double)
    requires
        twist.finite(),
        twist.pattern() > 0,
        ordinary(scaled(constant(TYPICAL_MUZZLE_VELOCITY), INCHES_PER_METER)),
        ordinary(scaled(constant(TYPICAL_MUZZLE_VELOCITY), INCHES_PER_METER).quotient(twist)),
        ordinary(
            scaled(
                scaled(constant(TYPICAL_MUZZLE_VELOCITY), INCHES_PER_METER).quotient(twist),
                TWO,
            ),
        ),
        in_range(
            scaled(
                scaled(constant(TYPICAL_MUZZLE_VELOCITY), INCHES_PER_METER).quotient(twist),
                TWO,
            ),
            31415926535897932,
            10000000000000000,
        ),
    ensures
        nearly(
            magnitude(muzzle_spin(twist).pattern()) * magnitude(twist.pattern())
                * 1000000000000000000,
            850 * 3937 * 2 * 31415926535897932 * (pow2(1074) * pow2(1074)),
            9,
        ),
        muzzle_spin(twist).is_negative() == twist.is_negative(),
{
    law_typical_values_stand_for_themselves();
    law_small_numbers_stand_for_themselves();
    lemma_pow2_pos(1074);
    let v = constant(TYPICAL_MUZZLE_VELOCITY);
    let a = scaled(v, INCHES_PER_METER);
    let b = a.quotient(twist);
    let c = scaled(b, TWO);
    let d = scaled(c, PI);
    assert(d == muzzle_spin(twist));
    law_scaled_measures(c, PI, 31415926535897932, 10000000000000000);
    let (w, p, t) = (magnitude(v.pattern()), pow2(1074), magnitude(twist.pattern()));
    let (ma, mb, mc, md) = (
        magnitude(a.pattern()),
        magnitude(b.pattern()),
        magnitude(c.pattern()),
        magnitude(d.pattern()),
    );
    law_scaled_is_multiplied(v, INCHES_PER_METER, 3937, 100);
    lemma_times_is_near(a, v, 3937, 100);
    lemma_quotient_is_near(a, twist);
    law_scaled_is_multiplied(b, TWO, 2, 1);
    lemma_times_is_near(c, b, 2, 1);
    law_scaled_is_multiplied(c, PI, 31415926535897932, 10000000000000000);
    lemma_times_is_near(d, c, 31415926535897932, 10000000000000000);
    assert(nearly(w, 850 * p, 1)) by {
        let off = w * 1 - 850 * p;
        assert((if off >= 0 { off } else { -off }) * 0x1_0000_0000_0000 <= (if off >= 0 {
            off
        } else {
            -off
        }) * HIDDEN) by (nonlinear_arith)
            requires
                HIDDEN >= 0x1_0000_0000_0000,
        ;
    }
    let pi: nat = 31415926535897932;
    // md * 10^16 is near mc * pi, mc is near mb * 2, mb * t is near ma * p,
    // ma * 100 is near w * 3937 and w is near 850 * p.
    let big: nat = 10000000000000000;
    lemma_nearly_times(md * big, mc * pi, 1, t * 100);
    lemma_nearly_times(mc * 1, mb * 2, 1, pi * (t * 100));
    lemma_nearly_times(mb * t, ma * p, 1, 2 * pi * 100);
    lemma_nearly_times(ma * 100, w * 3937, 1, 2 * pi * p);
    lemma_nearly_times(w, 850 * p, 1, 3937 * 2 * pi * p);
    assert(md * big * (t * 100) == md * t * (big * 100)) by (nonlinear_arith);
    assert(mc * pi * (t * 100) == mc * (pi * (t * 100))) by (nonlinear_arith);
    assert(mb * 2 * (pi * (t * 100)) == mb * t * (2 * pi * 100)) by (nonlinear_arith);
    assert(ma * p * (2 * pi * 100) == ma * 100 * (2 * pi * p)) by (nonlinear_arith);
    assert(w * 3937 * (2 * pi * p) == w * (3937 * 2 * pi * p)) by (nonlinear_arith);
    assert(850 * p * (3937 * 2 * pi * p) == 850 * 3937 * 2 * pi * (p * p)) by (nonlinear_arith);
    let x = md * t * (big * 100);
    lemma_nearly_chain(x, mc * (pi * (t * 100)), mb * t * (2 * pi * 100), 1, 1);
    lemma_nearly_chain(x, mb * t * (2 * pi * 100), ma * 100 * (2 * pi * p), 3, 1);
    lemma_nearly_chain(x, ma * 100 * (2 * pi * p), w * (3937 * 2 * pi * p), 5, 1);
    lemma_nearly_chain(x, w * (3937 * 2 * pi * p), 850 * p * (3937 * 2 * pi * p), 7, 1);
    assert(!a.is_negative() && !v.is_negative());
    assert(b.is_negative() == twist.is_negative()) by {
        reveal(Double::quotient);
    }
}

proof fn lemma_times_is_near(r: Double, v: Double, num: nat, den: nat)
    requires
        times(r, v, num, den),
    ensures
        nearly(magnitude(r.pattern()) * den, magnitude(v.pattern()) * num, 1),
{
    let off = magnitude(r.pattern()) * den - magnitude(v.pattern()) * num;
    let size = if off >= 0 { off } else { -off };
    assert(size * 0x1_0000_0000_0000 <= size * CLOSENESS) by (nonlinear_arith)
        requires
            size >= 0,
            CLOSENESS >= 0x1_0000_0000_0000,
    ;
}

pub proof fn lemma_quotient_is_near(a: Double, b: Double)
    requires
        a.finite(),
        b.finite(),
        b.pattern() > 0,
        ordinary(a.quotient(b)),
    ensures
        nearly(
            magnitude(a.quotient(b).pattern()) * magnitude(b.pattern()),
            magnitude(a.pattern()) * pow2(1074),
            1,
        ),
{
    reveal(Double::quotient);
    assert(magnitude(0) == 0);
    lemma_magnitude_increases(0, b.pattern());
    let (m, n, p) = (magnitude(a.pattern()), magnitude(b.pattern()), pow2(1074));
    let pattern = round_ratio(m * p, n);
    assert(a.quotient(b).pattern() == pattern);
    lemma_not_tiny(m * p, n);
    lemma_relative_error(m * p, n);
    let off = distance(pattern, m * p, n);
    assert(off * 0x1_0000_0000_0000 <= off * SIGNIFICAND_END) by (nonlinear_arith)
        requires
            SIGNIFICAND_END >= 0x1_0000_0000_0000,
            off >= 0,
    ;
}

/// The type of a bullet shows in its model's name: one that has `Match` or `SMK` in it
/// is a match bullet whatever else it has, then `VLD` goes before `Hybrid`, and a name
/// without any of these is a match bullet's.
pub proof fn law_bullet_types_show_in_the_model(before: Seq<char>, after: Seq<char>)
    ensures
        bullet_type(before + "Match"@ + after) == "match"@,
        bullet_type(before + "SMK"@ + after) == "match"@,
        ({
            let m = before + "VLD"@ + after;
            !occurs(m, "Match"@) && !occurs(m, "SMK"@) ==> bullet_type(m) == "vld"@
        }),
        ({
            let m = before + "Hybrid"@ + after;
            !occurs(m, "Match"@) && !occurs(m, "SMK"@) && !occurs(m, "VLD"@) ==> bullet_type(m)
                == "hybrid"@
        }),
        bullet_type(Seq::empty()) == "match"@,
{
    lemma_occurs_between(before, "Match"@, after);
    lemma_occurs_between(before, "SMK"@, after);
    lemma_occurs_between(before, "VLD"@, after);
    lemma_occurs_between(before, "Hybrid"@, after);
    reveal_strlit("VLD");
    reveal_strlit("Hybrid");
    assert("VLD"@.len() == 3 && "Hybrid"@.len() == 6);
    let none = Seq::<char>::empty();
    assert(!occurs(none, "VLD"@)) by {
        assert forall|at: int| !(#[trigger] occurs_at(none, "VLD"@, at)) by {}
    }
    assert(!occurs(none, "Hybrid"@)) by {
        assert forall|at: int| !(#[trigger] occurs_at(none, "Hybrid"@, at)) by {}
    }
}

proof fn lemma_occurs_between(before: Seq<char>, needle: Seq<char>, after: Seq<char>)
    ensures
        occurs(before + needle + after, needle),
{
    let m = before + needle + after;
    assert(m.subrange(before.len() as int, (before.len() + needle.len()) as int) =~= needle);
    assert(occurs_at(m, needle, before.len() as int));
}

/// The request for the stability carries the bullet's own numbers and the station's
/// temperature and pressure; the station's altitude and the fourth number do not
/// matter.  The kelvins are 273.15 at zero degrees and do not fall as it gets warmer.
pub proof fn law_stability_is_of_the_bullet_in_the_air(
    b: BallisticInputs,
    model: Seq<char>,
    air: Seq<Double>,
    warmer: Seq<Double>,
    c: StabilityCall,
    d: StabilityCall,
)
    requires
        stability_call(b, model, air, c),
        stability_call(b, model, warmer, d),
        air[1].at_most(warmer[1]),
    ensures
        seq![
            c.mass_grains,
            c.velocity_fps,
            c.twist_rate_inches,
            c.caliber_inches,
            c.length_inches,
            c.temp_c,
            c.pressure_hpa,
        ] == seq![
            b.bullet_mass,
            b.muzzle_velocity,
            b.twist_rate,
            b.bullet_diameter,
            b.bullet_length,
            air[1],
            air[2],
        ],
        air[1].zero() ==> stands_for(c.temp_k.bits, 27315, 100),
        c.temp_k.at_most(d.temp_k),
        stands_for(c.humidity_percent.bits, 50, 1),
        c.has_boat_tail && !c.has_plastic_tip,
        air[1] == warmer[1] ==> c.temp_k == d.temp_k && c.bullet_type@ == d.bullet_type@,
{
    law_typical_values_stand_for_themselves();
    law_small_numbers_stand_for_themselves();
    let k = constant(FREEZING_POINT);
    assert(!air[1].sum(k).nan() && !warmer[1].sum(k).nan()) by {
        reveal(Double::sum);
    }
    law_sums_keep_order(air[1], warmer[1], k);
    if air[1].zero() {
        law_zero_adds_nothing(k, air[1]);
    }
}

/// A stability is asked for if the dictionary describes a bullet and the air has four
/// numbers; a dictionary that does not is complained of first.
pub proof fn law_stability_needs_a_bullet_and_four_numbers(
    inputs: &Dict,
    refusal: &str,
    air: &Vec<Double>,
    r: Result<StabilityCall, Exception>,
)
    requires
        call_ensures(compute_stability_coefficient, (inputs, refusal, air), r),
    ensures
        r is Ok <==> parse_fault(*inputs, refusal@) is None && air.len() == 4,
        parse_fault(*inputs, refusal@) matches Some(f) ==> (r matches Err(e) && e@ == f),
        r matches Ok(c) ==> c.temp_c == air@[1] && c.pressure_hpa == air@[2] && c.bullet_type@
            == bullet_type(bullet_model_text(*inputs)),
{
}

/// Two numbers are the air itself, whatever the altitude; four describe a station, and
/// are handed on in their order with the altitude; any other number of them is
/// refused.
pub proof fn law_air_is_known_or_asked_for(
    altitude: Double,
    other: Double,
    params: Seq<Double>,
)
    ensures
        params.len() == 2 ==> (local_atmosphere(altitude, params) matches Ok(Query::Known(a))
            && seq![a.0, a.1] == params && local_atmosphere(altitude, params)
            == local_atmosphere(other, params)),
        params.len() == 4 ==> (local_atmosphere(altitude, params) matches Ok(Query::Ask(c))
            && c.altitude_m == altitude && seq![
            c.base_altitude_m,
            c.base_temp_c,
            c.base_pressure_hpa,
            c.base_density_ratio,
        ] == params),
        local_atmosphere(altitude, params) is Err <==> params.len() != 2 && params.len() != 4,
{
    if params.len() == 2 {
        assert(seq![params[0], params[1]] =~= params);
    }
    if params.len() == 4 {
        assert(seq![params[0], params[1], params[2], params[3]] =~= params);
    }
}

/// The kelvins are the degrees and 273.15, to within one part in `2^53`.
pub proof fn law_kelvins_are_degrees_above_freezing(
    b: BallisticInputs,
    model: Seq<char>,
    air: Seq<Double>,
    c: StabilityCall,
)
    requires
        stability_call(b, model, air, c),
        air[1].finite(),
        air[1].sum(constant(FREEZING_POINT)).finite(),
    ensures
        ({
            let exact = air[1].units() + constant(FREEZING_POINT).units();
            apart(c.temp_k.units(), exact) * SIGNIFICAND_END <= apart(exact, 0)
        }),
        stands_for(FREEZING_POINT, 27315, 100),
{
    law_typical_values_stand_for_themselves();
    law_sums_are_close(air[1], constant(FREEZING_POINT));
}

/// The model that a bullet's type is read from is the text under its key, and empty if
/// there is none or it cannot be read.
pub proof fn law_bullet_models_are_read(d: Dict, s: Seq<char>)
    ensures
        given_text(d, "bullet_model"@, s) ==> bullet_model_text(d) == s,
        d.given("bullet_model"@) is None ==> bullet_model_text(d).len() == 0,
        d.given("bullet_model"@) matches Some(v) ==> v.text is Err ==> bullet_model_text(d).len()
            == 0,
{
    reveal_strlit("");
}

} // verus!
