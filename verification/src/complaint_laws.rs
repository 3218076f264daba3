//! What is refused, what is said of it, and what does not matter.

use vstd::prelude::*;
use crate::dict::{bool_field, f64_field, find, opt_index, opt_number, opt_string, text_field};
use crate::dict::{Dict, Value};
use crate::double::Double;
use crate::drag::{parse_bc_type, parse_drag_model, parse_loose_model, DragModel};
use crate::effects::{compute_stability_coefficient, get_local_atmosphere, LocalAtmosphereCall};
use crate::effects::{Query, StabilityCall};
use crate::exception::{Exception, ExceptionKind};
use crate::fast::{derivatives_surroundings, parse_shear_model, ShearModel, Vector};
use crate::fields::{drag_function, extract_bc_segments, resolve_custom_drag_table};
use crate::fields::{resolve_shooting_angle, segment_item, segment_number, sound_coefficient};
use crate::fields::{sound_mach, sound_table, DragTable};
use crate::inputs::parse_fault;
use crate::known_keys::{nested, run_parameter};
use crate::montecarlo::{check_threads, num_simulations, parameter, params_fault, params_read_as};
use crate::montecarlo::{MonteCarloParams, HUNDREDTH, THOUSANDTH};
use crate::py_inputs::PyBallisticInputs;
use crate::sampling::between;
use crate::solver::{zero_angle, PyTrajectorySolver};
use crate::text::{numeral, occurs};
use crate::trajectory::{PyTrajectoryResult, TrajectoryPoint, TrajectoryResult};
use crate::units::{constant, ONE, ZERO};

verus! {

/// The first entry under a key is the one that is found, and none if there is no such
/// entry.
pub proof fn law_first_entries_are_found(
    k: String,
    v: Value,
    rest: Seq<(String, Value)>,
    key: Seq<char>,
)
    ensures
        find(Seq::empty(), key) is None,
        k@ == key ==> find(seq![(k, v)] + rest, key) == Some(v),
        k@ != key ==> find(seq![(k, v)] + rest, key) == find(rest, key),
{
    let all = seq![(k, v)] + rest;
    assert(all.drop_first() =~= rest);
    assert(all[0] == (k, v));
}

/// A field is read as it is given: a number as the number or with its complaint, a truth
/// value likewise; what is not given is the default.
pub proof fn law_fields_are_read_as_given(
    d: &Dict,
    key: &str,
    x: Double,
    t: bool,
    r: Result<Double, Exception>,
    f: Result<bool, Exception>,
    o: Result<Option<Double>, Exception>,
    n: Result<Option<usize>, Exception>,
)
    requires
        call_ensures(f64_field, (d, key, None, x), r),
        call_ensures(bool_field, (d, key, None, t), f),
        call_ensures(opt_number, (d, key), o),
        call_ensures(opt_index, (d, key), n),
    ensures
        d.given(key@) is None ==> {
            &&& r == Ok::<Double, Exception>(x)
            &&& f == Ok::<bool, Exception>(t)
            &&& o == Ok::<Option<Double>, Exception>(None)
            &&& n == Ok::<Option<usize>, Exception>(None)
        },
        d.given(key@) matches Some(v) ==> {
            &&& r is Ok <==> v.number is Ok
            &&& f is Ok <==> v.flag is Ok
            &&& o is Ok <==> v.number is Ok
            &&& n is Ok <==> v.index is Ok
            &&& v.number matches Ok(y) ==> r == Ok::<Double, Exception>(y) && o == Ok::<
                Option<Double>,
                Exception,
            >(Some(y))
            &&& v.number matches Err(e) ==> (r matches Err(c) && c@ == e@)
            &&& v.flag matches Ok(y) ==> f == Ok::<bool, Exception>(y)
            &&& v.flag matches Err(e) ==> (f matches Err(c) && c@ == e@)
            &&& v.index matches Ok(y) ==> n == Ok::<Option<usize>, Exception>(Some(y))
        },
{
}

/// A text is read as it is given or with its complaint, and is the default, or none, if
/// it is not given.
pub proof fn law_texts_are_read_as_given(
    d: &Dict,
    key: &str,
    default: &str,
    r: Result<String, Exception>,
    o: Result<Option<String>, Exception>,
)
    requires
        call_ensures(text_field, (d, key, default), r),
        call_ensures(opt_string, (d, key), o),
    ensures
        d.given(key@) is None ==> (r matches Ok(s) && s@ == default@) && (o matches Ok(n)
            && n is None),
        d.given(key@) matches Some(v) ==> match v.text {
            Ok(t) => (r matches Ok(s) && s@ == t@) && (o matches Ok(Some(s)) && s@ == t@),
            Err(e) => (r matches Err(c) && c@ == e@) && (o matches Err(c) && c@ == e@),
        },
{
}

/// A type or a query that names no drag model is refused with a value error that quotes
/// it.
pub proof fn law_unknown_models_are_quoted(
    s: &str,
    strict: Result<DragModel, Exception>,
    query: Result<DragModel, Exception>,
    loose: DragModel,
)
    requires
        call_ensures(parse_bc_type, (s,), strict),
        call_ensures(parse_drag_model, (s,), query),
        call_ensures(parse_loose_model, (s,), loose),
    ensures
        strict matches Err(e) ==> e.kind == ExceptionKind::ValueError && e.message@
            == "Invalid BC type: '"@ + s@ + "'. Expected G1, G6, G7, or G8."@,
        query matches Err(e) ==> e.kind == ExceptionKind::ValueError && e.message@
            == "Invalid drag model: '"@ + s@ + "'. Expected G1, G6, G7, or G8."@,
        strict is Err <==> !occurs(s@, "G1"@) && !occurs(s@, "G6"@) && !occurs(s@, "G7"@)
            && !occurs(s@, "G8"@),
        strict is Err ==> loose == DragModel::G7,
{
    if let Err(e) = strict {
        assert(e@.message == e.message@);
    }
    if let Err(e) = query {
        assert(e@.message == e.message@);
    }
}

/// Segments that are no list of pairs are refused with a value error.
pub proof fn law_malformed_segments_are_refused(
    d: &Dict,
    r: Result<Option<Vec<(Double, Double)>>, Exception>,
)
    requires
        call_ensures(extract_bc_segments, (d,), r),
    ensures
        d.given("bc_segments"@) is None ==> (r matches Ok(s) && s is None),
        d.given("bc_segments"@) matches Some(v) ==> v.rows is None ==> r is Err,
        r matches Err(e) ==> e.kind == ExceptionKind::ValueError && e.message@
            == "Could not extract BC segments - expected list of [mach, bc] pairs"@,
{
    if let Err(e) = r {
        assert(e@.message == e.message@);
    }
}

/// A velocity segment that lacks a number is refused with a key error that names it, the
/// lower bound first and the coefficient last.
pub proof fn law_missing_numbers_are_named(v: Value, d: Dict, key: Seq<char>)
    requires
        v.dict == Some(d),
    ensures
        d.lookup(key) is None ==> (segment_number(d, key) matches Err(f) && f.kind
            == ExceptionKind::KeyError && f.message == "BC segment missing "@ + key),
        d.lookup("velocity_min"@) is None ==> (segment_item(v) matches Err(f) && f.message
            == "BC segment missing "@ + "velocity_min"@),
        segment_number(d, "velocity_min"@) is Ok && d.lookup("velocity_max"@) is None ==> (
        segment_item(v) matches Err(f) && f.message == "BC segment missing "@ + "velocity_max"@),
        segment_number(d, "velocity_min"@) is Ok && segment_number(d, "velocity_max"@) is Ok
            && d.lookup("bc_value"@) is None ==> (segment_item(v) matches Err(f) && f.message
            == "BC segment missing "@ + "bc_value"@),
{
}

/// A drag table that is no list of pairs is refused with one message and one that is not
/// sound with the other; without a table there is none.
pub proof fn law_unsound_tables_are_refused(
    d: &Dict,
    refusal: &str,
    r: Result<Option<DragTable>, Exception>,
)
    requires
        call_ensures(resolve_custom_drag_table, (d, refusal), r),
    ensures
        d.given("custom_drag_table"@) is None ==> r is Ok,
        d.given("custom_drag_table"@) is None && d.given("custom_drag_function"@) is None ==> (
        r matches Ok(t) && t is None),
        d.given("custom_drag_table"@) is Some ==> (r matches Ok(t) ==> t is Some),
        r matches Err(e) ==> e.kind == ExceptionKind::ValueError,
        d.given("custom_drag_table"@) matches Some(v) ==> v.rows is None ==> (r matches Err(e)
            && e.message@ == "custom_drag_table must be a list of [mach, cd] pairs (>=2 points)"@),
{
    if let Err(e) = r {
        assert(e@.message == e.message@ && e@.kind == e.kind);
    }
}

/// A drag table whose Mach numbers rise from each to the next is sound, if there are two
/// of them at least, they start at zero or above, and all numbers are finite with
/// coefficients above zero.
pub proof fn law_rising_tables_are_sound(mach: Seq<Double>, cd: Seq<Double>)
    requires
        mach.len() == cd.len(),
        mach.len() >= 2,
        forall|i: int| 0 <= i < mach.len() ==> (#[trigger] mach[i]).finite(),
        forall|i: int| 0 <= i < cd.len() ==> (#[trigger] cd[i]).finite(),
        forall|i: int| 0 <= i < cd.len() ==> constant(ZERO).below(#[trigger] cd[i]),
        constant(ZERO).at_most(mach[0]),
        forall|i: int| 0 < i < mach.len() ==> mach[i - 1].below(#[trigger] mach[i]),
    ensures
        sound_table(mach, cd),
{
    assert forall|i: int, j: int| 0 <= i < j < mach.len() implies (#[trigger] mach[i]).below(
        #[trigger] mach[j],
    ) by {
        lemma_rises(mach, i, j);
    }
    assert forall|i: int| 0 <= i < mach.len() implies sound_mach(#[trigger] mach[i]) by {
        if i > 0 {
            lemma_rises(mach, 0, i);
        }
    }
    assert forall|i: int| 0 <= i < cd.len() implies sound_coefficient(#[trigger] cd[i]) by {}
}

proof fn lemma_rises(mach: Seq<Double>, i: int, j: int)
    requires
        0 <= i < j < mach.len(),
        forall|k: int| 0 < k < mach.len() ==> mach[k - 1].below(#[trigger] mach[k]),
    ensures
        mach[i].below(mach[j]),
    decreases j - i,
{
    assert(mach[j - 1].below(mach[j]));
    if i < j - 1 {
        lemma_rises(mach, i, j - 1);
    }
}

/// Both ends belong to the stretch between two points, and nothing beyond them does.
pub proof fn law_ends_belong_to_the_stretch(
    p: TrajectoryPoint,
    q: TrajectoryPoint,
    range: Double,
)
    requires
        p.x.at_most(q.x),
    ensures
        between(p, q, p.x),
        between(p, q, q.x),
        range.below(p.x) ==> !between(p, q, range),
        q.x.below(range) ==> !between(p, q, range),
        p.x.below(range) && range.below(q.x) ==> between(p, q, range),
        range.nan() ==> !between(p, q, range),
{
}

/// Air of a wrong number of values is refused with a value error that tells how many
/// there were.
pub proof fn law_wrong_air_is_counted(
    altitude: Double,
    air: &Vec<Double>,
    r: Result<Query<(Double, Double), LocalAtmosphereCall>, Exception>,
    inputs: &Dict,
    refusal: &str,
    s: Result<StabilityCall, Exception>,
)
    requires
        call_ensures(get_local_atmosphere, (altitude, air), r),
        call_ensures(compute_stability_coefficient, (inputs, refusal, air), s),
    ensures
        r matches Err(e) ==> e.kind == ExceptionKind::ValueError && e.message@
            == "Atmosphere params must contain 2 or 4 values, got "@ + numeral(air@.len()),
        r is Err <==> air.len() != 2 && air.len() != 4,
        parse_fault(*inputs, refusal@) is None && air.len() != 4 ==> (s matches Err(e) && e.kind
            == ExceptionKind::ValueError && e.message@
            == "Atmosphere params must contain 4 values, got "@ + numeral(air@.len())),
{
    if let Err(e) = r {
        assert(e@.message == e.message@ && e@.kind == e.kind);
    }
    if let Err(e) = s {
        assert(e@.message == e.message@ && e@.kind == e.kind);
    }
}

/// Complaints of the solver and of the search for a zero are raised with what they were
/// about, as a value error and as a runtime error.
pub proof fn law_solver_complaints_are_raised(
    solver: &PyTrajectorySolver,
    computed: Result<TrajectoryResult, String>,
    r: Result<PyTrajectoryResult, Exception>,
    yards: &str,
    found: Result<Double, String>,
    z: Result<Double, Exception>,
)
    requires
        call_ensures(PyTrajectorySolver::solve, (solver, computed), r),
        call_ensures(zero_angle, (yards, found), z),
    ensures
        computed is Ok <==> r is Ok,
        computed matches Err(c) ==> (r matches Err(e) && e.kind == ExceptionKind::ValueError
            && e.message@ == "Trajectory calculation failed: "@ + c@),
        found matches Err(c) ==> (z matches Err(e) && e.kind == ExceptionKind::RuntimeError
            && e.message@ == "Unable to find zero angle for target distance "@ + yards@
            + " yards: "@ + c@),
{
    if let Err(e) = r {
        assert(e@.message == e.message@ && e@.kind == e.kind);
    }
    if let Err(e) = z {
        assert(e@.message == e.message@ && e@.kind == e.kind);
    }
}

/// A rotation that is no vector is refused, and so is a wind that could not be found,
/// which is complained of first.
pub proof fn law_surroundings_are_refused(
    wind: Result<Vector, String>,
    omega: Option<&Vec<Double>>,
    r: Result<(Vector, Option<Vector>), Exception>,
)
    requires
        call_ensures(derivatives_surroundings, (wind, omega), r),
    ensures
        wind matches Err(c) ==> (r matches Err(e) && e.kind == ExceptionKind::ValueError
            && e.message@ == c@),
        r is Ok <==> wind is Ok && (omega matches Some(o) ==> o.len() == 3),
        r matches Ok(s) ==> {
            &&& wind matches Ok(w) && s.0 == w
            &&& omega is None <==> s.1 is None
            &&& omega matches Some(o) ==> (s.1 matches Some(v) && seq![v.0, v.1, v.2] == o@)
        },
        wind is Ok ==> (r matches Err(e) ==> e.kind == ExceptionKind::ValueError && e.message@
            == "Omega vector must have 3 elements"@),
{
    if let Err(e) = r {
        assert(e@.message == e.message@ && e@.kind == e.kind);
    }
    if let Some(o) = omega {
        if o.len() == 3 {
            assert(seq![o@[0], o@[1], o@[2]] =~= o@);
        }
    }
}

/// A thread count of zero is refused with a value error.
pub proof fn law_no_threads_are_refused(r: Result<Option<usize>, Exception>)
    requires
        call_ensures(check_threads, (Some(0usize),), r),
    ensures
        r matches Err(e) && e.kind == ExceptionKind::ValueError && e.message@
            == "Thread count must be greater than 0"@,
{
    if let Err(e) = r {
        assert(e@.message == e.message@ && e@.kind == e.kind);
    }
}

/// The parameters of a sampling depend on their own keys alone.
pub proof fn law_only_parameters_matter(d: Dict, e: Dict, p: MonteCarloParams, w: Double)
    requires
        forall|k: Seq<char>| run_parameter(k) ==> #[trigger] d.given(k) == e.given(k),
    ensures
        params_fault(d) == params_fault(e),
        params_read_as(d, p, w) == params_read_as(e, p, w),
{
    lemma_same_parameters(d, e);
    lemma_same_faults(d, e);
}

proof fn lemma_same_parameters(d: Dict, e: Dict)
    requires
        forall|k: Seq<char>| run_parameter(k) ==> #[trigger] d.given(k) == e.given(k),
    ensures
        num_simulations(d) == num_simulations(e),
        d.optional_number("target_distance"@) == e.optional_number("target_distance"@),
        parameter(d, "velocity_std_dev"@, ONE) == parameter(e, "velocity_std_dev"@, ONE),
        parameter(d, "angle_std_dev"@, THOUSANDTH) == parameter(e, "angle_std_dev"@, THOUSANDTH),
        parameter(d, "bc_std_dev"@, HUNDREDTH) == parameter(e, "bc_std_dev"@, HUNDREDTH),
        parameter(d, "wind_speed_std_dev"@, ONE) == parameter(e, "wind_speed_std_dev"@, ONE),
        parameter(d, "base_wind_speed"@, ZERO) == parameter(e, "base_wind_speed"@, ZERO),
        parameter(d, "base_wind_direction"@, ZERO) == parameter(e, "base_wind_direction"@, ZERO),
        parameter(d, "azimuth_std_dev"@, THOUSANDTH)
            == parameter(e, "azimuth_std_dev"@, THOUSANDTH),
        parameter(d, "wind_direction_std_dev"@, THOUSANDTH)
            == parameter(e, "wind_direction_std_dev"@, THOUSANDTH),
{
    assert(d.given("num_simulations"@) == e.given("num_simulations"@));
    assert(d.given("target_distance"@) == e.given("target_distance"@));
    assert(d.given("velocity_std_dev"@) == e.given("velocity_std_dev"@));
    assert(d.given("angle_std_dev"@) == e.given("angle_std_dev"@));
    assert(d.given("bc_std_dev"@) == e.given("bc_std_dev"@));
    assert(d.given("wind_speed_std_dev"@) == e.given("wind_speed_std_dev"@));
    assert(d.given("base_wind_speed"@) == e.given("base_wind_speed"@));
    assert(d.given("base_wind_direction"@) == e.given("base_wind_direction"@));
    assert(d.given("azimuth_std_dev"@) == e.given("azimuth_std_dev"@));
    assert(d.given("wind_direction_std_dev"@) == e.given("wind_direction_std_dev"@));
}

proof fn lemma_same_faults(d: Dict, e: Dict)
    requires
        num_simulations(d) == num_simulations(e),
        d.optional_number("target_distance"@) == e.optional_number("target_distance"@),
        parameter(d, "velocity_std_dev"@, ONE) == parameter(e, "velocity_std_dev"@, ONE),
        parameter(d, "angle_std_dev"@, THOUSANDTH) == parameter(e, "angle_std_dev"@, THOUSANDTH),
        parameter(d, "bc_std_dev"@, HUNDREDTH) == parameter(e, "bc_std_dev"@, HUNDREDTH),
        parameter(d, "wind_speed_std_dev"@, ONE) == parameter(e, "wind_speed_std_dev"@, ONE),
        parameter(d, "base_wind_speed"@, ZERO) == parameter(e, "base_wind_speed"@, ZERO),
        parameter(d, "base_wind_direction"@, ZERO) == parameter(e, "base_wind_direction"@, ZERO),
        parameter(d, "azimuth_std_dev"@, THOUSANDTH)
            == parameter(e, "azimuth_std_dev"@, THOUSANDTH),
        parameter(d, "wind_direction_std_dev"@, THOUSANDTH)
            == parameter(e, "wind_direction_std_dev"@, THOUSANDTH),
    ensures
        params_fault(d) == params_fault(e),
{
}

/// A dictionary within the dictionary is read by its own keys alone.
pub proof fn law_only_nested_keys_matter(v: Value, u: Value, d: Dict, e: Dict)
    requires
        v.dict == Some(d),
        u.dict == Some(e),
        forall|k: Seq<char>| nested(k) ==> #[trigger] d.lookup(k) == e.lookup(k),
    ensures
        segment_item(v) == segment_item(u),
        drag_function(v) == drag_function(u),
{
    assert(d.lookup("velocity_min"@) == e.lookup("velocity_min"@));
    assert(d.lookup("velocity_max"@) == e.lookup("velocity_max"@));
    assert(d.lookup("bc_value"@) == e.lookup("bc_value"@));
    assert(d.lookup("mach_numbers"@) == e.lookup("mach_numbers"@));
    assert(d.lookup("drag_coefficients"@) == e.lookup("drag_coefficients"@));
}

/// A description names the coefficient, the weight, the velocity, the diameter and the
/// distance, in this order.
pub proof fn law_descriptions_name_the_properties(
    bc: &str,
    weight: &str,
    velocity: &str,
    diameter: &str,
    distance: &str,
    r: String,
)
    requires
        call_ensures(PyBallisticInputs::__repr__, (bc, weight, velocity, diameter, distance), r),
    ensures
        r@ == "BallisticInputs(bc="@ + (bc@ + (", weight="@ + (weight@ + ("gr, mv="@ + (velocity@
            + ("fps, diameter="@ + (diameter@ + ("\", zero="@ + (distance@ + "yd)"@))))))))),
{
}

/// The shooting angle is in radians under its first key and in degrees under its second,
/// and what cannot be read is complained of.
pub proof fn law_angles_are_complained_of(d: &Dict, r: Result<Double, Exception>)
    requires
        call_ensures(resolve_shooting_angle, (d,), r),
    ensures
        d.given("shooting_angle"@) matches Some(v) ==> match v.number {
            Ok(x) => r == Ok::<Double, Exception>(x),
            Err(e) => r matches Err(c) && c@ == e@,
        },
        d.given("shooting_angle"@) is None ==> (d.given("shooting_angle_degrees"@) matches Some(
            v,
        ) ==> (r is Ok <==> v.number is Ok)),
{
}

/// A shear model is read by its name, and a text that names none is the power law.
pub proof fn law_shear_names_are_read(s: &str, m: ShearModel)
    requires
        call_ensures(parse_shear_model, (s,), m),
    ensures
        m == ShearModel::Logarithmic <==> s@ == "logarithmic"@,
        m == ShearModel::EkmanSpiral <==> s@ == "ekman_spiral"@,
        m == ShearModel::NoShear <==> s@ == "none"@,
{
    reveal_strlit("logarithmic");
    reveal_strlit("ekman_spiral");
    reveal_strlit("none");
    assert("logarithmic"@.len() == 11 && "ekman_spiral"@.len() == 12 && "none"@.len() == 4);
}

} // verus!
