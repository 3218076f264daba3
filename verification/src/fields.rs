//! Readers of the dictionary fields that are more than a single number, flag
//! or text.

use vstd::prelude::*;
use crate::dict::{Dict, Value};
use crate::double::Double;
use crate::drag::{bc_type_message, drag_model_name, model_in_bc_type, model_in_loose_text};
use crate::drag::{parse_bc_type, parse_loose_model, DragModel};
use crate::exception::{key_fault, outcome, value_fault, Exception, Fault};
use crate::text::join2;
use crate::units::{constant, radians, to_radians, ZERO};

verus! {

/// A velocity band and the ballistic coefficient that holds in it.
#[derive(Clone, Copy, Debug, PartialEq, Eq, Structural)]
pub struct BCSegmentData {
    pub velocity_min: Double,
    pub velocity_max: Double,
    pub bc_value: Double,
}

/// A drag table: Mach numbers and their drag coefficients.
#[derive(Debug, PartialEq, Eq)]
pub struct DragTable {
    pub mach_values: Vec<Double>,
    pub cd_values: Vec<Double>,
}

/// The drag model and its text: `bc_type` wins, read strictly; then
/// `drag_model`, an object or a loosely read text; then G7.
pub open spec fn bc_type(d: Dict) -> Result<(DragModel, Seq<char>), Fault> {
    match d.given("bc_type"@) {
        Some(v) => match v.text {
            Err(e) => Err(e@),
            Ok(s) => match model_in_bc_type(s@) {
                Some(m) => Ok((m, s@)),
                None => Err(value_fault(bc_type_message(s@))),
            },
        },
        None => match d.given("drag_model"@) {
            Some(v) => match v.drag_model {
                Some(m) => Ok((m, drag_model_name(m))),
                None => match v.text {
                    Err(e) => Err(e@),
                    Ok(s) => Ok((model_in_loose_text(s@), s@)),
                },
            },
            None => Ok((DragModel::G7, "G7"@)),
        },
    }
}

/// Reads the drag model and its text.
pub fn resolve_bc_type(d: &Dict) -> (r: Result<(DragModel, String), Exception>)
    ensures
        match r {
            Ok(m) => bc_type(*d) == Ok::<(DragModel, Seq<char>), Fault>((m.0, m.1@)),
            Err(e) => bc_type(*d) == Err::<(DragModel, Seq<char>), Fault>(e@),
        },
{
    match d.get_given("bc_type") {
        Some(v) => match &v.text {
            Err(e) => Err(e.again()),
            Ok(s) => match parse_bc_type(s.as_str()) {
                Ok(m) => Ok((m, s.clone())),
                Err(e) => Err(e),
            },
        },
        None => match d.get_given("drag_model") {
            Some(v) => match v.drag_model {
                Some(m) => Ok((m, m.name())),
                None => match &v.text {
                    Err(e) => Err(e.again()),
                    Ok(s) => Ok((parse_loose_model(s.as_str()), s.clone())),
                },
            },
            None => Ok((DragModel::G7, "G7".to_owned())),
        },
    }
}

/// Every row is a pair.
pub open spec fn all_pairs(rows: Seq<Vec<Double>>) -> bool {
    forall|i: int| 0 <= i < rows.len() ==> (#[trigger] rows[i])@.len() == 2
}

/// The first entries of the rows.
pub open spec fn firsts(rows: Seq<Vec<Double>>) -> Seq<Double> {
    Seq::new(rows.len(), |i: int| rows[i]@[0])
}

/// The second entries of the rows.
pub open spec fn seconds(rows: Seq<Vec<Double>>) -> Seq<Double> {
    Seq::new(rows.len(), |i: int| rows[i]@[1])
}

/// The rows as pairs.
pub open spec fn pairs(rows: Seq<Vec<Double>>) -> Seq<(Double, Double)> {
    Seq::new(rows.len(), |i: int| (rows[i]@[0], rows[i]@[1]))
}

/// Splits rows that are all pairs into their columns.
fn columns(rows: &Vec<Vec<Double>>) -> (r: Option<(Vec<Double>, Vec<Double>)>)
    ensures
        match r {
            Some(c) => all_pairs(rows@) && c.0@ == firsts(rows@) && c.1@ == seconds(rows@),
            None => !all_pairs(rows@),
        },
{
    let mut a: Vec<Double> = Vec::new();
    let mut b: Vec<Double> = Vec::new();
    let mut i: usize = 0;
    while i < rows.len()
        invariant
            i <= rows.len(),
            forall|j: int| 0 <= j < i ==> (#[trigger] rows@[j])@.len() == 2,
            a@ == firsts(rows@).take(i as int),
            b@ == seconds(rows@).take(i as int),
        decreases rows.len() - i,
    {
        let row: &Vec<Double> = &rows[i];
        if row.len() != 2 {
            assert(rows@[i as int]@.len() != 2);
            return None;
        }
        a.push(row[0]);
        b.push(row[1]);
        i = i + 1;
    }
    Some((a, b))
}

/// What is said of malformed Mach-keyed segments.
pub open spec fn segments_message() -> Seq<char> {
    "Could not extract BC segments - expected list of [mach, bc] pairs"@
}

/// The Mach-keyed segments; an empty list is none.
pub open spec fn bc_segments(d: Dict) -> Result<Option<Seq<(Double, Double)>>, Fault> {
    match d.given("bc_segments"@) {
        Some(v) => match v.rows {
            Some(rows) => if !all_pairs(rows@) {
                Err(value_fault(segments_message()))
            } else if rows@.len() == 0 {
                Ok(None)
            } else {
                Ok(Some(pairs(rows@)))
            },
            None => Err(value_fault(segments_message())),
        },
        None => Ok(None),
    }
}

/// An optional vector taken for its contents.
pub open spec fn optional_seq<T>(o: Option<Vec<T>>) -> Option<Seq<T>> {
    match o {
        Some(v) => Some(v@),
        None => None,
    }
}

/// Reads the Mach-keyed segments.
pub fn extract_bc_segments(d: &Dict) -> (r: Result<Option<Vec<(Double, Double)>>, Exception>)
    ensures
        match r {
            Ok(s) => bc_segments(*d) == Ok::<Option<Seq<(Double, Double)>>, Fault>(optional_seq(s)),
            Err(e) => bc_segments(*d) == Err::<Option<Seq<(Double, Double)>>, Fault>(e@),
        },
{
    match d.get_given("bc_segments") {
        Some(v) => match &v.rows {
            Some(rows) => match columns(rows) {
                Some((a, b)) => {
                    if rows.len() == 0 {
                        return Ok(None);
                    }
                    let mut out: Vec<(Double, Double)> = Vec::new();
                    let mut i: usize = 0;
                    while i < rows.len()
                        invariant
                            i <= rows.len(),
                            a@ == firsts(rows@),
                            b@ == seconds(rows@),
                            out@ == pairs(rows@).take(i as int),
                        decreases rows.len() - i,
                    {
                        out.push((a[i], b[i]));
                        i = i + 1;
                    }
                    assert(out@ == pairs(rows@));
                    Ok(Some(out))
                },
                None => Err(
                    Exception::value_error(
                        "Could not extract BC segments - expected list of [mach, bc] pairs".to_owned(),
                    ),
                ),
            },
            None => Err(
                Exception::value_error(
                    "Could not extract BC segments - expected list of [mach, bc] pairs".to_owned(),
                ),
            ),
        },
        None => Ok(None),
    }
}

/// A number that a velocity segment has to hold.
pub open spec fn segment_number(d: Dict, key: Seq<char>) -> Result<Double, Fault> {
    match d.lookup(key) {
        Some(v) => outcome(v.number),
        None => Err(key_fault("BC segment missing "@ + key)),
    }
}

fn read_segment_number(d: &Dict, key: &str) -> (r: Result<Double, Exception>)
    ensures
        outcome(r) == segment_number(*d, key@),
{
    match d.get(key) {
        Some(v) => match &v.number {
            Ok(n) => Ok(*n),
            Err(e) => Err(e.again()),
        },
        None => Err(Exception::key_error(join2("BC segment missing ", key))),
    }
}

/// The velocity segment that a list item holds; an item that is no dictionary
/// holds none.
pub open spec fn segment_item(v: Value) -> Result<Option<BCSegmentData>, Fault> {
    match v.dict {
        None => Ok(None),
        Some(d) => match segment_number(d, "velocity_min"@) {
            Err(f) => Err(f),
            Ok(velocity_min) => match segment_number(d, "velocity_max"@) {
                Err(f) => Err(f),
                Ok(velocity_max) => match segment_number(d, "bc_value"@) {
                    Err(f) => Err(f),
                    Ok(bc_value) => Ok(
                        Some(BCSegmentData { velocity_min, velocity_max, bc_value }),
                    ),
                },
            },
        },
    }
}

/// The velocity segments of a list, up to the first fault.
pub open spec fn segment_items(items: Seq<Value>) -> Result<Seq<BCSegmentData>, Fault>
    decreases items.len(),
{
    if items.len() == 0 {
        Ok(Seq::empty())
    } else {
        match segment_item(items[0]) {
            Err(f) => Err(f),
            Ok(None) => segment_items(items.drop_first()),
            Ok(Some(s)) => match segment_items(items.drop_first()) {
                Err(f) => Err(f),
                Ok(rest) => Ok(seq![s] + rest),
            },
        }
    }
}

/// The velocity segments; what is no list, and a list that holds none, is none.
pub open spec fn bc_segments_data(d: Dict) -> Result<Option<Seq<BCSegmentData>>, Fault> {
    match d.given("bc_segments_data"@) {
        Some(v) => match v.items {
            Some(items) => match segment_items(items@) {
                Err(f) => Err(f),
                Ok(s) => if s.len() == 0 {
                    Ok(None)
                } else {
                    Ok(Some(s))
                },
            },
            None => Ok(None),
        },
        None => Ok(None),
    }
}

fn read_segment_item(v: &Value) -> (r: Result<Option<BCSegmentData>, Exception>)
    ensures
        outcome(r) == segment_item(*v),
{
    match &v.dict {
        None => Ok(None),
        Some(d) => match read_segment_number(d, "velocity_min") {
            Err(e) => Err(e),
            Ok(velocity_min) => match read_segment_number(d, "velocity_max") {
                Err(e) => Err(e),
                Ok(velocity_max) => match read_segment_number(d, "bc_value") {
                    Err(e) => Err(e),
                    Ok(bc_value) => Ok(
                        Some(BCSegmentData { velocity_min, velocity_max, bc_value }),
                    ),
                },
            },
        },
    }
}

/// Segments put in front of the rest.
spec fn prepended(done: Seq<BCSegmentData>, rest: Result<Seq<BCSegmentData>, Fault>) -> Result<
    Seq<BCSegmentData>,
    Fault,
> {
    match rest {
        Ok(s) => Ok(done + s),
        Err(f) => Err(f),
    }
}

/// Reads the velocity segments.
pub fn extract_bc_segments_data(d: &Dict) -> (r: Result<Option<Vec<BCSegmentData>>, Exception>)
    ensures
        match r {
            Ok(s) => bc_segments_data(*d) == Ok::<Option<Seq<BCSegmentData>>, Fault>(
                optional_seq(s),
            ),
            Err(e) => bc_segments_data(*d) == Err::<Option<Seq<BCSegmentData>>, Fault>(e@),
        },
{
    match d.get_given("bc_segments_data") {
        Some(v) => match &v.items {
            Some(items) => {
                let mut out: Vec<BCSegmentData> = Vec::new();
                let mut i: usize = 0;
                proof {
                    assert(items@.skip(0) =~= items@);
                    if let Ok(s) = segment_items(items@) {
                        assert(Seq::<BCSegmentData>::empty() + s =~= s);
                    }
                }
                while i < items.len()
                    invariant
                        i <= items.len(),
                        d.given("bc_segments_data"@) == Some(*v),
                        v.items == Some(*items),
                        segment_items(items@) == prepended(
                            out@,
                            segment_items(items@.skip(i as int)),
                        ),
                    decreases items.len() - i,
                {
                    let ghost rest = items@.skip(i as int);
                    assert(rest.drop_first() =~= items@.skip(i + 1));
                    assert(rest[0] == items@[i as int]);
                    match read_segment_item(&items[i]) {
                        Err(e) => {
                            return Err(e);
                        },
                        Ok(None) => {},
                        Ok(Some(s)) => {
                            proof {
                                if let Ok(tail) = segment_items(rest.drop_first()) {
                                    assert(out@ + (seq![s] + tail) =~= out@.push(s) + tail);
                                }
                            }
                            out.push(s);
                        },
                    }
                    i = i + 1;
                }
                assert(items@.skip(i as int) =~= Seq::<Value>::empty());
                assert(out@ + Seq::<BCSegmentData>::empty() =~= out@);
                if out.len() == 0 {
                    Ok(None)
                } else {
                    Ok(Some(out))
                }
            },
            None => Ok(None),
        },
        None => Ok(None),
    }
}

/// What is said of a malformed drag table.
pub open spec fn drag_table_message() -> Seq<char> {
    "custom_drag_table must be a list of [mach, cd] pairs (>=2 points)"@
}

/// A drag table that can be used: at least two points, finite Mach numbers that
/// rise from zero or above, and finite positive drag coefficients.
pub open spec fn sound_table(mach: Seq<Double>, cd: Seq<Double>) -> bool {
    &&& mach.len() == cd.len()
    &&& mach.len() >= 2
    &&& forall|i: int| 0 <= i < mach.len() ==> sound_mach(#[trigger] mach[i])
    &&& forall|i: int, j: int|
        0 <= i < j < mach.len() ==> (#[trigger] mach[i]).below(#[trigger] mach[j])
    &&& forall|i: int| 0 <= i < cd.len() ==> sound_coefficient(#[trigger] cd[i])
}

/// A finite Mach number, not below zero.
pub open spec fn sound_mach(m: Double) -> bool {
    m.finite() && !m.below(constant(ZERO))
}

/// A finite drag coefficient above zero.
pub open spec fn sound_coefficient(c: Double) -> bool {
    c.finite() && constant(ZERO).below(c)
}

/// Whether all Mach numbers are sound and rise.
fn machs_rise(mach: &Vec<Double>) -> (r: bool)
    ensures
        r == ((forall|i: int| 0 <= i < mach.len() ==> sound_mach(#[trigger] mach@[i])) && (forall|
            i: int,
            j: int,
        |
            0 <= i < j < mach.len() ==> (#[trigger] mach@[i]).below(#[trigger] mach@[j]))),
{
    let mut k: usize = 0;
    while k < mach.len()
        invariant
            k <= mach.len(),
            forall|i: int| 0 <= i < k ==> sound_mach(#[trigger] mach@[i]),
            forall|i: int, j: int|
                0 <= i < j < k ==> (#[trigger] mach@[i]).below(#[trigger] mach@[j]),
        decreases mach.len() - k,
    {
        let m: Double = mach[k];
        if !m.is_finite() || m.lt(Double::from_bits(ZERO)) {
            assert(!sound_mach(mach@[k as int]));
            return false;
        }
        if k > 0 && !mach[k - 1].lt(m) {
            assert(!mach@[k - 1].below(mach@[k as int]));
            return false;
        }
        k = k + 1;
    }
    true
}

/// Whether all drag coefficients are sound.
fn coefficients_are_sound(cd: &Vec<Double>) -> (r: bool)
    ensures
        r == (forall|i: int| 0 <= i < cd.len() ==> sound_coefficient(#[trigger] cd@[i])),
{
    let mut k: usize = 0;
    while k < cd.len()
        invariant
            k <= cd.len(),
            forall|i: int| 0 <= i < k ==> sound_coefficient(#[trigger] cd@[i]),
        decreases cd.len() - k,
    {
        if !cd[k].is_finite() || !Double::from_bits(ZERO).lt(cd[k]) {
            assert(!sound_coefficient(cd@[k as int]));
            return false;
        }
        k = k + 1;
    }
    true
}

/// Whether a drag table can be used.
pub fn is_sound_table(t: &DragTable) -> (r: bool)
    ensures
        r == sound_table(t.mach_values@, t.cd_values@),
{
    t.mach_values.len() == t.cd_values.len() && t.mach_values.len() >= 2 && machs_rise(
        &t.mach_values,
    ) && coefficients_are_sound(&t.cd_values)
}

/// The axes of a drag table that has to be sound to be used.
pub open spec fn unchecked_table(d: Dict) -> Option<(Seq<Double>, Seq<Double>)> {
    match d.given("custom_drag_table"@) {
        Some(v) => match v.rows {
            Some(rows) => if all_pairs(rows@) {
                Some((firsts(rows@), seconds(rows@)))
            } else {
                None
            },
            None => None,
        },
        None => None,
    }
}

/// A drag table given by its two axes, taken as it is where they match and are
/// not empty.
pub open spec fn drag_function(v: Value) -> Option<(Seq<Double>, Seq<Double>)> {
    match v.dict {
        Some(t) => match (t.lookup("mach_numbers"@), t.lookup("drag_coefficients"@)) {
            (Some(m), Some(c)) => match (m.numbers, c.numbers) {
                (Some(mach), Some(cd)) => if mach@.len() == cd@.len() && mach@.len() > 0 {
                    Some((mach@, cd@))
                } else {
                    None
                },
                _ => None,
            },
            _ => None,
        },
        None => None,
    }
}

/// The custom drag table; `refusal` is what is said of [`unchecked_table`] if it is
/// not sound.
pub open spec fn custom_drag_table(d: Dict, refusal: Seq<char>) -> Result<
    Option<(Seq<Double>, Seq<Double>)>,
    Fault,
> {
    match d.given("custom_drag_table"@) {
        Some(_) => match unchecked_table(d) {
            None => Err(value_fault(drag_table_message())),
            Some((mach, cd)) => if sound_table(mach, cd) {
                Ok(Some((mach, cd)))
            } else {
                Err(value_fault(refusal))
            },
        },
        None => match d.given("custom_drag_function"@) {
            Some(v) => Ok(drag_function(v)),
            None => Ok(None),
        },
    }
}

/// An optional drag table taken for its axes.
pub open spec fn table_axes(o: Option<DragTable>) -> Option<(Seq<Double>, Seq<Double>)> {
    match o {
        Some(t) => Some((t.mach_values@, t.cd_values@)),
        None => None,
    }
}

/// The drag table that has to be sound for the dictionary to be read.
pub fn table_to_check(d: &Dict) -> (r: Option<DragTable>)
    ensures
        table_axes(r) == unchecked_table(*d),
{
    match d.get_given("custom_drag_table") {
        Some(v) => match &v.rows {
            Some(rows) => match columns(rows) {
                Some((mach_values, cd_values)) => Some(DragTable { mach_values, cd_values }),
                None => None,
            },
            None => None,
        },
        None => None,
    }
}

/// A copy of a vector of numbers.
pub fn copy_numbers(v: &Vec<Double>) -> (r: Vec<Double>)
    ensures
        r@ == v@,
{
    let mut out: Vec<Double> = Vec::new();
    let mut i: usize = 0;
    while i < v.len()
        invariant
            i <= v.len(),
            out@ == v@.take(i as int),
        decreases v.len() - i,
    {
        out.push(v[i]);
        i = i + 1;
    }
    out
}

fn read_drag_function(v: &Value) -> (r: Option<DragTable>)
    ensures
        table_axes(r) == drag_function(*v),
{
    match &v.dict {
        Some(t) => match (t.get("mach_numbers"), t.get("drag_coefficients")) {
            (Some(m), Some(c)) => match (&m.numbers, &c.numbers) {
                (Some(mach), Some(cd)) => if mach.len() == cd.len() && mach.len() > 0 {
                    Some(
                        DragTable { mach_values: copy_numbers(mach), cd_values: copy_numbers(cd) },
                    )
                } else {
                    None
                },
                _ => None,
            },
            _ => None,
        },
        None => None,
    }
}

/// Reads the custom drag table; `refusal` is what is said of it if it is not sound.
pub fn resolve_custom_drag_table(d: &Dict, refusal: &str) -> (r: Result<
    Option<DragTable>,
    Exception,
>)
    ensures
        match r {
            Ok(t) => custom_drag_table(*d, refusal@) == Ok::<
                Option<(Seq<Double>, Seq<Double>)>,
                Fault,
            >(table_axes(t)),
            Err(e) => custom_drag_table(*d, refusal@) == Err::<
                Option<(Seq<Double>, Seq<Double>)>,
                Fault,
            >(e@),
        },
{
    match d.get_given("custom_drag_table") {
        Some(_) => match table_to_check(d) {
            None => Err(
                Exception::value_error(
                    "custom_drag_table must be a list of [mach, cd] pairs (>=2 points)".to_owned(),
                ),
            ),
            Some(table) => if is_sound_table(&table) {
                Ok(Some(table))
            } else {
                Err(Exception::value_error(refusal.to_owned()))
            },
        },
        None => match d.get_given("custom_drag_function") {
            Some(v) => Ok(read_drag_function(v)),
            None => Ok(None),
        },
    }
}

/// The shooting angle in radians: `shooting_angle` holds radians, and
/// `shooting_angle_degrees` degrees.
pub open spec fn shooting_angle(d: Dict) -> Result<Double, Fault> {
    match d.given("shooting_angle"@) {
        Some(v) => outcome(v.number),
        None => match d.given("shooting_angle_degrees"@) {
            Some(v) => match v.number {
                Ok(degrees) => Ok(radians(degrees)),
                Err(e) => Err(e@),
            },
            None => Ok(constant(ZERO)),
        },
    }
}

/// Reads the shooting angle.
pub fn resolve_shooting_angle(d: &Dict) -> (r: Result<Double, Exception>)
    ensures
        outcome(r) == shooting_angle(*d),
{
    match d.get_given("shooting_angle") {
        Some(v) => match &v.number {
            Ok(n) => Ok(*n),
            Err(e) => Err(e.again()),
        },
        None => match d.get_given("shooting_angle_degrees") {
            Some(v) => match &v.number {
                Ok(n) => Ok(to_radians(*n)),
                Err(e) => Err(e.again()),
            },
            None => Ok(Double::from_bits(ZERO)),
        },
    }
}

} // verus!
