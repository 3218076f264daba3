//! Drag models and the names they go by.

use vstd::prelude::*;
use crate::double::Double;
use crate::exception::{value_fault, Exception};
use crate::text::{contains, join3, occurs, same_text};

verus! {

/// A standard drag model.
#[derive(Clone, Copy, Debug, PartialEq, Eq, Structural)]
pub enum DragModel {
    G1,
    G2,
    G5,
    G6,
    G7,
    G8,
    GI,
    GS,
    RA4,
}

/// The name of a drag model.
pub open spec fn drag_model_name(model: DragModel) -> Seq<char> {
    match model {
        DragModel::G1 => "G1"@,
        DragModel::G2 => "G2"@,
        DragModel::G5 => "G5"@,
        DragModel::G6 => "G6"@,
        DragModel::G7 => "G7"@,
        DragModel::G8 => "G8"@,
        DragModel::GI => "GI"@,
        DragModel::GS => "GS"@,
        DragModel::RA4 => "RA4"@,
    }
}

impl DragModel {
    /// The model's name.
    pub fn name(self) -> (r: String)
        ensures
            r@ == drag_model_name(self),
    {
        let s: &str = match self {
            DragModel::G1 => "G1",
            DragModel::G2 => "G2",
            DragModel::G5 => "G5",
            DragModel::G6 => "G6",
            DragModel::G7 => "G7",
            DragModel::G8 => "G8",
            DragModel::GI => "GI",
            DragModel::GS => "GS",
            DragModel::RA4 => "RA4",
        };
        s.to_owned()
    }
}

/// The drag model object of the scripting interface.
#[derive(Clone, Copy, Debug, PartialEq, Eq, Structural)]
pub struct PyDragModel {
    pub inner: DragModel,
}

impl PyDragModel {
    pub fn g1() -> (r: PyDragModel)
        ensures
            r.inner == DragModel::G1,
    {
        PyDragModel { inner: DragModel::G1 }
    }

    pub fn g7() -> (r: PyDragModel)
        ensures
            r.inner == DragModel::G7,
    {
        PyDragModel { inner: DragModel::G7 }
    }

    pub fn g8() -> (r: PyDragModel)
        ensures
            r.inner == DragModel::G8,
    {
        PyDragModel { inner: DragModel::G8 }
    }

    /// The model's name.
    pub fn __repr__(&self) -> (r: String)
        ensures
            r@ == drag_model_name(self.inner),
    {
        self.inner.name()
    }
}

/// The model that a ballistic-coefficient type names: the first of G1, G6, G7
/// and G8 that occurs in it.
pub open spec fn model_in_bc_type(s: Seq<char>) -> Option<DragModel> {
    if occurs(s, "G1"@) {
        Some(DragModel::G1)
    } else if occurs(s, "G6"@) {
        Some(DragModel::G6)
    } else if occurs(s, "G7"@) {
        Some(DragModel::G7)
    } else if occurs(s, "G8"@) {
        Some(DragModel::G8)
    } else {
        None
    }
}

/// The model that a loosely written drag model names: the first of G1, G8 and
/// G6 that occurs in it, and G7 when none does.
pub open spec fn model_in_loose_text(s: Seq<char>) -> DragModel {
    if occurs(s, "G1"@) {
        DragModel::G1
    } else if occurs(s, "G8"@) {
        DragModel::G8
    } else if occurs(s, "G6"@) {
        DragModel::G6
    } else {
        DragModel::G7
    }
}

/// The model that a query names, in either case.  No character outside the
/// listed ones has an upper case of `G` or of a digit.
pub open spec fn model_in_query(s: Seq<char>) -> Option<DragModel> {
    if s == "G1"@ || s == "g1"@ {
        Some(DragModel::G1)
    } else if s == "G6"@ || s == "g6"@ {
        Some(DragModel::G6)
    } else if s == "G7"@ || s == "g7"@ {
        Some(DragModel::G7)
    } else if s == "G8"@ || s == "g8"@ {
        Some(DragModel::G8)
    } else {
        None
    }
}

/// A letter of the English alphabet as a capital, any other character as it is.
pub open spec fn capital(c: char) -> char {
    if 'a' <= c <= 'z' {
        (c as int - 32) as char
    } else {
        c
    }
}

/// A text in capitals.
pub open spec fn capitals(s: Seq<char>) -> Seq<char> {
    s.map_values(|c: char| capital(c))
}

pub proof fn lemma_pair(s: Seq<char>, pair: Seq<char>)
    requires
        pair.len() == 2,
    ensures
        s == pair <==> s.len() == 2 && s[0] == pair[0] && s[1] == pair[1],
{
    if s.len() == 2 && s[0] == pair[0] && s[1] == pair[1] {
        assert(s =~= pair);
    }
}

/// A query and the same in capitals are answered alike, and the ones answered are
/// those whose capitals are the name of a model.
pub proof fn law_case_does_not_matter(s: Seq<char>)
    ensures
        model_in_query(s) == model_in_query(capitals(s)),
        model_in_query(s) is Some <==> capitals(s) == "G1"@ || capitals(s) == "G6"@ || capitals(s)
            == "G7"@ || capitals(s) == "G8"@,
{
    let t = capitals(s);
    reveal_strlit("G1");
    lemma_pair(s, "G1"@);
    lemma_pair(t, "G1"@);
    reveal_strlit("g1");
    lemma_pair(s, "g1"@);
    lemma_pair(t, "g1"@);
    reveal_strlit("G6");
    lemma_pair(s, "G6"@);
    lemma_pair(t, "G6"@);
    reveal_strlit("g6");
    lemma_pair(s, "g6"@);
    lemma_pair(t, "g6"@);
    reveal_strlit("G7");
    lemma_pair(s, "G7"@);
    lemma_pair(t, "G7"@);
    reveal_strlit("g7");
    lemma_pair(s, "g7"@);
    lemma_pair(t, "g7"@);
    reveal_strlit("G8");
    lemma_pair(s, "G8"@);
    lemma_pair(t, "G8"@);
    reveal_strlit("g8");
    lemma_pair(s, "g8"@);
    lemma_pair(t, "g8"@);
    if s.len() == 2 {
        assert(t[0] == capital(s[0]) && t[1] == capital(s[1]));
    }
}

/// What is said of a ballistic-coefficient type that names no model.
pub open spec fn bc_type_message(s: Seq<char>) -> Seq<char> {
    "Invalid BC type: '"@ + s + "'. Expected G1, G6, G7, or G8."@
}

/// What is said of a query that names no model.
pub open spec fn query_message(s: Seq<char>) -> Seq<char> {
    "Invalid drag model: '"@ + s + "'. Expected G1, G6, G7, or G8."@
}

/// Reads a ballistic-coefficient type.
pub fn parse_bc_type(s: &str) -> (r: Result<DragModel, Exception>)
    ensures
        match model_in_bc_type(s@) {
            Some(m) => r == Ok::<DragModel, Exception>(m),
            None => r matches Err(e) && e@ == value_fault(bc_type_message(s@)),
        },
{
    if contains(s, "G1") {
        Ok(DragModel::G1)
    } else if contains(s, "G6") {
        Ok(DragModel::G6)
    } else if contains(s, "G7") {
        Ok(DragModel::G7)
    } else if contains(s, "G8") {
        Ok(DragModel::G8)
    } else {
        Err(
            Exception::value_error(
                join3("Invalid BC type: '", s, "'. Expected G1, G6, G7, or G8."),
            ),
        )
    }
}

/// Reads a loosely written drag model.
pub fn parse_loose_model(s: &str) -> (r: DragModel)
    ensures
        r == model_in_loose_text(s@),
{
    if contains(s, "G1") {
        DragModel::G1
    } else if contains(s, "G8") {
        DragModel::G8
    } else if contains(s, "G6") {
        DragModel::G6
    } else {
        DragModel::G7
    }
}

/// Reads the drag model of a query.
pub fn parse_drag_model(s: &str) -> (r: Result<DragModel, Exception>)
    ensures
        match model_in_query(s@) {
            Some(m) => r == Ok::<DragModel, Exception>(m),
            None => r matches Err(e) && e@ == value_fault(query_message(s@)),
        },
{
    if same_text(s, "G1") || same_text(s, "g1") {
        Ok(DragModel::G1)
    } else if same_text(s, "G6") || same_text(s, "g6") {
        Ok(DragModel::G6)
    } else if same_text(s, "G7") || same_text(s, "g7") {
        Ok(DragModel::G7)
    } else if same_text(s, "G8") || same_text(s, "g8") {
        Ok(DragModel::G8)
    } else {
        Err(
            Exception::value_error(
                join3("Invalid drag model: '", s, "'. Expected G1, G6, G7, or G8."),
            ),
        )
    }
}

/// A request for a drag coefficient.
#[derive(Clone, Copy, Debug, PartialEq, Eq, Structural)]
pub struct DragCall {
    pub mach: Double,
    pub model: DragModel,
}

/// The request for the drag coefficient at a Mach number.
pub fn get_drag_coefficient(mach: Double, drag_model: &str) -> (r: Result<DragCall, Exception>)
    ensures
        match model_in_query(drag_model@) {
            Some(model) => r == Ok::<DragCall, Exception>(DragCall { mach, model }),
            None => r matches Err(e) && e@ == value_fault(query_message(drag_model@)),
        },
{
    match parse_drag_model(drag_model) {
        Ok(model) => Ok(DragCall { mach, model }),
        Err(e) => Err(e),
    }
}

/// A request for a drag coefficient with the transonic drag rise; the shape is
/// left to be inferred.
#[derive(Clone, Copy, Debug, PartialEq, Eq)]
pub struct TransonicDragCall {
    pub mach: Double,
    pub model: DragModel,
    pub apply_transonic_correction: bool,
    pub caliber: Option<Double>,
    pub weight_grains: Option<Double>,
}

/// The request for the drag coefficient with the transonic drag rise.
pub fn get_drag_coefficient_transonic(
    mach: Double,
    drag_model: &str,
    apply_transonic_correction: bool,
    caliber: Option<Double>,
    weight_grains: Option<Double>,
) -> (r: Result<TransonicDragCall, Exception>)
    ensures
        match model_in_query(drag_model@) {
            Some(model) => r == Ok::<TransonicDragCall, Exception>(
                TransonicDragCall {
                    mach,
                    model,
                    apply_transonic_correction,
                    caliber,
                    weight_grains,
                },
            ),
            None => r matches Err(e) && e@ == value_fault(query_message(drag_model@)),
        },
{
    match parse_drag_model(drag_model) {
        Ok(model) => Ok(
            TransonicDragCall { mach, model, apply_transonic_correction, caliber, weight_grains },
        ),
        Err(e) => Err(e),
    }
}

} // verus!
