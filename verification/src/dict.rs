//! Dictionaries of loosely typed values, and the rules by which their fields
//! are read.
//!
//! A value carries what each conversion that a reader may ask for makes of it.
//! A field that holds the null value is read as if it were missing.

use vstd::prelude::*;
use crate::double::Double;
use crate::drag::DragModel;
use crate::exception::{outcome, Exception, Fault};
use crate::text::{optional_text, same_text};

verus! {

/// A dictionary value.
#[derive(Debug, PartialEq, Eq)]
pub struct Value {
    /// Whether it is the null value.
    pub is_none: bool,
    /// As a number.
    pub number: Result<Double, Exception>,
    /// As a truth value.
    pub flag: Result<bool, Exception>,
    /// As an unsigned integer.
    pub index: Result<usize, Exception>,
    /// As text.
    pub text: Result<String, Exception>,
    /// As a sequence of numbers.
    pub numbers: Option<Vec<Double>>,
    /// As a sequence of sequences of numbers.
    pub rows: Option<Vec<Vec<Double>>>,
    /// As a drag model object.
    pub drag_model: Option<DragModel>,
    /// The items, if it is a list.
    pub items: Option<Vec<Value>>,
    /// The entries, if it is a dictionary.
    pub dict: Option<Dict>,
}

/// A dictionary: its keys and their values.
#[derive(Debug, PartialEq, Eq)]
pub struct Dict {
    pub entries: Vec<(String, Value)>,
}

/// The value of the first entry with the given key.
pub open spec fn find(entries: Seq<(String, Value)>, key: Seq<char>) -> Option<Value>
    decreases entries.len(),
{
    if entries.len() == 0 {
        None
    } else if entries[0].0@ == key {
        Some(entries[0].1)
    } else {
        find(entries.drop_first(), key)
    }
}

impl Dict {
    /// The value stored under a key.
    pub open spec fn lookup(self, key: Seq<char>) -> Option<Value> {
        find(self.entries@, key)
    }

    /// The value given for a key: stored under it, and not the null value.
    pub open spec fn given(self, key: Seq<char>) -> Option<Value> {
        match self.lookup(key) {
            Some(v) => if v.is_none {
                None
            } else {
                Some(v)
            },
            None => None,
        }
    }

    /// The value given for the first key, else for the second.
    pub open spec fn given_either(self, primary: Seq<char>, legacy: Option<Seq<char>>) -> Option<
        Value,
    > {
        match (self.given(primary), legacy) {
            (Some(v), _) => Some(v),
            (None, Some(key)) => self.given(key),
            (None, None) => None,
        }
    }

    /// The number in a field.
    pub open spec fn number(
        self,
        primary: Seq<char>,
        legacy: Option<Seq<char>>,
        default: Double,
    ) -> Result<Double, Fault> {
        match self.given_either(primary, legacy) {
            Some(v) => outcome(v.number),
            None => Ok(default),
        }
    }

    /// The truth value in a field.
    pub open spec fn flag(
        self,
        primary: Seq<char>,
        legacy: Option<Seq<char>>,
        default: bool,
    ) -> Result<bool, Fault> {
        match self.given_either(primary, legacy) {
            Some(v) => outcome(v.flag),
            None => Ok(default),
        }
    }

    /// The number in a field that may be missing.
    pub open spec fn optional_number(self, key: Seq<char>) -> Result<Option<Double>, Fault> {
        match self.given(key) {
            Some(v) => match v.number {
                Ok(n) => Ok(Some(n)),
                Err(e) => Err(e@),
            },
            None => Ok(None),
        }
    }

    /// The unsigned integer in a field that may be missing.
    pub open spec fn optional_index(self, key: Seq<char>) -> Result<Option<usize>, Fault> {
        match self.given(key) {
            Some(v) => match v.index {
                Ok(n) => Ok(Some(n)),
                Err(e) => Err(e@),
            },
            None => Ok(None),
        }
    }

    /// The text in a field that may be missing.
    pub open spec fn optional_string(self, key: Seq<char>) -> Result<Option<Seq<char>>, Fault> {
        match self.given(key) {
            Some(v) => match v.text {
                Ok(s) => Ok(Some(s@)),
                Err(e) => Err(e@),
            },
            None => Ok(None),
        }
    }

    /// The text in a field.
    pub open spec fn text(self, key: Seq<char>, default: Seq<char>) -> Result<Seq<char>, Fault> {
        match self.optional_string(key) {
            Ok(Some(s)) => Ok(s),
            Ok(None) => Ok(default),
            Err(f) => Err(f),
        }
    }

    /// The value stored under a key.
    pub fn get(&self, key: &str) -> (r: Option<&Value>)
        ensures
            match r {
                Some(v) => self.lookup(key@) == Some(*v),
                None => self.lookup(key@) is None,
            },
    {
        let mut i: usize = 0;
        assert(self.entries@.skip(0) =~= self.entries@);
        while i < self.entries.len()
            invariant
                i <= self.entries.len(),
                self.lookup(key@) == find(self.entries@.skip(i as int), key@),
            decreases self.entries.len() - i,
        {
            let entry: &(String, Value) = &self.entries[i];
            if same_text(entry.0.as_str(), key) {
                return Some(&entry.1);
            }
            assert(self.entries@.skip(i as int).drop_first() =~= self.entries@.skip(i + 1));
            i = i + 1;
        }
        None
    }

    /// The value given for a key.
    pub fn get_given(&self, key: &str) -> (r: Option<&Value>)
        ensures
            match r {
                Some(v) => self.given(key@) == Some(*v),
                None => self.given(key@) is None,
            },
    {
        match self.get(key) {
            Some(v) => if v.is_none {
                None
            } else {
                Some(v)
            },
            None => None,
        }
    }

    fn get_given_either(&self, primary: &str, legacy: Option<&str>) -> (r: Option<&Value>)
        ensures
            match r {
                Some(v) => self.given_either(primary@, optional_text(legacy)) == Some(*v),
                None => self.given_either(primary@, optional_text(legacy)) is None,
            },
    {
        match self.get_given(primary) {
            Some(v) => Some(v),
            None => match legacy {
                Some(key) => self.get_given(key),
                None => None,
            },
        }
    }
}

/// Reads a number; the first key wins over the second, and a field that
/// neither gives has the default.
pub fn f64_field(d: &Dict, primary: &str, legacy: Option<&str>, default: Double) -> (r: Result<
    Double,
    Exception,
>)
    ensures
        outcome(r) == d.number(primary@, optional_text(legacy), default),
{
    match d.get_given_either(primary, legacy) {
        Some(v) => match &v.number {
            Ok(n) => Ok(*n),
            Err(e) => Err(e.again()),
        },
        None => Ok(default),
    }
}

/// Reads a truth value; the first key wins over the second, and a field that
/// neither gives has the default.
pub fn bool_field(d: &Dict, primary: &str, legacy: Option<&str>, default: bool) -> (r: Result<
    bool,
    Exception,
>)
    ensures
        outcome(r) == d.flag(primary@, optional_text(legacy), default),
{
    match d.get_given_either(primary, legacy) {
        Some(v) => match &v.flag {
            Ok(b) => Ok(*b),
            Err(e) => Err(e.again()),
        },
        None => Ok(default),
    }
}

/// Reads a number that may be missing.
pub fn opt_number(d: &Dict, key: &str) -> (r: Result<Option<Double>, Exception>)
    ensures
        outcome(r) == d.optional_number(key@),
{
    match d.get_given(key) {
        Some(v) => match &v.number {
            Ok(n) => Ok(Some(*n)),
            Err(e) => Err(e.again()),
        },
        None => Ok(None),
    }
}

/// Reads an unsigned integer that may be missing.
pub fn opt_index(d: &Dict, key: &str) -> (r: Result<Option<usize>, Exception>)
    ensures
        outcome(r) == d.optional_index(key@),
{
    match d.get_given(key) {
        Some(v) => match &v.index {
            Ok(n) => Ok(Some(*n)),
            Err(e) => Err(e.again()),
        },
        None => Ok(None),
    }
}

/// Reads a text that may be missing.
pub fn opt_string(d: &Dict, key: &str) -> (r: Result<Option<String>, Exception>)
    ensures
        text_outcome(r) == d.optional_string(key@),
{
    match d.get_given(key) {
        Some(v) => match &v.text {
            Ok(s) => Ok(Some(s.clone())),
            Err(e) => Err(e.again()),
        },
        None => Ok(None),
    }
}

/// A result with its text and its exception taken for what they say.
pub open spec fn text_outcome(r: Result<Option<String>, Exception>) -> Result<
    Option<Seq<char>>,
    Fault,
> {
    match r {
        Ok(Some(s)) => Ok(Some(s@)),
        Ok(None) => Ok(None),
        Err(e) => Err(e@),
    }
}

/// Reads a text; a field that is not given has the default.
pub fn text_field(d: &Dict, key: &str, default: &str) -> (r: Result<String, Exception>)
    ensures
        match r {
            Ok(s) => d.text(key@, default@) == Ok::<Seq<char>, Fault>(s@),
            Err(e) => d.text(key@, default@) == Err::<Seq<char>, Fault>(e@),
        },
{
    match opt_string(d, key) {
        Ok(Some(s)) => Ok(s),
        Ok(None) => Ok(default.to_owned()),
        Err(e) => Err(e),
    }
}

} // verus!
