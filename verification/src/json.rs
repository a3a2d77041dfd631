//! JSON values, as the market APIs send and take them.

use vstd::prelude::*;
use crate::decimal::Decimal;
use crate::decimal::{decimal_of_text, from_pair};
use crate::text::same_text;

verus! {

/// A JSON value.
#[derive(Debug)]
pub enum Json {
    Null,
    Bool(bool),
    /// A number, if a decimal holds it
    Number(Option<Decimal>),
    Text(String),
    Array(Vec<Json>),
    /// The entries of an object
    Object(Vec<(String, Json)>),
}

/// The value of the first entry with a given key.
pub open spec fn value_at(entries: Seq<(String, Json)>, key: Seq<char>) -> Option<Json>
    decreases entries.len(),
{
    if entries.len() == 0 {
        None
    } else if entries[0].0@ == key {
        Some(entries[0].1)
    } else {
        value_at(entries.skip(1), key)
    }
}

/// The text of a value, or no text if it is none.
pub open spec fn text_of(value: Option<Json>) -> Seq<char> {
    match value {
        Some(Json::Text(text)) => text@,
        _ => Seq::empty(),
    }
}

/// The items of a value, or none if it is not an array.
pub open spec fn items_of(value: Option<Json>) -> Seq<Json> {
    match value {
        Some(Json::Array(items)) => items@,
        _ => Seq::empty(),
    }
}

/// The truth value of a value, or a default if it is none.
pub open spec fn bool_of(value: Option<Json>, default: bool) -> bool {
    match value {
        Some(Json::Bool(b)) => b,
        _ => default,
    }
}

/// The number of a value: a number itself, or one that is written as a text.
pub open spec fn number_of(value: Option<Json>) -> Option<Decimal> {
    match value {
        Some(Json::Text(text)) => from_pair(decimal_of_text(text@)),
        Some(Json::Number(number)) => number,
        _ => None,
    }
}

/// Whether a value is a given text.
pub open spec fn is_text(value: Json, text: Seq<char>) -> bool {
    value matches Json::Text(t) && t@ == text
}

impl Json {
    /// The value of a field. Only objects have fields.
    pub open spec fn field(self, key: Seq<char>) -> Option<Json> {
        match self {
            Json::Object(entries) => value_at(entries@, key),
            _ => None,
        }
    }

    /// The value of a field, or of another one if there is none.
    pub open spec fn either(self, key: Seq<char>, other: Seq<char>) -> Option<Json> {
        match self.field(key) {
            Some(value) => Some(value),
            None => self.field(other),
        }
    }

    /// The value of a field. Only objects have fields.
    pub fn get(&self, key: &str) -> (r: Option<&Json>)
        ensures
            match r {
                Some(value) => self.field(key@) == Some(*value),
                None => self.field(key@) is None,
            },
    {
        match self {
            Json::Object(entries) => {
                let mut i: usize = 0;
                assert(entries@.skip(0) =~= entries@);
                while i < entries.len()
                    invariant
                        i <= entries.len(),
                        self.field(key@) == value_at(entries@, key@),
                        value_at(entries@, key@) == value_at(entries@.skip(i as int), key@),
                    decreases entries.len() - i,
                {
                    assert(entries@.skip(i as int).skip(1) =~= entries@.skip(i + 1));
                    assert(entries@.skip(i as int)[0] == entries@[i as int]);
                    if same_text(entries[i].0.as_str(), key) {
                        return Some(&entries[i].1);
                    }
                    i = i + 1;
                }
                None
            },
            _ => None,
        }
    }

    /// The value of a field, or of another one if there is none.
    pub fn get_either(&self, key: &str, other: &str) -> (r: Option<&Json>)
        ensures
            match r {
                Some(value) => self.either(key@, other@) == Some(*value),
                None => self.either(key@, other@) is None,
            },
    {
        match self.get(key) {
            Some(value) => Some(value),
            None => self.get(other),
        }
    }
}

/// A value that may be missing.
pub open spec fn deref(value: Option<&Json>) -> Option<Json> {
    match value {
        Some(v) => Some(*v),
        None => None,
    }
}

/// The text of a value, or no text if it is none.
pub fn text_or_empty(value: Option<&Json>) -> (r: String)
    ensures
        r@ == text_of(deref(value)),
{
    match value {
        Some(Json::Text(text)) => text.clone(),
        _ => String::new(),
    }
}

/// The truth value of a value, or a default if it is none.
pub fn bool_or(value: Option<&Json>, default: bool) -> (r: bool)
    ensures
        r == bool_of(deref(value), default),
{
    match value {
        Some(Json::Bool(b)) => *b,
        _ => default,
    }
}

/// The number of a value: a number itself, or one that is written as a text.
pub fn number(value: Option<&Json>) -> (r: Option<Decimal>)
    ensures
        r == number_of(deref(value)),
{
    match value {
        Some(Json::Text(text)) => Decimal::parse(text.as_str()),
        Some(Json::Number(number)) => *number,
        _ => None,
    }
}

} // verus!
