//! A parsed JSON document, as the reply readers see it.
//!
//! A number carries what the readers take from it: its text, its value as an
//! `i64` where it is an integer in range, and its value as a decimal (the `f64`
//! reading of the number, converted exactly) where that conversion succeeds.
use vstd::prelude::*;
use crate::decimal::{Decimal, opt_view};
use crate::text::same_text;

verus! {

/// What a JSON number offers to the readers.
#[derive(Debug)]
pub struct JsonNumber {
    /// The number as `serde_json` writes it (`Number::to_string`).
    pub text: String,
    /// The number as an `i64` (`Value::as_i64`).
    pub int_value: Option<i64>,
    /// The number as a decimal (`Value::as_f64`, then `Decimal::from_f64_retain`).
    pub decimal_value: Option<Decimal>,
}

/// A JSON value. An object keeps its members in order; a key that occurs twice
/// is found at its first occurrence.
#[derive(Debug)]
pub enum JsonValue {
    Null,
    Bool(bool),
    Number(JsonNumber),
    Str(String),
    Array(Vec<JsonValue>),
    Object(Vec<(String, JsonValue)>),
}

/// The index of the first member with the given key, or -1.
pub open spec fn key_index(entries: Seq<(String, JsonValue)>, key: Seq<char>) -> int
    decreases entries.len(),
{
    if entries.len() == 0 {
        -1
    } else {
        let k = key_index(entries.drop_last(), key);
        if k >= 0 {
            k
        } else if entries.last().0@ == key {
            entries.len() - 1
        } else {
            -1
        }
    }
}

/// The member of an object with the given key (`Value::get`).
pub open spec fn json_get(v: JsonValue, key: Seq<char>) -> Option<JsonValue> {
    match v {
        JsonValue::Object(entries) => {
            let k = key_index(entries@, key);
            if k >= 0 {
                Some(entries@[k].1)
            } else {
                None
            }
        },
        _ => None,
    }
}

/// The elements of an array value (`Value::as_array`).
pub open spec fn json_elements(v: Option<JsonValue>) -> Option<Seq<JsonValue>> {
    match v {
        Some(JsonValue::Array(a)) => Some(a@),
        _ => None,
    }
}

/// The text of a string value (`Value::as_str`).
pub open spec fn json_text(v: Option<JsonValue>) -> Option<Seq<char>> {
    match v {
        Some(JsonValue::Str(s)) => Some(s@),
        _ => None,
    }
}

/// The text of a member, or the empty text where it is missing or no string.
pub open spec fn field_text(item: JsonValue, key: Seq<char>) -> Seq<char> {
    match json_text(json_get(item, key)) {
        Some(s) => s,
        None => Seq::empty(),
    }
}

/// The decimal reading of a numeric member.
pub open spec fn field_opt_decimal(item: JsonValue, key: Seq<char>) -> Option<(int, nat)> {
    match json_get(item, key) {
        Some(JsonValue::Number(n)) => opt_view(n.decimal_value),
        _ => None,
    }
}

/// The decimal reading of a numeric member, or zero.
pub open spec fn field_decimal(item: JsonValue, key: Seq<char>) -> (int, nat) {
    match field_opt_decimal(item, key) {
        Some(d) => d,
        None => (0int, 0nat),
    }
}

/// The `i64` reading of a numeric member.
pub open spec fn field_i64(item: JsonValue, key: Seq<char>) -> Option<i64> {
    match json_get(item, key) {
        Some(JsonValue::Number(n)) => n.int_value,
        _ => None,
    }
}

proof fn lemma_key_index_prefix(entries: Seq<(String, JsonValue)>, key: Seq<char>, k: int)
    requires
        0 <= k <= entries.len(),
        key_index(entries.take(k), key) >= 0,
    ensures
        key_index(entries, key) == key_index(entries.take(k), key),
    decreases entries.len() - k,
{
    if k < entries.len() {
        assert(entries.take(k + 1).drop_last() == entries.take(k));
        lemma_key_index_prefix(entries, key, k + 1);
    } else {
        assert(entries.take(k) == entries);
    }
}

impl JsonValue {
    /// The member with the given key, where this is an object that has one.
    pub fn get(&self, key: &str) -> (r: Option<&JsonValue>)
        ensures
            match json_get(*self, key@) {
                Some(v) => r == Some(&v),
                None => r is None,
            },
    {
        match self {
            JsonValue::Object(entries) => {
                let mut i: usize = 0;
                assert(entries@.take(0) =~= Seq::<(String, JsonValue)>::empty());
                while i < entries.len()
                    invariant
                        0 <= i <= entries@.len(),
                        *self == JsonValue::Object(*entries),
                        key_index(entries@.take(i as int), key@) == -1,
                    decreases entries.len() - i,
                {
                    assert(entries@.take(i + 1).drop_last() == entries@.take(i as int));
                    assert(entries@.take(i + 1).last() == entries@[i as int]);
                    if same_text(entries[i].0.as_str(), key) {
                        proof {
                            lemma_key_index_prefix(entries@, key@, i + 1);
                        }
                        return Some(&entries[i].1);
                    }
                    i += 1;
                }
                assert(entries@.take(i as int) == entries@);
                None
            },
            _ => None,
        }
    }

    /// The elements, where this is an array.
    pub fn as_array(&self) -> (r: Option<&Vec<JsonValue>>)
        ensures
            match *self {
                JsonValue::Array(a) => r == Some(&a),
                _ => r is None,
            },
    {
        match self {
            JsonValue::Array(a) => Some(a),
            _ => None,
        }
    }

    /// The text, where this is a string.
    pub fn as_str(&self) -> (r: Option<&str>)
        ensures
            match json_text(Some(*self)) {
                Some(s) => r matches Some(x) && x@ == s,
                None => r is None,
            },
    {
        match self {
            JsonValue::Str(s) => Some(s.as_str()),
            _ => None,
        }
    }

    /// Whether this is `null`.
    pub fn is_null(&self) -> (r: bool)
        ensures
            r == (*self is Null),
    {
        match self {
            JsonValue::Null => true,
            _ => false,
        }
    }

    /// The text of a member, empty where it is missing or no string.
    pub fn text_field(&self, key: &str) -> (r: String)
        ensures
            r@ == field_text(*self, key@),
    {
        match self.get(key) {
            Some(JsonValue::Str(s)) => s.clone(),
            _ => String::new(),
        }
    }

    /// The decimal reading of a numeric member.
    pub fn opt_decimal_field(&self, key: &str) -> (r: Option<Decimal>)
        ensures
            opt_view(r) == field_opt_decimal(*self, key@),
    {
        match self.get(key) {
            Some(JsonValue::Number(n)) => n.decimal_value,
            _ => None,
        }
    }

    /// The decimal reading of a numeric member, zero where there is none.
    pub fn decimal_field(&self, key: &str) -> (r: Decimal)
        ensures
            r@ == field_decimal(*self, key@),
    {
        match self.opt_decimal_field(key) {
            Some(d) => d,
            None => Decimal::zero(),
        }
    }

    /// The `i64` reading of a numeric member.
    pub fn i64_field(&self, key: &str) -> (r: Option<i64>)
        ensures
            r == field_i64(*self, key@),
    {
        match self.get(key) {
            Some(JsonValue::Number(n)) => n.int_value,
            _ => None,
        }
    }
}

} // verus!
