//! The relay's own representation of a parsed JSON document, together with
//! the trusted parser that produces it.
//!
//! The remote transcription service speaks JSON over text frames. The relay
//! only ever reads strings, booleans, arrays and objects out of those frames,
//! so a numeric leaf is kept as a bare marker: its payload is never consulted
//! (and the verified core holds no floating point).

use vstd::prelude::*;

verus! {

/// A parsed JSON document, as the relay sees it.
pub enum JsonValue {
    Null,
    Bool(bool),
    Number,
    Text(String),
    Array(Vec<JsonValue>),
    Object(Vec<(String, JsonValue)>),
}

/// The value bound to `key` in an object's field list. Keys coming out of the
/// parser are unique, so taking the first binding is unambiguous.
pub open spec fn spec_lookup(fields: Seq<(String, JsonValue)>, key: Seq<char>) -> Option<
    JsonValue,
>
    decreases fields.len(),
{
    if fields.len() == 0 {
        None
    } else if fields[0].0@ == key {
        Some(fields[0].1)
    } else {
        spec_lookup(fields.drop_first(), key)
    }
}

impl JsonValue {
    /// The field named `key`, when `self` is an object that has it.
    pub open spec fn spec_get(self, key: Seq<char>) -> Option<JsonValue> {
        match self {
            JsonValue::Object(fields) => spec_lookup(fields@, key),
            _ => None,
        }
    }

    /// The element at `i`, when `self` is an array that is long enough.
    pub open spec fn spec_at(self, i: int) -> Option<JsonValue> {
        match self {
            JsonValue::Array(items) => if 0 <= i < items@.len() {
                Some(items@[i])
            } else {
                None
            },
            _ => None,
        }
    }

    /// Looks `key` up in `self`, yielding a value only for an object that
    /// carries such a field.
    pub fn get_field<'a>(&'a self, key: &str) -> (r: Option<&'a JsonValue>)
        ensures
            match r {
                Some(v) => self.spec_get(key@) == Some(*v),
                None => self.spec_get(key@) is None,
            },
    {
        match self {
            JsonValue::Object(fields) => {
                let key_string = key.to_owned();
                let n = fields.len();
                let mut i: usize = 0;
                proof {
                    assert(fields@.skip(0) =~= fields@);
                }
                while i < n
                    invariant
                        self.spec_get(key@) == spec_lookup(fields@, key@),
                        n == fields@.len(),
                        i <= n,
                        spec_lookup(fields@, key@) == spec_lookup(
                            fields@.skip(i as int),
                            key@,
                        ),
                        key_string@ == key@,
                    decreases n - i,
                {
                    proof {
                        assert(fields@.skip(i as int).drop_first() =~= fields@.skip(
                            i as int + 1,
                        ));
                    }
                    if fields[i].0 == key_string {
                        proof {
                            assert(fields@.skip(i as int)[0] == fields@[i as int]);
                        }
                        return Some(&fields[i].1);
                    }
                    i = i + 1;
                }
                proof {
                    assert(fields@.skip(n as int).len() == 0);
                }
                None
            },
            _ => None,
        }
    }

    /// The element at `index`, for an array that reaches it.
    pub fn get_at<'a>(&'a self, index: usize) -> (r: Option<&'a JsonValue>)
        ensures
            match r {
                Some(v) => self.spec_at(index as int) == Some(*v),
                None => self.spec_at(index as int) is None,
            },
    {
        match self {
            JsonValue::Array(items) => {
                if index < items.len() {
                    Some(&items[index])
                } else {
                    None
                }
            },
            _ => None,
        }
    }

    /// The carried string, for a text value.
    pub fn as_text<'a>(&'a self) -> (r: Option<&'a String>)
        ensures
            match r {
                Some(s) => self matches JsonValue::Text(t) && t == *s,
                None => !(self matches JsonValue::Text(_)),
            },
    {
        match self {
            JsonValue::Text(s) => Some(s),
            _ => None,
        }
    }

    /// The carried boolean, for a boolean value.
    pub fn as_boolean(&self) -> (r: Option<bool>)
        ensures
            match r {
                Some(b) => self matches JsonValue::Bool(x) && x == b,
                None => !(self matches JsonValue::Bool(_)),
            },
    {
        match self {
            JsonValue::Bool(b) => Some(*b),
            _ => None,
        }
    }
}

#[verifier::external_type_specification]
#[verifier::external_body]
pub struct ExValue(serde_json::Value);

/// The document that a piece of text parses to, or nothing when the text is
/// not valid JSON. Parsing is a function of the text alone.
pub uninterp spec fn json_of(s: Seq<char>) -> Option<JsonValue>;

/// Carries a `serde_json::Value` into the relay's representation, variant by
/// variant; numeric payloads are not kept, since the relay never reads them.
#[verifier::external_body]
fn convert_value(v: serde_json::Value) -> JsonValue {
    match v {
        serde_json::Value::Null => JsonValue::Null,
        serde_json::Value::Bool(b) => JsonValue::Bool(b),
        serde_json::Value::Number(_) => JsonValue::Number,
        serde_json::Value::String(s) => JsonValue::Text(s),
        serde_json::Value::Array(a) => JsonValue::Array(
            a.into_iter().map(convert_value).collect(),
        ),
        serde_json::Value::Object(o) => JsonValue::Object(
            o.into_iter().map(|(k, x)| (k, convert_value(x))).collect(),
        ),
    }
}

/// Relies on `serde_json::from_str`: whether a text frame parses as JSON, and
/// to what document, depends on the text alone.
#[verifier::external_body]
pub(crate) fn parse_json(s: &str) -> (r: Option<JsonValue>)
    ensures
        r == json_of(s@),
{
    match serde_json::from_str::<serde_json::Value>(s) {
        Ok(v) => Some(convert_value(v)),
        Err(_) => None,
    }
}

} // verus!
