use vstd::prelude::*;

verus! {

/// A JSON-compatible value: the payload model of the wire protocol.
///
/// Floating-point numbers are not part of this model; a payload carries
/// null, booleans, integers, strings, arrays and objects. An object is a
/// list of key/value pairs in insertion order.
#[derive(Debug, PartialEq, Eq)]
pub enum JsonValue {
    Null,
    Bool(bool),
    Int(i64),
    Str(String),
    Arr(Vec<JsonValue>),
    Obj(Vec<(String, JsonValue)>),
}

/// True of a value that may stand in one of the three nullable string
/// slots of a wire envelope.
pub open spec fn is_nullable_str(v: JsonValue) -> bool {
    v is Null || v is Str
}

/// The string view of a nullable string slot: `None` for null, the
/// character sequence for a string.
pub open spec fn slot_view(v: JsonValue) -> Option<Seq<char>> {
    match v {
        JsonValue::Str(s) => Option::Some(s@),
        _ => Option::None,
    }
}

/// The JSON value that carries an optional string: null for `None`.
pub open spec fn opt_str_json(o: Option<String>) -> JsonValue {
    match o {
        Option::None => JsonValue::Null,
        Option::Some(s) => JsonValue::Str(s),
    }
}

/// The optional string held by a nullable string slot.
pub open spec fn json_opt_str(v: JsonValue) -> Option<String> {
    match v {
        JsonValue::Str(s) => Option::Some(s),
        _ => Option::None,
    }
}

/// The character-sequence view of an optional string.
pub open spec fn opt_str_view(o: Option<String>) -> Option<Seq<char>> {
    match o {
        Option::None => Option::None,
        Option::Some(s) => Option::Some(s@),
    }
}

/// True of an empty JSON object.
pub open spec fn is_empty_object(v: JsonValue) -> bool {
    &&& v matches JsonValue::Obj(fields)
    &&& fields@.len() == 0
}

impl JsonValue {
    /// True on the `Null` variant alone.
    pub fn is_null(&self) -> (r: bool)
        ensures
            r == (self is Null),
    {
        matches!(self, JsonValue::Null)
    }

    /// The string held by a `Str` value.
    pub fn as_str(&self) -> (r: Option<&String>)
        ensures
            match r {
                Option::Some(s) => *self == JsonValue::Str(*s),
                Option::None => !(*self is Str),
            },
    {
        match self {
            JsonValue::Str(s) => Some(s),
            _ => None,
        }
    }
}

/// A fresh empty JSON object.
pub fn empty_object() -> (r: JsonValue)
    ensures
        is_empty_object(r),
{
    JsonValue::Obj(Vec::new())
}

/// Clones an optional string, keeping its value.
pub fn clone_opt_str(o: &Option<String>) -> (r: Option<String>)
    ensures
        r == *o,
{
    match o {
        None => None,
        Some(s) => Some(s.clone()),
    }
}

/// String equality stated over views, usable against literals.
pub fn str_eq(a: &str, b: &str) -> (r: bool)
    ensures
        r == (a@ == b@),
{
    let left: String = a.to_owned();
    let right: String = b.to_owned();
    left == right
}

} // verus!
