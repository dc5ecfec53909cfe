//! The library's own JSON value type, and the trusted parse that produces it.
//!
//! The wire format's metadata member is JSON text. Parsing the text is
//! delegated to an outside parser behind a trusted wrapper; everything that
//! reads the parsed tree afterwards is verified code over [`Json`].

use vstd::prelude::*;

use crate::error::PyxelError;

verus! {

/// A JSON value, held as plain data.
///
/// Numbers the document format cares about are 64-bit integers; a number
/// that is not one (fractional, or beyond 64 bits) is kept as
/// [`Json::OtherNum`], so that unknown fields holding such numbers still
/// parse and are ignored.
pub enum Json {
    /// The JSON `null` value.
    Null,
    /// A JSON boolean.
    Bool(bool),
    /// A JSON number that is a non-negative 64-bit integer.
    UInt(u64),
    /// A JSON number that is a negative 64-bit integer.
    SInt(i64),
    /// Any other JSON number (fractional, or beyond 64 bits).
    OtherNum,
    /// A JSON string.
    Str(String),
    /// A JSON array.
    Arr(Vec<Json>),
    /// A JSON object: fields in source order, possibly with repeated names.
    Obj(Vec<(String, Json)>),
}

/// The first field of `fields` named `name`, if any.
pub open spec fn spec_lookup(fields: Seq<(String, Json)>, name: Seq<char>) -> Option<Json>
    decreases fields.len(),
{
    if fields.len() == 0 {
        None
    } else if fields[0].0@ == name {
        Some(fields[0].1)
    } else {
        spec_lookup(fields.drop_first(), name)
    }
}

/// Looks a field up by name; the first field of that name wins.
pub fn lookup<'a>(fields: &'a Vec<(String, Json)>, name: &str) -> (r: Option<&'a Json>)
    ensures
        match r {
            Some(j) => spec_lookup(fields@, name@) == Some(*j),
            None => spec_lookup(fields@, name@) is None,
        },
{
    let needle: String = String::from_str(name);
    let mut i: usize = 0;
    proof {
        assert(fields@.skip(0) =~= fields@);
    }
    while i < fields.len()
        invariant
            i <= fields@.len(),
            needle@ == name@,
            spec_lookup(fields@.skip(i as int), name@) == spec_lookup(fields@, name@),
        decreases fields@.len() - i,
    {
        proof {
            assert(fields@.skip(i as int)[0] == fields@[i as int]);
        }
        if fields[i].0 == needle {
            return Some(&fields[i].1);
        }
        proof {
            assert(fields@.skip(i as int).drop_first() =~= fields@.skip(i + 1));
        }
        i = i + 1;
    }
    proof {
        assert(fields@.skip(fields@.len() as int).len() == 0);
    }
    None
}

/// What the outside JSON parser yields on a byte sequence: the parsed tree,
/// or `None` where the bytes are not a valid JSON document. The result is a
/// function of the bytes alone.
pub uninterp spec fn json_of(bytes: Seq<u8>) -> Option<Json>;

/// Relies on `serde_json::from_slice`: parses a JSON text, deterministically
/// in the bytes, and rejects anything that is not a valid JSON document.
#[verifier::external_body]
pub(crate) fn parse_json(bytes: &[u8]) -> (r: Result<Json, PyxelError>)
    ensures
        match r {
            Ok(j) => json_of(bytes@) == Some(j),
            Err(e) => json_of(bytes@) is None && e is Serde,
        },
{
    match serde_json::from_slice::<serde_json::Value>(bytes) {
        Ok(v) => Ok(from_value(v)),
        Err(e) => Err(PyxelError::Serde(format!("invalid JSON in docData.json: {}", e))),
    }
}

/// Relies on `serde_json::Value`, `serde_json::Number::as_u64` and
/// `serde_json::Number::as_i64`: folds a parsed JSON tree into the library's
/// own value type, variant by variant, keeping 64-bit integers and turning
/// every other number into [`Json::OtherNum`].
#[verifier::external_body]
fn from_value(v: serde_json::Value) -> Json {
    match v {
        serde_json::Value::Null => Json::Null,
        serde_json::Value::Bool(b) => Json::Bool(b),
        serde_json::Value::Number(n) => match (n.as_u64(), n.as_i64()) {
            (Some(u), _) => Json::UInt(u),
            (None, Some(m)) => Json::SInt(m),
            (None, None) => Json::OtherNum,
        },
        serde_json::Value::String(s) => Json::Str(s),
        serde_json::Value::Array(a) => Json::Arr(a.into_iter().map(from_value).collect()),
        serde_json::Value::Object(o) => Json::Obj(
            o.into_iter().map(|(k, val)| (k, from_value(val))).collect(),
        ),
    }
}

/// `serde_json`'s parsed JSON tree, carried only between the parse call and
/// the fold into [`Json`].
#[verifier::external_type_specification]
#[verifier::external_body]
pub struct ExValue(serde_json::Value);

} // verus!
