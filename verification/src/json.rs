//! A plain model of a JSON document, and field lookup in a JSON object.

use vstd::prelude::*;

verus! {

/// A JSON value, as far as the decoders read one.
///
/// Numbers carry no payload: no decoder in this library reads a numeric
/// value, it only ever rejects one for having the wrong shape. Object
/// fields keep the order in which they were put there; lookup takes the
/// first binding of a key.
pub enum JsonValue {
    Null,
    Bool(bool),
    Number,
    Str(String),
    Arr(Vec<JsonValue>),
    Obj(Vec<(String, JsonValue)>),
}

#[verifier::external_type_specification]
#[verifier::external_body]
pub struct ExSerdeJsonValue(serde_json::Value);

/// The `JsonValue` that a given JSON text parses to, if it is well-formed:
/// the value that `serde_json::from_str` yields on that text, translated
/// variant by variant into this library's model. Both steps depend on the
/// text alone, so this is a function of the text.
pub uninterp spec fn json_of_text(text: Seq<char>) -> Option<JsonValue>;

/// Relies on `serde_json::from_str::<serde_json::Value>`: parses JSON text
/// into a value tree, or fails when the text is not acceptable JSON (not
/// well-formed, or nested beyond the parser's recursion limit). The result
/// is handed over as this library's `JsonValue`.
#[verifier::external_body]
pub(crate) fn parse_json(text: &str) -> (r: Option<JsonValue>)
    ensures
        r == json_of_text(text@),
{
    match serde_json::from_str::<serde_json::Value>(text) {
        Ok(v) => Some(json_value_of(v)),
        Err(_) => None,
    }
}

/// The translation layer of `parse_json`. Relies on the variants of
/// `serde_json::Value`: each is carried over one for one, except that a
/// number's payload is dropped (no decoder here reads one). Object fields
/// come out in the order the map hands them out (sorted by key, the map
/// being a `BTreeMap`), with each key bound once.
#[verifier::external_body]
fn json_value_of(v: serde_json::Value) -> JsonValue {
    match v {
        serde_json::Value::Null => JsonValue::Null,
        serde_json::Value::Bool(b) => JsonValue::Bool(b),
        serde_json::Value::Number(_) => JsonValue::Number,
        serde_json::Value::String(s) => JsonValue::Str(s),
        serde_json::Value::Array(a) => JsonValue::Arr(a.into_iter().map(json_value_of).collect()),
        serde_json::Value::Object(m) => JsonValue::Obj(
            m.into_iter().map(|f| (f.0, json_value_of(f.1))).collect(),
        ),
    }
}

/// The first binding of `key` among `fields`, if any.
pub open spec fn spec_lookup(fields: Seq<(String, JsonValue)>, key: Seq<char>) -> Option<JsonValue>
    decreases fields.len(),
{
    if fields.len() == 0 {
        None
    } else if fields[0].0@ == key {
        Some(fields[0].1)
    } else {
        spec_lookup(fields.drop_first(), key)
    }
}

/// Finds the first field named `key` in a decoded JSON object.
pub fn lookup<'a>(fields: &'a Vec<(String, JsonValue)>, key: &str) -> (r: Option<&'a JsonValue>)
    ensures
        match r {
            Some(v) => spec_lookup(fields@, key@) == Some(*v),
            None => spec_lookup(fields@, key@) is None,
        },
{
    let owned_key: String = key.to_owned();
    let mut i: usize = 0;
    proof {
        assert(fields@.skip(0) =~= fields@);
    }
    while i < fields.len()
        invariant
            i <= fields.len(),
            owned_key@ == key@,
            spec_lookup(fields@, key@) == spec_lookup(fields@.skip(i as int), key@),
        decreases fields.len() - i,
    {
        proof {
            assert(fields@.skip(i as int)[0] == fields@[i as int]);
        }
        if fields[i].0 == owned_key {
            return Some(&fields[i].1);
        }
        proof {
            assert(fields@.skip(i as int).drop_first() =~= fields@.skip(i as int + 1));
        }
        i = i + 1;
    }
    proof {
        assert(fields@.skip(fields@.len() as int) =~= Seq::<(String, JsonValue)>::empty());
    }
    None
}

} // verus!
