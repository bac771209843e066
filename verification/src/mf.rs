//! The h-entry data model and its decoders.

use vstd::prelude::*;

use crate::error::DecodeError;
use crate::json::{json_of_text, lookup, parse_json, spec_lookup, JsonValue};

verus! {

/// The properties of an h-entry.
#[derive(Debug, PartialEq, Eq)]
pub struct EntryProps {
    /// Optional on the wire; defaults to the empty string.
    pub title: String,
    /// Required on the wire; read through the scalar coercion routine.
    pub content: String,
    /// Read from the JSON key `category`; required, must be an array of
    /// strings, order preserved. May be empty.
    pub categories: Vec<String>,
}

/// The mathematical value of an `EntryProps`.
pub struct EntryPropsV {
    pub title: Seq<char>,
    pub content: Seq<char>,
    pub categories: Seq<Seq<char>>,
}

impl View for EntryProps {
    type V = EntryPropsV;

    open spec fn view(&self) -> EntryPropsV {
        EntryPropsV {
            title: self.title@,
            content: self.content@,
            categories: self.categories.deep_view(),
        }
    }
}

// ---------------------------------------------------------------------------
// The scalar coercion routine: "string or singleton array".
// ---------------------------------------------------------------------------

/// What the scalar coercion routine yields on a JSON value: the string
/// itself; the first element of an array, which must itself be a string;
/// an error on an empty array or on any other shape. Elements after the
/// first are never inspected.
pub open spec fn spec_string_or_array(v: JsonValue) -> Result<Seq<char>, DecodeError> {
    match v {
        JsonValue::Str(s) => Ok(s@),
        JsonValue::Arr(elems) => if elems@.len() == 0 {
            Err(DecodeError::EmptySequence)
        } else {
            match elems@[0] {
                JsonValue::Str(s) => Ok(s@),
                _ => Err(DecodeError::TypeMismatch),
            }
        },
        _ => Err(DecodeError::TypeMismatch),
    }
}

/// Normalizes a "string or singleton array of strings" JSON shape to the
/// plain string it denotes. A longer array is silently truncated to its
/// first element.
pub fn string_or_array(v: &JsonValue) -> (r: Result<String, DecodeError>)
    ensures
        match r {
            Ok(s) => spec_string_or_array(*v) == Ok::<Seq<char>, DecodeError>(s@),
            Err(e) => spec_string_or_array(*v) == Err::<Seq<char>, DecodeError>(e),
        },
{
    match v {
        JsonValue::Str(s) => Ok(s.clone()),
        JsonValue::Arr(elems) => if elems.len() == 0 {
            Err(DecodeError::EmptySequence)
        } else {
            match &elems[0] {
                JsonValue::Str(s) => Ok(s.clone()),
                _ => Err(DecodeError::TypeMismatch),
            }
        },
        _ => Err(DecodeError::TypeMismatch),
    }
}

// ---------------------------------------------------------------------------
// Arrays of strings (the `category` field).
// ---------------------------------------------------------------------------

/// Whether every element of `elems` is a JSON string.
pub open spec fn all_strings(elems: Seq<JsonValue>) -> bool {
    forall|i: int| 0 <= i < elems.len() ==> elems[i] is Str
}

/// The characters of a JSON string value.
pub open spec fn spec_str_of(v: JsonValue) -> Seq<char> {
    match v {
        JsonValue::Str(s) => s@,
        _ => Seq::empty(),
    }
}

/// The strings held by `elems`, element by element.
pub open spec fn string_views(elems: Seq<JsonValue>) -> Seq<Seq<char>> {
    elems.map_values(|v: JsonValue| spec_str_of(v))
}

/// What decoding a JSON array of strings yields: the strings in their
/// given order, or an error when the value is not an array or some
/// element is not a string.
pub open spec fn spec_string_array(v: JsonValue) -> Result<Seq<Seq<char>>, DecodeError> {
    match v {
        JsonValue::Arr(elems) => if all_strings(elems@) {
            Ok(string_views(elems@))
        } else {
            Err(DecodeError::TypeMismatch)
        },
        _ => Err(DecodeError::TypeMismatch),
    }
}

/// Decodes a JSON array of strings verbatim, order preserved.
pub fn string_array(v: &JsonValue) -> (r: Result<Vec<String>, DecodeError>)
    ensures
        match r {
            Ok(out) => spec_string_array(*v) == Ok::<Seq<Seq<char>>, DecodeError>(out.deep_view()),
            Err(e) => spec_string_array(*v) == Err::<Seq<Seq<char>>, DecodeError>(e),
        },
{
    match v {
        JsonValue::Arr(elems) => {
            let mut out: Vec<String> = Vec::new();
            let mut i: usize = 0;
            while i < elems.len()
                invariant
                    *v == JsonValue::Arr(*elems),
                    i <= elems.len(),
                    out@.len() == i,
                    forall|j: int| 0 <= j < i ==> elems@[j] is Str,
                    forall|j: int| 0 <= j < i ==> out@[j]@ == spec_str_of(elems@[j]),
                decreases elems@.len() - i,
            {
                match &elems[i] {
                    JsonValue::Str(s) => out.push(s.clone()),
                    _ => {
                        proof {
                            assert(!all_strings(elems@)) by {
                                assert(!(elems@[i as int] is Str));
                            }
                        }
                        return Err(DecodeError::TypeMismatch);
                    },
                }
                i = i + 1;
            }
            proof {
                assert(out.deep_view() =~= string_views(elems@));
            }
            Ok(out)
        },
        _ => Err(DecodeError::TypeMismatch),
    }
}

// ---------------------------------------------------------------------------
// Decoding `EntryProps`.
// ---------------------------------------------------------------------------

/// The title of a decoded properties object: absent defaults to the empty
/// string; present, it must be a bare JSON string.
pub open spec fn spec_title(fields: Seq<(String, JsonValue)>) -> Result<Seq<char>, DecodeError> {
    match spec_lookup(fields, "title"@) {
        None => Ok(Seq::empty()),
        Some(tv) => match tv {
            JsonValue::Str(s) => Ok(s@),
            _ => Err(DecodeError::TypeMismatch),
        },
    }
}

/// What decoding a JSON value into `EntryProps` yields. The value must be
/// an object; `content` is required and coerced, `category` is required
/// and must be an array of strings, `title` is optional. The fields are
/// examined in that order, and the first failure is the result.
pub open spec fn spec_decode_entry_props(v: JsonValue) -> Result<EntryPropsV, DecodeError> {
    match v {
        JsonValue::Obj(fields) => match spec_lookup(fields@, "content"@) {
            None => Err(DecodeError::MissingField),
            Some(cv) => match spec_string_or_array(cv) {
                Err(e) => Err(e),
                Ok(content) => match spec_lookup(fields@, "category"@) {
                    None => Err(DecodeError::MissingField),
                    Some(gv) => match spec_string_array(gv) {
                        Err(e) => Err(e),
                        Ok(categories) => match spec_title(fields@) {
                            Err(e) => Err(e),
                            Ok(title) => Ok(EntryPropsV { title, content, categories }),
                        },
                    },
                },
            },
        },
        _ => Err(DecodeError::TypeMismatch),
    }
}

impl EntryProps {
    /// Decodes a JSON object into an `EntryProps` record.
    pub fn from_json_value(v: &JsonValue) -> (r: Result<EntryProps, DecodeError>)
        ensures
            match r {
                Ok(p) => spec_decode_entry_props(*v) == Ok::<EntryPropsV, DecodeError>(p@),
                Err(e) => spec_decode_entry_props(*v) == Err::<EntryPropsV, DecodeError>(e),
            },
    {
        match v {
            JsonValue::Obj(fields) => {
                let content: String = match lookup(fields, "content") {
                    None => {
                        return Err(DecodeError::MissingField);
                    },
                    Some(cv) => match string_or_array(cv) {
                        Err(e) => {
                            return Err(e);
                        },
                        Ok(s) => s,
                    },
                };
                let categories: Vec<String> = match lookup(fields, "category") {
                    None => {
                        return Err(DecodeError::MissingField);
                    },
                    Some(gv) => match string_array(gv) {
                        Err(e) => {
                            return Err(e);
                        },
                        Ok(cs) => cs,
                    },
                };
                let title: String = match lookup(fields, "title") {
                    None => String::new(),
                    Some(tv) => match tv {
                        JsonValue::Str(s) => s.clone(),
                        _ => {
                            return Err(DecodeError::TypeMismatch);
                        },
                    },
                };
                Ok(EntryProps { title, content, categories })
            },
            _ => Err(DecodeError::TypeMismatch),
        }
    }
}

// ---------------------------------------------------------------------------
// `Entry`: a standalone record whose own `type` field is coerced.
// ---------------------------------------------------------------------------

/// A standalone entry record. Unlike `MFEntry`, its `entry_type` field is
/// read through the scalar coercion routine, and an unrecognized type is
/// kept as-is rather than collapsed to a fallback.
#[derive(Debug, PartialEq, Eq)]
pub struct Entry {
    /// Read from the JSON key `type`, through the scalar coercion routine.
    pub entry_type: String,
    /// Required nested properties record.
    pub properties: EntryProps,
}

/// The mathematical value of an `Entry`.
pub struct EntryV {
    pub entry_type: Seq<char>,
    pub properties: EntryPropsV,
}

impl View for Entry {
    type V = EntryV;

    open spec fn view(&self) -> EntryV {
        EntryV { entry_type: self.entry_type@, properties: self.properties@ }
    }
}

/// What decoding a JSON value into an `Entry` yields: the value must be
/// an object with a coercible `type` field and a `properties` object,
/// both required.
pub open spec fn spec_decode_entry(v: JsonValue) -> Result<EntryV, DecodeError> {
    match v {
        JsonValue::Obj(fields) => match spec_lookup(fields@, "type"@) {
            None => Err(DecodeError::MissingField),
            Some(tv) => match spec_string_or_array(tv) {
                Err(e) => Err(e),
                Ok(entry_type) => match spec_lookup(fields@, "properties"@) {
                    None => Err(DecodeError::MissingField),
                    Some(pv) => match spec_decode_entry_props(pv) {
                        Err(e) => Err(e),
                        Ok(properties) => Ok(EntryV { entry_type, properties }),
                    },
                },
            },
        },
        _ => Err(DecodeError::TypeMismatch),
    }
}

impl Entry {
    /// Decodes a JSON object into an `Entry` record.
    pub fn from_json_value(v: &JsonValue) -> (r: Result<Entry, DecodeError>)
        ensures
            match r {
                Ok(entry) => spec_decode_entry(*v) == Ok::<EntryV, DecodeError>(entry@),
                Err(e) => spec_decode_entry(*v) == Err::<EntryV, DecodeError>(e),
            },
    {
        match v {
            JsonValue::Obj(fields) => {
                let entry_type: String = match lookup(fields, "type") {
                    None => {
                        return Err(DecodeError::MissingField);
                    },
                    Some(tv) => match string_or_array(tv) {
                        Err(e) => {
                            return Err(e);
                        },
                        Ok(s) => s,
                    },
                };
                let properties: EntryProps = match lookup(fields, "properties") {
                    None => {
                        return Err(DecodeError::MissingField);
                    },
                    Some(pv) => match EntryProps::from_json_value(pv) {
                        Err(e) => {
                            return Err(e);
                        },
                        Ok(p) => p,
                    },
                };
                Ok(Entry { entry_type, properties })
            },
            _ => Err(DecodeError::TypeMismatch),
        }
    }
}

// ---------------------------------------------------------------------------
// `MFEntry`: variant dispatch on the `type` discriminator.
// ---------------------------------------------------------------------------

/// A tagged entry. The variant is chosen solely by the string value of the
/// `type` discriminator: `"h-entry"` selects `Entry`, every other string
/// falls back to `Unknown` silently, its `properties` discarded unread.
#[derive(Debug, PartialEq, Eq)]
pub enum MFEntry {
    Entry(EntryProps),
    Unknown,
}

/// The mathematical value of an `MFEntry`.
pub enum MFEntryV {
    Entry(EntryPropsV),
    Unknown,
}

impl View for MFEntry {
    type V = MFEntryV;

    open spec fn view(&self) -> MFEntryV {
        match self {
            MFEntry::Entry(p) => MFEntryV::Entry(p@),
            MFEntry::Unknown => MFEntryV::Unknown,
        }
    }
}

/// What decoding a JSON value into an `MFEntry` yields. The value must be
/// an object whose `type` field is a bare string (no coercion here). The
/// tag `"h-entry"` selects the `Entry` variant and decodes `properties`,
/// which must then be present and well-formed; any other tag yields
/// `Unknown` without looking at `properties` at all.
pub open spec fn spec_decode_mfentry(v: JsonValue) -> Result<MFEntryV, DecodeError> {
    match v {
        JsonValue::Obj(fields) => match spec_lookup(fields@, "type"@) {
            None => Err(DecodeError::MissingField),
            Some(tv) => match tv {
                JsonValue::Str(tag) => if tag@ == "h-entry"@ {
                    match spec_lookup(fields@, "properties"@) {
                        None => Err(DecodeError::MissingField),
                        Some(pv) => match spec_decode_entry_props(pv) {
                            Err(e) => Err(e),
                            Ok(p) => Ok(MFEntryV::Entry(p)),
                        },
                    }
                } else {
                    Ok(MFEntryV::Unknown)
                },
                _ => Err(DecodeError::TypeMismatch),
            },
        },
        _ => Err(DecodeError::TypeMismatch),
    }
}

impl MFEntry {
    /// Decodes a JSON object into an `MFEntry`, dispatching on the `type`
    /// discriminator.
    pub fn from_json_value(v: &JsonValue) -> (r: Result<MFEntry, DecodeError>)
        ensures
            match r {
                Ok(m) => spec_decode_mfentry(*v) == Ok::<MFEntryV, DecodeError>(m@),
                Err(e) => spec_decode_mfentry(*v) == Err::<MFEntryV, DecodeError>(e),
            },
    {
        match v {
            JsonValue::Obj(fields) => {
                let tag: &String = match lookup(fields, "type") {
                    None => {
                        return Err(DecodeError::MissingField);
                    },
                    Some(tv) => match tv {
                        JsonValue::Str(s) => s,
                        _ => {
                            return Err(DecodeError::TypeMismatch);
                        },
                    },
                };
                let known: String = "h-entry".to_owned();
                if *tag == known {
                    match lookup(fields, "properties") {
                        None => Err(DecodeError::MissingField),
                        Some(pv) => match EntryProps::from_json_value(pv) {
                            Err(e) => Err(e),
                            Ok(p) => Ok(MFEntry::Entry(p)),
                        },
                    }
                } else {
                    Ok(MFEntry::Unknown)
                }
            },
            _ => Err(DecodeError::TypeMismatch),
        }
    }
}

// ---------------------------------------------------------------------------
// Decoding straight from JSON text.
// ---------------------------------------------------------------------------

impl EntryProps {
    /// Parses JSON text and decodes it into an `EntryProps` record.
    /// Text that is not well-formed JSON is reported as `Syntax`.
    pub fn from_json_str(text: &str) -> (r: Result<EntryProps, DecodeError>)
        ensures
            match json_of_text(text@) {
                None => r == Err::<EntryProps, DecodeError>(DecodeError::Syntax),
                Some(v) => match r {
                    Ok(p) => spec_decode_entry_props(v) == Ok::<EntryPropsV, DecodeError>(p@),
                    Err(e) => spec_decode_entry_props(v) == Err::<EntryPropsV, DecodeError>(e),
                },
            },
    {
        match parse_json(text) {
            None => Err(DecodeError::Syntax),
            Some(v) => EntryProps::from_json_value(&v),
        }
    }
}

impl Entry {
    /// Parses JSON text and decodes it into an `Entry` record.
    /// Text that is not well-formed JSON is reported as `Syntax`.
    pub fn from_json_str(text: &str) -> (r: Result<Entry, DecodeError>)
        ensures
            match json_of_text(text@) {
                None => r == Err::<Entry, DecodeError>(DecodeError::Syntax),
                Some(v) => match r {
                    Ok(entry) => spec_decode_entry(v) == Ok::<EntryV, DecodeError>(entry@),
                    Err(e) => spec_decode_entry(v) == Err::<EntryV, DecodeError>(e),
                },
            },
    {
        match parse_json(text) {
            None => Err(DecodeError::Syntax),
            Some(v) => Entry::from_json_value(&v),
        }
    }
}

impl MFEntry {
    /// Parses JSON text and decodes it into an `MFEntry`.
    /// Text that is not well-formed JSON is reported as `Syntax`.
    pub fn from_json_str(text: &str) -> (r: Result<MFEntry, DecodeError>)
        ensures
            match json_of_text(text@) {
                None => r == Err::<MFEntry, DecodeError>(DecodeError::Syntax),
                Some(v) => match r {
                    Ok(m) => spec_decode_mfentry(v) == Ok::<MFEntryV, DecodeError>(m@),
                    Err(e) => spec_decode_mfentry(v) == Err::<MFEntryV, DecodeError>(e),
                },
            },
    {
        match parse_json(text) {
            None => Err(DecodeError::Syntax),
            Some(v) => MFEntry::from_json_value(&v),
        }
    }
}

// ---------------------------------------------------------------------------
// Laws of the coercion routine and of the decoders.
// ---------------------------------------------------------------------------

/// Coercing a bare JSON string yields that string unchanged.
pub proof fn lemma_coerce_bare_string(s: String)
    ensures
        spec_string_or_array(JsonValue::Str(s)) == Ok::<Seq<char>, DecodeError>(s@),
{
}

/// Coercing the singleton array `[s]` yields the same result as coercing
/// the bare string `s`: the two shapes are observationally equivalent.
pub proof fn lemma_coerce_singleton(elems: Vec<JsonValue>, s: String)
    requires
        elems@.len() == 1,
        elems@[0] == JsonValue::Str(s),
    ensures
        spec_string_or_array(JsonValue::Arr(elems)) == spec_string_or_array(JsonValue::Str(s)),
{
}

/// Coercing an array of two or more elements whose first element is the
/// string `s` yields `s` alone: elements after the first are discarded
/// and never cause an error.
pub proof fn lemma_coerce_takes_first(elems: Vec<JsonValue>, s: String)
    requires
        elems@.len() >= 2,
        elems@[0] == JsonValue::Str(s),
    ensures
        spec_string_or_array(JsonValue::Arr(elems)) == Ok::<Seq<char>, DecodeError>(s@),
{
}

/// Coercion reads nothing but the first element: two non-empty arrays
/// that agree on it coerce to the same result.
pub proof fn lemma_coerce_ignores_tail(a: Vec<JsonValue>, b: Vec<JsonValue>)
    requires
        a@.len() >= 1,
        b@.len() >= 1,
        a@[0] == b@[0],
    ensures
        spec_string_or_array(JsonValue::Arr(a)) == spec_string_or_array(JsonValue::Arr(b)),
{
}

/// Coercing the empty array fails with `EmptySequence`.
pub proof fn lemma_coerce_empty_array(elems: Vec<JsonValue>)
    requires
        elems@.len() == 0,
    ensures
        spec_string_or_array(JsonValue::Arr(elems)) == Err::<Seq<char>, DecodeError>(
            DecodeError::EmptySequence,
        ),
{
}

/// Coercing any JSON value that is neither a string nor an array fails
/// with `TypeMismatch`.
pub proof fn lemma_coerce_wrong_shape(v: JsonValue)
    requires
        !(v is Str),
        !(v is Arr),
    ensures
        spec_string_or_array(v) == Err::<Seq<char>, DecodeError>(DecodeError::TypeMismatch),
{
}

/// An object whose `type` discriminator is any string other than
/// `"h-entry"` decodes to `Unknown`, whatever its `properties` field
/// holds — even nothing at all.
pub proof fn lemma_unknown_tag_decodes_to_unknown(fields: Vec<(String, JsonValue)>, tag: String)
    requires
        spec_lookup(fields@, "type"@) == Some(JsonValue::Str(tag)),
        tag@ != "h-entry"@,
    ensures
        spec_decode_mfentry(JsonValue::Obj(fields)) == Ok::<MFEntryV, DecodeError>(
            MFEntryV::Unknown,
        ),
{
}

/// A properties object without a `category` field fails with
/// `MissingField`, even when `content` is present and coercible.
pub proof fn lemma_missing_category_fails(fields: Vec<(String, JsonValue)>, cv: JsonValue)
    requires
        spec_lookup(fields@, "content"@) == Some(cv),
        spec_string_or_array(cv) is Ok,
        spec_lookup(fields@, "category"@) is None,
    ensures
        spec_decode_entry_props(JsonValue::Obj(fields)) == Err::<EntryPropsV, DecodeError>(
            DecodeError::MissingField,
        ),
{
}

/// A properties object without a `title` field decodes successfully when
/// `content` and `category` do, and its title defaults to the empty
/// string.
pub proof fn lemma_absent_title_defaults(
    fields: Vec<(String, JsonValue)>,
    cv: JsonValue,
    gv: JsonValue,
    content: Seq<char>,
    categories: Seq<Seq<char>>,
)
    requires
        spec_lookup(fields@, "title"@) is None,
        spec_lookup(fields@, "content"@) == Some(cv),
        spec_string_or_array(cv) == Ok::<Seq<char>, DecodeError>(content),
        spec_lookup(fields@, "category"@) == Some(gv),
        spec_string_array(gv) == Ok::<Seq<Seq<char>>, DecodeError>(categories),
    ensures
        spec_decode_entry_props(JsonValue::Obj(fields)) == Ok::<EntryPropsV, DecodeError>(
            EntryPropsV { title: Seq::empty(), content, categories },
        ),
{
}

} // verus!
