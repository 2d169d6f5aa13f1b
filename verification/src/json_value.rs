//! A small JSON document model, shaped for this schema: objects and strings
//! are kept in full, unsigned integers keep their value, and every other
//! JSON value collapses to `Other` (nothing in the schema reads one). The
//! text form of a document is the business of serde_json, behind the trusted
//! items at the end of this file; all logic above them is verified against
//! the `lookup` model.

use vstd::prelude::*;

verus! {

/// One parsed JSON value.
#[derive(Debug, PartialEq)]
pub enum JsonValue {
    /// A value the schema never reads: null, a boolean, a fractional or
    /// negative number, or an array.
    Other,
    /// A number with an unsigned integer value.
    Num(u64),
    /// A string.
    Str(String),
    /// An object: its fields in order of appearance.
    Obj(Vec<(String, JsonValue)>),
}

/// First field of `fields` whose name is `key`, if any.
pub open spec fn obj_fields_lookup(fields: Seq<(String, JsonValue)>, key: Seq<char>) -> Option<
    JsonValue,
>
    decreases fields.len(),
{
    if fields.len() == 0 {
        None
    } else if fields[0].0@ == key {
        Some(fields[0].1)
    } else {
        obj_fields_lookup(fields.drop_first(), key)
    }
}

/// Field `key` of `v`: `None` when `v` is not an object or has no such field.
pub open spec fn lookup(v: JsonValue, key: Seq<char>) -> Option<JsonValue> {
    match v {
        JsonValue::Obj(fields) => obj_fields_lookup(fields@, key),
        _ => None,
    }
}

/// The characters of a string value; empty for every other value.
pub open spec fn str_of(v: JsonValue) -> Seq<char> {
    match v {
        JsonValue::Str(s) => s@,
        _ => Seq::empty(),
    }
}

/// The integer of a number value; zero for every other value.
pub open spec fn num_of(v: JsonValue) -> u64 {
    match v {
        JsonValue::Num(u) => u,
        _ => 0,
    }
}

pub proof fn lemma_lookup_found(fields: Seq<(String, JsonValue)>, key: Seq<char>, i: int)
    requires
        0 <= i < fields.len(),
        fields[i].0@ == key,
        forall|t: int| 0 <= t < i ==> fields[t].0@ != key,
    ensures
        obj_fields_lookup(fields, key) == Some(fields[i].1),
    decreases i,
{
    if i > 0 {
        lemma_lookup_found(fields.drop_first(), key, i - 1);
    }
}

pub proof fn lemma_lookup_absent(fields: Seq<(String, JsonValue)>, key: Seq<char>)
    requires
        forall|t: int| 0 <= t < fields.len() ==> fields[t].0@ != key,
    ensures
        obj_fields_lookup(fields, key) is None,
    decreases fields.len(),
{
    if fields.len() > 0 {
        lemma_lookup_absent(fields.drop_first(), key);
    }
}

/// First field of `fields` whose name is `key`.
fn find_field<'a>(fields: &'a Vec<(String, JsonValue)>, key: &str) -> (r: Option<&'a JsonValue>)
    ensures
        match r {
            Some(f) => obj_fields_lookup(fields@, key@) == Some(*f),
            None => obj_fields_lookup(fields@, key@) is None,
        },
{
    let k: String = key.to_owned();
    let n = fields.len();
    let mut j: usize = 0;
    while j < n
        invariant
            n == fields@.len(),
            j <= n,
            k@ == key@,
            forall|t: int| 0 <= t < j ==> fields@[t].0@ != key@,
        decreases n - j,
    {
        if fields[j].0 == k {
            proof {
                lemma_lookup_found(fields@, key@, j as int);
            }
            return Some(&fields[j].1);
        }
        j += 1;
    }
    proof {
        lemma_lookup_absent(fields@, key@);
    }
    None
}

/// Field `key` of `v`, by the first field of that name.
pub fn get_field<'a>(v: &'a JsonValue, key: &str) -> (r: Option<&'a JsonValue>)
    ensures
        match r {
            Some(f) => lookup(*v, key@) == Some(*f),
            None => lookup(*v, key@) is None,
        },
{
    match v {
        JsonValue::Obj(fields) => find_field(fields, key),
        _ => None,
    }
}

/// The string inside a string value.
pub fn str_value<'a>(v: &'a JsonValue) -> (r: Option<&'a String>)
    ensures
        r is Some <==> v is Str,
        r matches Some(s) ==> s@ == str_of(*v),
{
    match v {
        JsonValue::Str(s) => Some(s),
        _ => None,
    }
}

#[verifier::external_type_specification]
#[verifier::external_body]
pub struct ExSerdeValue(serde_json::Value);

/// What parsing a text as JSON yields: a function of the text alone.
pub uninterp spec fn parsed_json(s: Seq<char>) -> Option<JsonValue>;

/// What rendering a value as compact JSON text yields: a function of the
/// value alone.
pub uninterp spec fn rendered_json(v: JsonValue) -> Seq<char>;

/// What rendering a value as pretty-printed JSON text yields: a function of
/// the value alone.
pub uninterp spec fn pretty_json(v: JsonValue) -> Seq<char>;

/// Carries a parsed serde_json value over into this crate's model, one
/// variant at a time: object fields and strings are kept, numbers keep their
/// unsigned integer value when they have one, everything else becomes
/// `Other`. Only the trusted parse function below calls it.
#[verifier::external_body]
fn from_serde(v: serde_json::Value) -> JsonValue {
    match v {
        serde_json::Value::String(s) => JsonValue::Str(s),
        serde_json::Value::Number(n) => match n.as_u64() {
            Some(u) => JsonValue::Num(u),
            None => JsonValue::Other,
        },
        serde_json::Value::Object(m) => JsonValue::Obj(
            m.into_iter().map(|(k, w)| (k, from_serde(w))).collect(),
        ),
        _ => JsonValue::Other,
    }
}

/// Carries a value of this crate's model over to serde_json, one variant at
/// a time; `Other` goes out as null (the schema never renders one). Only the
/// two trusted render functions below call it.
#[verifier::external_body]
fn to_serde(v: &JsonValue) -> serde_json::Value {
    match v {
        JsonValue::Other => serde_json::Value::Null,
        JsonValue::Num(u) => serde_json::Value::from(*u),
        JsonValue::Str(s) => serde_json::Value::String(s.clone()),
        JsonValue::Obj(fields) => serde_json::Value::Object(
            fields.iter().map(|p| (p.0.clone(), to_serde(&p.1))).collect(),
        ),
    }
}

/// Relies on serde_json::from_str::<serde_json::Value>: the parse result
/// depends on the text alone; malformed text gives `None`.
#[verifier::external_body]
pub fn parse_json_text(s: &str) -> (r: Option<JsonValue>)
    ensures
        r == parsed_json(s@),
{
    match serde_json::from_str::<serde_json::Value>(s) {
        Ok(v) => Some(from_serde(v)),
        Err(_) => None,
    }
}

/// Relies on serde_json::to_string: the compact text depends on the value
/// alone (object fields come out keyed and ordered by name).
#[verifier::external_body]
pub fn render_json_text(v: &JsonValue) -> (r: String)
    ensures
        r@ == rendered_json(*v),
{
    match serde_json::to_string(&to_serde(v)) {
        Ok(s) => s,
        Err(_) => String::new(),
    }
}

/// Relies on serde_json::to_string_pretty: the pretty text depends on the
/// value alone (object fields come out keyed and ordered by name).
#[verifier::external_body]
pub fn render_json_pretty(v: &JsonValue) -> (r: String)
    ensures
        r@ == pretty_json(*v),
{
    match serde_json::to_string_pretty(&to_serde(v)) {
        Ok(s) => s,
        Err(_) => String::new(),
    }
}

} // verus!
