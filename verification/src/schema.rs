//! The schema model: what the wire document looks like and how a theme moves
//! in and out of it. Deserialization reads a parsed JSON value by field
//! name; serialization builds the exact object shape that the remote server
//! expects, with `name`, `defaultMessages` and every template slot, and
//! without the server-managed fields.

use vstd::prelude::*;
use crate::error::ThemeError;
use crate::json_data::{Data, LocalizedMessages, Root, Theme, ThemeView};
use crate::json_value::{
    get_field, lemma_lookup_absent, lemma_lookup_found, lookup, num_of, parse_json_text,
    parsed_json, render_json_text, rendered_json, str_of, str_value, JsonValue,
};
use crate::slots::{json_name_at, slot_json_name, slot_value, templates_from_vec};
use crate::json_data::Templates;

verus! {

/// The string held by field `key`, or empty when the field is absent or not
/// a string.
pub open spec fn text_field(v: JsonValue, key: Seq<char>) -> Seq<char> {
    match lookup(v, key) {
        Some(f) => str_of(f),
        None => Seq::empty(),
    }
}

/// The integer held by field `key`, or zero when the field is absent or not
/// an unsigned number.
pub open spec fn num_field(v: JsonValue, key: Seq<char>) -> u64 {
    match lookup(v, key) {
        Some(f) => num_of(f),
        None => 0,
    }
}

/// Slot `i` of a templates object is present and holds a string.
pub open spec fn slot_ok(tj: JsonValue, i: int) -> bool {
    lookup(tj, slot_json_name(i)) matches Some(f) && f is Str
}

/// The text of slot `i` of a templates object.
pub open spec fn slot_text(tj: JsonValue, i: int) -> Seq<char> {
    match lookup(tj, slot_json_name(i)) {
        Some(f) => str_of(f),
        None => Seq::empty(),
    }
}

/// How a deserialization outcome must relate to the parsed wire document
/// `root`: exactly when it fails, with which error, and what every field of
/// a successful theme holds.
pub open spec fn theme_deser_rel(root: JsonValue, r: Result<ThemeView, ThemeError>) -> bool {
    match lookup(root, "theme"@) {
        None => r matches Err(ThemeError::MissingTheme),
        Some(tv) => if !(tv is Obj) {
            r matches Err(ThemeError::ThemeNotObject)
        } else {
            match lookup(tv, "templates"@) {
                None => r matches Err(ThemeError::TemplatesNotObject),
                Some(tj) => if !(tj is Obj) {
                    r matches Err(ThemeError::TemplatesNotObject)
                } else {
                    match r {
                        Ok(t) => {
                            &&& forall|i: int|
                                0 <= i < crate::slot_count() ==> #[trigger] slot_ok(tj, i)
                            &&& t.name == text_field(tv, "name"@)
                            &&& t.id == text_field(tv, "id"@)
                            &&& t.default_messages == text_field(tv, "defaultMessages"@)
                            &&& t.insert_instant == num_field(tv, "insertInstant"@)
                            &&& t.last_update_instant == num_field(tv, "lastUpdateInstant"@)
                            &&& t.templates.len() == crate::slot_count()
                            &&& forall|i: int|
                                0 <= i < crate::slot_count() ==> #[trigger] t.templates[i]
                                    == slot_text(tj, i)
                        },
                        Err(e) => match e {
                            ThemeError::BadTemplate(n) => exists|i: int|
                                #![auto]
                                {
                                    &&& 0 <= i < crate::slot_count()
                                    &&& !slot_ok(tj, i)
                                    &&& forall|k: int| 0 <= k < i ==> #[trigger] slot_ok(tj, k)
                                    &&& n@ == slot_json_name(i)
                                },
                            _ => false,
                        },
                    }
                },
            }
        },
    }
}

/// Lifts a deserialization result to its ghost shape.
pub open spec fn theme_result_view(r: Result<Theme, ThemeError>) -> Result<ThemeView, ThemeError> {
    match r {
        Ok(t) => Ok(t@),
        Err(e) => Err(e),
    }
}

/// Reads the template slots out of a `theme.templates` object, all of them
/// required to be present strings; fails naming the first slot that is not.
fn templates_from_json(tj: &JsonValue) -> (r: Result<Templates, ThemeError>)
    ensures
        match r {
            Ok(t) => {
                &&& forall|i: int| 0 <= i < crate::slot_count() ==> #[trigger] slot_ok(*tj, i)
                &&& t@.len() == crate::slot_count()
                &&& forall|i: int|
                    0 <= i < crate::slot_count() ==> #[trigger] t@[i] == slot_text(*tj, i)
            },
            Err(e) => match e {
                ThemeError::BadTemplate(n) => exists|i: int|
                    #![auto]
                    {
                        &&& 0 <= i < crate::slot_count()
                        &&& !slot_ok(*tj, i)
                        &&& forall|k: int| 0 <= k < i ==> #[trigger] slot_ok(*tj, k)
                        &&& n@ == slot_json_name(i)
                    },
                _ => false,
            },
        },
{
    let mut vals: Vec<String> = Vec::new();
    let mut i: usize = 0;
    while i < 46
        invariant
            i <= 46,
            vals@.len() == i,
            forall|k: int| 0 <= k < i ==> #[trigger] slot_ok(*tj, k),
            forall|k: int| 0 <= k < i ==> #[trigger] vals@[k]@ == slot_text(*tj, k),
        decreases 46 - i,
    {
        let name = json_name_at(i);
        match get_field(tj, name) {
            Some(f) => match str_value(f) {
                Some(s) => {
                    vals.push(s.clone());
                },
                None => {
                    return Err(ThemeError::BadTemplate(name.to_owned()));
                },
            },
            None => {
                return Err(ThemeError::BadTemplate(name.to_owned()));
            },
        }
        i += 1;
    }
    Ok(templates_from_vec(&vals))
}

/// The string held by field `key` of `v`, or empty.
fn opt_text(v: &JsonValue, key: &str) -> (r: String)
    ensures
        r@ == text_field(*v, key@),
{
    match get_field(v, key) {
        Some(f) => match str_value(f) {
            Some(s) => s.clone(),
            None => String::new(),
        },
        None => String::new(),
    }
}

/// The integer held by field `key` of `v`, or zero.
fn opt_num(v: &JsonValue, key: &str) -> (r: u64)
    ensures
        r == num_field(*v, key@),
{
    match get_field(v, key) {
        Some(f) => match f {
            JsonValue::Num(u) => *u,
            _ => 0,
        },
        None => 0,
    }
}

/// Builds a theme from the parsed wire document: the shape checks and field
/// reads behind deserialization.
pub fn theme_from_json(root: &JsonValue) -> (r: Result<Theme, ThemeError>)
    ensures
        theme_deser_rel(*root, theme_result_view(r)),
{
    let tv = match get_field(root, "theme") {
        Some(tv) => tv,
        None => {
            return Err(ThemeError::MissingTheme);
        },
    };
    match tv {
        JsonValue::Obj(_) => {},
        _ => {
            return Err(ThemeError::ThemeNotObject);
        },
    }
    let tj = match get_field(tv, "templates") {
        Some(tj) => tj,
        None => {
            return Err(ThemeError::TemplatesNotObject);
        },
    };
    match tj {
        JsonValue::Obj(_) => {},
        _ => {
            return Err(ThemeError::TemplatesNotObject);
        },
    }
    let templates = match templates_from_json(tj) {
        Ok(t) => t,
        Err(e) => {
            return Err(e);
        },
    };
    Ok(
        Theme {
            data: Data {  },
            default_messages: opt_text(tv, "defaultMessages"),
            id: opt_text(tv, "id"),
            insert_instant: opt_num(tv, "insertInstant"),
            last_update_instant: opt_num(tv, "lastUpdateInstant"),
            localized_messages: LocalizedMessages {  },
            name: opt_text(tv, "name"),
            templates,
        },
    )
}

/// Parses a wire document: JSON text in, a root holding one theme out.
/// Fails on malformed JSON, on a top level without a `theme` object, and on
/// a missing or non-string template field; extra fields are ignored.
pub fn deserialize_root(s: &str) -> (r: Result<Root, ThemeError>)
    ensures
        match parsed_json(s@) {
            None => r matches Err(ThemeError::JsonSyntax),
            Some(v) => theme_deser_rel(
                v,
                match r {
                    Ok(root) => Ok(root.theme@),
                    Err(e) => Err(e),
                },
            ),
        },
{
    match parse_json_text(s) {
        None => Err(ThemeError::JsonSyntax),
        Some(v) => match theme_from_json(&v) {
            Ok(t) => Ok(Root { theme: t }),
            Err(e) => Err(e),
        },
    }
}

/// The wire shape of a serialized templates object: one string field per
/// slot, in slot order, under the slot's wire name.
pub open spec fn is_templates_json(v: JsonValue, ts: Seq<Seq<char>>) -> bool {
    match v {
        JsonValue::Obj(fields) => {
            &&& fields@.len() == crate::slot_count()
            &&& forall|i: int|
                0 <= i < crate::slot_count() ==> (#[trigger] fields@[i]).0@ == slot_json_name(i)
            &&& forall|i: int|
                0 <= i < crate::slot_count() ==> ((#[trigger] fields@[i]).1 matches JsonValue::Str(s)
                    && s@ == ts[i])
        },
        _ => false,
    }
}

/// The wire shape of a serialized theme: `defaultMessages`, `name` and
/// `templates`, and nothing else — `id`, the instants and the extension
/// slots are deliberately omitted on upload.
pub open spec fn is_theme_json(v: JsonValue, name: Seq<char>, dm: Seq<char>, ts: Seq<Seq<char>>) -> bool {
    match v {
        JsonValue::Obj(f) => {
            &&& f@.len() == 3
            &&& f@[0].0@ == "defaultMessages"@
            &&& (f@[0].1 matches JsonValue::Str(s) && s@ == dm)
            &&& f@[1].0@ == "name"@
            &&& (f@[1].1 matches JsonValue::Str(s) && s@ == name)
            &&& f@[2].0@ == "templates"@
            &&& is_templates_json(f@[2].1, ts)
        },
        _ => false,
    }
}

/// The wire shape of a serialized root: a single `theme` field.
pub open spec fn is_root_json(v: JsonValue, name: Seq<char>, dm: Seq<char>, ts: Seq<Seq<char>>) -> bool {
    match v {
        JsonValue::Obj(f) => {
            &&& f@.len() == 1
            &&& f@[0].0@ == "theme"@
            &&& is_theme_json(f@[0].1, name, dm, ts)
        },
        _ => false,
    }
}

/// Builds the wire document for a theme.
pub fn root_to_json(t: &Theme) -> (v: JsonValue)
    ensures
        is_root_json(v, t@.name, t@.default_messages, t@.templates),
{
    let mut slot_fields: Vec<(String, JsonValue)> = Vec::new();
    let mut i: usize = 0;
    while i < 46
        invariant
            i <= 46,
            slot_fields@.len() == i,
            forall|k: int|
                0 <= k < i ==> (#[trigger] slot_fields@[k]).0@ == slot_json_name(k),
            forall|k: int|
                0 <= k < i ==> ((#[trigger] slot_fields@[k]).1 matches JsonValue::Str(s) && s@
                    == t@.templates[k]),
        decreases 46 - i,
    {
        let name: String = json_name_at(i).to_owned();
        let value = JsonValue::Str(slot_value(&t.templates, i).clone());
        slot_fields.push((name, value));
        i += 1;
    }
    let mut theme_fields: Vec<(String, JsonValue)> = Vec::new();
    theme_fields.push(
        ("defaultMessages".to_owned(), JsonValue::Str(t.default_messages.clone())),
    );
    theme_fields.push(("name".to_owned(), JsonValue::Str(t.name.clone())));
    theme_fields.push(("templates".to_owned(), JsonValue::Obj(slot_fields)));
    let mut root_fields: Vec<(String, JsonValue)> = Vec::new();
    root_fields.push(("theme".to_owned(), JsonValue::Obj(theme_fields)));
    JsonValue::Obj(root_fields)
}

/// Serializes a theme for upload: the rendered text of its wire document.
pub fn serialize_theme(t: &Theme) -> (r: String)
    ensures
        exists|v: JsonValue|
            #![auto]
            is_root_json(v, t@.name, t@.default_messages, t@.templates) && r@ == rendered_json(v),
{
    let v = root_to_json(t);
    let r = render_json_text(&v);
    proof {
        assert(is_root_json(v, t@.name, t@.default_messages, t@.templates) && r@
            == rendered_json(v));
    }
    r
}

/// Round trip: a wire document with the serialized shape of a theme
/// deserializes successfully, to a theme with the same name, default
/// messages and template slots. The fields that are deliberately not
/// serialized come back as their defaults: an empty id and zero instants.
#[verifier::rlimit(60)]
pub proof fn lemma_serialize_deserialize(
    v: JsonValue,
    name: Seq<char>,
    dm: Seq<char>,
    ts: Seq<Seq<char>>,
    r: Result<ThemeView, ThemeError>,
)
    requires
        ts.len() == crate::slot_count(),
        is_root_json(v, name, dm, ts),
        theme_deser_rel(v, r),
    ensures
        r matches Ok(t) && t.name == name && t.default_messages == dm && t.templates == ts
            && t.id == Seq::<char>::empty() && t.insert_instant == 0 && t.last_update_instant
            == 0,
{
    reveal_strlit("theme");
    reveal_strlit("defaultMessages");
    reveal_strlit("name");
    reveal_strlit("templates");
    reveal_strlit("id");
    reveal_strlit("insertInstant");
    reveal_strlit("lastUpdateInstant");
    crate::slots::lemma_slot_json_names_distinct();
    match v {
        JsonValue::Obj(rf) => {
            lemma_lookup_found(rf@, "theme"@, 0);
            let tv = rf@[0].1;
            match tv {
                JsonValue::Obj(tf) => {
                    assert("defaultMessages"@.len() == 15);
                    assert("name"@.len() == 4);
                    assert("templates"@.len() == 9);
                    assert("id"@.len() == 2);
                    assert("insertInstant"@.len() == 13);
                    assert("lastUpdateInstant"@.len() == 17);
                    assert(tf@[0].0@ != "name"@);
                    assert(tf@[0].0@ != "templates"@);
                    assert(tf@[1].0@ != "templates"@);
                    lemma_lookup_found(tf@, "defaultMessages"@, 0);
                    lemma_lookup_found(tf@, "name"@, 1);
                    lemma_lookup_found(tf@, "templates"@, 2);
                    lemma_lookup_absent(tf@, "id"@);
                    lemma_lookup_absent(tf@, "insertInstant"@);
                    lemma_lookup_absent(tf@, "lastUpdateInstant"@);
                    let tj = tf@[2].1;
                    match tj {
                        JsonValue::Obj(tjf) => {
                            assert forall|i: int|
                                0 <= i < crate::slot_count() implies #[trigger] slot_ok(tj, i)
                                && slot_text(tj, i) == ts[i] by {
                                assert forall|k: int|
                                    0 <= k < i implies (#[trigger] tjf@[k]).0@ != slot_json_name(
                                    i,
                                ) by {
                                    assert(tjf@[k].0@ == slot_json_name(k));
                                };
                                assert(tjf@[i].0@ == slot_json_name(i));
                                lemma_lookup_found(tjf@, slot_json_name(i), i);
                            };
                            match r {
                                Ok(t) => {
                                    assert forall|n: int|
                                        0 <= n < crate::slot_count() implies t.templates[n]
                                        == ts[n] by {
                                        assert(slot_ok(tj, n) && slot_text(tj, n) == ts[n]);
                                    };
                                    assert(t.templates =~= ts);
                                },
                                Err(e) => {
                                    assert(false);
                                },
                            }
                        },
                        _ => {
                            assert(false);
                        },
                    }
                },
                _ => {
                    assert(false);
                },
            }
        },
        _ => {
            assert(false);
        },
    }
}

/// A document whose top level is not an object with a `theme` field is
/// rejected, with the error that says so.
pub proof fn lemma_missing_theme_rejected(root: JsonValue, r: Result<ThemeView, ThemeError>)
    requires
        theme_deser_rel(root, r),
        lookup(root, "theme"@) is None,
    ensures
        r matches Err(ThemeError::MissingTheme),
{
}

/// A document whose `theme.templates` object is missing a template field,
/// or holds one as a non-string, is rejected, with the error naming a
/// template field.
pub proof fn lemma_bad_template_rejected(
    root: JsonValue,
    r: Result<ThemeView, ThemeError>,
    i: int,
)
    requires
        theme_deser_rel(root, r),
        0 <= i < crate::slot_count(),
        lookup(root, "theme"@) matches Some(tv) && tv is Obj && (lookup(tv, "templates"@)
            matches Some(tj) && tj is Obj && !slot_ok(tj, i)),
    ensures
        r matches Err(ThemeError::BadTemplate(_)),
{
}

} // verus!
