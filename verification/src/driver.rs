//! The decision half of the two operations. "get" turns a downloaded
//! response body into the files of a theme directory; "set" turns the files
//! of a theme directory into the upload request for the theme the metadata
//! names. The network calls themselves live outside the library: callers
//! download a body before `plan_get` and send `plan_set`'s request after.

use vstd::prelude::*;
use vstd::string::StringExecFns;
use crate::codec::{
    dir_read_rel, entry_count, entry_path, files_view, is_metadata_json, read_dir,
    render_metadata, write_parts,
};
use crate::error::ThemeError;
use crate::json_data::{Data, LocalizedMessages, Metadata, Theme, ThemeView};
use crate::json_value::{parsed_json, pretty_json, rendered_json, JsonValue};
use crate::schema::{deserialize_root, is_root_json, serialize_theme, theme_deser_rel};

verus! {

/// What one "set" invocation sends: the id of the theme to update and the
/// serialized request body.
#[derive(Debug, PartialEq)]
pub struct UploadRequest {
    pub id: String,
    pub body: String,
}

/// The URL of the theme resource `id` under `base`.
pub fn theme_url(base: &str, id: &str) -> (r: String)
    ensures
        r@ == base@ + "/api/theme/"@ + id@,
{
    let mut s: String = base.to_owned();
    s.append("/api/theme/");
    s.append(id);
    s
}

/// Plans the local half of "get": deserializes a downloaded response body
/// and lays the theme out as directory files — the pretty-printed metadata
/// document, the default-messages text, and one file per template slot.
pub fn plan_get(body: &str) -> (r: Result<Vec<(String, String)>, ThemeError>)
    ensures
        match parsed_json(body@) {
            None => r matches Err(ThemeError::JsonSyntax),
            Some(v) => match r {
                Ok(files) => exists|t: ThemeView, mv: JsonValue|
                    #![auto]
                    {
                        &&& theme_deser_rel(v, Ok(t))
                        &&& is_metadata_json(mv, t.id, t.name)
                        &&& files@.len() == entry_count()
                        &&& (forall|i: int|
                            0 <= i < entry_count() ==> (#[trigger] files@[i]).0@ == entry_path(i))
                        &&& files@[0].1@ == pretty_json(mv)
                        &&& files@[1].1@ == t.default_messages
                        &&& (forall|i: int|
                            0 <= i < crate::slot_count() ==> (#[trigger] files@[i + 2]).1@
                                == t.templates[i])
                    },
                Err(e) => theme_deser_rel(v, Err(e)),
            },
        },
{
    let root = match deserialize_root(body) {
        Ok(root) => root,
        Err(e) => {
            return Err(e);
        },
    };
    let theme = root.theme;
    let meta = Metadata { id: theme.id.clone(), name: theme.name.clone() };
    let meta_text = render_metadata(&meta);
    let files = write_parts(&meta_text, &theme.default_messages, &theme.templates);
    proof {
        let v = parsed_json(body@).unwrap();
        let mv = choose|w: JsonValue|
            #![auto]
            is_metadata_json(w, meta.id@, meta.name@) && meta_text@ == pretty_json(w);
        assert(theme_deser_rel(v, Ok(theme@)) && is_metadata_json(mv, theme@.id, theme@.name)
            && files@[0].1@ == pretty_json(mv));
    }
    Ok(files)
}

/// Plans the local half of "set": reads the theme directory and builds the
/// upload request — the metadata's `id` as the target, and a body holding
/// the metadata's `name`, the default messages and every template slot.
pub fn plan_set(files: &Vec<(String, String)>) -> (r: Result<UploadRequest, ThemeError>)
    ensures
        match r {
            Ok(u) => exists|name: Seq<char>, dm: Seq<char>, ts: Seq<Seq<char>>, v: JsonValue|
                #![auto]
                {
                    &&& dir_read_rel(files_view(files@), Ok((u.id@, name, dm, ts)))
                    &&& is_root_json(v, name, dm, ts)
                    &&& u.body@ == rendered_json(v)
                },
            Err(e) => dir_read_rel(files_view(files@), Err(e)),
        },
{
    let parts = match read_dir(files) {
        Ok(x) => x,
        Err(e) => {
            return Err(e);
        },
    };
    let (meta, dm, templates) = parts;
    let theme = Theme {
        data: Data {  },
        default_messages: dm,
        id: String::new(),
        insert_instant: 0,
        last_update_instant: 0,
        localized_messages: LocalizedMessages {  },
        name: meta.name.clone(),
        templates,
    };
    let body = serialize_theme(&theme);
    let ghost gname = meta.name@;
    let ghost gdm = theme.default_messages@;
    let ghost gts = theme.templates@;
    let u = UploadRequest { id: meta.id, body };
    proof {
        let v = choose|w: JsonValue|
            #![auto]
            is_root_json(w, theme@.name, theme@.default_messages, theme@.templates) && u.body@
                == rendered_json(w);
        assert(dir_read_rel(files_view(files@), Ok((u.id@, gname, gdm, gts))) && is_root_json(
            v,
            gname,
            gdm,
            gts,
        ) && u.body@ == rendered_json(v));
    }
    Ok(u)
}

} // verus!
