//! The directory codec: a theme directory is modelled as a list of files,
//! each a relative path and its text. Reading collects the metadata file,
//! the default-messages file and one file per template slot, and fails
//! naming the first required file that is absent; writing emits exactly
//! those files in canonical order.

use vstd::prelude::*;
use crate::error::ThemeError;
use crate::json_data::{Metadata, Templates};
use crate::json_value::{
    get_field, lookup, parse_json_text, parsed_json, pretty_json, render_json_pretty, str_of,
    str_value, JsonValue,
};
use crate::slots::{file_path_at, name_marks, slot_file_path, slot_value, templates_from_vec};

verus! {

/// Number of files in a complete theme directory.
pub open spec fn entry_count() -> int {
    crate::slot_count() + 2
}

/// Relative path of directory entry `i`: the metadata file, the
/// default-messages file, then one file per template slot, in slot order.
pub open spec fn entry_path(i: int) -> Seq<char> {
    if i == 0 {
        "metadata.json"@
    } else if i == 1 {
        "defaultMessages.txt"@
    } else {
        slot_file_path(i - 2)
    }
}

/// Relative path of directory entry `i`.
pub fn entry_path_at(i: usize) -> (r: &'static str)
    requires
        i < entry_count(),
    ensures
        r@ == entry_path(i as int),
{
    if i == 0 {
        "metadata.json"
    } else if i == 1 {
        "defaultMessages.txt"
    } else {
        file_path_at(i - 2)
    }
}

/// Every file of a complete theme directory, in canonical order.
pub fn entry_paths() -> (r: Vec<String>)
    ensures
        r@.len() == entry_count(),
        forall|i: int| 0 <= i < entry_count() ==> (#[trigger] r@[i])@ == entry_path(i),
{
    let mut r: Vec<String> = Vec::new();
    let mut i: usize = 0;
    while i < 48
        invariant
            i <= 48,
            r@.len() == i,
            forall|k: int| 0 <= k < i ==> (#[trigger] r@[k])@ == entry_path(k),
        decreases 48 - i,
    {
        r.push(entry_path_at(i).to_owned());
        i += 1;
    }
    r
}

/// The ghost shape of a file list: each file as its path and its text.
pub open spec fn files_view(files: Seq<(String, String)>) -> Seq<(Seq<char>, Seq<char>)> {
    Seq::new(files.len(), |i: int| (files[i].0@, files[i].1@))
}

/// Content of the first file of `d` whose path is `path`, if any.
pub open spec fn dir_lookup(d: Seq<(Seq<char>, Seq<char>)>, path: Seq<char>) -> Option<Seq<char>>
    decreases d.len(),
{
    if d.len() == 0 {
        None
    } else if d[0].0 == path {
        Some(d[0].1)
    } else {
        dir_lookup(d.drop_first(), path)
    }
}

pub proof fn lemma_dir_lookup_found(d: Seq<(Seq<char>, Seq<char>)>, path: Seq<char>, i: int)
    requires
        0 <= i < d.len(),
        d[i].0 == path,
        forall|t: int| 0 <= t < i ==> (#[trigger] d[t]).0 != path,
    ensures
        dir_lookup(d, path) == Some(d[i].1),
    decreases i,
{
    if i > 0 {
        lemma_dir_lookup_found(d.drop_first(), path, i - 1);
    }
}

pub proof fn lemma_dir_lookup_absent(d: Seq<(Seq<char>, Seq<char>)>, path: Seq<char>)
    requires
        forall|t: int| 0 <= t < d.len() ==> (#[trigger] d[t]).0 != path,
    ensures
        dir_lookup(d, path) is None,
    decreases d.len(),
{
    if d.len() > 0 {
        lemma_dir_lookup_absent(d.drop_first(), path);
    }
}

/// First file of `files` whose path is `path`.
fn find_file<'a>(files: &'a Vec<(String, String)>, path: &str) -> (r: Option<&'a String>)
    ensures
        match r {
            Some(c) => dir_lookup(files_view(files@), path@) == Some(c@),
            None => dir_lookup(files_view(files@), path@) is None,
        },
{
    let p: String = path.to_owned();
    let n = files.len();
    let mut j: usize = 0;
    while j < n
        invariant
            n == files@.len(),
            j <= n,
            p@ == path@,
            forall|t: int| 0 <= t < j ==> (#[trigger] files@[t]).0@ != path@,
        decreases n - j,
    {
        if files[j].0 == p {
            proof {
                lemma_dir_lookup_found(files_view(files@), path@, j as int);
            }
            return Some(&files[j].1);
        }
        j += 1;
    }
    proof {
        lemma_dir_lookup_absent(files_view(files@), path@);
    }
    None
}

/// Reads the parts of a theme directory: the metadata text, the
/// default-messages text and the template set. Every entry is required;
/// reading fails naming the first file that is absent.
pub fn read_parts(files: &Vec<(String, String)>) -> (r: Result<
    (String, String, Templates),
    ThemeError,
>)
    ensures
        match r {
            Ok((m, dm, t)) => {
                &&& forall|i: int|
                    0 <= i < entry_count() ==> #[trigger] dir_lookup(
                        files_view(files@),
                        entry_path(i),
                    ) is Some
                &&& Some(m@) == dir_lookup(files_view(files@), entry_path(0))
                &&& Some(dm@) == dir_lookup(files_view(files@), entry_path(1))
                &&& t@.len() == crate::slot_count()
                &&& forall|i: int|
                    0 <= i < crate::slot_count() ==> Some(#[trigger] t@[i]) == dir_lookup(
                        files_view(files@),
                        entry_path(i + 2),
                    )
            },
            Err(e) => match e {
                ThemeError::MissingFile(p) => exists|i: int|
                    #![auto]
                    {
                        &&& 0 <= i < entry_count()
                        &&& dir_lookup(files_view(files@), entry_path(i)) is None
                        &&& forall|k: int|
                            0 <= k < i ==> dir_lookup(files_view(files@), entry_path(k)) is Some
                        &&& p@ == entry_path(i)
                    },
                _ => false,
            },
        },
{
    let mut contents: Vec<String> = Vec::new();
    let mut i: usize = 0;
    while i < 48
        invariant
            i <= 48,
            contents@.len() == i,
            forall|k: int|
                0 <= k < i ==> Some((#[trigger] contents@[k])@) == dir_lookup(
                    files_view(files@),
                    entry_path(k),
                ),
        decreases 48 - i,
    {
        let path = entry_path_at(i);
        match find_file(files, path) {
            Some(c) => {
                contents.push(c.clone());
            },
            None => {
                let p: String = path.to_owned();
                proof {
                    assert({
                        &&& 0 <= i as int
                        &&& (i as int) < entry_count()
                        &&& dir_lookup(files_view(files@), entry_path(i as int)) is None
                        &&& p@ == entry_path(i as int)
                    });
                    assert forall|k: int|
                        0 <= k < i as int implies dir_lookup(
                        files_view(files@),
                        entry_path(k),
                    ) is Some by {
                        assert(Some(contents@[k]@) == dir_lookup(
                            files_view(files@),
                            entry_path(k),
                        ));
                    };
                }
                return Err(ThemeError::MissingFile(p));
            },
        }
        i += 1;
    }
    let m = contents[0].clone();
    let dm = contents[1].clone();
    let mut slot_texts: Vec<String> = Vec::new();
    let mut j: usize = 0;
    while j < 46
        invariant
            j <= 46,
            contents@.len() == 48,
            slot_texts@.len() == j,
            forall|k: int| 0 <= k < j ==> #[trigger] slot_texts@[k]@ == contents@[k + 2]@,
        decreases 46 - j,
    {
        slot_texts.push(contents[j + 2].clone());
        j += 1;
    }
    let t = templates_from_vec(&slot_texts);
    proof {
        assert forall|k: int| 0 <= k < entry_count() implies dir_lookup(
            files_view(files@),
            entry_path(k),
        ) is Some by {
            assert(Some(contents@[k]@) == dir_lookup(files_view(files@), entry_path(k)));
        };
        assert(Some(m@) == dir_lookup(files_view(files@), entry_path(0)));
        assert(Some(dm@) == dir_lookup(files_view(files@), entry_path(1)));
        assert forall|k: int| 0 <= k < crate::slot_count() implies Some(#[trigger] t@[k])
            == dir_lookup(files_view(files@), entry_path(k + 2)) by {
            assert(t@[k] == slot_texts@[k]@);
            assert(slot_texts@[k]@ == contents@[k + 2]@);
            assert(Some(contents@[k + 2]@) == dir_lookup(files_view(files@), entry_path(k + 2)));
        };
    }
    Ok((m, dm, t))
}

/// Writes the parts of a theme back out as files: the metadata text, the
/// default-messages text, and one file per template slot, in canonical
/// order.
pub fn write_parts(meta_text: &String, dm: &String, t: &Templates) -> (files: Vec<
    (String, String),
>)
    ensures
        files@.len() == entry_count(),
        forall|i: int| 0 <= i < entry_count() ==> (#[trigger] files@[i]).0@ == entry_path(i),
        files@[0].1@ == meta_text@,
        files@[1].1@ == dm@,
        forall|i: int| 0 <= i < crate::slot_count() ==> (#[trigger] files@[i + 2]).1@ == t@[i],
{
    let mut files: Vec<(String, String)> = Vec::new();
    files.push((entry_path_at(0).to_owned(), meta_text.clone()));
    files.push((entry_path_at(1).to_owned(), dm.clone()));
    let mut i: usize = 0;
    while i < 46
        invariant
            i <= 46,
            files@.len() == i + 2,
            forall|k: int| 0 <= k < i + 2 ==> (#[trigger] files@[k]).0@ == entry_path(k),
            files@[0].1@ == meta_text@,
            files@[1].1@ == dm@,
            forall|k: int| 0 <= k < i ==> (#[trigger] files@[k + 2]).1@ == t@[k],
        decreases 46 - i,
    {
        files.push((entry_path_at(i + 2).to_owned(), slot_value(t, i).clone()));
        i += 1;
    }
    files
}

/// The wire shape of a metadata document: an object holding exactly the
/// theme's `id` and `name`.
pub open spec fn is_metadata_json(v: JsonValue, id: Seq<char>, name: Seq<char>) -> bool {
    match v {
        JsonValue::Obj(f) => {
            &&& f@.len() == 2
            &&& f@[0].0@ == "id"@
            &&& (f@[0].1 matches JsonValue::Str(s) && s@ == id)
            &&& f@[1].0@ == "name"@
            &&& (f@[1].1 matches JsonValue::Str(s) && s@ == name)
        },
        _ => false,
    }
}

/// A parsed metadata document holds string `id` and `name` fields.
pub open spec fn metadata_shape_ok(v: JsonValue) -> bool {
    &&& (lookup(v, "id"@) matches Some(f) && f is Str)
    &&& (lookup(v, "name"@) matches Some(f) && f is Str)
}

/// The `id` of a parsed metadata document.
pub open spec fn metadata_id(v: JsonValue) -> Seq<char> {
    match lookup(v, "id"@) {
        Some(f) => str_of(f),
        None => Seq::empty(),
    }
}

/// The `name` of a parsed metadata document.
pub open spec fn metadata_name(v: JsonValue) -> Seq<char> {
    match lookup(v, "name"@) {
        Some(f) => str_of(f),
        None => Seq::empty(),
    }
}

/// Builds the metadata document for a theme's identity.
pub fn metadata_to_json(m: &Metadata) -> (v: JsonValue)
    ensures
        is_metadata_json(v, m.id@, m.name@),
{
    let mut f: Vec<(String, JsonValue)> = Vec::new();
    f.push(("id".to_owned(), JsonValue::Str(m.id.clone())));
    f.push(("name".to_owned(), JsonValue::Str(m.name.clone())));
    JsonValue::Obj(f)
}

/// The pretty-printed metadata text written to the metadata file.
pub fn render_metadata(m: &Metadata) -> (r: String)
    ensures
        exists|v: JsonValue|
            #![auto]
            is_metadata_json(v, m.id@, m.name@) && r@ == pretty_json(v),
{
    let v = metadata_to_json(m);
    let r = render_json_pretty(&v);
    proof {
        assert(is_metadata_json(v, m.id@, m.name@) && r@ == pretty_json(v));
    }
    r
}

/// Reads a theme's identity out of a parsed metadata document: string `id`
/// and `name` fields, both required.
pub fn metadata_from_json(v: &JsonValue) -> (r: Result<Metadata, ThemeError>)
    ensures
        match r {
            Ok(m) => metadata_shape_ok(*v) && m.id@ == metadata_id(*v) && m.name@ == metadata_name(
                *v,
            ),
            Err(e) => e matches ThemeError::BadMetadata && !metadata_shape_ok(*v),
        },
{
    let id = match get_field(v, "id") {
        Some(f) => match str_value(f) {
            Some(s) => s.clone(),
            None => {
                return Err(ThemeError::BadMetadata);
            },
        },
        None => {
            return Err(ThemeError::BadMetadata);
        },
    };
    let name = match get_field(v, "name") {
        Some(f) => match str_value(f) {
            Some(s) => s.clone(),
            None => {
                return Err(ThemeError::BadMetadata);
            },
        },
        None => {
            return Err(ThemeError::BadMetadata);
        },
    };
    Ok(Metadata { id, name })
}

/// How a full directory read must relate to the directory `d`: exactly when
/// it fails, with which error, and what each part of a successful read
/// holds. A successful result carries the metadata `id` and `name`, the
/// default-messages text and the template slot texts.
pub open spec fn dir_read_rel(
    d: Seq<(Seq<char>, Seq<char>)>,
    r: Result<(Seq<char>, Seq<char>, Seq<char>, Seq<Seq<char>>), ThemeError>,
) -> bool {
    if exists|i: int| #![auto] 0 <= i < entry_count() && dir_lookup(d, entry_path(i)) is None {
        match r {
            Err(e) => match e {
                ThemeError::MissingFile(p) => exists|i: int|
                    #![auto]
                    {
                        &&& 0 <= i < entry_count()
                        &&& dir_lookup(d, entry_path(i)) is None
                        &&& forall|k: int| 0 <= k < i ==> dir_lookup(d, entry_path(k)) is Some
                        &&& p@ == entry_path(i)
                    },
                _ => false,
            },
            Ok(_) => false,
        }
    } else {
        match dir_lookup(d, entry_path(0)) {
            Some(mt) => match parsed_json(mt) {
                None => r matches Err(ThemeError::JsonSyntax),
                Some(mv) => if metadata_shape_ok(mv) {
                    r matches Ok((id, name, dm, ts)) && ({
                        &&& id == metadata_id(mv)
                        &&& name == metadata_name(mv)
                        &&& Some(dm) == dir_lookup(d, entry_path(1))
                        &&& ts.len() == crate::slot_count()
                        &&& forall|i: int|
                            0 <= i < crate::slot_count() ==> Some(#[trigger] ts[i]) == dir_lookup(
                                d,
                                entry_path(i + 2),
                            )
                    })
                } else {
                    r matches Err(ThemeError::BadMetadata)
                },
            },
            None => false,
        }
    }
}

/// Reads a theme directory whole: its metadata document parsed into the
/// theme identity, the default-messages text, and the template set.
pub fn read_dir(files: &Vec<(String, String)>) -> (r: Result<
    (Metadata, String, Templates),
    ThemeError,
>)
    ensures
        dir_read_rel(
            files_view(files@),
            match r {
                Ok((meta, dm, t)) => Ok((meta.id@, meta.name@, dm@, t@)),
                Err(e) => Err(e),
            },
        ),
{
    let parts = match read_parts(files) {
        Ok(x) => x,
        Err(e) => {
            return Err(e);
        },
    };
    let (m, dm, t) = parts;
    match parse_json_text(m.as_str()) {
        None => Err(ThemeError::JsonSyntax),
        Some(mv) => match metadata_from_json(&mv) {
            Ok(meta) => Ok((meta, dm, t)),
            Err(e) => Err(e),
        },
    }
}

/// No two entries of a theme directory share a path.
#[verifier::rlimit(100)]
pub proof fn lemma_entry_paths_distinct()
    ensures
        forall|i: int, j: int|
            0 <= i < entry_count() && 0 <= j < entry_count() && i != j ==> entry_path(i)
                != entry_path(j),
{
    reveal_strlit("metadata.json");
    reveal_strlit("defaultMessages.txt");
    reveal_strlit("templates/account_edit.ftl");
    reveal_strlit("templates/account_index.ftl");
    reveal_strlit("templates/account_two_factor_disable.ftl");
    reveal_strlit("templates/account_two_factor_enable.ftl");
    reveal_strlit("templates/account_two_factor_index.ftl");
    reveal_strlit("templates/account_web_authn_add.ftl");
    reveal_strlit("templates/account_web_authn_delete.ftl");
    reveal_strlit("templates/account_web_authn_index.ftl");
    reveal_strlit("templates/email_complete.ftl");
    reveal_strlit("templates/email_send.ftl");
    reveal_strlit("templates/email_sent.ftl");
    reveal_strlit("templates/email_verification_required.ftl");
    reveal_strlit("templates/email_verify.ftl");
    reveal_strlit("templates/helpers.ftl");
    reveal_strlit("templates/index.ftl");
    reveal_strlit("templates/oauth2_authorize.ftl");
    reveal_strlit("templates/oauth2_authorized_not_registered.ftl");
    reveal_strlit("templates/oauth2_child_registration_not_allowed.ftl");
    reveal_strlit("templates/oauth2_child_registration_not_allowed_complete.ftl");
    reveal_strlit("templates/oauth2_complete_registration.ftl");
    reveal_strlit("templates/oauth2_device.ftl");
    reveal_strlit("templates/oauth2_device_complete.ftl");
    reveal_strlit("templates/oauth2_error.ftl");
    reveal_strlit("templates/oauth2_logout.ftl");
    reveal_strlit("templates/oauth2_passwordless.ftl");
    reveal_strlit("templates/oauth2_register.ftl");
    reveal_strlit("templates/oauth2_start_id_plink.ftl");
    reveal_strlit("templates/oauth2_two_factor.ftl");
    reveal_strlit("templates/oauth2_two_factor_enable.ftl");
    reveal_strlit("templates/oauth2_two_factor_enable_complete.ftl");
    reveal_strlit("templates/oauth2_two_factor_methods.ftl");
    reveal_strlit("templates/oauth2_wait.ftl");
    reveal_strlit("templates/oauth2_web_authn.ftl");
    reveal_strlit("templates/oauth2_web_authn_reauth.ftl");
    reveal_strlit("templates/oauth2_web_authn_reauth_enable.ftl");
    reveal_strlit("templates/password_change.ftl");
    reveal_strlit("templates/password_complete.ftl");
    reveal_strlit("templates/password_forgot.ftl");
    reveal_strlit("templates/password_sent.ftl");
    reveal_strlit("templates/registration_complete.ftl");
    reveal_strlit("templates/registration_send.ftl");
    reveal_strlit("templates/registration_sent.ftl");
    reveal_strlit("templates/registration_verification_required.ftl");
    reveal_strlit("templates/registration_verify.ftl");
    reveal_strlit("templates/samlv2_logout.ftl");
    reveal_strlit("templates/unauthorized.ftl");
    assert(name_marks(entry_path(0)) == (13int, 'm', 'n', 't', '.'));
    assert(name_marks(entry_path(1)) == (19int, 'd', 't', 's', 's'));
    assert(name_marks(entry_path(2)) == (26int, 't', 'l', 'o', 't'));
    assert(name_marks(entry_path(3)) == (27int, 't', 'l', 'o', 'x'));
    assert(name_marks(entry_path(4)) == (40int, 't', 'l', 'o', 'e'));
    assert(name_marks(entry_path(5)) == (39int, 't', 'l', 'w', 'e'));
    assert(name_marks(entry_path(6)) == (38int, 't', 'l', 'w', 'x'));
    assert(name_marks(entry_path(7)) == (35int, 't', 'l', '_', 'd'));
    assert(name_marks(entry_path(8)) == (38int, 't', 'l', 'e', 'e'));
    assert(name_marks(entry_path(9)) == (37int, 't', 'l', 'w', 'x'));
    assert(name_marks(entry_path(10)) == (28int, 't', 'l', 'l', 'e'));
    assert(name_marks(entry_path(11)) == (24int, 't', 'l', 'a', 'd'));
    assert(name_marks(entry_path(12)) == (24int, 't', 'l', 'a', 't'));
    assert(name_marks(entry_path(13)) == (41int, 't', 'l', 'f', 'd'));
    assert(name_marks(entry_path(14)) == (26int, 't', 'l', 'i', 'y'));
    assert(name_marks(entry_path(15)) == (21int, 't', 'l', 'h', 's'));
    assert(name_marks(entry_path(16)) == (19int, 't', 'l', '/', 'x'));
    assert(name_marks(entry_path(17)) == (30int, 't', 'l', '2', 'e'));
    assert(name_marks(entry_path(18)) == (46int, 't', 'l', 'i', 'd'));
    assert(name_marks(entry_path(19)) == (51int, 't', 'l', 'g', 'd'));
    assert(name_marks(entry_path(20)) == (60int, 't', 'l', 'a', 'e'));
    assert(name_marks(entry_path(21)) == (42int, 't', 'l', 'l', 'n'));
    assert(name_marks(entry_path(22)) == (27int, 't', 'l', 't', 'e'));
    assert(name_marks(entry_path(23)) == (36int, 't', 'l', 'e', 'e'));
    assert(name_marks(entry_path(24)) == (26int, 't', 'l', 't', 'r'));
    assert(name_marks(entry_path(25)) == (27int, 't', 'l', 't', 't'));
    assert(name_marks(entry_path(26)) == (33int, 't', 'l', '_', 's'));
    assert(name_marks(entry_path(27)) == (29int, 't', 'l', 'h', 'r'));
    assert(name_marks(entry_path(28)) == (35int, 't', 'l', 's', 'k'));
    assert(name_marks(entry_path(29)) == (31int, 't', 'l', '2', 'r'));
    assert(name_marks(entry_path(30)) == (38int, 't', 'l', 'o', 'e'));
    assert(name_marks(entry_path(31)) == (47int, 't', 'l', 'c', 'e'));
    assert(name_marks(entry_path(32)) == (39int, 't', 'l', 'o', 's'));
    assert(name_marks(entry_path(33)) == (25int, 't', 'l', 'u', 't'));
    assert(name_marks(entry_path(34)) == (30int, 't', 'l', '2', 'n'));
    assert(name_marks(entry_path(35)) == (37int, 't', 'l', 'e', 'h'));
    assert(name_marks(entry_path(36)) == (44int, 't', 'l', 'u', 'e'));
    assert(name_marks(entry_path(37)) == (29int, 't', 'l', 'w', 'e'));
    assert(name_marks(entry_path(38)) == (31int, 't', 'l', 'o', 'e'));
    assert(name_marks(entry_path(39)) == (29int, 't', 'l', 'w', 't'));
    assert(name_marks(entry_path(40)) == (27int, 't', 'l', 's', 't'));
    assert(name_marks(entry_path(41)) == (35int, 't', 'l', 'a', 'e'));
    assert(name_marks(entry_path(42)) == (31int, 't', 'l', 't', 'd'));
    assert(name_marks(entry_path(43)) == (31int, 't', 'l', 't', 't'));
    assert(name_marks(entry_path(44)) == (48int, 't', 'l', 'e', 'd'));
    assert(name_marks(entry_path(45)) == (33int, 't', 'l', 'r', 'y'));
    assert(name_marks(entry_path(46)) == (27int, 't', 'l', 'l', 't'));
    assert(name_marks(entry_path(47)) == (26int, 't', 'l', 'u', 'd'));
    assert forall|i: int, j: int|
        0 <= i < entry_count() && 0 <= j < entry_count() && i != j implies entry_path(i)
        != entry_path(j) by {
        assert(name_marks(entry_path(i)) != name_marks(entry_path(j)));
    };
}

/// In a canonical directory — one file per entry, in canonical order —
/// looking an entry's path up finds that entry's content.
pub proof fn lemma_canonical_lookup(d: Seq<(Seq<char>, Seq<char>)>, i: int)
    requires
        d.len() == entry_count(),
        forall|k: int| 0 <= k < entry_count() ==> (#[trigger] d[k]).0 == entry_path(k),
        0 <= i < entry_count(),
    ensures
        dir_lookup(d, entry_path(i)) == Some(d[i].1),
{
    lemma_entry_paths_distinct();
    assert forall|t: int| 0 <= t < i implies (#[trigger] d[t]).0 != entry_path(i) by {
        assert(d[t].0 == entry_path(t));
    };
    lemma_dir_lookup_found(d, entry_path(i), i);
}

/// Round trip: a complete theme directory in canonical order, read into its
/// parts and written back, comes out the same, file for file and byte for
/// byte. The requirements are exactly what `read_parts` guarantees of the
/// parts it returns and `write_parts` of the files it emits.
pub proof fn lemma_write_read_identity(
    d: Seq<(Seq<char>, Seq<char>)>,
    m: Seq<char>,
    dm: Seq<char>,
    ts: Seq<Seq<char>>,
    out: Seq<(Seq<char>, Seq<char>)>,
)
    requires
        d.len() == entry_count(),
        forall|k: int| 0 <= k < entry_count() ==> (#[trigger] d[k]).0 == entry_path(k),
        Some(m) == dir_lookup(d, entry_path(0)),
        Some(dm) == dir_lookup(d, entry_path(1)),
        ts.len() == crate::slot_count(),
        forall|i: int|
            0 <= i < crate::slot_count() ==> Some(#[trigger] ts[i]) == dir_lookup(
                d,
                entry_path(i + 2),
            ),
        out.len() == entry_count(),
        forall|i: int| 0 <= i < entry_count() ==> (#[trigger] out[i]).0 == entry_path(i),
        out[0].1 == m,
        out[1].1 == dm,
        forall|i: int| 0 <= i < crate::slot_count() ==> (#[trigger] out[i + 2]).1 == ts[i],
    ensures
        out =~~= d,
{
    assert forall|i: int| 0 <= i < entry_count() implies (#[trigger] out[i]).1 == d[i].1 by {
        lemma_canonical_lookup(d, i);
        if i == 0 {
            assert(out[0].1 == m);
        } else if i == 1 {
            assert(out[1].1 == dm);
        } else {
            assert(out[((i - 2) + 2) as int].1 == ts[i - 2]);
            assert(Some(ts[i - 2]) == dir_lookup(d, entry_path((i - 2) + 2)));
        }
    };
    assert forall|i: int| 0 <= i < entry_count() implies out[i] == d[i] by {
        assert(out[i].0 == entry_path(i) && d[i].0 == entry_path(i));
        assert(out[i].1 == d[i].1);
        assert(out[i] =~~= d[i]);
    };
}

} // verus!
