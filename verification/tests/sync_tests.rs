use theme_sync::codec::{entry_paths, read_parts, write_parts};
use theme_sync::driver::{plan_get, plan_set, theme_url};
use theme_sync::error::ThemeError;
use theme_sync::json_data::{Metadata, Root, Templates, Theme};
use theme_sync::schema::{deserialize_root, serialize_theme};
use theme_sync::slots::json_name_at;

fn sample_theme() -> Theme {
    let mut t = Theme::default();
    t.name = "My Theme".to_string();
    t.default_messages = "greeting=Hello\n".to_string();
    t.id = "abc-123".to_string();
    t.insert_instant = 7;
    t.templates.account_index = "<html>index</html>".to_string();
    t.templates.oauth2_authorize = "authorize page".to_string();
    t.templates.samlv2_logout = "saml logout".to_string();
    t.templates.unauthorized = "nope".to_string();
    t
}

fn full_dir(meta: &str, dm: &str) -> Vec<(String, String)> {
    let mut files: Vec<(String, String)> = Vec::new();
    for (i, p) in entry_paths().into_iter().enumerate() {
        let content = if i == 0 {
            meta.to_string()
        } else if i == 1 {
            dm.to_string()
        } else {
            format!("content of entry {i}")
        };
        files.push((p, content));
    }
    files
}

#[test]
fn serialize_then_deserialize_recovers_theme() {
    let t = sample_theme();
    let text = serialize_theme(&t);
    let root: Root = deserialize_root(&text).expect("round trip should parse");
    assert_eq!(root.theme.name, t.name);
    assert_eq!(root.theme.default_messages, t.default_messages);
    assert_eq!(root.theme.templates, t.templates);
    // Server-managed fields are not serialized and come back as defaults.
    assert_eq!(root.theme.id, "");
    assert_eq!(root.theme.insert_instant, 0);
    assert_eq!(root.theme.last_update_instant, 0);
}

#[test]
fn serialized_body_omits_server_fields() {
    let t = sample_theme();
    let text = serialize_theme(&t);
    assert!(!text.contains("abc-123"));
    assert!(!text.contains("insertInstant"));
    assert!(!text.contains("lastUpdateInstant"));
    assert!(!text.contains("\"id\""));
}

#[test]
fn samlv2_logout_serializes_under_its_literal_name() {
    let mut t = Theme::default();
    t.templates.samlv2_logout = "X".to_string();
    let text = serialize_theme(&t);
    assert!(text.contains("\"samlv2Logout\":\"X\""));
    assert!(!text.contains("samlV2Logout"));
}

#[test]
fn start_idp_link_serializes_under_its_literal_name() {
    let mut t = Theme::default();
    t.templates.oauth2_start_id_plink = "L".to_string();
    let text = serialize_theme(&t);
    assert!(text.contains("\"oauth2StartIdPLink\":\"L\""));
}

#[test]
fn deserialize_rejects_missing_theme_key() {
    assert_eq!(deserialize_root("{}"), Err(ThemeError::MissingTheme));
    assert_eq!(deserialize_root("[1,2]"), Err(ThemeError::MissingTheme));
    assert_eq!(deserialize_root("{\"other\":1}"), Err(ThemeError::MissingTheme));
}

#[test]
fn deserialize_rejects_malformed_json() {
    assert_eq!(deserialize_root("not json"), Err(ThemeError::JsonSyntax));
    assert_eq!(deserialize_root(""), Err(ThemeError::JsonSyntax));
}

#[test]
fn deserialize_rejects_non_object_theme() {
    assert_eq!(deserialize_root("{\"theme\":3}"), Err(ThemeError::ThemeNotObject));
}

#[test]
fn deserialize_rejects_missing_templates() {
    assert_eq!(
        deserialize_root("{\"theme\":{\"name\":\"T\"}}"),
        Err(ThemeError::TemplatesNotObject)
    );
    assert_eq!(
        deserialize_root("{\"theme\":{\"templates\":7}}"),
        Err(ThemeError::TemplatesNotObject)
    );
}

#[test]
fn deserialize_rejects_non_string_template_field() {
    let text = serialize_theme(&Theme::default());
    let patched = text.replace("\"accountIndex\":\"\"", "\"accountIndex\":0");
    assert_eq!(
        deserialize_root(&patched),
        Err(ThemeError::BadTemplate("accountIndex".to_string()))
    );
}

#[test]
fn deserialize_rejects_missing_template_field() {
    let text = serialize_theme(&Theme::default());
    let patched = text.replace("\"accountIndex\":\"\",", "");
    assert_eq!(
        deserialize_root(&patched),
        Err(ThemeError::BadTemplate("accountIndex".to_string()))
    );
}

#[test]
fn deserialize_ignores_extra_fields() {
    let t = sample_theme();
    let text = serialize_theme(&t);
    let patched = text.replace(
        "{\"theme\":{",
        "{\"spare\":true,\"theme\":{\"surplus\":[1,2],",
    );
    let root = deserialize_root(&patched).expect("extra fields are ignored");
    assert_eq!(root.theme.name, t.name);
    assert_eq!(root.theme.templates, t.templates);
}

#[test]
fn deserialize_reads_server_fields_when_present() {
    let body = "{\"theme\":{\"id\":\"42\",\"insertInstant\":5,\"lastUpdateInstant\":9,\
                \"name\":\"T\",\"defaultMessages\":\"m\",\"templates\":"
        .to_string();
    let templates_text = {
        let whole = serialize_theme(&Theme::default());
        let start = whole.find("\"templates\":").unwrap() + "\"templates\":".len();
        let end = whole.rfind("}}").unwrap();
        whole[start..end].to_string()
    };
    let body = format!("{body}{templates_text}}}}}");
    let root = deserialize_root(&body).expect("well-formed body");
    assert_eq!(root.theme.id, "42");
    assert_eq!(root.theme.insert_instant, 5);
    assert_eq!(root.theme.last_update_instant, 9);
}

#[test]
fn entry_paths_lists_every_file_once() {
    let paths = entry_paths();
    assert_eq!(paths.len(), 48);
    assert_eq!(paths[0], "metadata.json");
    assert_eq!(paths[1], "defaultMessages.txt");
    assert_eq!(paths[2], "templates/account_edit.ftl");
    assert_eq!(paths[47], "templates/unauthorized.ftl");
    let mut unique = paths.clone();
    unique.sort();
    unique.dedup();
    assert_eq!(unique.len(), 48);
}

#[test]
fn read_then_write_reproduces_directory_byte_for_byte() {
    let files = full_dir("{\"id\":\"42\",\"name\":\"N\"}", "messages");
    let (m, dm, t) = read_parts(&files).expect("complete directory");
    let out = write_parts(&m, &dm, &t);
    assert_eq!(out, files);
}

#[test]
fn read_fails_naming_the_missing_template_file() {
    let mut files = full_dir("{}", "dm");
    files.retain(|(p, _)| p != "templates/account_index.ftl");
    match read_parts(&files) {
        Err(ThemeError::MissingFile(p)) => {
            assert_eq!(p, "templates/account_index.ftl");
        },
        other => panic!("expected a missing-file error, got {other:?}"),
    }
}

#[test]
fn read_fails_naming_the_missing_metadata_file() {
    let mut files = full_dir("{}", "dm");
    files.remove(0);
    match read_parts(&files) {
        Err(ThemeError::MissingFile(p)) => assert_eq!(p, "metadata.json"),
        other => panic!("expected a missing-file error, got {other:?}"),
    }
}

#[test]
fn plan_get_lays_out_the_downloaded_theme() {
    let mut t = Theme::default();
    t.name = "T".to_string();
    t.default_messages = "msg".to_string();
    t.templates.account_index = "A".to_string();
    let body = serialize_theme(&t);

    let files = plan_get(&body).expect("valid body");
    assert_eq!(files.len(), 48);
    assert_eq!(files[0].0, "metadata.json");
    assert_eq!(files[0].1, "{\n  \"id\": \"\",\n  \"name\": \"T\"\n}");
    assert_eq!(files[1], ("defaultMessages.txt".to_string(), "msg".to_string()));
    let slot = files
        .iter()
        .find(|(p, _)| p == "templates/account_index.ftl")
        .expect("slot file present");
    assert_eq!(slot.1, "A");
}

#[test]
fn plan_get_propagates_schema_errors() {
    assert_eq!(plan_get("{}"), Err(ThemeError::MissingTheme));
    assert_eq!(plan_get("no"), Err(ThemeError::JsonSyntax));
}

#[test]
fn plan_set_builds_the_upload_request() {
    let files = full_dir("{\"id\":\"42\",\"name\":\"MyTheme\"}", "hello");
    let request = plan_set(&files).expect("complete directory");
    assert_eq!(request.id, "42");

    let body: serde_json::Value = serde_json::from_str(&request.body).expect("body is JSON");
    assert_eq!(body["theme"]["name"], "MyTheme");
    assert_eq!(body["theme"]["defaultMessages"], "hello");
    let account_index = files
        .iter()
        .find(|(p, _)| p == "templates/account_index.ftl")
        .unwrap()
        .1
        .clone();
    assert_eq!(body["theme"]["templates"]["accountIndex"], account_index.as_str());
    assert!(body["theme"].get("id").is_none());
}

#[test]
fn plan_set_rejects_bad_metadata() {
    let files = full_dir("{\"id\":7,\"name\":\"x\"}", "dm");
    assert_eq!(plan_set(&files), Err(ThemeError::BadMetadata));
    let files = full_dir("{\"name\":\"x\"}", "dm");
    assert_eq!(plan_set(&files), Err(ThemeError::BadMetadata));
    let files = full_dir("not json", "dm");
    assert_eq!(plan_set(&files), Err(ThemeError::JsonSyntax));
}

#[test]
fn metadata_text_round_trips_through_plan_get_and_set() {
    let mut t = Theme::default();
    t.name = "N".to_string();
    t.id = "i-9".to_string();
    let body = {
        // A body that carries the id, so the written metadata keeps it.
        let text = serialize_theme(&t);
        text.replace("{\"theme\":{", "{\"theme\":{\"id\":\"i-9\",")
    };
    let files = plan_get(&body).expect("valid body");
    let request = plan_set(&files).expect("written directory reads back");
    assert_eq!(request.id, "i-9");
}

#[test]
fn theme_url_joins_base_and_id() {
    assert_eq!(theme_url("http://fa.example", "42"), "http://fa.example/api/theme/42");
    assert_eq!(theme_url("", ""), "/api/theme/");
}

#[test]
fn error_messages_name_the_subject() {
    assert_eq!(
        ThemeError::MissingFile("templates/helpers.ftl".to_string()).describe(),
        "missing file: templates/helpers.ftl"
    );
    assert_eq!(
        ThemeError::BadTemplate("accountIndex".to_string()).describe(),
        "template field missing or not a string: accountIndex"
    );
    assert_eq!(ThemeError::JsonSyntax.describe(), "the text is not valid JSON");
}

#[test]
fn slot_names_match_the_wire_schema() {
    assert_eq!(json_name_at(0), "accountEdit");
    assert_eq!(json_name_at(1), "accountIndex");
    assert_eq!(json_name_at(26), "oauth2StartIdPLink");
    assert_eq!(json_name_at(44), "samlv2Logout");
    assert_eq!(json_name_at(45), "unauthorized");
}

#[test]
fn default_theme_is_empty() {
    let t = Theme::default();
    assert_eq!(t.name, "");
    assert_eq!(t.id, "");
    assert_eq!(t.insert_instant, 0);
    assert_eq!(t.templates, Templates::default());
    assert_eq!(t.templates.unauthorized, "");
}

#[test]
fn metadata_is_written_pretty_printed() {
    let meta = Metadata { id: "a\"b".to_string(), name: "n".to_string() };
    let text = theme_sync::codec::render_metadata(&meta);
    assert_eq!(text, "{\n  \"id\": \"a\\\"b\",\n  \"name\": \"n\"\n}");
    let parsed: serde_json::Value = serde_json::from_str(&text).unwrap();
    assert_eq!(parsed["id"], "a\"b");
}
