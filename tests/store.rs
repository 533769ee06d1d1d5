use pulsar_studio::effects::{Effect, Probe};
use pulsar_studio::entity_store::{entity_path, load_entity, plan_delete, plan_save, Collection};
use pulsar_studio::error::StoreError;
use pulsar_studio::json::Json;
use pulsar_studio::path_guard::{is_safe_name, json_file_name, sanitize};
use pulsar_studio::bootstrap::{bootstrap_paths, default_guide, default_knowledge, plan_bootstrap, plan_collection_seed, Seeds};
use pulsar_studio::schema::{validate_guide, validate_knowledge};

fn s(v: &str) -> Json {
    Json::Str(v.to_string())
}

fn obj(members: Vec<(&str, Json)>) -> Json {
    Json::Object(members.into_iter().map(|(k, v)| (k.to_string(), v)).collect())
}

fn guide() -> Json {
    obj(vec![
        ("meta", obj(vec![("name", s("G")), ("version", s("1")), ("domain", s("d"))])),
        (
            "entries",
            Json::Array(vec![obj(vec![("name", s("n")), ("description", s("d")), ("plan", Json::Array(vec![s("p")]))])]),
        ),
    ])
}

#[test]
fn sanitize_rejects_traversal() {
    assert!(matches!(sanitize("../etc"), Err(StoreError::InvalidPath)));
    assert!(matches!(sanitize("a/b"), Err(StoreError::InvalidPath)));
    assert!(matches!(sanitize("a\\b"), Err(StoreError::InvalidPath)));
    assert!(matches!(sanitize("a..b"), Err(StoreError::InvalidPath)));
    assert_eq!(sanitize("notes.json").unwrap(), "notes.json");
    assert_eq!(sanitize("a.b.c").unwrap(), "a.b.c");
    assert!(is_safe_name(""));
}

#[test]
fn json_suffix_added_once() {
    assert_eq!(json_file_name("x"), "x.json");
    assert_eq!(json_file_name("x.json"), "x.json");
    assert_eq!(json_file_name("x.jso"), "x.jso.json");
}

#[test]
fn save_then_load_round_trip() {
    let effects = plan_save(Collection::Guides, "x", guide()).unwrap();
    assert_eq!(effects.len(), 2);
    assert!(matches!(&effects[0], Effect::CreateDir(p) if p == "guides"));
    let written = match &effects[1] {
        Effect::WriteJson(p, d) => {
            assert_eq!(p, "guides/x.json");
            d
        },
        other => panic!("unexpected {:?}", other),
    };
    let path = entity_path(Collection::Guides, "x.json").unwrap();
    assert_eq!(path, "guides/x.json");
    let loaded = load_entity("x.json", Probe::Found(guide())).unwrap();
    assert_eq!(format!("{:?}", loaded), format!("{:?}", written));
}

#[test]
fn save_rejects_invalid_documents() {
    let err = plan_save(Collection::Knowledge, "k", guide()).unwrap_err();
    match err {
        StoreError::Validation(e) => assert_eq!(e.path, "entries[0].content"),
        other => panic!("unexpected {:?}", other),
    }
}

#[test]
fn unsafe_names_fail_every_operation() {
    for name in ["..", "../x", "a/b", "a\\b", "..json"] {
        assert!(matches!(plan_save(Collection::Guides, name, guide()), Err(StoreError::InvalidPath)));
        assert!(matches!(entity_path(Collection::Guides, name), Err(StoreError::InvalidPath)));
        assert!(matches!(load_entity(name, Probe::Found(guide())), Err(StoreError::InvalidPath)));
        assert!(matches!(plan_delete(Collection::Knowledge, name, true), Err(StoreError::InvalidPath)));
    }
}

#[test]
fn load_and_delete_need_the_file() {
    assert!(matches!(load_entity("g.json", Probe::Absent), Err(StoreError::NotFound)));
    assert!(matches!(load_entity("g.json", Probe::Malformed), Err(StoreError::ParseError)));
    assert!(matches!(plan_delete(Collection::Guides, "g.json", false), Err(StoreError::NotFound)));
    let effects = plan_delete(Collection::Guides, "g.json", true).unwrap();
    assert!(matches!(&effects[..], [Effect::RemoveFile(p)] if p == "guides/g.json"));
}

#[test]
fn seeds_pass_their_schemas() {
    assert!(validate_guide(&default_guide()).is_ok());
    assert!(validate_knowledge(&default_knowledge()).is_ok());
}

#[test]
fn bootstrap_on_empty_root_makes_everything() {
    let present = vec![false; 8];
    let effects = plan_bootstrap(&present, Seeds::defaults("/data"));
    assert_eq!(effects.len(), 8);
    let paths = bootstrap_paths();
    assert_eq!(paths, vec![
        "guides", "knowledge", "actions", "saves", "logs", "config.json",
        "guides/software-development.json", "knowledge/software-development.json",
    ]);
    assert!(matches!(&effects[0], Effect::CreateDir(p) if p == "guides"));
    assert!(matches!(&effects[4], Effect::CreateDir(p) if p == "logs"));
    assert!(matches!(&effects[5], Effect::WriteJson(p, _) if p == "config.json"));
    assert!(matches!(&effects[7], Effect::WriteJson(p, _) if p == "knowledge/software-development.json"));
}

#[test]
fn bootstrap_twice_does_nothing_the_second_time() {
    let first = plan_bootstrap(&vec![true, false, true, true, false, true, false, true], Seeds::defaults("/data"));
    assert_eq!(first.len(), 3);
    assert!(matches!(&first[0], Effect::CreateDir(p) if p == "knowledge"));
    assert!(matches!(&first[1], Effect::CreateDir(p) if p == "logs"));
    assert!(matches!(&first[2], Effect::WriteJson(p, _) if p == "guides/software-development.json"));
    let second = plan_bootstrap(&vec![true; 8], Seeds::defaults("/data"));
    assert!(second.is_empty());
    let short = plan_bootstrap(&vec![true; 3], Seeds::defaults("/data"));
    assert_eq!(short.len(), 5);
}

#[test]
fn collection_seed_only_when_absent() {
    let with_seed = plan_collection_seed(Collection::Knowledge, false);
    assert_eq!(with_seed.len(), 2);
    assert!(matches!(&with_seed[1], Effect::WriteJson(p, _) if p == "knowledge/software-development.json"));
    let without = plan_collection_seed(Collection::Guides, true);
    assert_eq!(without.len(), 1);
    assert!(matches!(&without[0], Effect::CreateDir(p) if p == "guides"));
}

#[test]
fn set_member_replaces_or_appends() {
    let doc = obj(vec![("name", s("a"))]);
    let doc = doc.set_member("directory_name", s("dir"));
    let doc = doc.set_member("name", s("b"));
    match doc {
        Json::Object(m) => {
            assert_eq!(m.len(), 2);
            assert_eq!(m[0].0, "name");
            assert!(matches!(&m[0].1, Json::Str(v) if v == "b"));
            assert!(matches!(&m[1].1, Json::Str(v) if v == "dir"));
        },
        _ => panic!("not an object"),
    }
    assert!(matches!(Json::Null.set_member("a", s("b")), Json::Null));
}
