use pulsar_studio::actions::{
    decode_status, get_action_status, import_action, import_name, plan_delete_action, plan_import, plan_set_status,
    read_status, set_action_status, status_path_of, validate_bundle, ActionError, ActionStatus, BundleProbe,
    StatusKind,
};
use pulsar_studio::copy_tree::{CopyOp, CopyWorklist, EntryKind};
use pulsar_studio::effects::{Effect, Probe};
use pulsar_studio::error::StoreError;
use pulsar_studio::json::{Json, Number};

fn s(v: &str) -> Json {
    Json::Str(v.to_string())
}

fn obj(members: Vec<(&str, Json)>) -> Json {
    Json::Object(members.into_iter().map(|(k, v)| (k.to_string(), v)).collect())
}

fn written(effects: Vec<Effect>) -> (String, Json) {
    assert_eq!(effects.len(), 1);
    match effects.into_iter().next().unwrap() {
        Effect::WriteJson(p, d) => (p, d),
        other => panic!("unexpected {:?}", other),
    }
}

fn meta(name: &str) -> Json {
    obj(vec![
        ("name", s(name)),
        ("description", s("builds")),
        (
            "arguments",
            Json::Array(vec![obj(vec![
                ("name", s("target")),
                ("type", s("string")),
                ("description", s("what")),
                ("required", Json::Bool(true)),
            ])]),
        ),
        ("timeout_sec", Json::Number(Number::PosInt(60))),
    ])
}

#[test]
fn error_on_fresh_action_records_the_failure() {
    let effects = plan_set_status(
        "build-tool",
        Probe::Absent,
        StatusKind::Error,
        Some("timeout".to_string()),
        Some("exec-42".to_string()),
        "2024-01-01T00:00:00+00:00".to_string(),
    )
    .unwrap();
    let (path, doc) = written(effects);
    assert_eq!(path, "actions/build-tool/status.json");
    let status = decode_status(&doc).unwrap();
    assert_eq!(status.status, StatusKind::Error);
    assert_eq!(status.error_count, 1);
    let e = status.last_error.unwrap();
    assert_eq!(e.message, "timeout");
    assert_eq!(e.execution_id, "exec-42");
    assert_eq!(e.timestamp, "2024-01-01T00:00:00+00:00");
    assert!(status.last_success.is_none());
}

#[test]
fn error_without_details_keeps_last_error_and_counts() {
    let before = ActionStatus {
        status: StatusKind::Healthy,
        last_error: Some(ActionError {
            message: "old".to_string(),
            timestamp: "t0".to_string(),
            execution_id: "e0".to_string(),
        }),
        error_count: 4,
        last_success: Some("t1".to_string()),
    };
    let after = before.transition(StatusKind::Error, Some("m".to_string()), None, "t2".to_string());
    assert_eq!(after.error_count, 5);
    assert_eq!(after.last_error.as_ref().unwrap().message, "old");
    assert_eq!(after.last_success.as_deref(), Some("t1"));
    let healthy = after.transition(StatusKind::Healthy, None, None, "t3".to_string());
    assert_eq!(healthy.error_count, 5);
    assert_eq!(healthy.last_success.as_deref(), Some("t3"));
    let disabled = healthy.transition(StatusKind::Disabled, None, None, "t4".to_string());
    assert_eq!(disabled.status, StatusKind::Disabled);
    assert_eq!(disabled.error_count, 5);
    assert_eq!(disabled.last_success.as_deref(), Some("t3"));
}

#[test]
fn error_count_holds_at_its_largest_value() {
    let s0 = ActionStatus { status: StatusKind::Error, last_error: None, error_count: u32::MAX, last_success: None };
    let s1 = s0.transition(StatusKind::Error, None, None, "t".to_string());
    assert_eq!(s1.error_count, u32::MAX);
}

#[test]
fn status_round_trips_through_its_document() {
    let st = ActionStatus {
        status: StatusKind::Disabled,
        last_error: Some(ActionError { message: "m".to_string(), timestamp: "t".to_string(), execution_id: "x".to_string() }),
        error_count: 3,
        last_success: None,
    };
    let doc = st.encode();
    let back = decode_status(&doc).unwrap();
    assert_eq!(back.status, StatusKind::Disabled);
    assert_eq!(back.error_count, 3);
    assert_eq!(back.last_error.unwrap().execution_id, "x");
    let stored = obj(vec![("status", s("error")), ("error_count", Json::Number(Number::PosInt(2)))]);
    let st = read_status("a", Probe::Found(stored), "now".to_string()).unwrap();
    assert_eq!(st.error_count, 2);
    assert!(st.last_error.is_none());
    let bad = obj(vec![("status", s("broken")), ("error_count", Json::Number(Number::PosInt(2)))]);
    assert!(matches!(read_status("a", Probe::Found(bad), "now".to_string()), Err(StoreError::ParseError)));
}

#[test]
fn missing_status_reads_as_healthy() {
    let st = read_status("a", Probe::Absent, "now".to_string()).unwrap();
    assert_eq!(st.status, StatusKind::Healthy);
    assert_eq!(st.error_count, 0);
    assert_eq!(st.last_success.as_deref(), Some("now"));
    let st = get_action_status("a", Probe::Absent).unwrap();
    assert!(!st.last_success.unwrap().is_empty());
    assert!(matches!(read_status("../a", Probe::Absent, "now".to_string()), Err(StoreError::InvalidPath)));
    assert!(matches!(status_path_of("a/b"), Err(StoreError::InvalidPath)));
    assert_eq!(status_path_of("a").unwrap(), "actions/a/status.json");
}

#[test]
fn set_status_with_clock_stamps_success() {
    let effects = set_action_status("a", Probe::Absent, StatusKind::Healthy, None, None).unwrap();
    let (_, doc) = written(effects);
    let st = decode_status(&doc).unwrap();
    assert!(!st.last_success.unwrap().is_empty());
    assert!(matches!(
        set_action_status("a/..", Probe::Absent, StatusKind::Healthy, None, None),
        Err(StoreError::InvalidPath)
    ));
    assert!(matches!(
        plan_set_status("a", Probe::Malformed, StatusKind::Healthy, None, None, "t".to_string()),
        Err(StoreError::ParseError)
    ));
}

#[test]
fn status_kind_parsing() {
    assert_eq!(StatusKind::parse("healthy").unwrap(), StatusKind::Healthy);
    assert_eq!(StatusKind::parse("disabled").unwrap(), StatusKind::Disabled);
    assert!(matches!(StatusKind::parse("Error"), Err(StoreError::InvalidValue)));
    assert_eq!(StatusKind::Error.name(), "error");
}

#[test]
fn import_into_existing_directory_fails() {
    let r = plan_import("/src/build-tool", "build-tool", true, "t".to_string());
    assert!(matches!(r, Err(StoreError::DuplicateName)));
    assert!(matches!(import_action("/src/x", "x", true), Err(StoreError::DuplicateName)));
}

#[test]
fn import_plans_copy_then_status() {
    let effects = plan_import("/src/build-tool", "build-tool", false, "t0".to_string()).unwrap();
    assert_eq!(effects.len(), 3);
    assert!(matches!(&effects[0], Effect::CreateDir(p) if p == "actions"));
    assert!(matches!(&effects[1], Effect::CopyTree(s, t) if s == "/src/build-tool" && t == "actions/build-tool"));
    match &effects[2] {
        Effect::WriteJson(p, d) => {
            assert_eq!(p, "actions/build-tool/status.json");
            let st = decode_status(d).unwrap();
            assert_eq!(st.status, StatusKind::Healthy);
            assert_eq!(st.error_count, 0);
            assert_eq!(st.last_success.as_deref(), Some("t0"));
        },
        other => panic!("unexpected {:?}", other),
    }
    assert!(matches!(plan_import("/src", "a/b", false, "t".to_string()), Err(StoreError::InvalidPath)));
}

#[test]
fn bundle_checks() {
    let gone = BundleProbe { is_dir: false, has_meta: false, has_entry_point: false };
    let r = validate_bundle(&gone, Probe::Absent);
    assert!(!r.is_valid);
    assert_eq!(r.error.as_deref(), Some("Directory does not exist"));
    let bare = BundleProbe { is_dir: true, has_meta: false, has_entry_point: false };
    let r = validate_bundle(&bare, Probe::Absent);
    assert_eq!(r.error.as_deref(), Some("Missing required files: meta.json, perform.js"));
    assert_eq!(r.missing_files, vec!["meta.json".to_string(), "perform.js".to_string()]);
    let no_entry = BundleProbe { is_dir: true, has_meta: true, has_entry_point: false };
    let r = validate_bundle(&no_entry, Probe::Absent);
    assert_eq!(r.missing_files, vec!["perform.js".to_string()]);
    let full = BundleProbe { is_dir: true, has_meta: true, has_entry_point: true };
    let r = validate_bundle(&full, Probe::Found(meta("build-tool")));
    assert!(r.is_valid);
    assert!(r.error.is_none());
    assert_eq!(import_name(&r, &meta("build-tool")).unwrap(), "build-tool");
    assert!(matches!(import_name(&r, &meta("../evil")), Err(StoreError::InvalidPath)));
    let r = validate_bundle(&full, Probe::Found(obj(vec![("name", s("x"))])));
    assert!(!r.is_valid);
    assert_eq!(r.error.as_deref(), Some("Missing or invalid 'description' field"));
    assert!(matches!(import_name(&r, &meta("x")), Err(StoreError::InvalidBundle)));
    let r = validate_bundle(&full, Probe::Malformed);
    assert!(!r.is_valid);
    assert_eq!(r.error.as_deref(), Some("Failed to parse meta.json"));
    assert!(r.missing_files.is_empty());
    let r = validate_bundle(&full, Probe::Absent);
    assert!(!r.is_valid);
    assert_eq!(r.error.as_deref(), Some("Failed to read meta.json"));
    let json = validate_bundle(&bare, Probe::Absent).to_json();
    assert!(matches!(json.get("is_valid"), Some(Json::Bool(false))));
    assert!(matches!(json.get("missing_files"), Some(Json::Array(f)) if f.len() == 2));
}

#[test]
fn delete_action_checks() {
    assert!(matches!(plan_delete_action("..", true), Err(StoreError::InvalidPath)));
    assert!(matches!(plan_delete_action("a", false), Err(StoreError::NotFound)));
    let effects = plan_delete_action("a", true).unwrap();
    assert!(matches!(&effects[..], [Effect::RemoveTree(p)] if p == "actions/a"));
}

#[test]
fn copy_worklist_walks_directories_and_refuses_links() {
    let mut w = CopyWorklist::new();
    let root = w.next_dir().unwrap();
    assert_eq!(root, "");
    let entries = vec![("meta.json".to_string(), EntryKind::File), ("lib".to_string(), EntryKind::Dir)];
    let ops = w.visit(&root, &entries).unwrap();
    assert!(matches!(&ops[0], CopyOp::CopyFile(p) if p == "meta.json"));
    assert!(matches!(&ops[1], CopyOp::MakeDir(p) if p == "lib"));
    let sub = w.next_dir().unwrap();
    assert_eq!(sub, "lib");
    let ops = w.visit(&sub, &vec![("a.js".to_string(), EntryKind::File)]).unwrap();
    assert!(matches!(&ops[0], CopyOp::CopyFile(p) if p == "lib/a.js"));
    assert!(w.next_dir().is_none());
    let mut w = CopyWorklist::new();
    let root = w.next_dir().unwrap();
    let linked = vec![("ok".to_string(), EntryKind::Dir), ("escape".to_string(), EntryKind::Symlink)];
    assert!(matches!(w.visit(&root, &linked), Err(StoreError::InvalidPath)));
    assert!(w.next_dir().is_none());
}

#[test]
fn unsafe_action_names_fail_every_operation() {
    for name in ["..", "a/b", "a\\b", "x..y"] {
        assert!(matches!(status_path_of(name), Err(StoreError::InvalidPath)));
        assert!(matches!(read_status(name, Probe::Absent, "t".to_string()), Err(StoreError::InvalidPath)));
        assert!(matches!(
            plan_set_status(name, Probe::Absent, StatusKind::Error, None, None, "t".to_string()),
            Err(StoreError::InvalidPath)
        ));
        assert!(matches!(plan_delete_action(name, true), Err(StoreError::InvalidPath)));
        assert!(matches!(plan_import("/src", name, false, "t".to_string()), Err(StoreError::InvalidPath)));
    }
}
