use pulsar_studio::json::{Json, Number};
use pulsar_studio::schema::{validate_action_meta, validate_guide, validate_knowledge, Problem};
use pulsar_studio::text::decimal_text;

fn s(v: &str) -> Json {
    Json::Str(v.to_string())
}

fn obj(members: Vec<(&str, Json)>) -> Json {
    Json::Object(members.into_iter().map(|(k, v)| (k.to_string(), v)).collect())
}

fn meta() -> Json {
    obj(vec![("name", s("G")), ("version", s("1.0.0")), ("domain", s("dev"))])
}

fn guide_entry(plan: Vec<Json>) -> Json {
    obj(vec![("name", s("step")), ("description", s("d")), ("plan", Json::Array(plan))])
}

#[test]
fn empty_object_as_guide_names_meta_first() {
    let err = validate_guide(&obj(vec![])).unwrap_err();
    assert_eq!(err.path, "meta");
    assert_eq!(err.problem, Problem::MissingSection);
    assert_eq!(err.message(), "Missing 'meta' section");
    assert!(err.message().contains("meta"));
}

#[test]
fn valid_guide_passes() {
    let doc = obj(vec![("meta", meta()), ("entries", Json::Array(vec![guide_entry(vec![s("a"), s("b")])]))]);
    assert!(validate_guide(&doc).is_ok());
}

#[test]
fn guide_meta_fields_checked_in_order() {
    let doc = obj(vec![("meta", obj(vec![("version", s("1"))])), ("entries", Json::Array(vec![]))]);
    let err = validate_guide(&doc).unwrap_err();
    assert_eq!(err.path, "meta.name");
    assert_eq!(err.message(), "Missing or invalid 'meta.name' field");
    let doc = obj(vec![("meta", obj(vec![("name", s("n")), ("version", s("1"))]))]);
    assert_eq!(validate_guide(&doc).unwrap_err().path, "meta.domain");
    let doc = obj(vec![("meta", obj(vec![("name", s("n")), ("version", Json::Number(Number::PosInt(1)))]))]);
    assert_eq!(validate_guide(&doc).unwrap_err().path, "meta.version");
}

#[test]
fn empty_entries_are_a_violation() {
    let doc = obj(vec![("meta", meta()), ("entries", Json::Array(vec![]))]);
    let err = validate_guide(&doc).unwrap_err();
    assert_eq!(err.path, "entries");
    assert_eq!(err.problem, Problem::EmptyArray);
    let doc = obj(vec![("meta", meta()), ("entries", s("x"))]);
    let err = validate_guide(&doc).unwrap_err();
    assert_eq!(err.problem, Problem::MissingArray);
    assert_eq!(err.message(), "Missing or invalid 'entries' array");
}

#[test]
fn plan_step_path_is_indexed() {
    let entries = vec![
        guide_entry(vec![s("a")]),
        guide_entry(vec![s("a"), s("b"), Json::Bool(true)]),
    ];
    let doc = obj(vec![("meta", meta()), ("entries", Json::Array(entries))]);
    let err = validate_guide(&doc).unwrap_err();
    assert_eq!(err.path, "entries[1].plan[2]");
    assert_eq!(err.problem, Problem::NotAString);
    assert_eq!(err.message(), "'entries[1].plan[2]' must be a string");
}

#[test]
fn empty_plan_is_a_violation() {
    let doc = obj(vec![("meta", meta()), ("entries", Json::Array(vec![guide_entry(vec![])]))]);
    let err = validate_guide(&doc).unwrap_err();
    assert_eq!(err.path, "entries[0].plan");
    assert_eq!(err.message(), "'entries[0].plan' array cannot be empty");
}

#[test]
fn knowledge_entries_need_content() {
    let entry = obj(vec![("name", s("n")), ("description", s("d"))]);
    let doc = obj(vec![("meta", meta()), ("entries", Json::Array(vec![entry]))]);
    let err = validate_knowledge(&doc).unwrap_err();
    assert_eq!(err.path, "entries[0].content");
    let entry = obj(vec![("name", s("n")), ("description", s("d")), ("content", s("c"))]);
    let doc = obj(vec![("meta", meta()), ("entries", Json::Array(vec![entry]))]);
    assert!(validate_knowledge(&doc).is_ok());
}

fn argument(required: Json) -> Json {
    obj(vec![("name", s("path")), ("type", s("string")), ("description", s("d")), ("required", required)])
}

#[test]
fn action_meta_checks() {
    let good = obj(vec![
        ("name", s("build-tool")),
        ("description", s("d")),
        ("arguments", Json::Array(vec![argument(Json::Bool(true))])),
        ("timeout_sec", Json::Number(Number::PosInt(30))),
    ]);
    assert!(validate_action_meta(&good).is_ok());
    let no_args = obj(vec![
        ("name", s("b")),
        ("description", s("d")),
        ("arguments", Json::Array(vec![])),
        ("timeout_sec", Json::Number(Number::PosInt(30))),
    ]);
    let err = validate_action_meta(&no_args).unwrap_err();
    assert_eq!(err.path, "arguments");
    assert_eq!(err.problem, Problem::EmptyArray);
    let empty_args_no_timeout = obj(vec![
        ("name", s("b")),
        ("description", s("d")),
        ("arguments", Json::Array(vec![])),
    ]);
    let err = validate_action_meta(&empty_args_no_timeout).unwrap_err();
    assert_eq!(err.path, "arguments");
    assert_eq!(err.message(), "'arguments' array cannot be empty");
    let negative_timeout = obj(vec![
        ("name", s("b")),
        ("description", s("d")),
        ("arguments", Json::Array(vec![argument(Json::Bool(true))])),
        ("timeout_sec", Json::Number(Number::NegInt(-1))),
    ]);
    assert_eq!(validate_action_meta(&negative_timeout).unwrap_err().path, "timeout_sec");
    let bad_required = obj(vec![
        ("name", s("b")),
        ("description", s("d")),
        ("arguments", Json::Array(vec![argument(Json::Bool(false)), argument(s("yes"))])),
        ("timeout_sec", Json::Number(Number::PosInt(5))),
    ]);
    let err = validate_action_meta(&bad_required).unwrap_err();
    assert_eq!(err.path, "arguments[1].required");
    assert_eq!(err.message(), "Missing or invalid 'arguments[1].required' field");
    let missing_name = obj(vec![("description", s("d"))]);
    assert_eq!(validate_action_meta(&missing_name).unwrap_err().path, "name");
}

#[test]
fn decimal_rendering() {
    assert_eq!(decimal_text(0), "0");
    assert_eq!(decimal_text(7), "7");
    assert_eq!(decimal_text(1234), "1234");
    assert_eq!(decimal_text(100), "100");
}
