use pulsar_studio::agent::{ask_request, report_of, report_request, run_id_of, AgentAskRequest, NodeAgentResponse};
use pulsar_studio::effects::Effect;
use pulsar_studio::error::StoreError;
use pulsar_studio::json::Json;
use pulsar_studio::permissions::directory_permissions;
use pulsar_studio::threads::{create_thread, plan_create_thread, CreateThreadRequest};

fn request() -> CreateThreadRequest {
    CreateThreadRequest {
        name: "Refactor".to_string(),
        working_dir: "/work".to_string(),
        planner_llm_alias: "gpt-4".to_string(),
        decider_llm_alias: "local-llama".to_string(),
        selected_knowledge: vec!["k.json".to_string()],
        selected_guides: vec![],
        selected_actions: vec!["build-tool".to_string(), "lint".to_string()],
    }
}

#[test]
fn thread_is_saved_under_its_id() {
    let (t, effects) = plan_create_thread(request(), "abc".to_string(), "t0".to_string()).unwrap();
    assert_eq!(t.id, "abc");
    assert_eq!(t.created_at, "t0");
    assert_eq!(t.updated_at, "t0");
    assert!(t.agent_state.is_none());
    assert_eq!(t.config.as_ref().unwrap().selected_actions, vec!["build-tool", "lint"]);
    match &effects[..] {
        [Effect::WriteJson(p, d)] => {
            assert_eq!(p, "saves/abc.json");
            assert!(matches!(d.get("name"), Some(Json::Str(v)) if v == "Refactor"));
            assert!(matches!(d.get("agent_state"), Some(Json::Null)));
            let c = d.get("config").unwrap();
            assert!(matches!(c.get("plannerLlmAlias"), Some(Json::Str(v)) if v == "gpt-4"));
            assert!(matches!(c.get("selectedActions"), Some(Json::Array(a)) if a.len() == 2));
        },
        other => panic!("unexpected {:?}", other),
    }
    assert!(matches!(plan_create_thread(request(), "../x".to_string(), "t".to_string()), Err(StoreError::InvalidPath)));
}

#[test]
fn created_thread_gets_a_fresh_identifier() {
    let (a, _) = create_thread(request()).unwrap();
    let (b, _) = create_thread(request()).unwrap();
    assert_eq!(a.id.len(), 36);
    assert_ne!(a.id, b.id);
    assert!(!a.created_at.is_empty());
}

#[test]
fn agent_answers() {
    let req = ask_request(AgentAskRequest {
        thread_id: "t1".to_string(),
        text: "hi".to_string(),
        files: vec!["a.txt".to_string()],
        execution_mode: "auto".to_string(),
    });
    assert_eq!(req.action, "ask_agent");
    assert_eq!(req.thread_id, "t1");
    assert!(matches!(req.data.get("text"), Some(Json::Str(v)) if v == "hi"));
    let ok = NodeAgentResponse {
        success: true,
        data: Some(Json::Object(vec![("run_id".to_string(), Json::Str("r1".to_string()))])),
        error: None,
    };
    assert_eq!(run_id_of(ok).unwrap(), "r1");
    let empty = NodeAgentResponse { success: true, data: Some(Json::Object(vec![])), error: None };
    assert_eq!(run_id_of(empty).unwrap_err(), "Invalid response from agent");
    let failed = NodeAgentResponse { success: false, data: None, error: None };
    assert_eq!(run_id_of(failed).unwrap_err(), "Unknown error");
    let rep = report_request("r1".to_string());
    assert_eq!(rep.action, "get_report");
    assert_eq!(rep.thread_id, "");
    let none = NodeAgentResponse { success: true, data: None, error: None };
    assert_eq!(report_of(none).unwrap_err(), "No data returned");
    let bad = NodeAgentResponse { success: false, data: None, error: Some("boom".to_string()) };
    assert_eq!(report_of(bad).unwrap_err(), "boom");
}

#[test]
fn permission_stages() {
    let r = directory_permissions("/p".to_string(), false, false, None, None);
    assert_eq!(r.error.as_deref(), Some("Directory does not exist"));
    let r = directory_permissions("/p".to_string(), true, false, None, None);
    assert_eq!(r.error.as_deref(), Some("Path is not a directory"));
    let r = directory_permissions("/p".to_string(), true, true, Some(Err("denied".to_string())), None);
    assert_eq!(r.error.as_deref(), Some("Cannot read directory: denied"));
    assert!(!r.readable);
    let r = directory_permissions("/p".to_string(), true, true, Some(Ok(())), Some(Err("read-only".to_string())));
    assert!(r.readable && !r.writable);
    assert_eq!(r.error.as_deref(), Some("Cannot write to directory: read-only"));
    let r = directory_permissions("/p".to_string(), true, true, Some(Ok(())), Some(Ok(())));
    assert!(r.readable && r.writable && r.error.is_none());
}
