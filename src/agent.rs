//! The request/response boundary to the external agent runner: building
//! its requests and reading its answers. The runner itself is outside the
//! library.

use vstd::prelude::*;
use crate::json::{keys_distinct, member, object_of, text_array, texts, Json};

verus! {

/// A question for the agent about a thread.
#[derive(Debug)]
pub struct AgentAskRequest {
    pub thread_id: String,
    pub text: String,
    pub files: Vec<String>,
    pub execution_mode: String,
}

/// A request to the agent runner.
#[derive(Debug)]
pub struct NodeAgentRequest {
    pub action: String,
    pub thread_id: String,
    pub data: Json,
}

/// The agent runner's answer.
#[derive(Debug)]
pub struct NodeAgentResponse {
    pub success: bool,
    pub data: Option<Json>,
    pub error: Option<String>,
}

/// The request that starts a run answering `req`: action `ask_agent` with
/// the text, files and execution mode.
pub fn ask_request(req: AgentAskRequest) -> (r: NodeAgentRequest)
    ensures
        r.action@ == "ask_agent"@,
        r.thread_id == req.thread_id,
        r.data.field("text"@) == Some(Json::Str(req.text)),
        r.data.field("files"@) matches Some(Json::Array(f)) && texts(f@, req.files@),
        r.data.field("execution_mode"@) == Some(Json::Str(req.execution_mode)),
{
    proof {
        reveal_strlit("text");
        reveal_strlit("files");
        reveal_strlit("execution_mode");
    }
    let AgentAskRequest { thread_id, text, files, execution_mode } = req;
    let mut m: Vec<(String, Json)> = Vec::new();
    m.push(member("execution_mode", Json::Str(execution_mode)));
    m.push(member("files", text_array(&files)));
    m.push(member("text", Json::Str(text)));
    let ghost mv = m@;
    proof {
        assert(mv[0].0@.len() != mv[1].0@.len());
        assert(mv[0].0@.len() != mv[2].0@.len());
        assert(mv[1].0@.len() != mv[2].0@.len());
        assert(keys_distinct(mv));
    }
    let data = object_of(m);
    proof {
        assert(data.field(mv[0].0@) == Some(mv[0].1));
        assert(data.field(mv[1].0@) == Some(mv[1].1));
        assert(data.field(mv[2].0@) == Some(mv[2].1));
    }
    NodeAgentRequest { action: String::from_str("ask_agent"), thread_id, data }
}

/// The request for the report of run `run_id`: action `get_report`, no
/// thread.
pub fn report_request(run_id: String) -> (r: NodeAgentRequest)
    ensures
        r.action@ == "get_report"@,
        r.thread_id@.len() == 0,
        r.data.field("run_id"@) == Some(Json::Str(run_id)),
{
    let mut m: Vec<(String, Json)> = Vec::new();
    m.push(member("run_id", Json::Str(run_id)));
    let ghost mv = m@;
    let data = object_of(m);
    proof {
        assert(data.field(mv[0].0@) == Some(mv[0].1));
    }
    NodeAgentRequest { action: String::from_str("get_report"), thread_id: String::new(), data }
}

/// The message of a failed answer: its error, or "Unknown error".
pub open spec fn failure_message(resp: NodeAgentResponse) -> Seq<char> {
    match resp.error {
        Some(e) => e@,
        None => "Unknown error"@,
    }
}

fn failure(error: Option<String>) -> (r: String)
    ensures
        r@ == match error {
            Some(e) => e@,
            None => "Unknown error"@,
        },
{
    match error {
        Some(e) => e,
        None => String::from_str("Unknown error"),
    }
}

/// The run identifier of an answer to an ask request: the string `run_id`
/// of its data. A successful answer without one is an invalid response; a
/// failed answer gives its error.
pub fn run_id_of(resp: NodeAgentResponse) -> (r: Result<String, String>)
    ensures
        resp.success ==> match resp.data {
            Some(d) => match d.field("run_id"@) {
                Some(Json::Str(id)) => r == Ok::<String, String>(id),
                _ => r matches Err(m) && m@ == "Invalid response from agent"@,
            },
            None => r matches Err(m) && m@ == "Invalid response from agent"@,
        },
        !resp.success ==> (r matches Err(m) && m@ == failure_message(resp)),
{
    let NodeAgentResponse { success, data, error } = resp;
    if !success {
        return Err(failure(error));
    }
    match data {
        Some(d) => match d.get("run_id") {
            Some(Json::Str(id)) => Ok(id.clone()),
            _ => Err(String::from_str("Invalid response from agent")),
        },
        None => Err(String::from_str("Invalid response from agent")),
    }
}

/// The report in an answer to a report request: its data. A successful
/// answer without data is an error; a failed answer gives its error.
pub fn report_of(resp: NodeAgentResponse) -> (r: Result<Json, String>)
    ensures
        resp.success ==> match resp.data {
            Some(d) => r == Ok::<Json, String>(d),
            None => r matches Err(m) && m@ == "No data returned"@,
        },
        !resp.success ==> (r matches Err(m) && m@ == failure_message(resp)),
{
    let NodeAgentResponse { success, data, error } = resp;
    if !success {
        return Err(failure(error));
    }
    match data {
        Some(d) => Ok(d),
        None => Err(String::from_str("No data returned")),
    }
}

} // verus!
