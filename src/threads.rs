//! Session records: a thread is created once, with its configuration, and
//! persisted to `saves/<id>.json`.

use vstd::prelude::*;
use crate::effects::{child, child_path, Effect};
use crate::error::{outcome, Fault, StoreError};
use crate::json::{keys_distinct, member, object_of, text_array, texts, Json};
use crate::path_guard::{is_safe_name, is_safe_segment};
use crate::text::join2;

verus! {

/// What a caller asks for when it creates a thread.
#[derive(Debug)]
pub struct CreateThreadRequest {
    pub name: String,
    pub working_dir: String,
    pub planner_llm_alias: String,
    pub decider_llm_alias: String,
    pub selected_knowledge: Vec<String>,
    pub selected_guides: Vec<String>,
    pub selected_actions: Vec<String>,
}

/// The LLMs and the knowledge, guides and actions a thread works with.
#[derive(Debug)]
pub struct ThreadConfig {
    pub planner_llm_alias: String,
    pub decider_llm_alias: String,
    pub selected_knowledge: Vec<String>,
    pub selected_guides: Vec<String>,
    pub selected_actions: Vec<String>,
}

/// The state the agent keeps for a thread.
#[derive(Debug)]
pub struct AgentState {
    pub run_id: Option<String>,
    pub execution_mode: String,
    pub current_plan: Option<Json>,
    pub last_activity: String,
}

/// A session record.
#[derive(Debug)]
pub struct Thread {
    pub id: String,
    pub name: String,
    pub working_dir: String,
    pub created_at: String,
    pub updated_at: String,
    pub agent_state: Option<AgentState>,
    pub config: Option<ThreadConfig>,
}

/// The file a thread with identifier `id` is saved to.
pub open spec fn thread_path(id: Seq<char>) -> Seq<char> {
    child("saves"@, id + ".json"@)
}

/// `doc` is the saved form of the thread made from `req` with identifier
/// `id` at time `now`.
pub open spec fn thread_doc(doc: Json, req: CreateThreadRequest, id: String, now: String) -> bool {
    &&& doc.field("id"@) == Some(Json::Str(id))
    &&& doc.field("name"@) == Some(Json::Str(req.name))
    &&& doc.field("working_dir"@) == Some(Json::Str(req.working_dir))
    &&& doc.field("created_at"@) == Some(Json::Str(now))
    &&& doc.field("updated_at"@) == Some(Json::Str(now))
    &&& doc.field("agent_state"@) == Some(Json::Null)
    &&& doc.field("config"@) matches Some(c) && {
        &&& c.field("plannerLlmAlias"@) == Some(Json::Str(req.planner_llm_alias))
        &&& c.field("deciderLlmAlias"@) == Some(Json::Str(req.decider_llm_alias))
        &&& c.field("selectedKnowledge"@) matches Some(Json::Array(k)) && texts(k@, req.selected_knowledge@)
        &&& c.field("selectedGuides"@) matches Some(Json::Array(g)) && texts(g@, req.selected_guides@)
        &&& c.field("selectedActions"@) matches Some(Json::Array(a)) && texts(a@, req.selected_actions@)
    }
}

/// `r` is the outcome of creating the thread asked for by `req` with
/// identifier `id` at time `now`: the thread, created and updated `now`,
/// with no agent state and the request's configuration, and one write of
/// its saved form; refused with `InvalidPath` when `id` is not a plain path
/// segment.
pub open spec fn creates_thread(
    r: Result<(Thread, Vec<Effect>), StoreError>,
    req: CreateThreadRequest,
    id: String,
    now: String,
) -> bool {
    match r {
        Ok((t, v)) => {
            &&& is_safe_segment(id@)
            &&& t.id == id
            &&& t.name == req.name
            &&& t.working_dir == req.working_dir
            &&& t.created_at == now
            &&& t.updated_at == now
            &&& t.agent_state is None
            &&& t.config matches Some(c) && {
                &&& c.planner_llm_alias == req.planner_llm_alias
                &&& c.decider_llm_alias == req.decider_llm_alias
                &&& c.selected_knowledge@ == req.selected_knowledge@
                &&& c.selected_guides@ == req.selected_guides@
                &&& c.selected_actions@ == req.selected_actions@
            }
            &&& v@.len() == 1
            &&& v@[0] matches Effect::WriteJson(p, d) && p@ == thread_path(id@) && thread_doc(d, req, id, now)
        },
        Err(e) => !is_safe_segment(id@) && e@ == Fault::InvalidPath,
    }
}

fn config_doc(req: &CreateThreadRequest) -> (r: Json)
    ensures
        r.field("plannerLlmAlias"@) == Some(Json::Str(req.planner_llm_alias)),
        r.field("deciderLlmAlias"@) == Some(Json::Str(req.decider_llm_alias)),
        r.field("selectedKnowledge"@) matches Some(Json::Array(k)) && texts(k@, req.selected_knowledge@),
        r.field("selectedGuides"@) matches Some(Json::Array(g)) && texts(g@, req.selected_guides@),
        r.field("selectedActions"@) matches Some(Json::Array(a)) && texts(a@, req.selected_actions@),
{
    proof {
        reveal_strlit("deciderLlmAlias");
        reveal_strlit("plannerLlmAlias");
        reveal_strlit("selectedActions");
        reveal_strlit("selectedGuides");
        reveal_strlit("selectedKnowledge");
    }
    let mut m: Vec<(String, Json)> = Vec::new();
    m.push(member("deciderLlmAlias", Json::Str(req.decider_llm_alias.clone())));
    m.push(member("plannerLlmAlias", Json::Str(req.planner_llm_alias.clone())));
    m.push(member("selectedActions", text_array(&req.selected_actions)));
    m.push(member("selectedGuides", text_array(&req.selected_guides)));
    m.push(member("selectedKnowledge", text_array(&req.selected_knowledge)));
    let ghost mv = m@;
    proof {
        assert(mv[0].0@[0] != mv[1].0@[0]);
        assert(mv[0].0@[0] != mv[2].0@[0]);
        assert(mv[0].0@.len() != mv[3].0@.len());
        assert(mv[0].0@.len() != mv[4].0@.len());
        assert(mv[1].0@[0] != mv[2].0@[0]);
        assert(mv[1].0@.len() != mv[3].0@.len());
        assert(mv[1].0@.len() != mv[4].0@.len());
        assert(mv[2].0@.len() != mv[3].0@.len());
        assert(mv[2].0@.len() != mv[4].0@.len());
        assert(mv[3].0@.len() != mv[4].0@.len());
        assert(keys_distinct(mv));
    }
    let r = object_of(m);
    proof {
        assert(r.field(mv[0].0@) == Some(mv[0].1));
        assert(r.field(mv[1].0@) == Some(mv[1].1));
        assert(r.field(mv[2].0@) == Some(mv[2].1));
        assert(r.field(mv[3].0@) == Some(mv[3].1));
        assert(r.field(mv[4].0@) == Some(mv[4].1));
    }
    r
}

fn thread_document(req: &CreateThreadRequest, id: &String, now: &String) -> (r: Json)
    ensures
        thread_doc(r, *req, *id, *now),
{
    proof {
        reveal_strlit("agent_state");
        reveal_strlit("config");
        reveal_strlit("created_at");
        reveal_strlit("id");
        reveal_strlit("name");
        reveal_strlit("updated_at");
        reveal_strlit("working_dir");
    }
    let mut m: Vec<(String, Json)> = Vec::new();
    m.push(member("agent_state", Json::Null));
    m.push(member("config", config_doc(req)));
    m.push(member("created_at", Json::Str(now.clone())));
    m.push(member("id", Json::Str(id.clone())));
    m.push(member("name", Json::Str(req.name.clone())));
    m.push(member("updated_at", Json::Str(now.clone())));
    m.push(member("working_dir", Json::Str(req.working_dir.clone())));
    let ghost mv = m@;
    proof {
        assert(mv[0].0@.len() != mv[1].0@.len());
        assert(mv[0].0@.len() != mv[2].0@.len());
        assert(mv[0].0@.len() != mv[3].0@.len());
        assert(mv[0].0@.len() != mv[4].0@.len());
        assert(mv[0].0@.len() != mv[5].0@.len());
        assert(mv[0].0@[0] != mv[6].0@[0]);
        assert(mv[1].0@.len() != mv[2].0@.len());
        assert(mv[1].0@.len() != mv[3].0@.len());
        assert(mv[1].0@.len() != mv[4].0@.len());
        assert(mv[1].0@.len() != mv[5].0@.len());
        assert(mv[1].0@.len() != mv[6].0@.len());
        assert(mv[2].0@.len() != mv[3].0@.len());
        assert(mv[2].0@.len() != mv[4].0@.len());
        assert(mv[2].0@[0] != mv[5].0@[0]);
        assert(mv[2].0@.len() != mv[6].0@.len());
        assert(mv[3].0@.len() != mv[4].0@.len());
        assert(mv[3].0@.len() != mv[5].0@.len());
        assert(mv[3].0@.len() != mv[6].0@.len());
        assert(mv[4].0@.len() != mv[5].0@.len());
        assert(mv[4].0@.len() != mv[6].0@.len());
        assert(mv[5].0@.len() != mv[6].0@.len());
        assert(keys_distinct(mv));
    }
    let r = object_of(m);
    proof {
        assert(r.field(mv[0].0@) == Some(mv[0].1));
        assert(r.field(mv[1].0@) == Some(mv[1].1));
        assert(r.field(mv[2].0@) == Some(mv[2].1));
        assert(r.field(mv[3].0@) == Some(mv[3].1));
        assert(r.field(mv[4].0@) == Some(mv[4].1));
        assert(r.field(mv[5].0@) == Some(mv[5].1));
        assert(r.field(mv[6].0@) == Some(mv[6].1));
    }
    r
}

/// Creates the thread asked for by `req` with identifier `id` at time
/// `now`, and plans saving it.
pub fn plan_create_thread(req: CreateThreadRequest, id: String, now: String) -> (r: Result<(Thread, Vec<Effect>), StoreError>)
    ensures
        creates_thread(r, req, id, now),
{
    if !is_safe_name(id.as_str()) {
        return Err(StoreError::InvalidPath);
    }
    let doc = thread_document(&req, &id, &now);
    let file = join2(id.as_str(), ".json");
    let mut v: Vec<Effect> = Vec::new();
    v.push(Effect::WriteJson(child_path("saves", file.as_str()), doc));
    let CreateThreadRequest {
        name,
        working_dir,
        planner_llm_alias,
        decider_llm_alias,
        selected_knowledge,
        selected_guides,
        selected_actions,
    } = req;
    let t = Thread {
        id,
        name,
        working_dir,
        created_at: now.clone(),
        updated_at: now,
        agent_state: None,
        config: Some(ThreadConfig {
            planner_llm_alias,
            decider_llm_alias,
            selected_knowledge,
            selected_guides,
            selected_actions,
        }),
    };
    Ok((t, v))
}

/// Creates the thread asked for by `req` with a fresh random identifier,
/// stamped with the current time, and plans saving it. A fresh identifier
/// is a UUID in hyphenated form, always a plain path segment, so this
/// always succeeds.
pub fn create_thread(req: CreateThreadRequest) -> (r: Result<(Thread, Vec<Effect>), StoreError>)
    ensures
        r matches Ok((t, _)) && t.id@.len() == 36
            && forall|i: int| 0 <= i < t.id@.len() ==> crate::sources::is_uuid_char(#[trigger] t.id@[i]),
        exists|id: String, now: String| creates_thread(r, req, id, now),
{
    let id = crate::sources::new_identifier();
    proof {
        assert(!crate::text::has_char(id@, '/'));
        assert(!crate::text::has_char(id@, '\\'));
        assert(!crate::text::has_double_dot(id@));
    }
    let now = crate::sources::now_rfc3339();
    plan_create_thread(req, id, now)
}

} // verus!
