//! Action bundles: their lifecycle status, its file format and transitions,
//! bundle checks, import and deletion.
//!
//! An action lives in `actions/<name>/`, holding `meta.json`, the entry
//! point `perform.js` and `status.json`.

use vstd::prelude::*;
use crate::effects::{child, child_path, steps_of, Effect, Probe, Step, Tree};
use crate::entity_store::plans;
use crate::error::{outcome, Fault, StoreError};
use crate::json::{lemma_lookup_at, member, optional_text, optional_text_json, read_optional_text, read_text, Json, Number};
use crate::path_guard::{is_safe_name, is_safe_segment};
use crate::schema::{action_meta_violation, validate_action_meta, violation_message};
use crate::sources::now_rfc3339;
use crate::text::{join2, text_eq};

verus! {

/// The health of an action.
#[derive(PartialEq, Eq, Structural, Clone, Copy, Debug)]
pub enum StatusKind {
    Healthy,
    Error,
    Disabled,
}

/// The name a status kind is stored under.
pub open spec fn kind_name(k: StatusKind) -> Seq<char> {
    match k {
        StatusKind::Healthy => "healthy"@,
        StatusKind::Error => "error"@,
        StatusKind::Disabled => "disabled"@,
    }
}

/// The status kind stored under `name`, if any.
pub open spec fn kind_of(name: Seq<char>) -> Option<StatusKind> {
    if name == "healthy"@ {
        Some(StatusKind::Healthy)
    } else if name == "error"@ {
        Some(StatusKind::Error)
    } else if name == "disabled"@ {
        Some(StatusKind::Disabled)
    } else {
        None
    }
}

impl StatusKind {
    /// The name this kind is stored under.
    pub fn name(&self) -> (r: &'static str)
        ensures
            r@ == kind_name(*self),
    {
        match self {
            StatusKind::Healthy => "healthy",
            StatusKind::Error => "error",
            StatusKind::Disabled => "disabled",
        }
    }

    /// The kind stored under `name`; `InvalidValue` for any other name.
    pub fn parse(name: &str) -> (r: Result<StatusKind, StoreError>)
        ensures
            match kind_of(name@) {
                Some(k) => r == Ok::<StatusKind, StoreError>(k),
                None => outcome(r) == Err::<StatusKind, Fault>(Fault::InvalidValue),
            },
    {
        if text_eq(name, "healthy") {
            Ok(StatusKind::Healthy)
        } else if text_eq(name, "error") {
            Ok(StatusKind::Error)
        } else if text_eq(name, "disabled") {
            Ok(StatusKind::Disabled)
        } else {
            Err(StoreError::InvalidValue)
        }
    }
}

/// The last recorded failure of an action.
#[derive(Debug)]
pub struct ActionError {
    pub message: String,
    pub timestamp: String,
    pub execution_id: String,
}

/// The lifecycle state of an action. `error_count` counts every transition
/// into `error` over the action's life and never goes down.
#[derive(Debug)]
pub struct ActionStatus {
    pub status: StatusKind,
    pub last_error: Option<ActionError>,
    pub error_count: u32,
    pub last_success: Option<String>,
}

/// The status assumed for an action with no status file when its status is
/// read: healthy, no errors, a success stamped `now`.
pub open spec fn spec_default_status(now: String) -> ActionStatus {
    ActionStatus { status: StatusKind::Healthy, last_error: None, error_count: 0, last_success: Some(now) }
}

/// The status an update starts from when the action has no status file.
pub open spec fn spec_fresh_status() -> ActionStatus {
    ActionStatus { status: StatusKind::Healthy, last_error: None, error_count: 0, last_success: None }
}

/// One more than `n`, held at the largest `u32`.
pub open spec fn bump(n: u32) -> u32 {
    if n < u32::MAX { (n + 1) as u32 } else { n }
}

/// The status after a caller sets it to `new`: on `error` the counter goes
/// up and, when both a message and an execution id are given, the last
/// error is replaced by one stamped `now`; on `healthy` the last success is
/// stamped `now`.
pub open spec fn spec_transition(
    s: ActionStatus,
    new: StatusKind,
    message: Option<String>,
    execution_id: Option<String>,
    now: String,
) -> ActionStatus {
    match new {
        StatusKind::Error => ActionStatus {
            status: new,
            last_error: match (message, execution_id) {
                (Some(m), Some(x)) => Some(ActionError { message: m, timestamp: now, execution_id: x }),
                _ => s.last_error,
            },
            error_count: bump(s.error_count),
            last_success: s.last_success,
        },
        StatusKind::Healthy => ActionStatus { status: new, last_success: Some(now), ..s },
        StatusKind::Disabled => ActionStatus { status: new, ..s },
    }
}

impl ActionStatus {
    /// The status assumed for an action with no status file when it is read.
    pub fn default_at(now: String) -> (r: ActionStatus)
        ensures
            r == spec_default_status(now),
    {
        ActionStatus { status: StatusKind::Healthy, last_error: None, error_count: 0, last_success: Some(now) }
    }

    /// The status an update starts from when there is no status file.
    pub fn fresh() -> (r: ActionStatus)
        ensures
            r == spec_fresh_status(),
    {
        ActionStatus { status: StatusKind::Healthy, last_error: None, error_count: 0, last_success: None }
    }

    /// Sets the status to `new`, with the bookkeeping of `spec_transition`.
    pub fn transition(
        self,
        new: StatusKind,
        message: Option<String>,
        execution_id: Option<String>,
        now: String,
    ) -> (r: ActionStatus)
        ensures
            r == spec_transition(self, new, message, execution_id, now),
    {
        let ActionStatus { status: _, last_error, error_count, last_success } = self;
        match new {
            StatusKind::Error => {
                let count = if error_count < u32::MAX { error_count + 1 } else { error_count };
                let last_error = match (message, execution_id) {
                    (Some(m), Some(x)) => Some(ActionError { message: m, timestamp: now, execution_id: x }),
                    _ => last_error,
                };
                ActionStatus { status: new, last_error, error_count: count, last_success }
            },
            StatusKind::Healthy => ActionStatus { status: new, last_error, error_count, last_success: Some(now) },
            StatusKind::Disabled => ActionStatus { status: new, last_error, error_count, last_success },
        }
    }
}

} // verus!

verus! {

/// A recorded failure, from its object.
pub open spec fn decode_error_record(v: Json) -> Option<ActionError> {
    match (v.field("message"@), v.field("timestamp"@), v.field("execution_id"@)) {
        (Some(Json::Str(m)), Some(Json::Str(t)), Some(Json::Str(x))) =>
            Some(ActionError { message: m, timestamp: t, execution_id: x }),
        _ => None,
    }
}

/// An optional failure record: absent or `null` is `None`.
pub open spec fn optional_error(v: Option<Json>) -> Option<Option<ActionError>> {
    match v {
        None => Some(None),
        Some(Json::Null) => Some(None),
        Some(o) => match decode_error_record(o) {
            Some(e) => Some(Some(e)),
            None => None,
        },
    }
}

/// A counter field: an integer that fits in 32 unsigned bits.
pub open spec fn decode_count(v: Option<Json>) -> Option<u32> {
    match v {
        Some(Json::Number(Number::PosInt(n))) => if n <= u32::MAX as u64 { Some(n as u32) } else { None },
        _ => None,
    }
}

/// The status that a `status.json` document holds, if it holds one.
pub open spec fn decode_status_doc(j: Json) -> Option<ActionStatus> {
    match j.field("status"@) {
        Some(Json::Str(k)) => match (
            kind_of(k@),
            optional_error(j.field("last_error"@)),
            decode_count(j.field("error_count"@)),
            optional_text(j.field("last_success"@)),
        ) {
            (Some(kind), Some(e), Some(n), Some(s)) =>
                Some(ActionStatus { status: kind, last_error: e, error_count: n, last_success: s }),
            _ => None,
        },
        _ => None,
    }
}

fn read_error_record(v: &Json) -> (r: Option<ActionError>)
    ensures
        r == decode_error_record(*v),
{
    let m = read_text(v, "message");
    let t = read_text(v, "timestamp");
    let x = read_text(v, "execution_id");
    match (m, t, x) {
        (Some(m), Some(t), Some(x)) => Some(ActionError { message: m, timestamp: t, execution_id: x }),
        _ => None,
    }
}

fn read_optional_error(obj: &Json) -> (r: Option<Option<ActionError>>)
    ensures
        r == optional_error(obj.field("last_error"@)),
{
    match obj.get("last_error") {
        None => Some(None),
        Some(Json::Null) => Some(None),
        Some(o) => match read_error_record(o) {
            Some(e) => Some(Some(e)),
            None => None,
        },
    }
}

fn read_count(obj: &Json) -> (r: Option<u32>)
    ensures
        r == decode_count(obj.field("error_count"@)),
{
    match obj.get("error_count") {
        Some(Json::Number(Number::PosInt(n))) => if *n <= u32::MAX as u64 { Some(*n as u32) } else { None },
        _ => None,
    }
}

/// The status held by a `status.json` document; `None` when the document is
/// not of that shape.
pub fn decode_status(j: &Json) -> (r: Option<ActionStatus>)
    ensures
        r == decode_status_doc(*j),
{
    let kind = match j.get("status") {
        Some(Json::Str(k)) => match StatusKind::parse(k.as_str()) {
            Ok(kind) => kind,
            Err(_) => {
                return None;
            },
        },
        _ => {
            return None;
        },
    };
    let e = read_optional_error(j);
    let n = read_count(j);
    let s = read_optional_text(j, "last_success");
    match (e, n, s) {
        (Some(e), Some(n), Some(s)) => Some(ActionStatus { status: kind, last_error: e, error_count: n, last_success: s }),
        _ => None,
    }
}

impl ActionError {
    /// The failure record as a JSON object.
    pub fn encode(self) -> (r: Json)
        ensures
            decode_error_record(r) == Some(self),
    {
        proof {
            reveal_strlit("message");
            reveal_strlit("timestamp");
            reveal_strlit("execution_id");
        }
        let ActionError { message, timestamp, execution_id } = self;
        let mut members: Vec<(String, Json)> = Vec::new();
        members.push(member("message", Json::Str(message)));
        members.push(member("timestamp", Json::Str(timestamp)));
        members.push(member("execution_id", Json::Str(execution_id)));
        let r = Json::Object(members);
        proof {
            let m = members@;
            assert(m[0].0@.len() != "timestamp"@.len());
            assert(m[0].0@.len() != "execution_id"@.len());
            assert(m[1].0@.len() != "execution_id"@.len());
            lemma_lookup_at(m, "message"@, 0);
            lemma_lookup_at(m, "timestamp"@, 1);
            lemma_lookup_at(m, "execution_id"@, 2);
        }
        r
    }
}

impl ActionStatus {
    /// The status as the `status.json` document that holds it.
    pub fn encode(self) -> (r: Json)
        ensures
            decode_status_doc(r) == Some(self),
            r.field("status"@) matches Some(Json::Str(k)) && k@ == kind_name(self.status),
    {
        proof {
            reveal_strlit("status");
            reveal_strlit("last_error");
            reveal_strlit("error_count");
            reveal_strlit("last_success");
            reveal_strlit("healthy");
            reveal_strlit("error");
            reveal_strlit("disabled");
        }
        let ActionStatus { status, last_error, error_count, last_success } = self;
        let ghost last_error_before = last_error;
        let e = match last_error {
            Some(e) => e.encode(),
            None => Json::Null,
        };
        let mut members: Vec<(String, Json)> = Vec::new();
        members.push(member("status", Json::Str(String::from_str(status.name()))));
        members.push(member("last_error", e));
        members.push(member("error_count", Json::Number(Number::PosInt(error_count as u64))));
        members.push(member("last_success", optional_text_json(last_success)));
        let r = Json::Object(members);
        proof {
            let m = members@;
            assert(m[0].0@.len() != "last_error"@.len());
            assert(m[0].0@.len() != "error_count"@.len());
            assert(m[0].0@.len() != "last_success"@.len());
            assert(m[1].0@.len() != "error_count"@.len());
            assert(m[1].0@.len() != "last_success"@.len());
            assert(m[2].0@.len() != "last_success"@.len());
            lemma_lookup_at(m, "status"@, 0);
            lemma_lookup_at(m, "last_error"@, 1);
            lemma_lookup_at(m, "error_count"@, 2);
            lemma_lookup_at(m, "last_success"@, 3);
            assert("healthy"@.len() != "error"@.len());
            assert("healthy"@.len() != "disabled"@.len());
            assert("error"@.len() != "disabled"@.len());
            assert(kind_of(kind_name(status)) == Some(status));
            assert(optional_error(Some(e)) == Some(last_error_before));
            assert(decode_count(Some(Json::Number(Number::PosInt(error_count as u64)))) == Some(error_count));
        }
        r
    }
}

} // verus!

verus! {

/// The directory of action `name`.
pub open spec fn action_dir(name: Seq<char>) -> Seq<char> {
    child("actions"@, name)
}

/// The status file of action `name`.
pub open spec fn status_path(name: Seq<char>) -> Seq<char> {
    child(action_dir(name), "status.json"@)
}

fn action_dir_path(name: &str) -> (r: String)
    ensures
        r@ == action_dir(name@),
{
    child_path("actions", name)
}

fn status_file_path(name: &str) -> (r: String)
    ensures
        r@ == status_path(name@),
{
    let dir = action_dir_path(name);
    child_path(dir.as_str(), "status.json")
}

/// The path of the status file of action `name`.
pub fn status_path_of(name: &str) -> (r: Result<String, StoreError>)
    ensures
        is_safe_segment(name@) ==> (r matches Ok(p) && p@ == status_path(name@)),
        !is_safe_segment(name@) ==> outcome(r) == Err::<String, Fault>(Fault::InvalidPath),
{
    if is_safe_name(name) {
        Ok(status_file_path(name))
    } else {
        Err(StoreError::InvalidPath)
    }
}

/// The status of action `name`, where a read of its status file found
/// `found`: the assumed default when there is none.
pub open spec fn read_status_outcome(name: Seq<char>, found: Probe, now: String) -> Result<ActionStatus, Fault> {
    if !is_safe_segment(name) {
        Err(Fault::InvalidPath)
    } else {
        match found {
            Probe::Absent => Ok(spec_default_status(now)),
            Probe::Malformed => Err(Fault::ParseError),
            Probe::Found(j) => match decode_status_doc(j) {
                Some(s) => Ok(s),
                None => Err(Fault::ParseError),
            },
        }
    }
}

/// The status of action `name`, where a read of its status file found
/// `found`; a missing file gives the default stamped `now`.
pub fn read_status(name: &str, found: Probe, now: String) -> (r: Result<ActionStatus, StoreError>)
    ensures
        outcome(r) == read_status_outcome(name@, found, now),
{
    if !is_safe_name(name) {
        return Err(StoreError::InvalidPath);
    }
    match found {
        Probe::Absent => Ok(ActionStatus::default_at(now)),
        Probe::Malformed => Err(StoreError::ParseError),
        Probe::Found(j) => match decode_status(&j) {
            Some(s) => Ok(s),
            None => Err(StoreError::ParseError),
        },
    }
}

/// The status of action `name`, where a read of its status file found
/// `found`; a missing file gives the default stamped with the current time.
pub fn get_action_status(name: &str, found: Probe) -> (r: Result<ActionStatus, StoreError>)
    ensures
        exists|now: String| outcome(r) == read_status_outcome(name@, found, now),
{
    let now = now_rfc3339();
    read_status(name, found, now)
}

/// The status an update of action `name` starts from, given what a read of
/// its status file found; `None` when the file does not decode.
pub open spec fn current_status(found: Probe) -> Option<ActionStatus> {
    match found {
        Probe::Absent => Some(spec_fresh_status()),
        Probe::Malformed => None,
        Probe::Found(j) => decode_status_doc(j),
    }
}

/// Why setting the status of action `name` is refused, if it is.
pub open spec fn set_status_fault(name: Seq<char>, found: Probe) -> Option<Fault> {
    if !is_safe_segment(name) {
        Some(Fault::InvalidPath)
    } else if current_status(found) is None {
        Some(Fault::ParseError)
    } else {
        None
    }
}

/// `r` is the plan that sets the status of action `name` to `new` at time
/// `now`: one write of the status file, holding the status after the
/// transition, or the fault and nothing to do.
pub open spec fn status_update(
    r: Result<Vec<Effect>, StoreError>,
    name: Seq<char>,
    found: Probe,
    new: StatusKind,
    message: Option<String>,
    execution_id: Option<String>,
    now: String,
) -> bool {
    match r {
        Ok(v) => {
            &&& set_status_fault(name, found) is None
            &&& v@.len() == 1
            &&& v@[0] matches Effect::WriteJson(p, d)
            &&& p@ == status_path(name)
            &&& decode_status_doc(d) == Some(
                spec_transition(current_status(found).unwrap(), new, message, execution_id, now),
            )
        },
        Err(e) => set_status_fault(name, found) == Some(e@),
    }
}

/// Plans setting the status of action `name` to `new` at time `now`, where a
/// read of its status file found `found`.
pub fn plan_set_status(
    name: &str,
    found: Probe,
    new: StatusKind,
    message: Option<String>,
    execution_id: Option<String>,
    now: String,
) -> (r: Result<Vec<Effect>, StoreError>)
    ensures
        status_update(r, name@, found, new, message, execution_id, now),
{
    if !is_safe_name(name) {
        return Err(StoreError::InvalidPath);
    }
    let current = match found {
        Probe::Absent => ActionStatus::fresh(),
        Probe::Malformed => {
            return Err(StoreError::ParseError);
        },
        Probe::Found(j) => match decode_status(&j) {
            Some(s) => s,
            None => {
                return Err(StoreError::ParseError);
            },
        },
    };
    let next = current.transition(new, message, execution_id, now);
    let mut v: Vec<Effect> = Vec::new();
    v.push(Effect::WriteJson(status_file_path(name), next.encode()));
    Ok(v)
}

/// Plans setting the status of action `name` to `new`, stamped with the
/// current time.
pub fn set_action_status(
    name: &str,
    found: Probe,
    new: StatusKind,
    message: Option<String>,
    execution_id: Option<String>,
) -> (r: Result<Vec<Effect>, StoreError>)
    ensures
        exists|now: String| status_update(r, name@, found, new, message, execution_id, now),
{
    let now = now_rfc3339();
    plan_set_status(name, found, new, message, execution_id, now)
}

/// Why deleting action `name` is refused, if it is.
pub open spec fn delete_action_fault(name: Seq<char>, exists: bool) -> Option<Fault> {
    if !is_safe_segment(name) {
        Some(Fault::InvalidPath)
    } else if !exists {
        Some(Fault::NotFound)
    } else {
        None
    }
}

/// Plans deleting action `name` with everything in its directory, given
/// whether that directory exists.
pub fn plan_delete_action(name: &str, exists: bool) -> (r: Result<Vec<Effect>, StoreError>)
    ensures
        plans(r, delete_action_fault(name@, exists), seq![Step::RemoveAll(action_dir(name@))]),
{
    if !is_safe_name(name) {
        return Err(StoreError::InvalidPath);
    }
    if !exists {
        return Err(StoreError::NotFound);
    }
    let mut v: Vec<Effect> = Vec::new();
    v.push(Effect::RemoveTree(action_dir_path(name)));
    proof {
        assert(steps_of(v@) =~= seq![Step::RemoveAll(action_dir(name@))]);
    }
    Ok(v)
}

} // verus!

verus! {

/// What a look at a bundle's source directory found.
#[derive(Debug)]
pub struct BundleProbe {
    /// The path names a directory.
    pub is_dir: bool,
    /// It holds `meta.json`.
    pub has_meta: bool,
    /// It holds the entry point `perform.js`.
    pub has_entry_point: bool,
}

/// The verdict on a bundle, with every problem found, for display.
#[derive(Debug)]
pub struct BundleReport {
    pub is_valid: bool,
    pub error: Option<String>,
    pub missing_files: Vec<String>,
}

impl View for BundleReport {
    type V = (bool, Option<Seq<char>>, Seq<Seq<char>>);

    open spec fn view(&self) -> (bool, Option<Seq<char>>, Seq<Seq<char>>) {
        (
            self.is_valid,
            match self.error {
                Some(e) => Some(e@),
                None => None,
            },
            self.missing_files@.map_values(|f: String| f@),
        )
    }
}

/// The required files that the bundle lacks, in the order they are checked.
pub open spec fn missing_of(p: BundleProbe) -> Seq<Seq<char>> {
    (if p.has_meta { Seq::empty() } else { seq!["meta.json"@] }) + (if p.has_entry_point {
        Seq::empty()
    } else {
        seq!["perform.js"@]
    })
}

/// The verdict on a bundle, given what a look at its directory found and
/// what a read of its `meta.json` found. Every problem, an unreadable
/// `meta.json` included, is part of the verdict.
pub open spec fn bundle_outcome(p: BundleProbe, meta: Probe) -> (bool, Option<Seq<char>>, Seq<Seq<char>>) {
    if !p.is_dir {
        (false, Some("Directory does not exist"@), Seq::empty())
    } else if missing_of(p).len() > 0 {
        let m = missing_of(p);
        let listed = if m.len() == 1 { m[0] } else { m[0] + ", "@ + m[1] };
        (false, Some("Missing required files: "@ + listed), m)
    } else {
        match meta {
            Probe::Absent => (false, Some("Failed to read meta.json"@), Seq::empty()),
            Probe::Malformed => (false, Some("Failed to parse meta.json"@), Seq::empty()),
            Probe::Found(m) => match action_meta_violation(m) {
                Some(v) => (false, Some(violation_message(v)), Seq::empty()),
                None => (true, None, Seq::empty()),
            },
        }
    }
}

fn no_files() -> (r: Vec<String>)
    ensures
        r@.map_values(|f: String| f@) == Seq::<Seq<char>>::empty(),
{
    let r: Vec<String> = Vec::new();
    assert(r@.map_values(|f: String| f@) =~= Seq::<Seq<char>>::empty());
    r
}

fn report(is_valid: bool, error: Option<String>, missing_files: Vec<String>) -> (r: BundleReport)
    ensures
        r.is_valid == is_valid,
        r.error == error,
        r.missing_files == missing_files,
{
    BundleReport { is_valid, error, missing_files }
}

/// Checks a bundle: the directory must exist and hold `meta.json` and
/// `perform.js`; then `meta.json` must read as JSON and pass the
/// action-meta schema. Every problem comes back in the report.
pub fn validate_bundle(p: &BundleProbe, meta: Probe) -> (r: BundleReport)
    ensures
        r@ == bundle_outcome(*p, meta),
{
    if !p.is_dir {
        return report(false, Some(String::from_str("Directory does not exist")), no_files());
    }
    let mut missing: Vec<String> = Vec::new();
    if !p.has_meta {
        missing.push(String::from_str("meta.json"));
    }
    if !p.has_entry_point {
        missing.push(String::from_str("perform.js"));
    }
    let ghost mv = missing@.map_values(|f: String| f@);
    proof {
        assert(mv =~= missing_of(*p));
    }
    if missing.len() > 0 {
        let listed = if missing.len() == 1 {
            missing[0].clone()
        } else {
            let mut l = join2(missing[0].as_str(), ", ");
            l.append(missing[1].as_str());
            l
        };
        let message = join2("Missing required files: ", listed.as_str());
        return report(false, Some(message), missing);
    }
    match meta {
        Probe::Absent => report(false, Some(String::from_str("Failed to read meta.json")), no_files()),
        Probe::Malformed => report(false, Some(String::from_str("Failed to parse meta.json")), no_files()),
        Probe::Found(m) => match validate_action_meta(&m) {
            Err(e) => report(false, Some(e.message()), no_files()),
            Ok(()) => report(true, None, no_files()),
        },
    }
}

/// The name an import takes from a checked bundle's `meta.json`.
pub open spec fn import_name_outcome(valid: bool, meta: Json) -> Result<Seq<char>, Fault> {
    if !valid {
        Err(Fault::InvalidBundle)
    } else {
        match meta.field("name"@) {
            Some(Json::Str(n)) => if is_safe_segment(n@) { Ok(n@) } else { Err(Fault::InvalidPath) },
            _ => Err(Fault::InvalidBundle),
        }
    }
}

/// The action name an import of a bundle uses: the `name` of its
/// `meta.json`, which must be one plain path segment. A bundle whose report
/// is not valid is refused.
pub fn import_name(report: &BundleReport, meta: &Json) -> (r: Result<String, StoreError>)
    ensures
        match r {
            Ok(n) => import_name_outcome(report.is_valid, *meta) == Ok::<_, Fault>(n@),
            Err(e) => import_name_outcome(report.is_valid, *meta) == Err::<Seq<char>, Fault>(e@),
        },
{
    if !report.is_valid {
        return Err(StoreError::InvalidBundle);
    }
    match meta.get("name") {
        Some(Json::Str(n)) => if is_safe_name(n.as_str()) {
            Ok(n.clone())
        } else {
            Err(StoreError::InvalidPath)
        },
        _ => Err(StoreError::InvalidBundle),
    }
}

/// Why importing a bundle as action `name` is refused, if it is: an action
/// of that name is never overwritten.
pub open spec fn import_fault(name: Seq<char>, target_exists: bool) -> Option<Fault> {
    if !is_safe_segment(name) {
        Some(Fault::InvalidPath)
    } else if target_exists {
        Some(Fault::DuplicateName)
    } else {
        None
    }
}

/// `r` is the plan that imports the bundle at `source` as action `name` at
/// time `now`: make `actions/`, copy the bundle to the action's directory,
/// then write a healthy status with no errors and a success stamped `now`.
pub open spec fn imports(
    r: Result<Vec<Effect>, StoreError>,
    source: Seq<char>,
    name: Seq<char>,
    target_exists: bool,
    now: String,
) -> bool {
    match r {
        Ok(v) => {
            &&& import_fault(name, target_exists) is None
            &&& v@.len() == 3
            &&& v@[0]@ == Step::MakeDir("actions"@)
            &&& v@[1]@ == Step::Copy(source, action_dir(name))
            &&& v@[2] matches Effect::WriteJson(p, d)
            &&& p@ == status_path(name)
            &&& decode_status_doc(d) == Some(spec_default_status(now))
        },
        Err(e) => import_fault(name, target_exists) == Some(e@),
    }
}

/// Plans importing the bundle at `source` as action `name` at time `now`,
/// given whether the action's directory exists.
pub fn plan_import(source: &str, name: &str, target_exists: bool, now: String) -> (r: Result<Vec<Effect>, StoreError>)
    ensures
        imports(r, source@, name@, target_exists, now),
{
    if !is_safe_name(name) {
        return Err(StoreError::InvalidPath);
    }
    if target_exists {
        return Err(StoreError::DuplicateName);
    }
    let mut v: Vec<Effect> = Vec::new();
    v.push(Effect::CreateDir(String::from_str("actions")));
    v.push(Effect::CopyTree(String::from_str(source), action_dir_path(name)));
    v.push(Effect::WriteJson(status_file_path(name), ActionStatus::default_at(now).encode()));
    Ok(v)
}

/// Plans importing the bundle at `source` as action `name`, stamping its
/// first success with the current time.
pub fn import_action(source: &str, name: &str, target_exists: bool) -> (r: Result<Vec<Effect>, StoreError>)
    ensures
        exists|now: String| imports(r, source@, name@, target_exists, now),
{
    let now = now_rfc3339();
    plan_import(source, name, target_exists, now)
}

/// Importing a valid bundle whose `meta.json` names an action whose
/// directory exists is refused with `DuplicateName` (with `InvalidPath` when
/// the name is not a plain path segment), so the tree, and that directory's
/// contents, stay as they were.
pub proof fn lemma_import_keeps_existing(t: Tree, meta: Json, name: Seq<char>, steps: Seq<Step>)
    requires
        t.contains_key(action_dir(name)),
        meta.field("name"@) matches Some(Json::Str(n)) && n@ == name,
    ensures
        is_safe_segment(name) ==> import_name_outcome(true, meta) == Ok::<Seq<char>, Fault>(name),
        is_safe_segment(name) ==> import_fault(name, t.contains_key(action_dir(name))) == Some(Fault::DuplicateName),
        !is_safe_segment(name) ==> import_name_outcome(true, meta) == Err::<Seq<char>, Fault>(Fault::InvalidPath),
        import_fault(name, t.contains_key(action_dir(name))) is Some,
        crate::effects::after(t, import_fault(name, t.contains_key(action_dir(name))), steps) == t,
{
}

} // verus!

verus! {

impl BundleReport {
    /// The report as a JSON object: `is_valid`, `error` (a string or
    /// `null`) and `missing_files`.
    pub fn to_json(self) -> (r: Json)
        ensures
            r.field("is_valid"@) == Some(Json::Bool(self.is_valid)),
            r.field("error"@) == Some(match self.error {
                Some(e) => Json::Str(e),
                None => Json::Null,
            }),
            r.field("missing_files"@) matches Some(Json::Array(f)) && crate::json::texts(f@, self.missing_files@),
    {
        proof {
            reveal_strlit("is_valid");
            reveal_strlit("error");
            reveal_strlit("missing_files");
        }
        let BundleReport { is_valid, error, missing_files } = self;
        let e = match error {
            Some(e) => Json::Str(e),
            None => Json::Null,
        };
        let mut m: Vec<(String, Json)> = Vec::new();
        m.push(member("error", e));
        m.push(member("is_valid", Json::Bool(is_valid)));
        m.push(member("missing_files", crate::json::text_array(&missing_files)));
        let ghost mv = m@;
        proof {
            assert(mv[0].0@.len() != mv[1].0@.len());
            assert(mv[0].0@.len() != mv[2].0@.len());
            assert(mv[1].0@.len() != mv[2].0@.len());
            assert(crate::json::keys_distinct(mv));
        }
        let r = crate::json::object_of(m);
        proof {
            assert(r.field(mv[0].0@) == Some(mv[0].1));
            assert(r.field(mv[1].0@) == Some(mv[1].1));
            assert(r.field(mv[2].0@) == Some(mv[2].1));
        }
        r
    }
}

} // verus!
