//! Structural, fail-fast validation of guide, knowledge and action-meta
//! documents. Each check walks the required fields top-down and reports the
//! first violation, named by its field path (`entries[2].plan[0]`).

use vstd::prelude::*;
use crate::json::Json;
use crate::text::{decimal, decimal_text, join3};

verus! {

/// What is wrong at the field a violation names.
#[derive(PartialEq, Eq, Structural, Clone, Copy, Debug)]
pub enum Problem {
    /// A required section is absent.
    MissingSection,
    /// A required field is absent or not of its primitive type.
    MissingField,
    /// A required array is absent or not an array.
    MissingArray,
    /// A required array is empty.
    EmptyArray,
    /// An element that must be a string is not one.
    NotAString,
}

/// The first violation found in a document: the field path and the problem.
#[derive(Debug)]
pub struct ValidationError {
    pub path: String,
    pub problem: Problem,
}

impl View for ValidationError {
    type V = (Seq<char>, Problem);

    open spec fn view(&self) -> (Seq<char>, Problem) {
        (self.path@, self.problem)
    }
}

/// The path of member `key` below `base`.
pub open spec fn member_path(base: Seq<char>, key: Seq<char>) -> Seq<char> {
    base + "."@ + key
}

/// The path of element `i` of the array at `base`.
pub open spec fn index_path(base: Seq<char>, i: nat) -> Seq<char> {
    base + "["@ + decimal(i) + "]"@
}

/// The human-readable message for a violation.
pub open spec fn violation_message(v: (Seq<char>, Problem)) -> Seq<char> {
    match v.1 {
        Problem::MissingSection => "Missing '"@ + v.0 + "' section"@,
        Problem::MissingField => "Missing or invalid '"@ + v.0 + "' field"@,
        Problem::MissingArray => "Missing or invalid '"@ + v.0 + "' array"@,
        Problem::EmptyArray => "'"@ + v.0 + "' array cannot be empty"@,
        Problem::NotAString => "'"@ + v.0 + "' must be a string"@,
    }
}

/// The first violation in the `meta` section shared by guides and knowledge.
pub open spec fn meta_violation(doc: Json) -> Option<(Seq<char>, Problem)> {
    match doc.field("meta"@) {
        None => Some(("meta"@, Problem::MissingSection)),
        Some(meta) => if !meta.has_text("name"@) {
            Some((member_path("meta"@, "name"@), Problem::MissingField))
        } else if !meta.has_text("version"@) {
            Some((member_path("meta"@, "version"@), Problem::MissingField))
        } else if !meta.has_text("domain"@) {
            Some((member_path("meta"@, "domain"@), Problem::MissingField))
        } else {
            None
        },
    }
}

/// The index of the first element of `items`, from `from` on, that is not a string.
pub open spec fn first_non_text(items: Seq<Json>, from: int) -> Option<int>
    decreases items.len() - from,
{
    if from < 0 || from >= items.len() {
        None
    } else if !(items[from] is Str) {
        Some(from)
    } else {
        first_non_text(items, from + 1)
    }
}

/// The first violation in entry `i` of a guide.
pub open spec fn guide_entry_violation(entry: Json, i: nat) -> Option<(Seq<char>, Problem)> {
    let at = index_path("entries"@, i);
    if !entry.has_text("name"@) {
        Some((member_path(at, "name"@), Problem::MissingField))
    } else if !entry.has_text("description"@) {
        Some((member_path(at, "description"@), Problem::MissingField))
    } else {
        match entry.field("plan"@) {
            Some(Json::Array(steps)) => if steps@.len() == 0 {
                Some((member_path(at, "plan"@), Problem::EmptyArray))
            } else {
                match first_non_text(steps@, 0) {
                    Some(j) => Some((index_path(member_path(at, "plan"@), j as nat), Problem::NotAString)),
                    None => None,
                }
            },
            _ => Some((member_path(at, "plan"@), Problem::MissingArray)),
        }
    }
}

/// The first violation in entry `i` of a knowledge document.
pub open spec fn knowledge_entry_violation(entry: Json, i: nat) -> Option<(Seq<char>, Problem)> {
    let at = index_path("entries"@, i);
    if !entry.has_text("name"@) {
        Some((member_path(at, "name"@), Problem::MissingField))
    } else if !entry.has_text("description"@) {
        Some((member_path(at, "description"@), Problem::MissingField))
    } else if !entry.has_text("content"@) {
        Some((member_path(at, "content"@), Problem::MissingField))
    } else {
        None
    }
}

/// The first violation among the entries from `from` on; `guide` picks the
/// entry shape of guides, else that of knowledge.
pub open spec fn entries_violation(entries: Seq<Json>, from: int, guide: bool) -> Option<(Seq<char>, Problem)>
    decreases entries.len() - from,
{
    if from < 0 || from >= entries.len() {
        None
    } else {
        let v = if guide {
            guide_entry_violation(entries[from], from as nat)
        } else {
            knowledge_entry_violation(entries[from], from as nat)
        };
        if v is Some {
            v
        } else {
            entries_violation(entries, from + 1, guide)
        }
    }
}

/// The first violation in a guide (`guide`) or knowledge document.
pub open spec fn document_violation(doc: Json, guide: bool) -> Option<(Seq<char>, Problem)> {
    if meta_violation(doc) is Some {
        meta_violation(doc)
    } else {
        match doc.field("entries"@) {
            Some(Json::Array(entries)) => if entries@.len() == 0 {
                Some(("entries"@, Problem::EmptyArray))
            } else {
                entries_violation(entries@, 0, guide)
            },
            _ => Some(("entries"@, Problem::MissingArray)),
        }
    }
}

/// The first violation in a guide document.
pub open spec fn guide_violation(doc: Json) -> Option<(Seq<char>, Problem)> {
    document_violation(doc, true)
}

/// The first violation in a knowledge document.
pub open spec fn knowledge_violation(doc: Json) -> Option<(Seq<char>, Problem)> {
    document_violation(doc, false)
}

/// The first violation in argument `i` of an action's meta document.
pub open spec fn argument_violation(arg: Json, i: nat) -> Option<(Seq<char>, Problem)> {
    let at = index_path("arguments"@, i);
    if !arg.has_text("name"@) {
        Some((member_path(at, "name"@), Problem::MissingField))
    } else if !arg.has_text("type"@) {
        Some((member_path(at, "type"@), Problem::MissingField))
    } else if !arg.has_text("description"@) {
        Some((member_path(at, "description"@), Problem::MissingField))
    } else if !(arg.field("required"@) matches Some(Json::Bool(_))) {
        Some((member_path(at, "required"@), Problem::MissingField))
    } else {
        None
    }
}

/// The first violation among the arguments from `from` on.
pub open spec fn arguments_violation(args: Seq<Json>, from: int) -> Option<(Seq<char>, Problem)>
    decreases args.len() - from,
{
    if from < 0 || from >= args.len() {
        None
    } else if argument_violation(args[from], from as nat) is Some {
        argument_violation(args[from], from as nat)
    } else {
        arguments_violation(args, from + 1)
    }
}

/// The first violation in an action's meta document.
pub open spec fn action_meta_violation(meta: Json) -> Option<(Seq<char>, Problem)> {
    if !meta.has_text("name"@) {
        Some(("name"@, Problem::MissingField))
    } else if !meta.has_text("description"@) {
        Some(("description"@, Problem::MissingField))
    } else {
        match meta.field("arguments"@) {
            Some(Json::Array(args)) => if args@.len() == 0 {
                Some(("arguments"@, Problem::EmptyArray))
            } else if !(meta.field("timeout_sec"@) matches Some(t) && t.is_u64()) {
                Some(("timeout_sec"@, Problem::MissingField))
            } else {
                arguments_violation(args@, 0)
            },
            _ => Some(("arguments"@, Problem::MissingArray)),
        }
    }
}

} // verus!

verus! {

/// `r` reports exactly the violation `v`: success when there is none.
pub open spec fn reports(r: Result<(), ValidationError>, v: Option<(Seq<char>, Problem)>) -> bool {
    match r {
        Ok(_) => v is None,
        Err(e) => v == Some(e@),
    }
}

fn fail(path: String, problem: Problem) -> (r: Result<(), ValidationError>)
    ensures
        r matches Err(e) && e@ == (path@, problem),
{
    Err(ValidationError { path, problem })
}

fn member(base: &str, key: &str) -> (r: String)
    ensures
        r@ == member_path(base@, key@),
{
    join3(base, ".", key)
}

fn indexed(base: &str, i: usize) -> (r: String)
    ensures
        r@ == index_path(base@, i as nat),
{
    let d = decimal_text(i);
    let mut r = join3(base, "[", d.as_str());
    r.append("]");
    r
}

fn check_meta(doc: &Json) -> (r: Result<(), ValidationError>)
    ensures
        reports(r, meta_violation(*doc)),
{
    match doc.get("meta") {
        None => fail(String::from_str("meta"), Problem::MissingSection),
        Some(meta) => {
            if !meta.text_member("name") {
                fail(member("meta", "name"), Problem::MissingField)
            } else if !meta.text_member("version") {
                fail(member("meta", "version"), Problem::MissingField)
            } else if !meta.text_member("domain") {
                fail(member("meta", "domain"), Problem::MissingField)
            } else {
                Ok(())
            }
        },
    }
}

fn check_steps(steps: &Vec<Json>, at: &str) -> (r: Result<(), ValidationError>)
    ensures
        reports(r, match first_non_text(steps@, 0) {
            Some(j) => Some((index_path(at@, j as nat), Problem::NotAString)),
            None => None,
        }),
{
    let n = steps.len();
    let mut j: usize = 0;
    while j < n
        invariant
            n == steps@.len(),
            j <= n,
            first_non_text(steps@, 0) == first_non_text(steps@, j as int),
        decreases n - j,
    {
        if steps[j].as_text().is_none() {
            return fail(indexed(at, j), Problem::NotAString);
        }
        j = j + 1;
    }
    Ok(())
}

fn check_guide_entry(entry: &Json, i: usize) -> (r: Result<(), ValidationError>)
    ensures
        reports(r, guide_entry_violation(*entry, i as nat)),
{
    let at = indexed("entries", i);
    if !entry.text_member("name") {
        return fail(member(at.as_str(), "name"), Problem::MissingField);
    }
    if !entry.text_member("description") {
        return fail(member(at.as_str(), "description"), Problem::MissingField);
    }
    let plan_at = member(at.as_str(), "plan");
    match entry.get("plan") {
        Some(plan) => match plan.as_list() {
            Some(steps) => {
                if steps.len() == 0 {
                    fail(plan_at, Problem::EmptyArray)
                } else {
                    check_steps(steps, plan_at.as_str())
                }
            },
            None => fail(plan_at, Problem::MissingArray),
        },
        None => fail(plan_at, Problem::MissingArray),
    }
}

fn check_knowledge_entry(entry: &Json, i: usize) -> (r: Result<(), ValidationError>)
    ensures
        reports(r, knowledge_entry_violation(*entry, i as nat)),
{
    let at = indexed("entries", i);
    if !entry.text_member("name") {
        fail(member(at.as_str(), "name"), Problem::MissingField)
    } else if !entry.text_member("description") {
        fail(member(at.as_str(), "description"), Problem::MissingField)
    } else if !entry.text_member("content") {
        fail(member(at.as_str(), "content"), Problem::MissingField)
    } else {
        Ok(())
    }
}

fn check_document(doc: &Json, guide: bool) -> (r: Result<(), ValidationError>)
    ensures
        reports(r, document_violation(*doc, guide)),
{
    let m = check_meta(doc);
    if m.is_err() {
        return m;
    }
    let entries = match doc.get("entries") {
        Some(v) => match v.as_list() {
            Some(items) => items,
            None => {
                return fail(String::from_str("entries"), Problem::MissingArray);
            },
        },
        None => {
            return fail(String::from_str("entries"), Problem::MissingArray);
        },
    };
    let n = entries.len();
    if n == 0 {
        return fail(String::from_str("entries"), Problem::EmptyArray);
    }
    let mut i: usize = 0;
    while i < n
        invariant
            n == entries@.len(),
            i <= n,
            document_violation(*doc, guide) == entries_violation(entries@, 0, guide),
            entries_violation(entries@, 0, guide) == entries_violation(entries@, i as int, guide),
        decreases n - i,
    {
        let e = if guide {
            check_guide_entry(&entries[i], i)
        } else {
            check_knowledge_entry(&entries[i], i)
        };
        if e.is_err() {
            return e;
        }
        i = i + 1;
    }
    Ok(())
}

/// Validates a guide document: `meta` with string `name`, `version` and
/// `domain`, then a non-empty `entries` array whose entries hold string
/// `name` and `description` and a non-empty `plan` array of strings.
pub fn validate_guide(doc: &Json) -> (r: Result<(), ValidationError>)
    ensures
        reports(r, guide_violation(*doc)),
{
    check_document(doc, true)
}

/// Validates a knowledge document: `meta` as for guides, then a non-empty
/// `entries` array whose entries hold string `name`, `description` and
/// `content`.
pub fn validate_knowledge(doc: &Json) -> (r: Result<(), ValidationError>)
    ensures
        reports(r, knowledge_violation(*doc)),
{
    check_document(doc, false)
}

fn check_argument(arg: &Json, i: usize) -> (r: Result<(), ValidationError>)
    ensures
        reports(r, argument_violation(*arg, i as nat)),
{
    let at = indexed("arguments", i);
    if !arg.text_member("name") {
        fail(member(at.as_str(), "name"), Problem::MissingField)
    } else if !arg.text_member("type") {
        fail(member(at.as_str(), "type"), Problem::MissingField)
    } else if !arg.text_member("description") {
        fail(member(at.as_str(), "description"), Problem::MissingField)
    } else {
        let ok = match arg.get("required") {
            Some(v) => v.is_boolean(),
            None => false,
        };
        if !ok {
            fail(member(at.as_str(), "required"), Problem::MissingField)
        } else {
            Ok(())
        }
    }
}

/// Validates an action's meta document: string `name` and `description`, a
/// non-empty `arguments` array, an unsigned integer `timeout_sec`, then
/// `arguments` whose elements hold string `name`, `type` and `description`
/// and a boolean `required`.
pub fn validate_action_meta(meta: &Json) -> (r: Result<(), ValidationError>)
    ensures
        reports(r, action_meta_violation(*meta)),
{
    if !meta.text_member("name") {
        return fail(String::from_str("name"), Problem::MissingField);
    }
    if !meta.text_member("description") {
        return fail(String::from_str("description"), Problem::MissingField);
    }
    let args = match meta.get("arguments") {
        Some(v) => match v.as_list() {
            Some(items) => items,
            None => {
                return fail(String::from_str("arguments"), Problem::MissingArray);
            },
        },
        None => {
            return fail(String::from_str("arguments"), Problem::MissingArray);
        },
    };
    let n = args.len();
    if n == 0 {
        return fail(String::from_str("arguments"), Problem::EmptyArray);
    }
    let timeout_ok = match meta.get("timeout_sec") {
        Some(t) => t.is_unsigned(),
        None => false,
    };
    if !timeout_ok {
        return fail(String::from_str("timeout_sec"), Problem::MissingField);
    }
    let mut i: usize = 0;
    while i < n
        invariant
            n == args@.len(),
            i <= n,
            action_meta_violation(*meta) == arguments_violation(args@, 0),
            arguments_violation(args@, 0) == arguments_violation(args@, i as int),
        decreases n - i,
    {
        let e = check_argument(&args[i], i);
        if e.is_err() {
            return e;
        }
        i = i + 1;
    }
    Ok(())
}

impl ValidationError {
    /// The human-readable message naming the offending field.
    pub fn message(&self) -> (r: String)
        ensures
            r@ == violation_message(self@),
    {
        let p = self.path.as_str();
        match self.problem {
            Problem::MissingSection => join3("Missing '", p, "' section"),
            Problem::MissingField => join3("Missing or invalid '", p, "' field"),
            Problem::MissingArray => join3("Missing or invalid '", p, "' array"),
            Problem::EmptyArray => join3("'", p, "' array cannot be empty"),
            Problem::NotAString => join3("'", p, "' must be a string"),
        }
    }
}

} // verus!

verus! {

/// Where every element is a string, none is reported.
pub proof fn lemma_all_text(items: Seq<Json>, from: int)
    requires
        0 <= from,
        forall|i: int| from <= i < items.len() ==> (#[trigger] items[i]) is Str,
    ensures
        first_non_text(items, from) is None,
    decreases items.len() - from,
{
    if from < items.len() {
        lemma_all_text(items, from + 1);
    }
}

/// Where every entry passes, none is reported.
pub proof fn lemma_entries_pass(entries: Seq<Json>, from: int, guide: bool)
    requires
        0 <= from,
        forall|i: int| from <= i < entries.len() ==> (if guide {
            guide_entry_violation(#[trigger] entries[i], i as nat)
        } else {
            knowledge_entry_violation(entries[i], i as nat)
        }) is None,
    ensures
        entries_violation(entries, from, guide) is None,
    decreases entries.len() - from,
{
    if from < entries.len() {
        lemma_entries_pass(entries, from + 1, guide);
    }
}

} // verus!
