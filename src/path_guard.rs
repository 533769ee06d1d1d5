//! The sole defence against path traversal: a caller-supplied name becomes
//! a path only as one plain segment.

use vstd::prelude::*;
use crate::error::StoreError;
use crate::text::{
    contains_char, contains_double_dot, ends_with, ends_with_text, has_char, has_double_dot,
    join2,
};

verus! {

/// `s` is usable as one path segment: no `..`, no `/` and no `\`.
pub open spec fn is_safe_segment(s: Seq<char>) -> bool {
    !has_double_dot(s) && !has_char(s, '/') && !has_char(s, '\\')
}

/// The file name that a document saved under `name` gets: `.json` is
/// appended unless `name` already ends with it.
pub open spec fn json_name(name: Seq<char>) -> Seq<char> {
    if ends_with(name, ".json"@) {
        name
    } else {
        name + ".json"@
    }
}

/// Whether `s` is usable as one path segment.
pub fn is_safe_name(s: &str) -> (r: bool)
    ensures
        r == is_safe_segment(s@),
{
    !contains_double_dot(s) && !contains_char(s, '/') && !contains_char(s, '\\')
}

/// Checks a caller-supplied segment; the result is the segment unchanged.
pub fn sanitize(segment: &str) -> (r: Result<String, StoreError>)
    ensures
        is_safe_segment(segment@) ==> (r matches Ok(s) && s@ == segment@),
        !is_safe_segment(segment@) ==> r == Err::<String, StoreError>(StoreError::InvalidPath),
{
    if is_safe_name(segment) {
        Ok(String::from_str(segment))
    } else {
        Err(StoreError::InvalidPath)
    }
}

/// The file name under which a document named `name` is stored.
pub fn json_file_name(name: &str) -> (r: String)
    ensures
        r@ == json_name(name@),
{
    if ends_with_text(name, ".json") {
        String::from_str(name)
    } else {
        join2(name, ".json")
    }
}

} // verus!

verus! {

/// Every operation of the guide and knowledge collections and of the action
/// registry that takes a name refuses one that is not a plain path segment
/// with `InvalidPath`, so the data root is left as it was.
pub proof fn lemma_unsafe_names_rejected(
    name: Seq<char>,
    t: crate::effects::Tree,
    c: crate::entity_store::Collection,
    doc: crate::json::Json,
    found: crate::effects::Probe,
    exists: bool,
    meta: crate::json::Json,
    now: String,
    steps: Seq<crate::effects::Step>,
)
    requires
        !is_safe_segment(name),
    ensures
        crate::entity_store::save_fault(c, name, doc) == Some(crate::error::Fault::InvalidPath),
        crate::effects::after(t, crate::entity_store::save_fault(c, name, doc), steps) == t,
        crate::entity_store::load_outcome(name, found) == Err::<crate::json::Json, crate::error::Fault>(
            crate::error::Fault::InvalidPath,
        ),
        crate::entity_store::delete_fault(name, exists) == Some(crate::error::Fault::InvalidPath),
        crate::effects::after(t, crate::entity_store::delete_fault(name, exists), steps) == t,
        crate::actions::read_status_outcome(name, found, now) == Err::<crate::actions::ActionStatus, crate::error::Fault>(
            crate::error::Fault::InvalidPath,
        ),
        crate::actions::set_status_fault(name, found) == Some(crate::error::Fault::InvalidPath),
        crate::effects::after(t, crate::actions::set_status_fault(name, found), steps) == t,
        crate::actions::delete_action_fault(name, exists) == Some(crate::error::Fault::InvalidPath),
        crate::effects::after(t, crate::actions::delete_action_fault(name, exists), steps) == t,
        crate::actions::import_fault(name, exists) == Some(crate::error::Fault::InvalidPath),
        crate::effects::after(t, crate::actions::import_fault(name, exists), steps) == t,
        (meta.field("name"@) matches Some(crate::json::Json::Str(n)) && n@ == name) ==> crate::actions::import_name_outcome(
            true,
            meta,
        ) == Err::<Seq<char>, crate::error::Fault>(crate::error::Fault::InvalidPath),
{
}

} // verus!
