//! The guide and knowledge collections: one JSON document per file, named by
//! its file name inside the collection's directory.

use vstd::prelude::*;
use crate::effects::{apply_step, apply_steps, child, child_path, probe_of, steps_of, Effect, Probe, Step, Tree};
use crate::error::{invalid, outcome, Fault, StoreError};
use crate::json::Json;
use crate::path_guard::{is_safe_name, is_safe_segment, json_file_name, json_name};
use crate::schema::{guide_violation, knowledge_violation, reports, validate_guide, validate_knowledge, Problem, ValidationError};

verus! {

/// A collection of schema-checked documents.
#[derive(PartialEq, Eq, Structural, Clone, Copy, Debug)]
pub enum Collection {
    Guides,
    Knowledge,
}

impl Collection {
    /// The collection's directory below the data root.
    pub open spec fn spec_dir(self) -> Seq<char> {
        match self {
            Collection::Guides => "guides"@,
            Collection::Knowledge => "knowledge"@,
        }
    }

    /// The first violation of the collection's schema in `doc`.
    pub open spec fn violation(self, doc: Json) -> Option<(Seq<char>, Problem)> {
        match self {
            Collection::Guides => guide_violation(doc),
            Collection::Knowledge => knowledge_violation(doc),
        }
    }

    /// The collection's directory below the data root.
    pub fn dir(&self) -> (r: &'static str)
        ensures
            r@ == self.spec_dir(),
    {
        match self {
            Collection::Guides => "guides",
            Collection::Knowledge => "knowledge",
        }
    }

    /// Checks `doc` against the collection's schema.
    pub fn validate(&self, doc: &Json) -> (r: Result<(), ValidationError>)
        ensures
            reports(r, self.violation(*doc)),
    {
        match self {
            Collection::Guides => validate_guide(doc),
            Collection::Knowledge => validate_knowledge(doc),
        }
    }
}

/// `r` is the plan decided by `fault` and `steps`: the steps when there is
/// no fault, else that fault and nothing to do.
pub open spec fn plans(r: Result<Vec<Effect>, StoreError>, fault: Option<Fault>, steps: Seq<Step>) -> bool {
    match r {
        Ok(v) => fault is None && steps_of(v@) == steps,
        Err(e) => fault == Some(e@),
    }
}

/// Why saving `doc` under `name` is refused, if it is.
pub open spec fn save_fault(c: Collection, name: Seq<char>, doc: Json) -> Option<Fault> {
    if !is_safe_segment(name) {
        Some(Fault::InvalidPath)
    } else {
        match c.violation(doc) {
            Some(v) => Some(invalid(v)),
            None => None,
        }
    }
}

/// The steps that save `doc` under `name`.
pub open spec fn save_steps(c: Collection, name: Seq<char>, doc: Json) -> Seq<Step> {
    seq![Step::MakeDir(c.spec_dir()), Step::Write(child(c.spec_dir(), json_name(name)), doc)]
}

/// Plans saving `doc` under `name` (`.json` appended when missing): the
/// name is checked, then the document, then the directory is made and the
/// file written, replacing any file of that name.
pub fn plan_save(c: Collection, name: &str, doc: Json) -> (r: Result<Vec<Effect>, StoreError>)
    ensures
        plans(r, save_fault(c, name@, doc), save_steps(c, name@, doc)),
{
    if !is_safe_name(name) {
        return Err(StoreError::InvalidPath);
    }
    match c.validate(&doc) {
        Err(e) => Err(StoreError::Validation(e)),
        Ok(()) => {
            let file = json_file_name(name);
            let path = child_path(c.dir(), file.as_str());
            let mut v: Vec<Effect> = Vec::new();
            v.push(Effect::CreateDir(String::from_str(c.dir())));
            v.push(Effect::WriteJson(path, doc));
            proof {
                assert(steps_of(v@) =~= save_steps(c, name@, doc));
            }
            Ok(v)
        },
    }
}

/// The path of the file `name` of the collection.
pub fn entity_path(c: Collection, name: &str) -> (r: Result<String, StoreError>)
    ensures
        is_safe_segment(name@) ==> (r matches Ok(p) && p@ == child(c.spec_dir(), name@)),
        !is_safe_segment(name@) ==> outcome(r) == Err::<String, Fault>(Fault::InvalidPath),
{
    if is_safe_name(name) {
        Ok(child_path(c.dir(), name))
    } else {
        Err(StoreError::InvalidPath)
    }
}

/// What loading the file `name` gives, where a read of it found `found`.
pub open spec fn load_outcome(name: Seq<char>, found: Probe) -> Result<Json, Fault> {
    if !is_safe_segment(name) {
        Err(Fault::InvalidPath)
    } else {
        match found {
            Probe::Absent => Err(Fault::NotFound),
            Probe::Malformed => Err(Fault::ParseError),
            Probe::Found(d) => Ok(d),
        }
    }
}

/// What loading the file `name` of the collection gives on the tree `t`.
pub open spec fn load_in(t: Tree, c: Collection, name: Seq<char>) -> Result<Json, Fault> {
    load_outcome(name, probe_of(t, child(c.spec_dir(), name)))
}

/// Loads the file `name`, given what a read of its path found.
pub fn load_entity(name: &str, found: Probe) -> (r: Result<Json, StoreError>)
    ensures
        outcome(r) == load_outcome(name@, found),
{
    if !is_safe_name(name) {
        return Err(StoreError::InvalidPath);
    }
    match found {
        Probe::Absent => Err(StoreError::NotFound),
        Probe::Malformed => Err(StoreError::ParseError),
        Probe::Found(d) => Ok(d),
    }
}

/// Why deleting the file `name` is refused, if it is.
pub open spec fn delete_fault(name: Seq<char>, exists: bool) -> Option<Fault> {
    if !is_safe_segment(name) {
        Some(Fault::InvalidPath)
    } else if !exists {
        Some(Fault::NotFound)
    } else {
        None
    }
}

/// Plans deleting the file `name`, given whether it exists.
pub fn plan_delete(c: Collection, name: &str, exists: bool) -> (r: Result<Vec<Effect>, StoreError>)
    ensures
        plans(r, delete_fault(name@, exists), seq![Step::Remove(child(c.spec_dir(), name@))]),
{
    if !is_safe_name(name) {
        return Err(StoreError::InvalidPath);
    }
    if !exists {
        return Err(StoreError::NotFound);
    }
    let mut v: Vec<Effect> = Vec::new();
    v.push(Effect::RemoveFile(child_path(c.dir(), name)));
    proof {
        assert(steps_of(v@) =~= seq![Step::Remove(child(c.spec_dir(), name@))]);
    }
    Ok(v)
}

/// A document saved under `name` reads back unchanged from the file that
/// saving named, whatever the tree held before.
pub proof fn lemma_save_then_load(t: Tree, c: Collection, name: Seq<char>, doc: Json)
    requires
        save_fault(c, name, doc) is None,
        is_safe_segment(json_name(name)),
    ensures
        load_in(apply_steps(t, save_steps(c, name, doc)), c, json_name(name)) == Ok::<Json, Fault>(doc),
{
    let steps = save_steps(c, name, doc);
    let t1 = apply_step(t, steps[0]);
    let t2 = apply_step(t1, steps[1]);
    assert(steps.drop_first().drop_first() =~= Seq::<Step>::empty());
    assert(apply_steps(t, steps) == apply_steps(t1, steps.drop_first()));
    assert(apply_steps(t1, steps.drop_first()) == apply_steps(t2, steps.drop_first().drop_first()));
}

} // verus!
