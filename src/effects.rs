//! Changes to the data root, as the library decides them and the caller
//! performs them, with a model of their outcome on the directory tree.
//!
//! Paths are relative to the data root, with `/` between segments.

use vstd::prelude::*;
use crate::json::Json;
use crate::text::join3;

verus! {

/// One change to the data root.
#[derive(Debug)]
pub enum Effect {
    /// Create a directory and any missing parents.
    CreateDir(String),
    /// Write a document as pretty-printed JSON, replacing any file there.
    WriteJson(String, Json),
    /// Remove a file.
    RemoveFile(String),
    /// Remove a directory and everything below it.
    RemoveTree(String),
    /// Copy the directory tree at an outside path (first) to a path of the
    /// data root (second).
    CopyTree(String, String),
}

/// The view of an [`Effect`].
pub enum Step {
    MakeDir(Seq<char>),
    Write(Seq<char>, Json),
    Remove(Seq<char>),
    RemoveAll(Seq<char>),
    Copy(Seq<char>, Seq<char>),
}

impl View for Effect {
    type V = Step;

    open spec fn view(&self) -> Step {
        match self {
            Effect::CreateDir(p) => Step::MakeDir(p@),
            Effect::WriteJson(p, d) => Step::Write(p@, *d),
            Effect::RemoveFile(p) => Step::Remove(p@),
            Effect::RemoveTree(p) => Step::RemoveAll(p@),
            Effect::CopyTree(s, p) => Step::Copy(s@, p@),
        }
    }
}

/// The steps of a list of effects.
pub open spec fn steps_of(effects: Seq<Effect>) -> Seq<Step> {
    effects.map_values(|e: Effect| e@)
}

/// What a path of the data root holds.
pub enum Node {
    Dir,
    File(Json),
}

/// The model of a data root: each present path and what it holds.
pub type Tree = Map<Seq<char>, Node>;

/// `p` lies strictly below the directory `dir`.
pub open spec fn is_below(p: Seq<char>, dir: Seq<char>) -> bool {
    p.len() > dir.len() + 1 && p.subrange(0, dir.len() as int + 1) == dir + "/"@
}

/// The tree after one step. A copied tree is modelled by its root
/// directory only: what lies below it comes from outside the data root.
pub open spec fn apply_step(t: Tree, s: Step) -> Tree {
    match s {
        Step::MakeDir(p) => if t.contains_key(p) { t } else { t.insert(p, Node::Dir) },
        Step::Write(p, d) => t.insert(p, Node::File(d)),
        Step::Remove(p) => t.remove(p),
        Step::RemoveAll(p) => t.restrict(t.dom().filter(|q: Seq<char>| q != p && !is_below(q, p))),
        Step::Copy(_, p) => if t.contains_key(p) { t } else { t.insert(p, Node::Dir) },
    }
}

/// The tree after the steps, in order.
pub open spec fn apply_steps(t: Tree, steps: Seq<Step>) -> Tree
    decreases steps.len(),
{
    if steps.len() == 0 {
        t
    } else {
        apply_steps(apply_step(t, steps[0]), steps.drop_first())
    }
}

/// The tree after an operation that was refused with `fault`, or else
/// performed `steps`.
pub open spec fn after<F>(t: Tree, fault: Option<F>, steps: Seq<Step>) -> Tree {
    if fault is Some {
        t
    } else {
        apply_steps(t, steps)
    }
}

/// What a read of one file of the data root found.
#[derive(Debug)]
pub enum Probe {
    /// No file is there.
    Absent,
    /// Something is there that does not read as a JSON document.
    Malformed,
    /// The document the file holds.
    Found(Json),
}

/// What a read of `p` finds in the tree `t`.
pub open spec fn probe_of(t: Tree, p: Seq<char>) -> Probe {
    if !t.contains_key(p) {
        Probe::Absent
    } else {
        match t[p] {
            Node::File(d) => Probe::Found(d),
            Node::Dir => Probe::Malformed,
        }
    }
}

/// The path of `name` inside the directory `dir`.
pub open spec fn child(dir: Seq<char>, name: Seq<char>) -> Seq<char> {
    dir + "/"@ + name
}

/// The path of `name` inside the directory `dir`.
pub fn child_path(dir: &str, name: &str) -> (r: String)
    ensures
        r@ == child(dir@, name@),
{
    join3(dir, "/", name)
}

} // verus!
