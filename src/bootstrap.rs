//! First-run initialisation of a data root: its directories and the seed
//! documents, each created only where absent, so that user data is never
//! overwritten.

use vstd::prelude::*;
use crate::config::{decode_all, default_providers, encode_providers, is_default_providers, lemma_decode_all};
use crate::effects::{apply_step, apply_steps, child, child_path, steps_of, Effect, Step, Tree};
use crate::entity_store::Collection;
use crate::json::{keys_distinct, member, object_of, Json};
use crate::schema::{guide_violation, knowledge_violation, lemma_all_text, lemma_entries_pass};

verus! {

fn text_list(items: &[&str]) -> (r: Vec<Json>)
    ensures
        r@.len() == items@.len(),
        forall|i: int| 0 <= i < r@.len() ==> (#[trigger] r@[i]) is Str,
{
    let mut out: Vec<Json> = Vec::new();
    let n = items.len();
    let mut i: usize = 0;
    while i < n
        invariant
            n == items@.len(),
            i <= n,
            out@.len() == i,
            forall|j: int| 0 <= j < i ==> (#[trigger] out@[j]) is Str,
        decreases n - i,
    {
        out.push(Json::text(items[i]));
        i = i + 1;
    }
    out
}

fn meta(name: &str) -> (r: Json)
    ensures
        r.field("name"@) matches Some(Json::Str(n)) && n@ == name@,
        r.has_text("name"@),
        r.has_text("version"@),
        r.has_text("domain"@),
{
    proof {
        reveal_strlit("domain");
        reveal_strlit("name");
        reveal_strlit("version");
    }
    let mut m: Vec<(String, Json)> = Vec::new();
    m.push(member("domain", Json::text("development")));
    m.push(member("name", Json::text(name)));
    m.push(member("version", Json::text("1.0.0")));
    let ghost mv = m@;
    proof {
        assert(mv[0].0@.len() != mv[1].0@.len());
        assert(mv[0].0@.len() != mv[2].0@.len());
        assert(mv[1].0@.len() != mv[2].0@.len());
        assert(keys_distinct(mv));
    }
    let r = object_of(m);
    proof {
        assert(r.field(mv[0].0@) == Some(mv[0].1));
        assert(r.field(mv[1].0@) == Some(mv[1].1));
        assert(r.field(mv[2].0@) == Some(mv[2].1));
    }
    r
}

fn guide_entry(name: &str, description: &str, steps: &[&str]) -> (r: Json)
    requires
        steps@.len() > 0,
    ensures
        forall|i: nat| #[trigger] crate::schema::guide_entry_violation(r, i) is None,
{
    let plan = text_list(steps);
    let ghost pv = plan@;
    proof {
        reveal_strlit("description");
        reveal_strlit("name");
        reveal_strlit("plan");
        lemma_all_text(pv, 0);
    }
    let mut m: Vec<(String, Json)> = Vec::new();
    m.push(member("description", Json::text(description)));
    m.push(member("name", Json::text(name)));
    m.push(member("plan", Json::Array(plan)));
    let ghost mv = m@;
    proof {
        assert(mv[0].0@.len() != mv[1].0@.len());
        assert(mv[0].0@.len() != mv[2].0@.len());
        assert(mv[1].0@[0] != mv[2].0@[0]);
        assert(keys_distinct(mv));
    }
    let r = object_of(m);
    proof {
        assert(r.field(mv[0].0@) == Some(mv[0].1));
        assert(r.field(mv[1].0@) == Some(mv[1].1));
        assert(r.field(mv[2].0@) == Some(mv[2].1));
    }
    r
}

fn knowledge_entry(name: &str, description: &str, content: &str) -> (r: Json)
    ensures
        forall|i: nat| #[trigger] crate::schema::knowledge_entry_violation(r, i) is None,
{
    proof {
        reveal_strlit("content");
        reveal_strlit("description");
        reveal_strlit("name");
    }
    let mut m: Vec<(String, Json)> = Vec::new();
    m.push(member("content", Json::text(content)));
    m.push(member("description", Json::text(description)));
    m.push(member("name", Json::text(name)));
    let ghost mv = m@;
    proof {
        assert(mv[0].0@.len() != mv[1].0@.len());
        assert(mv[0].0@.len() != mv[2].0@.len());
        assert(mv[1].0@.len() != mv[2].0@.len());
        assert(keys_distinct(mv));
    }
    let r = object_of(m);
    proof {
        assert(r.field(mv[0].0@) == Some(mv[0].1));
        assert(r.field(mv[1].0@) == Some(mv[1].1));
        assert(r.field(mv[2].0@) == Some(mv[2].1));
    }
    r
}

fn document(meta_doc: Json, entries: Vec<Json>) -> (r: Json)
    ensures
        r.field("meta"@) == Some(meta_doc),
        r.field("entries"@) == Some(Json::Array(entries)),
{
    proof {
        reveal_strlit("entries");
        reveal_strlit("meta");
    }
    let mut m: Vec<(String, Json)> = Vec::new();
    m.push(member("entries", Json::Array(entries)));
    m.push(member("meta", meta_doc));
    let ghost mv = m@;
    proof {
        assert(mv[0].0@.len() != mv[1].0@.len());
        assert(keys_distinct(mv));
    }
    let r = object_of(m);
    proof {
        assert(r.field(mv[0].0@) == Some(mv[0].1));
        assert(r.field(mv[1].0@) == Some(mv[1].1));
    }
    r
}

/// The guide a new data root starts with; it passes the guide schema.
pub fn default_guide() -> (r: Json)
    ensures
        guide_violation(r) is None,
        r.field("meta"@) matches Some(m) && (m.field("name"@) matches Some(Json::Str(n))
            && n@ == "Software Development Guide"@),
        r.field("entries"@) matches Some(Json::Array(e)) && e@.len() == 2,
{
    let mut entries: Vec<Json> = Vec::new();
    entries.push(guide_entry(
        "Project Setup",
        "Initial project configuration and setup",
        &["Create project structure", "Configure development environment", "Set up version control", "Install dependencies"],
    ));
    entries.push(guide_entry(
        "Feature Development",
        "Develop new features incrementally",
        &["Analyze requirements", "Design solution approach", "Implement core functionality", "Write tests", "Review and refactor"],
    ));
    let ghost ev = entries@;
    let r = document(meta("Software Development Guide"), entries);
    proof {
        assert(crate::schema::guide_entry_violation(ev[0], 0) is None);
        assert(crate::schema::guide_entry_violation(ev[1], 1) is None);
        lemma_entries_pass(ev, 0, true);
    }
    r
}

/// The knowledge document a new data root starts with; it passes the
/// knowledge schema.
pub fn default_knowledge() -> (r: Json)
    ensures
        knowledge_violation(r) is None,
        r.field("meta"@) matches Some(m) && (m.field("name"@) matches Some(Json::Str(n))
            && n@ == "Software Development Knowledge"@),
        r.field("entries"@) matches Some(Json::Array(e)) && e@.len() == 3,
{
    let mut entries: Vec<Json> = Vec::new();
    entries.push(knowledge_entry(
        "React Best Practices",
        "Essential practices for React development",
        "Use functional components with hooks, follow component composition patterns, implement proper error handling, use React.memo for performance optimization, follow proper state management patterns.",
    ));
    entries.push(knowledge_entry(
        "TypeScript Guidelines",
        "TypeScript development standards and conventions",
        "Use strict type checking, prefer interfaces over types for object shapes, use generics for reusable code, avoid 'any' type, implement proper error boundaries, use type guards for runtime type checking.",
    ));
    entries.push(knowledge_entry(
        "Git Workflow",
        "Version control best practices and workflows",
        "Use feature branches for new development, write clear commit messages, use pull requests for code review, maintain clean commit history, resolve conflicts properly, use semantic versioning.",
    ));
    let ghost ev = entries@;
    let r = document(meta("Software Development Knowledge"), entries);
    proof {
        assert(crate::schema::knowledge_entry_violation(ev[0], 0) is None);
        assert(crate::schema::knowledge_entry_violation(ev[1], 1) is None);
        assert(crate::schema::knowledge_entry_violation(ev[2], 2) is None);
        lemma_entries_pass(ev, 0, false);
    }
    r
}

} // verus!

verus! {

/// The legacy configuration seed written once at the data root: the default
/// providers and the data root itself.
pub fn default_config_seed(data_root: &str) -> (r: Json)
    ensures
        r.field("data_root"@) matches Some(Json::Str(d)) && d@ == data_root@,
        r.field("llm_providers"@) matches Some(Json::Array(items)) && (decode_all(items@) matches Some(ps)
            && is_default_providers(ps)),
{
    let providers = default_providers();
    let items = encode_providers(&providers);
    let ghost iv = items@;
    proof {
        lemma_decode_all(iv, providers@);
        reveal_strlit("data_root");
        reveal_strlit("llm_providers");
    }
    let mut m: Vec<(String, Json)> = Vec::new();
    m.push(member("data_root", Json::text(data_root)));
    m.push(member("llm_providers", Json::Array(items)));
    let ghost mv = m@;
    proof {
        assert(mv[0].0@.len() != mv[1].0@.len());
        assert(keys_distinct(mv));
    }
    let r = object_of(m);
    proof {
        assert(r.field(mv[0].0@) == Some(mv[0].1));
        assert(r.field(mv[1].0@) == Some(mv[1].1));
    }
    r
}

/// The documents a data root is seeded with.
#[derive(Debug)]
pub struct Seeds {
    pub config: Json,
    pub guide: Json,
    pub knowledge: Json,
}

impl Seeds {
    /// The default seeds for the data root `data_root`.
    pub fn defaults(data_root: &str) -> (r: Seeds)
        ensures
            guide_violation(r.guide) is None,
            knowledge_violation(r.knowledge) is None,
            r.config.field("data_root"@) matches Some(Json::Str(d)) && d@ == data_root@,
    {
        Seeds { config: default_config_seed(data_root), guide: default_guide(), knowledge: default_knowledge() }
    }
}

/// The paths a data root must hold, in the order they are made: five
/// directories, then the configuration seed, the guide seed and the
/// knowledge seed.
pub open spec fn bootstrap_targets() -> Seq<Seq<char>> {
    seq![
        "guides"@,
        "knowledge"@,
        "actions"@,
        "saves"@,
        "logs"@,
        "config.json"@,
        child("guides"@, "software-development.json"@),
        child("knowledge"@, "software-development.json"@),
    ]
}

/// The step that makes target `i` of the data root.
pub open spec fn target_step(i: int, seeds: Seeds) -> Step {
    if i < 5 {
        Step::MakeDir(bootstrap_targets()[i])
    } else if i == 5 {
        Step::Write(bootstrap_targets()[i], seeds.config)
    } else if i == 6 {
        Step::Write(bootstrap_targets()[i], seeds.guide)
    } else {
        Step::Write(bootstrap_targets()[i], seeds.knowledge)
    }
}

/// Target `i` was found present.
pub open spec fn is_present(present: Seq<bool>, i: int) -> bool {
    0 <= i < present.len() && present[i]
}

/// The steps that make the targets from `i` on that were not found present.
pub open spec fn bootstrap_steps_from(present: Seq<bool>, seeds: Seeds, i: int) -> Seq<Step>
    decreases 8 - i,
{
    if i < 0 || i >= 8 {
        Seq::empty()
    } else if is_present(present, i) {
        bootstrap_steps_from(present, seeds, i + 1)
    } else {
        seq![target_step(i, seeds)] + bootstrap_steps_from(present, seeds, i + 1)
    }
}

/// The steps that initialise a data root where `present[i]` tells whether
/// target `i` exists.
pub open spec fn bootstrap_steps(present: Seq<bool>, seeds: Seeds) -> Seq<Step> {
    bootstrap_steps_from(present, seeds, 0)
}

/// Which targets the tree `t` holds.
pub open spec fn presence(t: Tree) -> Seq<bool> {
    Seq::new(8, |i: int| t.contains_key(bootstrap_targets()[i]))
}

/// The paths a data root must hold, as `bootstrap_targets` lists them.
pub fn bootstrap_paths() -> (r: Vec<String>)
    ensures
        r@.map_values(|p: String| p@) == bootstrap_targets(),
{
    let mut r: Vec<String> = Vec::new();
    r.push(String::from_str("guides"));
    r.push(String::from_str("knowledge"));
    r.push(String::from_str("actions"));
    r.push(String::from_str("saves"));
    r.push(String::from_str("logs"));
    r.push(String::from_str("config.json"));
    r.push(child_path("guides", "software-development.json"));
    r.push(child_path("knowledge", "software-development.json"));
    assert(r@.map_values(|p: String| p@) =~= bootstrap_targets());
    r
}

/// Plans initialising a data root, where `present[i]` tells whether target
/// `i` of `bootstrap_paths` exists (a missing entry counts as absent): each
/// absent directory is made and each absent seed written; nothing present
/// is touched.
pub fn plan_bootstrap(present: &Vec<bool>, seeds: Seeds) -> (r: Vec<Effect>)
    ensures
        steps_of(r@) == bootstrap_steps(present@, seeds),
{
    let ghost sv = seeds;
    let paths = bootstrap_paths();
    let Seeds { config, guide, knowledge } = seeds;
    let mut config = Some(config);
    let mut guide = Some(guide);
    let mut knowledge = Some(knowledge);
    let mut out: Vec<Effect> = Vec::new();
    let mut i: usize = 0;
    assert(paths@.map_values(|p: String| p@).len() == paths@.len());
    assert(steps_of(out@) =~= Seq::<Step>::empty());
    assert(Seq::<Step>::empty() + bootstrap_steps(present@, sv) =~= bootstrap_steps(present@, sv));
    while i < 8
        invariant
            i <= 8,
            paths@.map_values(|p: String| p@) == bootstrap_targets(),
            paths@.len() == 8,
            i <= 5 ==> config == Some(sv.config),
            i <= 6 ==> guide == Some(sv.guide),
            i <= 7 ==> knowledge == Some(sv.knowledge),
            steps_of(out@) + bootstrap_steps_from(present@, sv, i as int) == bootstrap_steps(present@, sv),
        decreases 8 - i,
    {
        let here = i < present.len() && present[i];
        assert(paths@.map_values(|p: String| p@)[i as int] == paths@[i as int]@);
        if !here {
            let p = paths[i].clone();
            let e = if i < 5 {
                Effect::CreateDir(p)
            } else if i == 5 {
                Effect::WriteJson(p, config.take().unwrap())
            } else if i == 6 {
                Effect::WriteJson(p, guide.take().unwrap())
            } else {
                Effect::WriteJson(p, knowledge.take().unwrap())
            };
            let ghost before = out@;
            out.push(e);
            proof {
                assert(e@ == target_step(i as int, sv));
                assert(steps_of(out@) =~= steps_of(before).push(target_step(i as int, sv)));
                assert(steps_of(out@) + bootstrap_steps_from(present@, sv, i + 1) =~= steps_of(before)
                    + bootstrap_steps_from(present@, sv, i as int));
            }
        }
        i = i + 1;
    }
    assert(steps_of(out@) + Seq::<Step>::empty() =~= steps_of(out@));
    out
}

} // verus!

verus! {

proof fn lemma_apply_cons(t: Tree, s: Step, rest: Seq<Step>)
    ensures
        apply_steps(t, seq![s] + rest) == apply_steps(apply_step(t, s), rest),
{
    let all = seq![s] + rest;
    assert(all[0] == s);
    assert(all.drop_first() =~= rest);
}

proof fn lemma_steps_grow(t: Tree, present: Seq<bool>, seeds: Seeds, i: int)
    ensures
        forall|p: Seq<char>| t.contains_key(p) ==> #[trigger] apply_steps(t, bootstrap_steps_from(present, seeds, i)).contains_key(p),
    decreases 8 - i,
{
    if 0 <= i < 8 {
        if is_present(present, i) {
            assert(bootstrap_steps_from(present, seeds, i) == bootstrap_steps_from(present, seeds, i + 1));
            lemma_steps_grow(t, present, seeds, i + 1);
        } else {
            let s = target_step(i, seeds);
            let rest = bootstrap_steps_from(present, seeds, i + 1);
            let t1 = apply_step(t, s);
            lemma_apply_cons(t, s, rest);
            assert(bootstrap_steps_from(present, seeds, i) == seq![s] + rest);
            lemma_steps_grow(t1, present, seeds, i + 1);
            assert forall|p: Seq<char>| t.contains_key(p) implies #[trigger] apply_steps(t, bootstrap_steps_from(present, seeds, i)).contains_key(p) by {
                assert(t1.contains_key(p));
            }
        }
    } else {
        assert(bootstrap_steps_from(present, seeds, i) == Seq::<Step>::empty());
        assert(apply_steps(t, Seq::<Step>::empty()) == t);
    }
}

proof fn lemma_steps_make(t: Tree, present: Seq<bool>, seeds: Seeds, i: int)
    requires
        0 <= i,
    ensures
        forall|j: int| i <= j < 8 && !is_present(present, j)
            ==> apply_steps(t, bootstrap_steps_from(present, seeds, i)).contains_key(#[trigger] bootstrap_targets()[j]),
    decreases 8 - i,
{
    if i < 8 {
        let r = apply_steps(t, bootstrap_steps_from(present, seeds, i));
        if is_present(present, i) {
            lemma_steps_make(t, present, seeds, i + 1);
        } else {
            let s = target_step(i, seeds);
            let rest = bootstrap_steps_from(present, seeds, i + 1);
            let t1 = apply_step(t, s);
            lemma_apply_cons(t, s, rest);
            assert(t1.contains_key(bootstrap_targets()[i]));
            lemma_steps_grow(t1, present, seeds, i + 1);
            lemma_steps_make(t1, present, seeds, i + 1);
        }
    }
}

proof fn lemma_steps_keep(t0: Tree, t: Tree, seeds: Seeds, i: int)
    requires
        forall|p: Seq<char>| #[trigger] t0.contains_key(p) ==> t.contains_key(p) && t[p] == t0[p],
    ensures
        forall|p: Seq<char>| #[trigger] t0.contains_key(p)
            ==> apply_steps(t, bootstrap_steps_from(presence(t0), seeds, i)).contains_key(p)
                && apply_steps(t, bootstrap_steps_from(presence(t0), seeds, i))[p] == t0[p],
    decreases 8 - i,
{
    let present = presence(t0);
    if 0 <= i < 8 {
        if is_present(present, i) {
            lemma_steps_keep(t0, t, seeds, i + 1);
        } else {
            let s = target_step(i, seeds);
            let rest = bootstrap_steps_from(present, seeds, i + 1);
            let t1 = apply_step(t, s);
            lemma_apply_cons(t, s, rest);
            assert(!t0.contains_key(bootstrap_targets()[i]));
            assert forall|p: Seq<char>| #[trigger] t0.contains_key(p) implies t1.contains_key(p) && t1[p] == t0[p] by {
                assert(p != bootstrap_targets()[i]);
            }
            lemma_steps_keep(t0, t1, seeds, i + 1);
        }
    }
}

proof fn lemma_no_steps(present: Seq<bool>, seeds: Seeds, i: int)
    requires
        forall|j: int| 0 <= j < 8 ==> is_present(present, j),
    ensures
        bootstrap_steps_from(present, seeds, i) == Seq::<Step>::empty(),
    decreases 8 - i,
{
    if 0 <= i < 8 {
        lemma_no_steps(present, seeds, i + 1);
    }
}

/// Initialising a data root twice leaves it as initialising it once: the
/// second time finds every target present and does nothing. Initialising
/// never changes what was already there.
pub proof fn lemma_bootstrap_idempotent(t: Tree, seeds: Seeds)
    ensures
        ({
            let once = apply_steps(t, bootstrap_steps(presence(t), seeds));
            &&& bootstrap_steps(presence(once), seeds) == Seq::<Step>::empty()
            &&& apply_steps(once, bootstrap_steps(presence(once), seeds)) == once
            &&& forall|p: Seq<char>| #[trigger] t.contains_key(p) ==> once.contains_key(p) && once[p] == t[p]
        }),
{
    let present = presence(t);
    let once = apply_steps(t, bootstrap_steps(present, seeds));
    lemma_steps_grow(t, present, seeds, 0);
    lemma_steps_make(t, present, seeds, 0);
    lemma_steps_keep(t, t, seeds, 0);
    let again = presence(once);
    assert forall|j: int| 0 <= j < 8 implies is_present(again, j) by {
        if is_present(present, j) {
            assert(t.contains_key(bootstrap_targets()[j]));
        }
    }
    lemma_no_steps(again, seeds, 0);
}

} // verus!

verus! {

/// The file of a collection's seed document.
pub open spec fn seed_path(c: Collection) -> Seq<char> {
    child(c.spec_dir(), "software-development.json"@)
}

/// Plans making a collection's directory and, where `seed_present` is
/// false, writing its seed document, which passes the collection's schema.
pub fn plan_collection_seed(c: Collection, seed_present: bool) -> (r: Vec<Effect>)
    ensures
        r@.len() == if seed_present { 1int } else { 2int },
        r@[0]@ == Step::MakeDir(c.spec_dir()),
        !seed_present ==> (r@[1] matches Effect::WriteJson(p, d) && p@ == seed_path(c) && c.violation(d) is None),
{
    let mut r: Vec<Effect> = Vec::new();
    r.push(Effect::CreateDir(String::from_str(c.dir())));
    if !seed_present {
        let doc = match c {
            Collection::Guides => default_guide(),
            Collection::Knowledge => default_knowledge(),
        };
        r.push(Effect::WriteJson(child_path(c.dir(), "software-development.json"), doc));
    }
    r
}

} // verus!
