//! Application configuration: LLM providers, unique by alias, with theme,
//! language and data root, and the provider export format.

use vstd::prelude::*;
use crate::error::{outcome, Fault, StoreError};
use crate::json::{lemma_lookup_at, member, optional_text, optional_text_json, read_optional_text, read_text, Json, Number};
use crate::text::text_eq;

verus! {

/// The colour theme of the application.
#[derive(PartialEq, Eq, Structural, Clone, Copy, Debug)]
pub enum Theme {
    Light,
    Dark,
    System,
}

/// The language of the application.
#[derive(PartialEq, Eq, Structural, Clone, Copy, Debug)]
pub enum Language {
    En,
    Zh,
}

/// The name a theme is stored under.
pub open spec fn theme_name(t: Theme) -> Seq<char> {
    match t {
        Theme::Light => "light"@,
        Theme::Dark => "dark"@,
        Theme::System => "system"@,
    }
}

/// The theme stored under `name`, if any.
pub open spec fn theme_of(name: Seq<char>) -> Option<Theme> {
    if name == "light"@ {
        Some(Theme::Light)
    } else if name == "dark"@ {
        Some(Theme::Dark)
    } else if name == "system"@ {
        Some(Theme::System)
    } else {
        None
    }
}

/// The name a language is stored under.
pub open spec fn language_name(l: Language) -> Seq<char> {
    match l {
        Language::En => "en"@,
        Language::Zh => "zh"@,
    }
}

/// The language stored under `name`, if any.
pub open spec fn language_of(name: Seq<char>) -> Option<Language> {
    if name == "en"@ {
        Some(Language::En)
    } else if name == "zh"@ {
        Some(Language::Zh)
    } else {
        None
    }
}

impl Theme {
    /// The name this theme is stored under.
    pub fn name(&self) -> (r: &'static str)
        ensures
            r@ == theme_name(*self),
    {
        match self {
            Theme::Light => "light",
            Theme::Dark => "dark",
            Theme::System => "system",
        }
    }

    /// The theme stored under `name`; `InvalidValue` for any other name.
    pub fn parse(name: &str) -> (r: Result<Theme, StoreError>)
        ensures
            match theme_of(name@) {
                Some(t) => r == Ok::<Theme, StoreError>(t),
                None => outcome(r) == Err::<Theme, Fault>(Fault::InvalidValue),
            },
    {
        if text_eq(name, "light") {
            Ok(Theme::Light)
        } else if text_eq(name, "dark") {
            Ok(Theme::Dark)
        } else if text_eq(name, "system") {
            Ok(Theme::System)
        } else {
            Err(StoreError::InvalidValue)
        }
    }
}

impl Language {
    /// The name this language is stored under.
    pub fn name(&self) -> (r: &'static str)
        ensures
            r@ == language_name(*self),
    {
        match self {
            Language::En => "en",
            Language::Zh => "zh",
        }
    }

    /// The language stored under `name`; `InvalidValue` for any other name.
    pub fn parse(name: &str) -> (r: Result<Language, StoreError>)
        ensures
            match language_of(name@) {
                Some(l) => r == Ok::<Language, StoreError>(l),
                None => outcome(r) == Err::<Language, Fault>(Fault::InvalidValue),
            },
    {
        if text_eq(name, "en") {
            Ok(Language::En)
        } else if text_eq(name, "zh") {
            Ok(Language::Zh)
        } else {
            Err(StoreError::InvalidValue)
        }
    }
}

/// An LLM provider record. `alias` is its identity. `temperature` is kept
/// as the JSON number it was given as.
#[derive(Debug)]
pub struct LLMProvider {
    pub name: String,
    pub provider: String,
    pub base_url: String,
    pub model: String,
    pub api_key: Option<String>,
    pub temperature: Number,
    pub max_tokens: Option<u32>,
    pub think: bool,
    pub alias: String,
}

/// An optional count: absent or `null` is `None`, an integer that fits in
/// 32 unsigned bits is that integer; anything else does not decode.
pub open spec fn optional_count(v: Option<Json>) -> Option<Option<u32>> {
    match v {
        None => Some(None),
        Some(Json::Null) => Some(None),
        Some(Json::Number(Number::PosInt(n))) => if n <= u32::MAX as u64 {
            Some(Some(n as u32))
        } else {
            None
        },
        _ => None,
    }
}

/// The provider record that a JSON object holds, if it holds one.
pub open spec fn decode_provider_doc(v: Json) -> Option<LLMProvider> {
    match (v.field("name"@), v.field("provider"@), v.field("base_url"@), v.field("model"@)) {
        (Some(Json::Str(name)), Some(Json::Str(provider)), Some(Json::Str(base_url)), Some(Json::Str(model))) =>
            match (optional_text(v.field("api_key"@)), v.field("temperature"@), optional_count(v.field("max_tokens"@))) {
                (Some(api_key), Some(Json::Number(temperature)), Some(max_tokens)) =>
                    match (v.field("think"@), v.field("alias"@)) {
                        (Some(Json::Bool(think)), Some(Json::Str(alias))) => Some(LLMProvider {
                            name, provider, base_url, model, api_key, temperature, max_tokens, think, alias,
                        }),
                        _ => None,
                    },
                _ => None,
            },
        _ => None,
    }
}

fn read_optional_count(obj: &Json, key: &str) -> (r: Option<Option<u32>>)
    ensures
        r == optional_count(obj.field(key@)),
{
    match obj.get(key) {
        None => Some(None),
        Some(Json::Null) => Some(None),
        Some(Json::Number(Number::PosInt(n))) => if *n <= u32::MAX as u64 {
            Some(Some(*n as u32))
        } else {
            None
        },
        _ => None,
    }
}

/// The provider record that a JSON object holds; `None` when it is not of
/// that shape.
pub fn decode_provider(v: &Json) -> (r: Option<LLMProvider>)
    ensures
        r == decode_provider_doc(*v),
{
    let name = read_text(v, "name");
    let provider = read_text(v, "provider");
    let base_url = read_text(v, "base_url");
    let model = read_text(v, "model");
    let api_key = read_optional_text(v, "api_key");
    let temperature = match v.get("temperature") {
        Some(Json::Number(n)) => Some(*n),
        _ => None,
    };
    let max_tokens = read_optional_count(v, "max_tokens");
    let think = match v.get("think") {
        Some(Json::Bool(b)) => Some(*b),
        _ => None,
    };
    let alias = read_text(v, "alias");
    match (name, provider, base_url, model) {
        (Some(name), Some(provider), Some(base_url), Some(model)) => match (api_key, temperature, max_tokens) {
            (Some(api_key), Some(temperature), Some(max_tokens)) => match (think, alias) {
                (Some(think), Some(alias)) => Some(LLMProvider {
                    name, provider, base_url, model, api_key, temperature, max_tokens, think, alias,
                }),
                _ => None,
            },
            _ => None,
        },
        _ => None,
    }
}

fn optional_count_json(n: Option<u32>) -> (r: Json)
    ensures
        optional_count(Some(r)) == Some(n),
{
    match n {
        Some(k) => Json::Number(Number::PosInt(k as u64)),
        None => Json::Null,
    }
}

impl LLMProvider {
    /// A copy of this record.
    pub fn duplicate(&self) -> (r: LLMProvider)
        ensures
            r == *self,
    {
        LLMProvider {
            name: self.name.clone(),
            provider: self.provider.clone(),
            base_url: self.base_url.clone(),
            model: self.model.clone(),
            api_key: match &self.api_key {
                Some(k) => Some(k.clone()),
                None => None,
            },
            temperature: self.temperature,
            max_tokens: self.max_tokens,
            think: self.think,
            alias: self.alias.clone(),
        }
    }

    /// The record as a JSON object, with its fields in declaration order.
    pub fn encode(self) -> (r: Json)
        ensures
            decode_provider_doc(r) == Some(self),
    {
        proof {
            reveal_strlit("name");
            reveal_strlit("provider");
            reveal_strlit("base_url");
            reveal_strlit("model");
            reveal_strlit("api_key");
            reveal_strlit("temperature");
            reveal_strlit("max_tokens");
            reveal_strlit("think");
            reveal_strlit("alias");
        }
        let LLMProvider { name, provider, base_url, model, api_key, temperature, max_tokens, think, alias } = self;
        let mut members: Vec<(String, Json)> = Vec::new();
        members.push(member("name", Json::Str(name)));
        members.push(member("provider", Json::Str(provider)));
        members.push(member("base_url", Json::Str(base_url)));
        members.push(member("model", Json::Str(model)));
        members.push(member("api_key", optional_text_json(api_key)));
        members.push(member("temperature", Json::Number(temperature)));
        members.push(member("max_tokens", optional_count_json(max_tokens)));
        members.push(member("think", Json::Bool(think)));
        members.push(member("alias", Json::Str(alias)));
        let r = Json::Object(members);
        proof {
            let m = members@;
            assert(m[0].0@.len() != "provider"@.len());
            assert(m[0].0@.len() != "base_url"@.len());
            assert(m[1].0@[0] != "base_url"@[0]);
            assert(m[0].0@.len() != "model"@.len());
            assert(m[1].0@.len() != "model"@.len());
            assert(m[2].0@.len() != "model"@.len());
            assert(m[0].0@.len() != "api_key"@.len());
            assert(m[1].0@.len() != "api_key"@.len());
            assert(m[2].0@.len() != "api_key"@.len());
            assert(m[3].0@.len() != "api_key"@.len());
            assert(m[0].0@.len() != "temperature"@.len());
            assert(m[1].0@.len() != "temperature"@.len());
            assert(m[2].0@.len() != "temperature"@.len());
            assert(m[3].0@.len() != "temperature"@.len());
            assert(m[4].0@.len() != "temperature"@.len());
            assert(m[0].0@.len() != "max_tokens"@.len());
            assert(m[1].0@.len() != "max_tokens"@.len());
            assert(m[2].0@.len() != "max_tokens"@.len());
            assert(m[3].0@.len() != "max_tokens"@.len());
            assert(m[4].0@.len() != "max_tokens"@.len());
            assert(m[5].0@.len() != "max_tokens"@.len());
            assert(m[0].0@.len() != "think"@.len());
            assert(m[1].0@.len() != "think"@.len());
            assert(m[2].0@.len() != "think"@.len());
            assert(m[3].0@[0] != "think"@[0]);
            assert(m[4].0@.len() != "think"@.len());
            assert(m[5].0@.len() != "think"@.len());
            assert(m[6].0@.len() != "think"@.len());
            assert(m[0].0@.len() != "alias"@.len());
            assert(m[1].0@.len() != "alias"@.len());
            assert(m[2].0@.len() != "alias"@.len());
            assert(m[3].0@[0] != "alias"@[0]);
            assert(m[4].0@.len() != "alias"@.len());
            assert(m[5].0@.len() != "alias"@.len());
            assert(m[6].0@.len() != "alias"@.len());
            assert(m[7].0@[0] != "alias"@[0]);
            lemma_lookup_at(m, "name"@, 0);
            lemma_lookup_at(m, "provider"@, 1);
            lemma_lookup_at(m, "base_url"@, 2);
            lemma_lookup_at(m, "model"@, 3);
            lemma_lookup_at(m, "api_key"@, 4);
            lemma_lookup_at(m, "temperature"@, 5);
            lemma_lookup_at(m, "max_tokens"@, 6);
            lemma_lookup_at(m, "think"@, 7);
            lemma_lookup_at(m, "alias"@, 8);
        }
        r
    }
}

} // verus!

verus! {

/// Some provider in `ps` has alias `a`.
pub open spec fn has_alias(ps: Seq<LLMProvider>, a: Seq<char>) -> bool {
    exists|i: int| 0 <= i < ps.len() && (#[trigger] ps[i]).alias@ == a
}

/// No two providers in `ps` share an alias.
pub open spec fn aliases_unique(ps: Seq<LLMProvider>) -> bool {
    forall|i: int, j: int| 0 <= i < j < ps.len() ==> (#[trigger] ps[i]).alias@ != (#[trigger] ps[j]).alias@
}

/// How many providers in `ps` have alias `a`.
pub open spec fn alias_count(ps: Seq<LLMProvider>, a: Seq<char>) -> nat
    decreases ps.len(),
{
    if ps.len() == 0 {
        0
    } else {
        alias_count(ps.drop_last(), a) + if ps.last().alias@ == a { 1nat } else { 0nat }
    }
}

proof fn lemma_push_unique(ps: Seq<LLMProvider>, p: LLMProvider)
    requires
        aliases_unique(ps),
        !has_alias(ps, p.alias@),
    ensures
        aliases_unique(ps.push(p)),
{
    let q = ps.push(p);
    assert forall|i: int, j: int| 0 <= i < j < q.len() implies (#[trigger] q[i]).alias@ != (#[trigger] q[j]).alias@ by {
        assert(q[i] == ps[i]);
        if j < ps.len() {
            assert(q[j] == ps[j]);
        }
    }
}

fn find_alias(ps: &Vec<LLMProvider>, alias: &str) -> (r: Option<usize>)
    ensures
        match r {
            Some(i) => i < ps@.len() && ps@[i as int].alias@ == alias@,
            None => !has_alias(ps@, alias@),
        },
{
    let n = ps.len();
    let mut i: usize = 0;
    while i < n
        invariant
            n == ps@.len(),
            i <= n,
            forall|j: int| 0 <= j < i ==> (#[trigger] ps@[j]).alias@ != alias@,
        decreases n - i,
    {
        if text_eq(ps[i].alias.as_str(), alias) {
            return Some(i);
        }
        i = i + 1;
    }
    None
}

/// The application configuration.
#[derive(Debug)]
pub struct AppConfig {
    pub llm_providers: Vec<LLMProvider>,
    pub data_root: String,
    pub theme: Theme,
    pub language: Language,
}

/// The providers after adding `p` to `ps`: refused when its alias is taken.
pub open spec fn add_outcome(ps: Seq<LLMProvider>, p: LLMProvider) -> Result<Seq<LLMProvider>, Fault> {
    if has_alias(ps, p.alias@) {
        Err(Fault::DuplicateAlias)
    } else {
        Ok(ps.push(p))
    }
}

/// The providers held after an attempt to add `p` to `ps`.
pub open spec fn providers_after_add(ps: Seq<LLMProvider>, p: LLMProvider) -> Seq<LLMProvider> {
    match add_outcome(ps, p) {
        Ok(q) => q,
        Err(_) => ps,
    }
}

/// The index of the provider with alias `a` in `ps`, if there is one.
pub open spec fn alias_index(ps: Seq<LLMProvider>, a: Seq<char>) -> Option<int> {
    if has_alias(ps, a) {
        Some(choose|i: int| 0 <= i < ps.len() && (#[trigger] ps[i]).alias@ == a)
    } else {
        None
    }
}

/// The providers after importing the export entries `items` into `ps`, in
/// order: an entry is skipped when it does not decode as a provider or its
/// alias is already present.
pub open spec fn import_into(ps: Seq<LLMProvider>, items: Seq<Json>) -> Seq<LLMProvider>
    decreases items.len(),
{
    if items.len() == 0 {
        ps
    } else {
        let next = match decode_provider_doc(items[0]) {
            Some(p) => if has_alias(ps, p.alias@) { ps } else { ps.push(p) },
            None => ps,
        };
        import_into(next, items.drop_first())
    }
}

/// The configuration, held in memory, that every mutation leaves with
/// unique provider aliases. The caller persists it after each successful
/// mutation and serialises access to it.
#[derive(Debug)]
pub struct ConfigStore {
    config: AppConfig,
}

impl ConfigStore {
    /// The providers held, in order.
    pub closed spec fn providers(&self) -> Seq<LLMProvider> {
        self.config.llm_providers@
    }

    /// The data root held.
    pub closed spec fn data_root(&self) -> Seq<char> {
        self.config.data_root@
    }

    /// The theme held.
    pub closed spec fn theme(&self) -> Theme {
        self.config.theme
    }

    /// The language held.
    pub closed spec fn language(&self) -> Language {
        self.config.language
    }

    /// Provider aliases are unique.
    pub open spec fn wf(&self) -> bool {
        aliases_unique(self.providers())
    }

    #[verifier::type_invariant]
    spec fn aliases_stay_unique(&self) -> bool {
        aliases_unique(self.config.llm_providers@)
    }

    fn find(&self, alias: &str) -> (r: Option<usize>)
        ensures
            match r {
                Some(i) => i < self.providers().len() && self.providers()[i as int].alias@ == alias@,
                None => !has_alias(self.providers(), alias@),
            },
    {
        find_alias(&self.config.llm_providers, alias)
    }

    /// A store holding `config`; refused when two providers share an alias.
    pub fn new(config: AppConfig) -> (r: Result<ConfigStore, StoreError>)
        ensures
            match r {
                Ok(s) => s.wf() && s.providers() == config.llm_providers@ && s.data_root() == config.data_root@
                    && s.theme() == config.theme && s.language() == config.language,
                Err(e) => e@ == Fault::DuplicateAlias && !aliases_unique(config.llm_providers@),
            },
    {
        let AppConfig { llm_providers, data_root, theme, language } = config;
        let mut kept: Vec<LLMProvider> = Vec::new();
        let n = llm_providers.len();
        let mut i: usize = 0;
        while i < n
            invariant
                n == llm_providers@.len(),
                llm_providers@ == config.llm_providers@,
                i <= n,
                aliases_unique(kept@),
                kept@ == llm_providers@.subrange(0, i as int),
            decreases n - i,
        {
            let p = llm_providers[i].duplicate();
            match find_alias(&kept, p.alias.as_str()) {
                Some(k) => {
                    proof {
                        let ps = llm_providers@;
                        assert(ps[k as int] == ps.subrange(0, i as int)[k as int]);
                        assert(ps[k as int].alias@ == ps[i as int].alias@);
                        assert(k < i);
                        assert(!aliases_unique(ps));
                    }
                    return Err(StoreError::DuplicateAlias);
                },
                None => {},
            }
            proof {
                lemma_push_unique(kept@, p);
            }
            kept.push(p);
            assert(kept@ =~= llm_providers@.subrange(0, i + 1));
            i = i + 1;
        }
        assert(llm_providers@.subrange(0, n as int) =~= llm_providers@);
        Ok(ConfigStore { config: AppConfig { llm_providers: kept, data_root, theme, language } })
    }

    /// The data root held.
    pub fn root(&self) -> (r: &str)
        ensures
            r@ == self.data_root(),
    {
        self.config.data_root.as_str()
    }

    /// A snapshot copy of the configuration.
    pub fn get(&self) -> (r: AppConfig)
        ensures
            r.llm_providers@ == self.providers(),
            r.data_root@ == self.data_root(),
            r.theme == self.theme(),
            r.language == self.language(),
    {
        AppConfig {
            llm_providers: self.all_providers(),
            data_root: self.config.data_root.clone(),
            theme: self.config.theme,
            language: self.config.language,
        }
    }

    /// A copy of the providers, in order.
    pub fn all_providers(&self) -> (r: Vec<LLMProvider>)
        ensures
            r@ == self.providers(),
    {
        let ps = &self.config.llm_providers;
        let mut out: Vec<LLMProvider> = Vec::new();
        let n = ps.len();
        let mut i: usize = 0;
        while i < n
            invariant
                n == ps@.len(),
                i <= n,
                out@ == ps@.subrange(0, i as int),
            decreases n - i,
        {
            out.push(ps[i].duplicate());
            assert(out@ =~= ps@.subrange(0, i + 1));
            i = i + 1;
        }
        assert(out@ =~= ps@);
        out
    }

    /// Adds `p`; refused with `DuplicateAlias`, changing nothing, when a
    /// provider with its alias exists.
    pub fn add_provider(&mut self, p: LLMProvider) -> (r: Result<(), StoreError>)
        ensures
            final(self).wf(),
            match add_outcome(old(self).providers(), p) {
                Ok(q) => r is Ok && final(self).providers() == q,
                Err(f) => outcome(r) == Err::<(), Fault>(f) && final(self).providers() == old(self).providers(),
            },
            final(self).data_root() == old(self).data_root(),
            final(self).theme() == old(self).theme(),
            final(self).language() == old(self).language(),
    {
        proof {
            use_type_invariant(&*self);
        }
        if self.find(p.alias.as_str()).is_some() {
            return Err(StoreError::DuplicateAlias);
        }
        let mut ps = self.all_providers();
        proof {
            lemma_push_unique(ps@, p);
        }
        ps.push(p);
        self.config.llm_providers = ps;
        Ok(())
    }

    /// Replaces the provider with alias `alias` by `p`, in place. Refused
    /// with `NotFound` when there is none, and with `DuplicateAlias` when
    /// `p` would take the alias of another provider.
    pub fn update_provider(&mut self, alias: &str, p: LLMProvider) -> (r: Result<(), StoreError>)
        ensures
            final(self).wf(),
            match alias_index(old(self).providers(), alias@) {
                None => outcome(r) == Err::<(), Fault>(Fault::NotFound)
                    && final(self).providers() == old(self).providers(),
                Some(i) => if (exists|j: int| 0 <= j < old(self).providers().len() && j != i
                    && (#[trigger] old(self).providers()[j]).alias@ == p.alias@) {
                    outcome(r) == Err::<(), Fault>(Fault::DuplicateAlias)
                        && final(self).providers() == old(self).providers()
                } else {
                    r is Ok && final(self).providers() == old(self).providers().update(i, p)
                },
            },
            final(self).data_root() == old(self).data_root(),
            final(self).theme() == old(self).theme(),
            final(self).language() == old(self).language(),
    {
        proof {
            use_type_invariant(&*self);
        }
        let ghost ps = self.providers();
        let i = match self.find(alias) {
            Some(i) => i,
            None => {
                return Err(StoreError::NotFound);
            },
        };
        proof {
            let k = alias_index(ps, alias@).unwrap();
            if k != i as int {
                if k < i {
                    assert(ps[k].alias@ != ps[i as int].alias@);
                } else {
                    assert(ps[i as int].alias@ != ps[k].alias@);
                }
            }
        }
        let n = self.config.llm_providers.len();
        let mut j: usize = 0;
        while j < n
            invariant
                n == ps.len(),
                ps == self.providers(),
                aliases_unique(ps),
                alias_index(ps, alias@) == Some(i as int),
                i < n,
                j <= n,
                forall|k: int| 0 <= k < j && k != i ==> (#[trigger] ps[k]).alias@ != p.alias@,
            decreases n - j,
        {
            if j != i && text_eq(self.config.llm_providers[j].alias.as_str(), p.alias.as_str()) {
                proof {
                    assert(ps[j as int].alias@ == p.alias@);
                }
                return Err(StoreError::DuplicateAlias);
            }
            j = j + 1;
        }
        proof {
            let q = ps.update(i as int, p);
            assert forall|a: int, b: int| 0 <= a < b < q.len() implies (#[trigger] q[a]).alias@ != (#[trigger] q[b]).alias@ by {
                if a != i && b != i {
                    assert(q[a] == ps[a] && q[b] == ps[b]);
                }
            }
        }
        let mut q = self.all_providers();
        q.set(i, p);
        self.config.llm_providers = q;
        Ok(())
    }

    /// Removes the provider with alias `alias`; refused with `NotFound`
    /// when there is none.
    pub fn remove_provider(&mut self, alias: &str) -> (r: Result<(), StoreError>)
        ensures
            final(self).wf(),
            match alias_index(old(self).providers(), alias@) {
                None => outcome(r) == Err::<(), Fault>(Fault::NotFound)
                    && final(self).providers() == old(self).providers(),
                Some(i) => r is Ok && final(self).providers() == old(self).providers().remove(i),
            },
            !has_alias(final(self).providers(), alias@),
            final(self).data_root() == old(self).data_root(),
            final(self).theme() == old(self).theme(),
            final(self).language() == old(self).language(),
    {
        proof {
            use_type_invariant(&*self);
        }
        let ghost ps = self.providers();
        let i = match self.find(alias) {
            Some(i) => i,
            None => {
                return Err(StoreError::NotFound);
            },
        };
        proof {
            let k = alias_index(ps, alias@).unwrap();
            if k != i as int {
                if k < i {
                    assert(ps[k].alias@ != ps[i as int].alias@);
                } else {
                    assert(ps[i as int].alias@ != ps[k].alias@);
                }
            }
        }
        proof {
            let q = ps.remove(i as int);
            assert forall|a: int, b: int| 0 <= a < b < q.len() implies (#[trigger] q[a]).alias@ != (#[trigger] q[b]).alias@ by {
                let a0 = if a < i { a } else { a + 1 };
                let b0 = if b < i { b } else { b + 1 };
                assert(q[a] == ps[a0] && q[b] == ps[b0]);
            }
            if has_alias(q, alias@) {
                let k = choose|k: int| 0 <= k < q.len() && (#[trigger] q[k]).alias@ == alias@;
                let k0 = if k < i { k } else { k + 1 };
                assert(q[k] == ps[k0]);
                if k0 < i {
                    assert(ps[k0].alias@ != ps[i as int].alias@);
                } else {
                    assert(ps[i as int].alias@ != ps[k0].alias@);
                }
            }
        }
        let mut q = self.all_providers();
        q.remove(i);
        proof {
            assert(q@ =~= ps.remove(i as int));
        }
        self.config.llm_providers = q;
        Ok(())
    }
}

} // verus!

verus! {

/// The providers that the JSON values `items` hold, when every one of them
/// holds one.
pub open spec fn decode_all(items: Seq<Json>) -> Option<Seq<LLMProvider>>
    decreases items.len(),
{
    if items.len() == 0 {
        Some(Seq::empty())
    } else {
        match (decode_all(items.drop_last()), decode_provider_doc(items.last())) {
            (Some(ps), Some(p)) => Some(ps.push(p)),
            _ => None,
        }
    }
}

/// The providers of a stored configuration document, when it is one: an
/// object with an `llm_providers` array of provider records and string
/// `data_root`, `theme` and `language`.
pub open spec fn config_doc_providers(doc: Json) -> Option<Seq<LLMProvider>> {
    if doc.has_text("data_root"@) && doc.has_text("theme"@) && doc.has_text("language"@) {
        match doc.field("llm_providers"@) {
            Some(Json::Array(items)) => decode_all(items@),
            _ => None,
        }
    } else {
        None
    }
}

/// `items` encode the providers `ps`, one for one.
pub open spec fn encodes_all(items: Seq<Json>, ps: Seq<LLMProvider>) -> bool {
    items.len() == ps.len() && forall|i: int| 0 <= i < items.len() ==> decode_provider_doc(#[trigger] items[i]) == Some(ps[i])
}

pub(crate) proof fn lemma_decode_all(items: Seq<Json>, ps: Seq<LLMProvider>)
    requires
        encodes_all(items, ps),
    ensures
        decode_all(items) == Some(ps),
    decreases items.len(),
{
    if items.len() > 0 {
        let a = items.drop_last();
        let b = ps.drop_last();
        assert forall|i: int| 0 <= i < a.len() implies decode_provider_doc(#[trigger] a[i]) == Some(b[i]) by {
            assert(a[i] == items[i]);
        }
        lemma_decode_all(a, b);
        assert(decode_provider_doc(items[items.len() - 1]) == Some(ps[ps.len() - 1]));
        assert(b.push(ps.last()) =~= ps);
    }
}

pub(crate) fn encode_providers(ps: &Vec<LLMProvider>) -> (r: Vec<Json>)
    ensures
        encodes_all(r@, ps@),
{
    let mut out: Vec<Json> = Vec::new();
    let n = ps.len();
    let mut i: usize = 0;
    while i < n
        invariant
            n == ps@.len(),
            i <= n,
            out@.len() == i,
            forall|j: int| 0 <= j < i ==> decode_provider_doc(#[trigger] out@[j]) == Some(ps@[j]),
        decreases n - i,
    {
        out.push(ps[i].duplicate().encode());
        i = i + 1;
    }
    out
}

} // verus!

verus! {

proof fn lemma_lookup_three(m: Seq<(String, Json)>, a: Seq<char>, b: Seq<char>, c: Seq<char>)
    requires
        m.len() == 3,
        m[0].0@ == a,
        m[1].0@ == b,
        m[2].0@ == c,
        a.len() != b.len(),
        a.len() != c.len(),
        b.len() != c.len(),
    ensures
        crate::json::lookup(m, a) == Some(m[0].1),
        crate::json::lookup(m, b) == Some(m[1].1),
        crate::json::lookup(m, c) == Some(m[2].1),
{
    lemma_lookup_at(m, a, 0);
    lemma_lookup_at(m, b, 1);
    lemma_lookup_at(m, c, 2);
}

impl ConfigStore {
    /// Sets the theme by its name; refused with `InvalidValue`, changing
    /// nothing, for a name other than `light`, `dark` or `system`.
    pub fn set_theme(&mut self, name: &str) -> (r: Result<(), StoreError>)
        ensures
            final(self).wf(),
            match theme_of(name@) {
                Some(t) => r is Ok && final(self).theme() == t,
                None => outcome(r) == Err::<(), Fault>(Fault::InvalidValue) && final(self).theme() == old(self).theme(),
            },
            final(self).providers() == old(self).providers(),
            final(self).data_root() == old(self).data_root(),
            final(self).language() == old(self).language(),
    {
        proof {
            use_type_invariant(&*self);
        }
        let t = Theme::parse(name)?;
        self.config.theme = t;
        Ok(())
    }

    /// Sets the language by its name; refused with `InvalidValue`, changing
    /// nothing, for a name other than `en` or `zh`.
    pub fn set_language(&mut self, name: &str) -> (r: Result<(), StoreError>)
        ensures
            final(self).wf(),
            match language_of(name@) {
                Some(l) => r is Ok && final(self).language() == l,
                None => outcome(r) == Err::<(), Fault>(Fault::InvalidValue)
                    && final(self).language() == old(self).language(),
            },
            final(self).providers() == old(self).providers(),
            final(self).data_root() == old(self).data_root(),
            final(self).theme() == old(self).theme(),
    {
        proof {
            use_type_invariant(&*self);
        }
        let l = Language::parse(name)?;
        self.config.language = l;
        Ok(())
    }

    /// The name of the theme held.
    pub fn get_theme(&self) -> (r: &'static str)
        ensures
            r@ == theme_name(self.theme()),
    {
        self.config.theme.name()
    }

    /// The name of the language held.
    pub fn get_language(&self) -> (r: &'static str)
        ensures
            r@ == language_name(self.language()),
    {
        self.config.language.name()
    }

    /// Imports the providers of an export document: entries that do not
    /// decode, or whose alias is present, are skipped; the others are
    /// appended in order. Gives how many were added; refused with
    /// `ParseError` when the document has no `providers` array.
    pub fn import_providers(&mut self, blob: &Json) -> (r: Result<usize, StoreError>)
        ensures
            final(self).wf(),
            match blob.field("providers"@) {
                Some(Json::Array(items)) => r matches Ok(n)
                    && final(self).providers() == import_into(old(self).providers(), items@)
                    && n == final(self).providers().len() - old(self).providers().len(),
                _ => outcome(r) == Err::<usize, Fault>(Fault::ParseError)
                    && final(self).providers() == old(self).providers(),
            },
            final(self).data_root() == old(self).data_root(),
            final(self).theme() == old(self).theme(),
            final(self).language() == old(self).language(),
    {
        proof {
            use_type_invariant(&*self);
        }
        let items = match blob.get("providers") {
            Some(Json::Array(items)) => items,
            _ => {
                return Err(StoreError::ParseError);
            },
        };
        let ghost start = self.providers();
        let mut ps = self.all_providers();
        let n = items.len();
        let mut count: usize = 0;
        let mut i: usize = 0;
        assert(items@.subrange(0, n as int) =~= items@);
        while i < n
            invariant
                n == items@.len(),
                i <= n,
                count <= i,
                aliases_unique(ps@),
                ps@.len() == start.len() + count,
                import_into(start, items@) == import_into(ps@, items@.subrange(i as int, n as int)),
            decreases n - i,
        {
            assert(items@.subrange(i as int, n as int).drop_first() =~= items@.subrange(i + 1, n as int));
            assert(items@.subrange(i as int, n as int)[0] == items@[i as int]);
            match decode_provider(&items[i]) {
                Some(p) => {
                    if find_alias(&ps, p.alias.as_str()).is_none() {
                        proof {
                            lemma_push_unique(ps@, p);
                        }
                        ps.push(p);
                        count = count + 1;
                    }
                },
                None => {},
            }
            i = i + 1;
        }
        self.config.llm_providers = ps;
        Ok(count)
    }

    /// The export document of the providers, stamped `exported_at`:
    /// `version` "1.0", `exported_at`, and `providers`, one record each.
    pub fn export_document(&self, exported_at: String) -> (r: Json)
        ensures
            r.field("version"@) matches Some(Json::Str(v)) && v@ == "1.0"@,
            r.field("exported_at"@) == Some(Json::Str(exported_at)),
            r.field("providers"@) matches Some(Json::Array(items)) && encodes_all(items@, self.providers()),
    {
        proof {
            reveal_strlit("version");
            reveal_strlit("exported_at");
            reveal_strlit("providers");
        }
        let items = encode_providers(&self.config.llm_providers);
        let mut members: Vec<(String, Json)> = Vec::new();
        members.push(member("exported_at", Json::Str(exported_at)));
        members.push(member("providers", Json::Array(items)));
        members.push(member("version", Json::Str(String::from_str("1.0"))));
        proof {
            lemma_lookup_three(members@, "exported_at"@, "providers"@, "version"@);
        }
        Json::Object(members)
    }

    /// The export document of the providers, stamped with the current time.
    pub fn export_providers(&self) -> (r: Json)
        ensures
            r.field("version"@) matches Some(Json::Str(v)) && v@ == "1.0"@,
            r.field("exported_at"@) matches Some(Json::Str(_)),
            r.field("providers"@) matches Some(Json::Array(items)) && encodes_all(items@, self.providers()),
    {
        let now = crate::sources::now_rfc3339();
        self.export_document(now)
    }

    /// The configuration as the document persisted after every mutation:
    /// `llm_providers`, `data_root`, `theme` and `language`.
    pub fn config_document(&self) -> (r: Json)
        ensures
            config_doc_providers(r) == Some(self.providers()),
            r.field("data_root"@) matches Some(Json::Str(d)) && d@ == self.data_root(),
            r.field("theme"@) matches Some(Json::Str(t)) && t@ == theme_name(self.theme()),
            r.field("language"@) matches Some(Json::Str(l)) && l@ == language_name(self.language()),
    {
        proof {
            reveal_strlit("llm_providers");
            reveal_strlit("data_root");
            reveal_strlit("theme");
            reveal_strlit("language");
        }
        let items = encode_providers(&self.config.llm_providers);
        let ghost iv = items@;
        let mut members: Vec<(String, Json)> = Vec::new();
        members.push(member("llm_providers", Json::Array(items)));
        members.push(member("data_root", Json::Str(self.config.data_root.clone())));
        members.push(member("theme", Json::Str(String::from_str(self.config.theme.name()))));
        members.push(member("language", Json::Str(String::from_str(self.config.language.name()))));
        proof {
            let m = members@;
            assert(m[0].0@.len() != "data_root"@.len());
            assert(m[0].0@.len() != "theme"@.len());
            assert(m[0].0@.len() != "language"@.len());
            assert(m[1].0@.len() != "theme"@.len());
            assert(m[1].0@.len() != "language"@.len());
            assert(m[2].0@.len() != "language"@.len());
            lemma_lookup_at(m, "llm_providers"@, 0);
            lemma_lookup_at(m, "data_root"@, 1);
            lemma_lookup_at(m, "theme"@, 2);
            lemma_lookup_at(m, "language"@, 3);
            lemma_decode_all(iv, self.providers());
        }
        Json::Object(members)
    }

    /// Replaces the providers by those of a stored configuration document.
    /// Refused, changing nothing, with `ParseError` when the document is
    /// not one, and with `DuplicateAlias` when two of its providers share
    /// an alias.
    pub fn load_providers(&mut self, doc: &Json) -> (r: Result<(), StoreError>)
        ensures
            final(self).wf(),
            match config_doc_providers(*doc) {
                Some(ps) => if aliases_unique(ps) {
                    r is Ok && final(self).providers() == ps
                } else {
                    outcome(r) == Err::<(), Fault>(Fault::DuplicateAlias)
                        && final(self).providers() == old(self).providers()
                },
                None => outcome(r) == Err::<(), Fault>(Fault::ParseError)
                    && final(self).providers() == old(self).providers(),
            },
            final(self).data_root() == old(self).data_root(),
            final(self).theme() == old(self).theme(),
            final(self).language() == old(self).language(),
    {
        proof {
            use_type_invariant(&*self);
        }
        if !(doc.text_member("data_root") && doc.text_member("theme") && doc.text_member("language")) {
            return Err(StoreError::ParseError);
        }
        let items = match doc.get("llm_providers") {
            Some(Json::Array(items)) => items,
            _ => {
                return Err(StoreError::ParseError);
            },
        };
        let mut loaded: Vec<LLMProvider> = Vec::new();
        let n = items.len();
        let mut i: usize = 0;
        while i < n
            invariant
                n == items@.len(),
                i <= n,
                decode_all(items@.subrange(0, i as int)) == Some(loaded@),
                self.wf(),
                self.providers() == old(self).providers(),
                self.data_root() == old(self).data_root(),
                self.theme() == old(self).theme(),
                self.language() == old(self).language(),
                config_doc_providers(*doc) == decode_all(items@),
            decreases n - i,
        {
            assert(items@.subrange(0, i + 1).drop_last() =~= items@.subrange(0, i as int));
            match decode_provider(&items[i]) {
                Some(p) => {
                    loaded.push(p);
                },
                None => {
                    proof {
                        lemma_decode_prefix_fails(items@, i as int, n as int);
                        assert(items@.subrange(0, n as int) =~= items@);
                    }
                    return Err(StoreError::ParseError);
                },
            }
            i = i + 1;
        }
        assert(items@.subrange(0, n as int) =~= items@);
        let candidate = AppConfig {
            llm_providers: loaded,
            data_root: self.config.data_root.clone(),
            theme: self.config.theme,
            language: self.config.language,
        };
        match ConfigStore::new(candidate) {
            Ok(s) => {
                *self = s;
                Ok(())
            },
            Err(e) => Err(e),
        }
    }
}

proof fn lemma_decode_prefix_fails(items: Seq<Json>, i: int, k: int)
    requires
        0 <= i < k <= items.len(),
        decode_provider_doc(items[i]) is None,
    ensures
        decode_all(items.subrange(0, k)) is None,
    decreases k - i,
{
    let s = items.subrange(0, k);
    if k == i + 1 {
        assert(s.last() == items[i]);
    } else {
        lemma_decode_prefix_fails(items, i, k - 1);
        assert(s.drop_last() =~= items.subrange(0, k - 1));
    }
}

} // verus!

verus! {

/// The bit pattern of the temperature 0.7.
pub const TEMPERATURE_0_7_BITS: u64 = 4604480259023595110;

/// The bit pattern of the temperature 0.5.
pub const TEMPERATURE_0_5_BITS: u64 = 4602678819172646912;

/// `ps` are the two providers a new configuration starts with: GPT-4 on an
/// OpenAI-compatible endpoint and a local Ollama model.
pub open spec fn is_default_providers(ps: Seq<LLMProvider>) -> bool {
    &&& ps.len() == 2
    &&& ps[0].name@ == "GPT-4"@
    &&& ps[0].provider@ == "openai_compatible"@
    &&& ps[0].base_url@ == "https://api.openai.com/v1"@
    &&& ps[0].model@ == "gpt-4"@
    &&& ps[0].api_key is None
    &&& ps[0].temperature == Number::Float(TEMPERATURE_0_7_BITS)
    &&& ps[0].max_tokens == Some(4000u32)
    &&& !ps[0].think
    &&& ps[0].alias@ == "gpt-4"@
    &&& ps[1].name@ == "Local Ollama"@
    &&& ps[1].provider@ == "ollama"@
    &&& ps[1].base_url@ == "http://localhost:11434"@
    &&& ps[1].model@ == "llama3.2:3b"@
    &&& ps[1].api_key is None
    &&& ps[1].temperature == Number::Float(TEMPERATURE_0_5_BITS)
    &&& ps[1].max_tokens == Some(2000u32)
    &&& ps[1].think
    &&& ps[1].alias@ == "local-llama"@
}

/// The default data root: `.pulsar-studio` inside the home directory, or
/// inside the current directory when no home directory is known.
pub open spec fn default_data_root(home: Option<String>) -> Seq<char> {
    match home {
        Some(h) => crate::effects::child(h@, ".pulsar-studio"@),
        None => crate::effects::child("."@, ".pulsar-studio"@),
    }
}

/// The providers a new configuration starts with.
pub fn default_providers() -> (r: Vec<LLMProvider>)
    ensures
        is_default_providers(r@),
        aliases_unique(r@),
{
    let mut r: Vec<LLMProvider> = Vec::new();
    r.push(LLMProvider {
        name: String::from_str("GPT-4"),
        provider: String::from_str("openai_compatible"),
        base_url: String::from_str("https://api.openai.com/v1"),
        model: String::from_str("gpt-4"),
        api_key: None,
        temperature: Number::Float(TEMPERATURE_0_7_BITS),
        max_tokens: Some(4000),
        think: false,
        alias: String::from_str("gpt-4"),
    });
    r.push(LLMProvider {
        name: String::from_str("Local Ollama"),
        provider: String::from_str("ollama"),
        base_url: String::from_str("http://localhost:11434"),
        model: String::from_str("llama3.2:3b"),
        api_key: None,
        temperature: Number::Float(TEMPERATURE_0_5_BITS),
        max_tokens: Some(2000),
        think: true,
        alias: String::from_str("local-llama"),
    });
    proof {
        reveal_strlit("gpt-4");
        reveal_strlit("local-llama");
        assert(r@[0].alias@.len() != r@[1].alias@.len());
    }
    r
}

impl AppConfig {
    /// The configuration a new installation starts with, rooted at
    /// `data_root`: the default providers, light theme, English.
    pub fn with_data_root(data_root: String) -> (r: AppConfig)
        ensures
            is_default_providers(r.llm_providers@),
            aliases_unique(r.llm_providers@),
            r.data_root == data_root,
            r.theme == Theme::Light,
            r.language == Language::En,
    {
        AppConfig { llm_providers: default_providers(), data_root, theme: Theme::Light, language: Language::En }
    }
}

impl Default for AppConfig {
    /// The configuration a new installation starts with, rooted at
    /// `.pulsar-studio` in the user's home directory.
    fn default() -> (r: AppConfig)
        ensures
            is_default_providers(r.llm_providers@),
            aliases_unique(r.llm_providers@),
            exists|home: Option<String>| r.data_root@ == default_data_root(home),
            r.theme == Theme::Light,
            r.language == Language::En,
    {
        let home = crate::sources::home_dir();
        let root = match &home {
            Some(h) => crate::effects::child_path(h.as_str(), ".pulsar-studio"),
            None => crate::effects::child_path(".", ".pulsar-studio"),
        };
        assert(root@ == default_data_root(home));
        AppConfig::with_data_root(root)
    }
}

impl ConfigStore {
    /// A store holding the configuration a new installation starts with,
    /// rooted at `data_root`.
    pub fn with_defaults(data_root: String) -> (r: ConfigStore)
        ensures
            r.wf(),
            is_default_providers(r.providers()),
            r.data_root() == data_root@,
            r.theme() == Theme::Light,
            r.language() == Language::En,
    {
        ConfigStore { config: AppConfig::with_data_root(data_root) }
    }
}

proof fn lemma_count_absent(ps: Seq<LLMProvider>, a: Seq<char>)
    requires
        !has_alias(ps, a),
    ensures
        alias_count(ps, a) == 0,
    decreases ps.len(),
{
    if ps.len() > 0 {
        let q = ps.drop_last();
        assert(!has_alias(q, a)) by {
            if has_alias(q, a) {
                let k = choose|k: int| 0 <= k < q.len() && (#[trigger] q[k]).alias@ == a;
                assert(ps[k] == q[k]);
            }
        }
        assert(ps.last() == ps[ps.len() - 1]);
        lemma_count_absent(q, a);
    }
}

proof fn lemma_count_present(ps: Seq<LLMProvider>, a: Seq<char>)
    requires
        has_alias(ps, a),
        aliases_unique(ps),
    ensures
        alias_count(ps, a) == 1,
    decreases ps.len(),
{
    let q = ps.drop_last();
    let last = ps.len() - 1;
    assert(ps.last() == ps[last]);
    if ps[last].alias@ == a {
        assert(!has_alias(q, a)) by {
            if has_alias(q, a) {
                let k = choose|k: int| 0 <= k < q.len() && (#[trigger] q[k]).alias@ == a;
                assert(ps[k] == q[k]);
                assert(ps[k].alias@ != ps[last].alias@);
            }
        }
        lemma_count_absent(q, a);
    } else {
        let k = choose|k: int| 0 <= k < ps.len() && (#[trigger] ps[k]).alias@ == a;
        assert(q[k] == ps[k]);
        assert(has_alias(q, a));
        assert(aliases_unique(q)) by {
            assert forall|i: int, j: int| 0 <= i < j < q.len() implies (#[trigger] q[i]).alias@ != (#[trigger] q[j]).alias@ by {
                assert(q[i] == ps[i] && q[j] == ps[j]);
            }
        }
        lemma_count_present(q, a);
    }
}

/// After an attempt to add `p`, exactly one provider has its alias; a
/// second attempt with the same alias is refused with `DuplicateAlias` and
/// leaves the providers as they were.
pub proof fn lemma_add_provider_once(ps: Seq<LLMProvider>, p: LLMProvider)
    requires
        aliases_unique(ps),
    ensures
        alias_count(providers_after_add(ps, p), p.alias@) == 1,
        aliases_unique(providers_after_add(ps, p)),
        add_outcome(providers_after_add(ps, p), p) == Err::<Seq<LLMProvider>, Fault>(Fault::DuplicateAlias),
        providers_after_add(providers_after_add(ps, p), p) == providers_after_add(ps, p),
{
    let q = providers_after_add(ps, p);
    if has_alias(ps, p.alias@) {
        lemma_count_present(ps, p.alias@);
    } else {
        assert(q.drop_last() =~= ps);
        assert(q.last() == p);
        lemma_count_absent(ps, p.alias@);
        assert(q[ps.len() as int] == p);
        assert(aliases_unique(q)) by {
            assert forall|i: int, j: int| 0 <= i < j < q.len() implies (#[trigger] q[i]).alias@ != (#[trigger] q[j]).alias@ by {
                if j == ps.len() {
                    assert(q[i] == ps[i]);
                } else {
                    assert(q[i] == ps[i] && q[j] == ps[j]);
                }
            }
        }
    }
    assert(has_alias(q, p.alias@)) by {
        if !has_alias(ps, p.alias@) {
            assert(q[ps.len() as int].alias@ == p.alias@);
        }
    }
}

} // verus!

verus! {

/// Importing providers only appends: every provider held before keeps its
/// place and value, and the aliases stay unique.
pub proof fn lemma_import_appends(ps: Seq<LLMProvider>, items: Seq<Json>)
    requires
        aliases_unique(ps),
    ensures
        import_into(ps, items).len() >= ps.len(),
        import_into(ps, items).subrange(0, ps.len() as int) == ps,
        aliases_unique(import_into(ps, items)),
    decreases items.len(),
{
    if items.len() > 0 {
        let next = match decode_provider_doc(items[0]) {
            Some(p) => if has_alias(ps, p.alias@) { ps } else { ps.push(p) },
            None => ps,
        };
        if let Some(p) = decode_provider_doc(items[0]) {
            if !has_alias(ps, p.alias@) {
                lemma_push_unique(ps, p);
            }
        }
        lemma_import_appends(next, items.drop_first());
        let r = import_into(next, items.drop_first());
        assert(r.subrange(0, next.len() as int).subrange(0, ps.len() as int) =~= r.subrange(0, ps.len() as int));
        assert(next.subrange(0, ps.len() as int) =~= ps);
    }
}

} // verus!
