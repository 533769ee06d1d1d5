use pulsar_studio::config::{decode_provider, AppConfig, ConfigStore, Language, LLMProvider, Theme};
use pulsar_studio::error::StoreError;
use pulsar_studio::json::{Json, Number};

fn provider(alias: &str) -> LLMProvider {
    LLMProvider {
        name: format!("Provider {}", alias),
        provider: "openai_compatible".to_string(),
        base_url: "https://example.com/v1".to_string(),
        model: "m".to_string(),
        api_key: None,
        temperature: Number::Float(0.2f64.to_bits()),
        max_tokens: Some(100),
        think: false,
        alias: alias.to_string(),
    }
}

fn aliases(store: &ConfigStore) -> Vec<String> {
    store.all_providers().into_iter().map(|p| p.alias).collect()
}

#[test]
fn add_provider_then_get_has_it_once() {
    let mut store = ConfigStore::with_defaults("/data".to_string());
    store.add_provider(provider("mine")).unwrap();
    let cfg = store.get();
    assert_eq!(cfg.llm_providers.iter().filter(|p| p.alias == "mine").count(), 1);
    let before = aliases(&store);
    assert!(matches!(store.add_provider(provider("mine")), Err(StoreError::DuplicateAlias)));
    assert_eq!(aliases(&store), before);
    assert_eq!(before, vec!["gpt-4", "local-llama", "mine"]);
}

#[test]
fn update_and_remove_by_alias() {
    let mut store = ConfigStore::with_defaults("/data".to_string());
    let mut p = provider("gpt-4");
    p.model = "gpt-4o".to_string();
    store.update_provider("gpt-4", p).unwrap();
    assert_eq!(store.all_providers()[0].model, "gpt-4o");
    assert!(matches!(store.update_provider("nope", provider("x")), Err(StoreError::NotFound)));
    assert!(matches!(store.update_provider("gpt-4", provider("local-llama")), Err(StoreError::DuplicateAlias)));
    store.update_provider("gpt-4", provider("renamed")).unwrap();
    assert_eq!(aliases(&store), vec!["renamed", "local-llama"]);
    store.remove_provider("renamed").unwrap();
    assert_eq!(aliases(&store), vec!["local-llama"]);
    assert!(matches!(store.remove_provider("renamed"), Err(StoreError::NotFound)));
}

#[test]
fn theme_and_language_are_closed_sets() {
    let mut store = ConfigStore::with_defaults("/data".to_string());
    assert_eq!(store.get_theme(), "light");
    assert_eq!(store.get_language(), "en");
    store.set_theme("dark").unwrap();
    assert_eq!(store.get_theme(), "dark");
    assert!(matches!(store.set_theme("blue"), Err(StoreError::InvalidValue)));
    assert_eq!(store.get_theme(), "dark");
    store.set_language("zh").unwrap();
    assert!(matches!(store.set_language("fr"), Err(StoreError::InvalidValue)));
    assert_eq!(store.get_language(), "zh");
    assert_eq!(Theme::parse("system").unwrap(), Theme::System);
    assert_eq!(Language::parse("en").unwrap(), Language::En);
}

#[test]
fn import_skips_duplicates_and_bad_entries() {
    let mut store = ConfigStore::with_defaults("/data".to_string());
    let blob = Json::Object(vec![
        ("version".to_string(), Json::Str("1.0".to_string())),
        (
            "providers".to_string(),
            Json::Array(vec![provider("a").encode(), provider("gpt-4").encode(), provider("b").encode()]),
        ),
    ]);
    let n = store.import_providers(&blob).unwrap();
    assert_eq!(n, 2);
    assert_eq!(aliases(&store), vec!["gpt-4", "local-llama", "a", "b"]);
    assert_eq!(store.all_providers()[0].base_url, "https://api.openai.com/v1");
    let broken = Json::Object(vec![(
        "providers".to_string(),
        Json::Array(vec![Json::Str("x".to_string()), provider("c").encode()]),
    )]);
    assert_eq!(store.import_providers(&broken).unwrap(), 1);
    let missing = Json::Object(vec![]);
    assert!(matches!(store.import_providers(&missing), Err(StoreError::ParseError)));
}

#[test]
fn export_then_import_into_empty_store() {
    let store = ConfigStore::with_defaults("/data".to_string());
    let doc = store.export_document("2024-05-01T00:00:00Z".to_string());
    assert!(matches!(doc.get("version"), Some(Json::Str(v)) if v == "1.0"));
    assert!(matches!(doc.get("exported_at"), Some(Json::Str(v)) if v == "2024-05-01T00:00:00Z"));
    let mut other = ConfigStore::new(AppConfig {
        llm_providers: vec![],
        data_root: "/other".to_string(),
        theme: Theme::Dark,
        language: Language::Zh,
    })
    .unwrap();
    assert_eq!(other.import_providers(&doc).unwrap(), 2);
    assert_eq!(aliases(&other), vec!["gpt-4", "local-llama"]);
    let live = store.export_providers();
    assert!(matches!(live.get("exported_at"), Some(Json::Str(v)) if !v.is_empty()));
}

#[test]
fn provider_decoding_follows_field_types() {
    let p = decode_provider(&provider("z").encode()).unwrap();
    assert_eq!(p.alias, "z");
    assert_eq!(p.temperature, Number::Float(0.2f64.to_bits()));
    let no_optional = Json::Object(vec![
        ("name".to_string(), Json::Str("n".to_string())),
        ("provider".to_string(), Json::Str("ollama".to_string())),
        ("base_url".to_string(), Json::Str("u".to_string())),
        ("model".to_string(), Json::Str("m".to_string())),
        ("temperature".to_string(), Json::Number(Number::PosInt(1))),
        ("think".to_string(), Json::Bool(true)),
        ("alias".to_string(), Json::Str("q".to_string())),
    ]);
    let p = decode_provider(&no_optional).unwrap();
    assert!(p.api_key.is_none());
    assert!(p.max_tokens.is_none());
    let too_many_tokens = no_optional.set_member("max_tokens", Json::Number(Number::PosInt(1u64 << 40)));
    assert!(decode_provider(&too_many_tokens).is_none());
}

#[test]
fn duplicate_aliases_in_a_config_are_refused() {
    let r = ConfigStore::new(AppConfig {
        llm_providers: vec![provider("a"), provider("b"), provider("a")],
        data_root: "/d".to_string(),
        theme: Theme::Light,
        language: Language::En,
    });
    assert!(matches!(r, Err(StoreError::DuplicateAlias)));
}

#[test]
fn config_document_loads_back() {
    let mut store = ConfigStore::with_defaults("/data".to_string());
    store.add_provider(provider("extra")).unwrap();
    let doc = store.config_document();
    assert!(matches!(doc.get("data_root"), Some(Json::Str(v)) if v == "/data"));
    assert!(matches!(doc.get("theme"), Some(Json::Str(v)) if v == "light"));
    let mut fresh = ConfigStore::with_defaults("/data".to_string());
    fresh.load_providers(&doc).unwrap();
    assert_eq!(aliases(&fresh), vec!["gpt-4", "local-llama", "extra"]);
    assert!(matches!(fresh.load_providers(&Json::Null), Err(StoreError::ParseError)));
}

#[test]
fn default_config_values() {
    let cfg = AppConfig::default();
    assert_eq!(cfg.llm_providers.len(), 2);
    assert_eq!(cfg.llm_providers[0].temperature, Number::Float(0.7f64.to_bits()));
    assert_eq!(cfg.llm_providers[1].temperature, Number::Float(0.5f64.to_bits()));
    assert_eq!(cfg.llm_providers[1].model, "llama3.2:3b");
    assert!(cfg.data_root.ends_with("/.pulsar-studio"));
    assert_eq!(cfg.theme, Theme::Light);
}
