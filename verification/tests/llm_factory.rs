use xiaozhi::json_fields::JsonField;
use xiaozhi::llm::factory::{
    apply_default_base_url, default_base_url, infer_llm_provider_from_base_url, known_llm_provider,
    normalize_llm_provider, prepare_llm_config, resolve_llm_provider_name, resolve_llm_type, LlmBackend,
    LlmConfig,
};

fn cfg(text: &str) -> LlmConfig {
    LlmConfig::from_json(text)
}

#[test]
fn infers_siliconflow_from_yaml_preset() {
    let cfg = cfg(r#"{"type":"openai","base_url":"https://api.siliconflow.cn/v1","model_name":"Qwen/Qwen2.5-72B-Instruct"}"#);
    assert_eq!(normalize_llm_provider("qwen_72b", "qwen_72b", &cfg), "siliconflow");
}

#[test]
fn keeps_explicit_deepseek_provider() {
    let cfg = cfg(r#"{"type":"openai","base_url":"https://api.deepseek.com/v1","model_name":"deepseek-chat"}"#);
    assert_eq!(normalize_llm_provider("deepseek", "deepseek", &cfg), "deepseek");
}

#[test]
fn preserves_existing_base_url_for_siliconflow_preset_named_deepseek() {
    let mut cfg = cfg(r#"{"type":"openai","base_url":"https://api.siliconflow.cn/v1","model_name":"Pro/deepseek-ai/DeepSeek-V3"}"#);
    let provider = normalize_llm_provider("deepseek", "deepseek", &cfg);
    apply_default_base_url(&provider, &mut cfg);
    assert_eq!(provider, "siliconflow");
    match &cfg.base_url {
        JsonField::Text(u) => assert_eq!(u, "https://api.siliconflow.cn/v1"),
        other => panic!("base_url lost: {:?}", other),
    }
}

#[test]
fn known_provider_is_trimmed_and_lowercased() {
    assert_eq!(known_llm_provider("  DeepSeek "), Some("deepseek".to_string()));
    assert_eq!(known_llm_provider("mystery"), None);
    assert_eq!(known_llm_provider("   "), None);
}

#[test]
fn endpoint_markers_in_order_and_api_url_fallback() {
    assert_eq!(
        infer_llm_provider_from_base_url(&cfg(r#"{"base_url":"https://x.openai.azure.com/openai"}"#)),
        Some("azure".to_string())
    );
    assert_eq!(
        infer_llm_provider_from_base_url(&cfg(r#"{"api_url":"http://127.0.0.1:11434/v1"}"#)),
        Some("ollama".to_string())
    );
    assert_eq!(
        infer_llm_provider_from_base_url(&cfg(r#"{"base_url":"https://ARK.CN-beijing.example"}"#)),
        Some("doubao".to_string())
    );
    // A present base_url wins over api_url even when it is not text.
    assert_eq!(
        infer_llm_provider_from_base_url(&cfg(r#"{"base_url":null,"api_url":"https://api.deepseek.com"}"#)),
        None
    );
    assert_eq!(infer_llm_provider_from_base_url(&cfg("{}")), None);
}

#[test]
fn falls_back_to_type_and_stored_names() {
    assert_eq!(normalize_llm_provider("x", "", &cfg(r#"{"type":"coze"}"#)), "coze");
    assert_eq!(normalize_llm_provider("x", "", &cfg(r#"{"type":"OpenAI"}"#)), "openai");
    assert_eq!(normalize_llm_provider("x", "", &cfg("{}")), "openai");
    assert_eq!(normalize_llm_provider("Cfg", " Custom ", &cfg(r#"{"type":"eino"}"#)), "custom");
    assert_eq!(normalize_llm_provider(" MyCfg ", "", &cfg(r#"{"type":"eino"}"#)), "mycfg");
}

#[test]
fn resolves_type_and_provider_key() {
    assert_eq!(resolve_llm_type("openai", &cfg(r#"{"type":"dify"}"#)), "dify");
    assert_eq!(resolve_llm_type("zhipu", &cfg(r#"{"type":"dify"}"#)), "openai");
    assert_eq!(resolve_llm_type("", &cfg(r#"{"provider":"Coze"}"#)), "coze");
    assert_eq!(resolve_llm_type("custom", &cfg(r#"{"type":"ollama"}"#)), "ollama");
    assert_eq!(resolve_llm_type("custom", &cfg(r#"{"type":"eino_llm"}"#)), "openai");
    assert_eq!(resolve_llm_provider_name("openai", &cfg("{}"), "ollama"), "ollama");
    assert_eq!(resolve_llm_provider_name(" ", &cfg(r#"{"provider":" Zhipu "}"#), "openai"), "zhipu");
}

#[test]
fn default_endpoints() {
    assert_eq!(default_base_url("anthropic"), Some("https://api.anthropic.com/v1/"));
    assert_eq!(default_base_url("deepseek"), Some("https://api.deepseek.com/v1"));
    assert_eq!(default_base_url("openai"), None);
    let mut c = cfg(r#"{"base_url":"  "}"#);
    apply_default_base_url("zhipu", &mut c);
    assert!(matches!(&c.base_url, JsonField::Text(u) if u == "https://open.bigmodel.cn/api/paas/v4"));
    let mut c = cfg(r#"{"base_url":5}"#);
    apply_default_base_url("openai", &mut c);
    assert!(matches!(c.base_url, JsonField::Absent));
}

#[test]
fn prepares_configuration_and_picks_backend() {
    let mut c = cfg(r#"{"type":"dify","api_key":"k"}"#);
    assert_eq!(prepare_llm_config(" mydify ", &mut c), LlmBackend::Dify);
    assert!(matches!(&c.llm_type, JsonField::Text(t) if t == "dify"));
    let mut c = cfg(r#"{"base_url":"https://api.deepseek.com/v1"}"#);
    assert_eq!(prepare_llm_config("x", &mut c), LlmBackend::OpenAi);
    assert!(matches!(&c.provider, JsonField::Text(p) if p == "deepseek"));
    let mut c = cfg(r#"{"provider":"coze"}"#);
    assert_eq!(prepare_llm_config("x", &mut c), LlmBackend::Coze);
    let mut c = cfg(r#"{"provider":"siliconflow"}"#);
    prepare_llm_config("x", &mut c);
    assert!(matches!(&c.base_url, JsonField::Text(u) if u == "https://api.siliconflow.cn/v1"));
}
