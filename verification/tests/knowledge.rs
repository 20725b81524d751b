use xiaozhi::manager::knowledge_bases::{
    edited_knowledge_base, knowledge_base_cleanup, new_document_state, new_knowledge_base, syncs_externally,
    KnowledgeBaseCleanup, KnowledgeBaseInput,
};
use xiaozhi::manager::knowledge_search::{kb_text_match, split_words, KbMatch};
use xiaozhi::manager::records::KnowledgeBaseRow;
use xiaozhi::manager::knowledge_sync::{build_dify_url, build_ragflow_url, document_sync_state, SyncStage};

#[test]
fn dify_url_builder_handles_v1_suffix() {
    assert_eq!(
        build_dify_url("https://dify.example/v1", "/datasets"),
        "https://dify.example/v1/datasets"
    );
    assert_eq!(
        build_dify_url("https://dify.example", "/datasets"),
        "https://dify.example/v1/datasets"
    );
}

#[test]
fn builds_provider_urls() {
    assert!(build_dify_url("http://dify", "/datasets").ends_with("/v1/datasets"));
    assert!(build_ragflow_url("http://rag", "/datasets").contains("/api/v1/datasets"));
}

use xiaozhi::manager::knowledge_global::{build_knowledge_global, resolve_default_knowledge_provider};
use xiaozhi::manager::knowledge_search::external_kb_id_from_json;
use xiaozhi::manager::knowledge_upload::{allowed_extensions_for, sanitize_upload_file_name, encode_upload_content, validate_upload_file, KNOWLEDGE_UPLOAD_CONTENT_PREFIX};
use xiaozhi::manager::records::ConfigRow;

#[test]
fn parses_external_kb_id_from_config_json() {
    let json = r#"{"external_kb_id":"ds-123"}"#;
    assert_eq!(external_kb_id_from_json(json, 9), "ds-123");
    assert_eq!(external_kb_id_from_json("{}", 9), "9");
}

#[test]
fn encodes_and_validates_txt_upload() {
    let data = b"hello";
    validate_upload_file("dify", "note.txt", data).unwrap();
    let encoded = encode_upload_content("note.txt", data).unwrap();
    assert!(encoded.starts_with(KNOWLEDGE_UPLOAD_CONTENT_PREFIX));
}

fn config(provider: &str, json: &str, enabled: bool, is_default: bool) -> ConfigRow {
    ConfigRow {
        id: 0,
        kind: "knowledge_search".into(),
        name: provider.into(),
        config_id: format!("{provider}-1"),
        provider: provider.into(),
        json_data: json.into(),
        enabled,
        is_default,
        created_at: String::new(),
        updated_at: String::new(),
    }
}

#[test]
fn picks_default_provider_from_enabled_configs() {
    let configs = vec![
        config("ragflow", r#"{"api_url":"http://localhost"}"#, true, false),
        config("dify", r#"{"api_url":"http://dify"}"#, true, true),
    ];
    let global = build_knowledge_global(&configs);
    assert_eq!(global.default_provider, "dify");
    let dify = global.providers.iter().find(|(p, _)| p == "dify").unwrap();
    let payload: serde_json::Value = serde_json::from_str(&dify.1).unwrap();
    assert!(payload.is_object());
    assert_eq!(payload["api_url"], "http://dify");
}

#[test]
fn knowledge_global_orders_providers_and_prefers_default_configs() {
    let configs = vec![
        config(" RAGFlow ", "[1]", true, false),
        config("dify", "", true, false),
        config("dify", r#"{"b":1,"a":2}"#, true, true),
        config("dify", r#"{"c":3}"#, true, false),
        config("weknora", "{}", false, true),
        config("  ", "{}", true, true),
    ];
    let global = build_knowledge_global(&configs);
    let names: Vec<&str> = global.providers.iter().map(|(p, _)| p.as_str()).collect();
    assert_eq!(names, vec!["dify", "ragflow"]);
    assert_eq!(global.providers[0].1, r#"{"a":2,"b":1}"#);
    assert_eq!(global.providers[1].1, "{}");
    assert_eq!(global.default_provider, "dify");
    assert_eq!(
        global.to_json(),
        r#"{"default_provider":"dify","providers":{"dify":{"a":2,"b":1},"ragflow":{}}}"#
    );
    let no_default = vec![config("zeta", "{}", true, false), config("alpha", "{}", true, false)];
    assert_eq!(build_knowledge_global(&no_default).default_provider, "alpha");
    assert_eq!(resolve_default_knowledge_provider(&vec![]), "dify");
    assert_eq!(build_knowledge_global(&vec![]).to_json(), r#"{"default_provider":"dify","providers":{}}"#);
}

fn kb_input(name: &str, provider: &str, config: Option<&str>) -> KnowledgeBaseInput {
    KnowledgeBaseInput {
        name: name.to_string(),
        description: " d ".to_string(),
        provider: provider.to_string(),
        status: String::new(),
        config_json: config.map(|c| c.to_string()),
    }
}

#[test]
fn knowledge_base_forms() {
    assert_eq!(new_knowledge_base(&kb_input(" ", "", None), "dify").unwrap_err(), "知识库名称不能为空");
    let f = new_knowledge_base(&kb_input(" KB ", " RAGFlow ", Some("null")), "dify").unwrap();
    assert_eq!(
        (f.name.as_str(), f.description.as_str(), f.provider.as_str(), f.status.as_str(), f.config_json.as_str()),
        ("KB", "d", "ragflow", "active", "{}")
    );
    let g = new_knowledge_base(&kb_input("KB", "", Some(r#"{ "b":1, "a":2 }"#)), "dify").unwrap();
    assert_eq!((g.provider.as_str(), g.config_json.as_str()), ("dify", r#"{"a":2,"b":1}"#));
    let stored = KnowledgeBaseRow {
        id: 1,
        user_id: 1,
        name: "old".into(),
        description: String::new(),
        provider: "weknora".into(),
        status: "syncing".into(),
        config_json: r#"{"x":1}"#.into(),
        created_at: String::new(),
        updated_at: String::new(),
    };
    let e = edited_knowledge_base(&kb_input("new", "", None), &stored).unwrap();
    assert_eq!((e.provider.as_str(), e.status.as_str(), e.config_json.as_str()), ("weknora", "syncing", r#"{"x":1}"#));
    assert!(syncs_externally(" Dify "));
    assert!(!syncs_externally(" LOCAL "));
    assert!(!syncs_externally(""));
    assert_eq!(knowledge_base_cleanup("local", 3), KnowledgeBaseCleanup::Nothing);
    assert_eq!(knowledge_base_cleanup("dify", 0), KnowledgeBaseCleanup::Dataset);
    assert_eq!(knowledge_base_cleanup("dify", 2), KnowledgeBaseCleanup::Documents);
    assert_eq!(new_document_state(" RAGFLOW "), ("pending", "文档已保存，后台正在同步"));
    assert_eq!(new_document_state("local"), ("ready", "创建成功"));
}

#[test]
fn documents_match_queries_by_words() {
    assert_eq!(kb_text_match("Menu", "Big Mac and fries", "big mac"), KbMatch::Whole);
    assert_eq!(
        kb_text_match("Menu", "Big Mac and fries", "fries  cola mac"),
        KbMatch::Words { matched: 2, total: 3 }
    );
    assert_eq!(kb_text_match("a", "b", "   "), KbMatch::NoWords);
    assert_eq!(split_words(" one\ttwo  three\n"), vec!["one", "two", "three"]);
}

#[test]
fn document_sync_states() {
    let s = document_sync_state(SyncStage::Uploading, "", "");
    assert_eq!((s.external_doc_id, s.status.as_str(), s.error.as_str()), (None, "uploading", ""));
    let s = document_sync_state(SyncStage::UploadFailed, "old", "  timeout  ");
    assert_eq!((s.external_doc_id.as_deref(), s.status.as_str(), s.error.as_str()), (Some("old"), "upload_failed", "timeout"));
    let long = "x".repeat(900);
    let s = document_sync_state(SyncStage::ParseFailed, "doc-9", &long);
    assert_eq!((s.external_doc_id.as_deref(), s.status.as_str()), (Some("doc-9"), "parse_failed"));
    assert_eq!(s.error, format!("{}...", "x".repeat(800)));
    let s = document_sync_state(SyncStage::Synced, "doc-9", "ignored");
    assert_eq!((s.external_doc_id.as_deref(), s.status.as_str(), s.error.as_str()), (Some("doc-9"), "synced", ""));
    let s = document_sync_state(SyncStage::Local, "doc-9", "");
    assert_eq!((s.external_doc_id, s.status.as_str()), (None, "synced"));
    let s = document_sync_state(SyncStage::Pending, "doc-9", "");
    assert_eq!((s.external_doc_id, s.status.as_str()), (None, "pending"));
}

#[test]
fn shown_list_names_the_accepted_types() {
    for p in [" Dify ", "ragflow", "weknora", ""] {
        let (exts, shown) = allowed_extensions_for(p);
        let from_text: Vec<String> = shown.split(", ").map(|e| format!(".{e}")).collect();
        let listed: Vec<String> = exts.iter().map(|e| e.to_string()).collect();
        assert_eq!(listed, from_text);
    }
    assert_eq!(allowed_extensions_for("dify").0.len(), 16);
    assert_eq!(allowed_extensions_for("weknora").0.len(), 33);
}

#[test]
fn upload_names_keep_only_the_file_name() {
    assert_eq!(sanitize_upload_file_name("   "), "document.txt");
    assert_eq!(sanitize_upload_file_name("../../etc/passwd"), "passwd");
    assert_eq!(sanitize_upload_file_name(".."), "document.txt");
    assert_eq!(sanitize_upload_file_name(" a/b/r.PDF "), "r.PDF");
}
