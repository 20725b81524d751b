use sha2::Digest;
use serde_json::Value;
use xiaozhi::manager::mcp_imported_merge::{
    imported_row_url_hash, list_enabled_global_mcp_service_names, manual_mcp_config, manual_server_addresses,
    merge_mcp_with_enabled_imported_services, ImportedService,
};
use xiaozhi::manager::imported_services::{
    build_imported_service_input, build_market_json_data, market_config_input, plan_service_import, ImportEndpoint,
    ImportedServiceSaveBody, ServiceDetail,
};
use xiaozhi::manager::requests::{McpMarketAuthBody, McpMarketSaveBody};
use xiaozhi::manager::records::ConfigRow;

fn row(id: i64, name: &str, json: &str, enabled: bool, is_default: bool) -> ConfigRow {
    ConfigRow {
        id,
        kind: "mcp_imported".to_string(),
        name: name.to_string(),
        config_id: format!("c{id}"),
        provider: String::new(),
        json_data: json.to_string(),
        enabled,
        is_default,
        created_at: String::new(),
        updated_at: String::new(),
    }
}

fn svc(id: i64, name: &str, json: &str, enabled: bool, norm: &str) -> ImportedService {
    ImportedService { row: row(id, name, json, enabled, false), normalized_url: norm.to_string() }
}

const MANUAL: &str = r#"{"global":{"enabled":true,"servers":[{"name":"a","url":"http://a/sse","enabled":true}]}}"#;

fn services() -> Vec<ImportedService> {
    vec![
        svc(1, "dup", r#"{"url":"http://a/sse","transport":"sse"}"#, true, "http://a/sse"),
        svc(
            2,
            "b",
            r#"{"url":" http://b/mcp ","transport":"streamable_http","service_id":"s1","headers":{"Authorization":"x"},"allowed_tools":["t1"]}"#,
            true,
            "http://b/mcp",
        ),
        svc(3, "off-row", r#"{"url":"http://d/sse"}"#, false, "http://d/sse"),
        svc(4, "off-json", r#"{"url":"http://e/sse","enabled":false}"#, true, "http://e/sse"),
        svc(5, "c", r#"{"url":"http://c/sse","headers":{},"allowed_tools":[]}"#, true, "http://c/sse"),
        svc(6, "odd", r#"{"url":"http://f/x","transport":"ws"}"#, true, "http://f/x"),
        svc(7, "again", r#"{"url":"http://c/sse"}"#, true, "http://c/sse"),
    ]
}

#[test]
fn merges_enabled_imported_services() {
    let (merged, warnings) =
        merge_mcp_with_enabled_imported_services(MANUAL, &vec!["http://a/sse".to_string()], &services());
    assert_eq!(
        warnings,
        vec![
            "市场服务 dup 因 URL 与人工配置冲突被跳过".to_string(),
            "市场服务 again 因 URL 与人工配置冲突被跳过".to_string()
        ]
    );
    let v: Value = serde_json::from_str(&merged).unwrap();
    let servers = v["global"]["servers"].as_array().unwrap();
    assert_eq!(servers.len(), 3);
    assert_eq!(servers[0]["name"], "a");
    assert_eq!(
        serde_json::to_string(&servers[1]).unwrap(),
        r#"{"allowed_tools":["t1"],"enabled":true,"headers":{"Authorization":"x"},"name":"b","provider":"mcp-market","service_id":"s1","type":"streamablehttp","url":"http://b/mcp"}"#
    );
    assert_eq!(
        serde_json::to_string(&servers[2]).unwrap(),
        r#"{"enabled":true,"name":"c","provider":"mcp-market","service_id":"","sse_url":"http://c/sse","type":"sse","url":"http://c/sse"}"#
    );
}

#[test]
fn merge_keeps_configs_without_global() {
    let (merged, warnings) = merge_mcp_with_enabled_imported_services(r#"{"x":1}"#, &vec![], &services());
    assert_eq!(merged, r#"{"x":1}"#);
    assert!(warnings.is_empty());
}

#[test]
fn offered_names_come_from_the_merged_config() {
    let rows = vec![
        row(1, "first", r#"{"global":{"enabled":true,"servers":[]}}"#, true, false),
        row(2, "default", &format!(r#"{{"mcp":{}}}"#, MANUAL), true, true),
    ];
    assert_eq!(manual_mcp_config(&rows), serde_json::to_string(&serde_json::from_str::<Value>(MANUAL).unwrap()).unwrap());
    let names =
        list_enabled_global_mcp_service_names(&rows, &vec!["http://a/sse".to_string()], &services()).unwrap();
    assert_eq!(names, vec!["a".to_string(), "b".to_string(), "c".to_string()]);
    assert_eq!(manual_mcp_config(&vec![]), r#"{"global":{"enabled":true,"servers":[]}}"#);
    assert_eq!(manual_server_addresses(r#"{"global":{"servers":[{"url":"u1","sse_url":"s1"},{"x":1},{"url":"u2"}]}}"#),
        vec!["u1".to_string(), "s1".to_string(), "u2".to_string()]);
    assert_eq!(imported_row_url_hash(&row(9, "h", r#"{"url_hash":"abc"}"#, true, false)), Some("abc".to_string()));
    assert_eq!(imported_row_url_hash(&row(9, "h", "oops", true, false)), None);
}

#[test]
fn imported_service_rows_take_over_stored_fields() {
    let body = ImportedServiceSaveBody {
        name: String::new(),
        enabled: None,
        transport: String::new(),
        url: " https://m.example/sse ".to_string(),
        allowed_tools: None,
        market_id: None,
        provider_id: " ".to_string(),
        service_id: "svc-1".to_string(),
        service_name: String::new(),
        auth_required: None,
        source_url: String::new(),
    };
    let fresh = build_imported_service_input(&body, None, "https://m.example/sse", "{}").unwrap();
    assert_eq!(fresh.kind, "mcp_imported");
    assert_eq!(fresh.name, "svc-1");
    assert!(fresh.enabled && !fresh.is_default);
    let v: Value = serde_json::from_str(&fresh.json_data).unwrap();
    assert_eq!(v["transport"], "sse");
    assert_eq!(v["url"], "https://m.example/sse");
    assert_eq!(v["auth_required"], true);
    assert_eq!(v["market_id"], Value::Null);
    assert_eq!(v["allowed_tools"], serde_json::from_str::<Value>("[]").unwrap());
    let hash = v["url_hash"].as_str().unwrap().to_string();
    assert_eq!(hash.len(), 64);
    assert_eq!(fresh.config_id, format!("imported_0_{}", &hash[..8]));

    let stored = row(
        4,
        "old name",
        r#"{"auth_required":false,"allowed_tools":["a","b"],"market_id":12,"provider_id":"modelscope","service_name":"Old"}"#,
        false,
        false,
    );
    let edited = build_imported_service_input(&body, Some(&stored), "https://m.example/sse", r#"{"X":"1"}"#).unwrap();
    assert_eq!(edited.config_id, "c4");
    assert!(!edited.enabled);
    assert_eq!(edited.provider, "modelscope");
    let w: Value = serde_json::from_str(&edited.json_data).unwrap();
    assert_eq!(w["auth_required"], false);
    assert_eq!(w["allowed_tools"][1], "b");
    assert_eq!(w["market_id"], 12);
    assert_eq!(w["service_name"], "Old");
    assert_eq!(w["headers"]["X"], "1");

    let bad = ImportedServiceSaveBody { transport: "ws".to_string(), url: "http://x/other".to_string(), ..body.clone() };
    assert_eq!(
        build_imported_service_input(&bad, None, "", "{}").unwrap_err(),
        "transport 仅支持 sse/streamablehttp"
    );
    let blank = ImportedServiceSaveBody { transport: "sse".to_string(), url: "  ".to_string(), ..body };
    assert_eq!(build_imported_service_input(&blank, None, "", "{}").unwrap_err(), "url 不能为空");
}

fn market_body(name: &str, token: &str) -> McpMarketSaveBody {
    McpMarketSaveBody {
        name: name.to_string(),
        provider_id: " modelscope ".to_string(),
        catalog_url: " https://cat ".to_string(),
        detail_url_template: String::new(),
        enabled: true,
        auth: McpMarketAuthBody { kind: String::new(), token: token.to_string(), header_name: " ".to_string() },
    }
}

#[test]
fn market_rows_and_json() {
    assert_eq!(
        build_market_json_data(&market_body(" M ", ""), Some("kept")),
        r#"{"auth":{"header_name":"Authorization","token":"kept","type":"bearer"},"catalog_url":"https://cat","detail_url_template":"","enabled":true,"name":"M","provider_id":"modelscope"}"#
    );
    let fresh = market_config_input(&market_body("M", " t "), "modelscope", None, None).unwrap();
    assert_eq!(fresh.config_id, "mcp_market_modelscope");
    assert_eq!(fresh.kind, "mcp_market");
    assert!(!fresh.is_default);
    let v: Value = serde_json::from_str(&fresh.json_data).unwrap();
    assert_eq!(v["auth"]["token"], "t");
    let stored = row(3, "M", "{}", true, true);
    let edited = market_config_input(&market_body("M", ""), "modelscope", Some(&stored), Some("old")).unwrap();
    assert_eq!(edited.config_id, "c3");
    assert!(edited.is_default);
    assert_eq!(
        market_config_input(&market_body("  ", "x"), "p", None, None).unwrap_err(),
        "名称和目录 URL 不能为空"
    );
}

fn endpoint(url: &str, transport: &str) -> ImportEndpoint {
    ImportEndpoint {
        url: url.to_string(),
        normalized_url: url.trim_end_matches('/').to_string(),
        transport: transport.to_string(),
        headers_json: r#"{"Authorization":"Bearer k"}"#.to_string(),
        auth_required: true,
    }
}

fn sha_hex(s: &str) -> String {
    hex::encode(sha2::Sha256::digest(s.as_bytes()))
}

#[test]
fn plans_service_import() {
    let detail = ServiceDetail {
        service_id: "svc".to_string(),
        name: "Weather".to_string(),
        source_url: "https://m/svc".to_string(),
    };
    let taken = sha_hex("https://b.example/mcp");
    let existing = vec![
        row(1, "Weather-1", &format!(r#"{{"url_hash":"{taken}"}}"#), true, false),
        row(2, "Weather-3", "{}", true, false),
    ];
    let eps = vec![
        endpoint("https://a.example/sse/", "sse"),
        endpoint("https://b.example/mcp", "streamablehttp"),
        endpoint("https://c.example/mcp", "streamablehttp"),
        endpoint("https://manual.example/mcp", "sse"),
    ];
    let manual = vec!["https://manual.example/mcp".to_string()];
    let rows = plan_service_import(&eps, &manual, &existing, "Weather", 7, "modelscope", &detail).unwrap();
    assert_eq!(rows.len(), 2);
    assert_eq!(rows[0].name, "Weather-1-2");
    assert_eq!(rows[1].name, "Weather-3-2");
    let ha = sha_hex("https://a.example/sse");
    assert_eq!(rows[0].config_id, format!("imported_7_{}", &ha[..8]));
    assert_eq!(rows[0].kind, "mcp_imported");
    assert_eq!(rows[0].provider, "modelscope");
    assert!(rows[0].enabled && !rows[0].is_default);
    assert_eq!(
        rows[0].json_data,
        format!(
            r#"{{"allowed_tools":[],"auth_required":true,"headers":{{"Authorization":"Bearer k"}},"market_id":7,"provider_id":"modelscope","service_id":"svc","service_name":"Weather","source_url":"https://m/svc","transport":"sse","url":"https://a.example/sse/","url_hash":"{ha}"}}"#
        )
    );
    let v: Value = serde_json::from_str(&rows[1].json_data).unwrap();
    assert_eq!(v["transport"], "streamablehttp");

    let single = plan_service_import(&eps[..1].to_vec(), &manual, &existing, "Weather", 7, "p", &detail).unwrap();
    assert_eq!(single[0].name, "Weather");
    let clash = plan_service_import(&eps[1..2].to_vec(), &manual, &existing, "W", 7, "p", &detail);
    assert_eq!(clash.unwrap_err(), "所有可导入地址均已存在或与人工 MCP 配置冲突");
    let none = plan_service_import(&vec![], &manual, &existing, "W", 7, "p", &detail);
    assert_eq!(none.unwrap_err(), "所有可导入地址均已存在或冲突");
}
