use xiaozhi::history::{
    authorization_header, dialogue_url, parse_dialogue, pool_stats_url, report_chat_message, save_message_request,
    StatisticPlugin,
};
use xiaozhi::manager::access::{access_decision, extract_query_param, is_internal, is_public, split_char, Access};
use xiaozhi::manager::auth::{claims_for, user_json, AdminUser, AuthUser, Claims};
use xiaozhi::manager::captcha::{verify_captcha, CaptchaStore};
use xiaozhi::manager::device_binding::{
    bind_device_plan, bound_display_name, check_bind_identifiers, claim_for, BindPlan, Claim,
};
use xiaozhi::manager::mcp::{
    collect_enabled_server_names, extract_global_servers, normalize_imported_name, normalize_imported_transport,
    resolve_unique_name,
};
use xiaozhi::manager::mcp_imported_merge;
use xiaozhi::manager::records::{
    activation_bind_message, normalize_agent_id, normalize_device_mac, DeviceRow, RoleRow, UserRow,
};
use xiaozhi::manager::requests::{
    can_access_role, can_modify_role, check_new_credentials, collect_device_ids, device_body_to_input,
    normalize_status, query_from_history, resolved_speak_text, BindDeviceRequest, DeviceSpeakBody,
    DeviceUpdateBody, HistoryQuery,
};

#[test]
fn extracts_enabled_servers_from_mcp_global() {
    let cfg = r#"{"mcp":{"global":{"servers":[
        {"name":"A","type":"sse","url":"http://a","enabled":true},
        {"name":"B","type":"sse","url":"http://b","enabled":false}
    ]}}}"#;
    let servers = extract_global_servers(cfg);
    assert_eq!(servers.len(), 1);
    assert_eq!(servers[0].name, "A");
}

#[test]
fn global_servers_defaults() {
    let cfg = r#"{"global":{"servers":[{"transport":"streamablehttp","headers":{"X":"1","Y":2}},"odd"]}}"#;
    let servers = extract_global_servers(cfg);
    assert_eq!(servers.len(), 2);
    assert_eq!(servers[0].name, "未命名");
    assert_eq!(servers[0].transport, "streamablehttp");
    assert_eq!(servers[0].url, "");
    assert_eq!(servers[0].headers, vec![("X".to_string(), "1".to_string())]);
    assert_eq!(servers[1].transport, "sse");
    assert!(extract_global_servers(r#"{"mcp":{"global":{"servers":5}},"global":{"servers":[{}]}}"#).is_empty());
}

#[test]
fn server_headers_keep_keys_with_pointer_characters() {
    let cfg = r#"{"global":{"servers":[{"url":"http://a","headers":{"a/b":"1","~x":"2","n":null,"plain":"3"}}]}}"#;
    let servers = extract_global_servers(cfg);
    assert_eq!(servers.len(), 1);
    assert_eq!(
        servers[0].headers,
        vec![
            ("a/b".to_string(), "1".to_string()),
            ("plain".to_string(), "3".to_string()),
            ("~x".to_string(), "2".to_string()),
        ]
    );
}

#[test]
fn enabled_server_names_are_sorted_and_unique() {
    let cfg = r#"{"global":{"servers":[{"name":" b "},{"name":"a"},{"name":"b"},{"name":"c","enabled":false},{"name":"  "},{"name":"Z"}]}}"#;
    assert_eq!(collect_enabled_server_names(cfg).unwrap(), vec!["Z", "a", "b"]);
    assert!(collect_enabled_server_names(r#"{"global":{"enabled":false,"servers":[{"name":"a"}]}}"#).unwrap().is_empty());
    assert!(collect_enabled_server_names(r#"{"global":[]}"#).unwrap().is_empty());
}

#[test]
fn imported_services_normalise() {
    assert_eq!(normalize_imported_transport(" SSE ", "").unwrap(), "sse");
    assert_eq!(normalize_imported_transport("streamable-http", "").unwrap(), "streamablehttp");
    assert_eq!(normalize_imported_transport("", "http://x/SSE/").unwrap(), "sse");
    assert_eq!(normalize_imported_transport("", "http://x/mcp").unwrap(), "streamablehttp");
    assert_eq!(normalize_imported_transport("ws", "http://x").unwrap_err(), "transport 仅支持 sse/streamablehttp");
    assert_eq!(mcp_imported_merge::normalize_imported_transport(" WS ", "http://x/mcp"), "ws");
    assert_eq!(mcp_imported_merge::normalize_imported_transport("", "http://x/streamable"), "streamablehttp");
    assert_eq!(normalize_imported_name(" ", "", " id ", "u", Some("old")), "id");
    assert_eq!(normalize_imported_name("", "", "", "u", Some(" ")), "u");
    assert_eq!(normalize_imported_name("", "", "", "u", Some(" old ")), "old");
}

#[test]
fn unique_names_count_up() {
    let used: Vec<String> = vec!["svc".into(), "svc-2".into(), "other".into()];
    assert_eq!(resolve_unique_name(&used, "svc"), "svc-3");
    assert_eq!(resolve_unique_name(&used, "new"), "new");
    assert_eq!(resolve_unique_name(&vec![], ""), "");
}

#[test]
fn device_records_normalise() {
    assert_eq!(normalize_device_mac(" AA-BB-cc:DD "), "aa:bb:cc:dd");
    assert_eq!(normalize_agent_id(Some(0)), None);
    assert_eq!(normalize_agent_id(Some(-3)), None);
    assert_eq!(normalize_agent_id(Some(7)), Some(7));
    assert_eq!(activation_bind_message("123456"), "请在控制台输入验证码绑定设备，激活码: 123456");
}

fn device(id: &str) -> DeviceRow {
    DeviceRow {
        id: 1,
        user_id: None,
        device_id: id.into(),
        client_id: String::new(),
        name: String::new(),
        activated: false,
        activation_code: String::new(),
        agent_id: None,
        role_name: String::new(),
        online: false,
        created_at: String::new(),
        last_active_at: String::new(),
    }
}

#[test]
fn request_conversions() {
    assert_eq!(collect_device_ids(&[device("a"), device(""), device("b")]), vec!["a", "b"]);
    let body = DeviceUpdateBody {
        nick_name: "n".into(),
        device_name: "d".into(),
        client_id: "c".into(),
        agent_id: Some(0),
        user_id: Some(4),
    };
    let input = device_body_to_input(&body);
    assert_eq!(input.device_id, "d");
    assert_eq!(input.name, "n");
    assert_eq!(input.agent_id, None);
    assert_eq!(input.user_id, Some(4));
    let speak = DeviceSpeakBody { text: "  ".into(), message: " hi ".into(), target: "x".into(), auto_listen: false };
    assert_eq!(resolved_speak_text(&speak), "hi");
    let q = HistoryQuery {
        page: 2,
        page_size: 5,
        agent_id: Some(1),
        device_id: None,
        session_id: Some("s".into()),
        role: None,
        start_date: None,
        end_date: None,
    };
    let f = query_from_history(&q, 9);
    assert_eq!(f.user_id, 9);
    assert_eq!(f.page, Some(2));
    assert_eq!(f.session_id.as_deref(), Some("s"));
    assert_eq!(normalize_status("inactive"), "inactive");
    assert_eq!(normalize_status("paused"), "active");
    assert_eq!(check_new_credentials("ab", "secret1").unwrap_err(), "用户名至少 3 个字符");
    assert_eq!(check_new_credentials("abc", "12345").unwrap_err(), "密码至少 6 个字符");
    assert!(check_new_credentials("张三", "123456").is_ok());
}

fn role(role_type: &str, user_id: Option<i64>) -> RoleRow {
    RoleRow {
        id: 1,
        user_id,
        name: "r".into(),
        description: String::new(),
        prompt: String::new(),
        llm_config_id: None,
        tts_config_id: None,
        voice: None,
        role_type: role_type.into(),
        status: "active".into(),
        sort_order: 0,
        is_default: false,
        created_at: String::new(),
        updated_at: String::new(),
    }
}

#[test]
fn role_permissions() {
    let global = role("global", None);
    let mine = role("user", Some(1));
    assert!(can_access_role(&global, 2, false));
    assert!(!can_modify_role(&global, 2, false));
    assert!(can_modify_role(&global, 2, true));
    assert!(can_access_role(&mine, 1, false));
    assert!(!can_access_role(&mine, 2, false));
    assert!(can_modify_role(&mine, 1, false));
    assert!(can_modify_role(&mine, 2, true));
}

#[test]
fn captcha_challenges_are_single_use() {
    let mut store = CaptchaStore::new();
    let prompt = store.issue_challenge("id1".into(), 3, 4, 1_000);
    assert_eq!(prompt, "3 + 4 = ?");
    assert!(store.verify_at("id1", " 7 ", 2_000));
    assert!(!store.verify_at("id1", "7", 2_000));
    store.issue_challenge("id2".into(), 1, 1, 1_000);
    assert!(!store.verify_at("id2", "3", 2_000));
    assert!(!store.verify_at("id2", "2", 2_000));
    store.issue_challenge("id3".into(), 1, 1, 1_000);
    assert!(!store.verify_at("id3", "2", 1_000 + 300_000));
    assert!(!store.verify_at("nope", "2", 0));
    let (id, prompt) = store.new_challenge();
    assert_eq!(id.len(), 36);
    let nums: Vec<i32> = prompt.split(|c: char| !c.is_ascii_digit()).filter(|s| !s.is_empty()).map(|s| s.parse().unwrap()).collect();
    assert_eq!(nums.len(), 2);
    assert!(nums.iter().all(|n| (1..10).contains(n)));
    assert!(store.verify(&id, &(nums[0] + nums[1]).to_string()));
}

#[test]
fn captcha_step_of_login() {
    let mut store = CaptchaStore::new();
    assert_eq!(verify_captcha(&mut store, "", "", true).unwrap_err(), "请完成人机验证");
    assert!(verify_captcha(&mut store, "", "", false).is_ok());
    assert_eq!(verify_captcha(&mut store, "x", "1", false).unwrap_err(), "验证码错误");
    let (id, prompt) = store.new_challenge();
    let nums: Vec<i32> = prompt.split(|c: char| !c.is_ascii_digit()).filter(|s| !s.is_empty()).map(|s| s.parse().unwrap()).collect();
    assert!(verify_captcha(&mut store, &id, &(nums[0] + nums[1]).to_string(), true).is_ok());
}

#[test]
fn access_rules() {
    assert!(is_public("/api/login"));
    assert!(!is_public("/api/login/"));
    assert!(is_internal("/internal/x", true));
    assert!(!is_internal("/internal/x", false));
    assert!(matches!(access_decision("/api/login", None, None, None, "t"), Access::Allow));
    assert!(matches!(access_decision("/api/internal/x", Some("Bearer t"), None, None, "t"), Access::Allow));
    assert!(matches!(access_decision("/api/internal/x", Some("Bearer u"), None, None, "t"), Access::Deny));
    assert!(matches!(access_decision("/api/internal/x", Some("t"), None, None, "t"), Access::Deny));
    assert!(matches!(access_decision("/api/agents", Some("Bearer jwt"), Some("api"), None, "t"), Access::Check(t) if t == "jwt"));
    assert!(matches!(access_decision("/api/agents", Some("Basic x"), Some("api"), None, "t"), Access::Check(t) if t == "api"));
    assert!(matches!(
        access_decision("/api/admin/device-simulator/ws", None, None, Some("a=1&token=x%20y"), "t"),
        Access::Check(t) if t == "x y"
    ));
    assert!(matches!(access_decision("/api/agents", None, None, Some("token=x"), "t"), Access::Check(t) if t.is_empty()));
}

#[test]
fn query_parameters() {
    assert_eq!(split_char("a&&b&", '&'), vec!["a", "", "b", ""]);
    assert_eq!(split_char("", '&'), vec![""]);
    assert_eq!(extract_query_param(Some("k=%FF&k=v=w"), "k"), Some("v=w".to_string()));
    assert_eq!(extract_query_param(Some("k"), "k"), Some(String::new()));
    assert_eq!(extract_query_param(Some("x=1"), "k"), None);
    assert_eq!(extract_query_param(None, "k"), None);
}

#[test]
fn accounts_and_claims() {
    let c = claims_for(5, "u", "admin", 1_000);
    assert_eq!(c.exp, 1_000 + 604_800);
    assert!(AuthUser::from_claims(None).is_err());
    assert_eq!(AdminUser::from_claims(None).err().unwrap().status, 401);
    let user = Claims { sub: 1, username: "u".into(), role: "user".into(), exp: 0 };
    let e = AdminUser::from_claims(Some(user.clone())).err().unwrap();
    assert_eq!(e.status, 403);
    assert_eq!(e.error, "需要管理员权限");
    assert!(AuthUser::from_claims(Some(user)).is_ok());
    assert!(AdminUser::from_claims(Some(c)).is_ok());
    let row = UserRow { id: 3, username: "a\"b".into(), password_hash: "h".into(), email: "e".into(), role: "user".into() };
    assert_eq!(user_json(&row), r#"{"email":"e","id":3,"role":"user","username":"a\"b"}"#);
    let hash = xiaozhi::manager::auth::hash_password("pw").unwrap();
    assert!(xiaozhi::manager::auth::verify_password("pw", &hash));
    assert!(!xiaozhi::manager::auth::verify_password("other", &hash));
    assert!(!xiaozhi::manager::auth::verify_password("pw", "not a hash"));
}

#[test]
fn strings_are_written_as_serde_json_writes_them() {
    let tricky = "q\"b\\s/\u{1}\u{8}\u{c}\n\r\t\u{1f}\u{7f}é中";
    let row = UserRow { id: -1, username: tricky.into(), password_hash: String::new(), email: String::new(), role: "x".into() };
    let expected = format!(
        r#"{{"email":"","id":-1,"role":"x","username":{}}}"#,
        serde_json::to_string(tricky).unwrap()
    );
    assert_eq!(user_json(&row), expected);
}

#[test]
fn binding_requests() {
    let req = |id: Option<i64>, name: &str, code: &str, mac: &str| BindDeviceRequest {
        id,
        device_name: name.into(),
        code: code.into(),
        device_mac: mac.into(),
        nick_name: " n ".into(),
    };
    assert!(matches!(bind_device_plan(&req(Some(1), " d ", "", "")), BindPlan::ByIdentifier { device_mac, .. } if device_mac == "d"));
    assert!(matches!(bind_device_plan(&req(Some(1), "", "", "")), BindPlan::ById(1)));
    assert!(matches!(bind_device_plan(&req(None, "", " ", "")), BindPlan::Missing(_)));
    assert!(check_bind_identifiers(" 123456 ", "").is_ok());
    assert_eq!(check_bind_identifiers("12345a", "").unwrap_err(), "验证码格式错误");
    assert_eq!(check_bind_identifiers("", " ").unwrap_err(), "请填写设备验证码或设备 MAC");
    assert!(check_bind_identifiers("", "aa:bb").is_ok());
    assert_eq!(claim_for(None, 1), Claim::Assign);
    assert_eq!(claim_for(Some(1), 1), Claim::Rebind);
    assert_eq!(claim_for(Some(2), 1), Claim::Foreign);
    assert_eq!(bound_display_name(" ", " ", "dev"), "dev");
    assert_eq!(bound_display_name(" nick ", "name", "dev"), "nick");
    assert_eq!(bound_display_name("", " name ", "dev"), " name ");
}

#[test]
fn history_reports() {
    let mut msg = report_chat_message("d", "s", "user", "  hello ");
    msg.agent_id = Some(3);
    msg.user_id = Some(0);
    let req = save_message_request(true, "http://m/", &msg, "mid").unwrap();
    assert_eq!(req.url, "http://m/api/internal/history/messages");
    assert_eq!(
        req.body,
        r#"{"agent_id":3,"content":"hello","device_id":"d","message_id":"mid","role":"user","session_id":"s"}"#
    );
    assert!(save_message_request(false, "http://m", &msg, "mid").is_none());
    msg.content = " ".into();
    assert!(save_message_request(true, "http://m", &msg, "mid").is_none());
    assert_eq!(dialogue_url(true, "http://m//", " s1 ").unwrap(), "http://m/api/internal/history/sessions/s1/dialogue");
    assert!(dialogue_url(true, "http://m", " ").is_none());
    assert_eq!(pool_stats_url(true, "http://m").unwrap(), "http://m/api/internal/pool/stats");
    assert_eq!(authorization_header("t"), "Bearer t");
    let d = parse_dialogue(r#"{"data":{"messages":[{"role":"user","content":"hi"},{"role":"x"},{"role":"assistant","content":"yo"}]}}"#);
    assert_eq!(d.len(), 2);
    assert_eq!(d[1].content, "yo");
    assert!(parse_dialogue(r#"{"messages":null,"data":{"messages":[{"role":"u","content":"c"}]}}"#).is_empty());
    let p = StatisticPlugin;
    assert_eq!(p.name(), "statistic_plugin");
    assert_eq!(p.priority(), 100);
    assert_eq!(p.log_line("start", "d1"), "[statistic] start device=d1");
}

use xiaozhi::manager::allowances::{
    activation_code_from, api_token_text, check_token_name, is_token_expired, quota_use, random_activation_code,
    token_prefix, QuotaUse,
};
use xiaozhi::manager::config_rules::{
    prepare_llm_config, resolve_asr_pool_key, resolve_memory_pool_key, resolve_tts_pool_key,
};
use xiaozhi::manager::mcp::{url_hash, url_hash_exists};
use xiaozhi::manager::records::{ConfigInput, ConfigRow};

#[test]
fn activation_codes_have_six_digits() {
    assert_eq!(activation_code_from(42), "000042");
    assert_eq!(activation_code_from(1_234_567), "234567");
    assert_eq!(activation_code_from(999_999), "999999");
    let c = random_activation_code();
    assert_eq!(c.len(), 6);
    assert!(c.chars().all(|ch| ch.is_ascii_digit()));
}

#[test]
fn api_tokens() {
    let t = api_token_text("0123-4567");
    assert_eq!(t, "xz_0123-4567");
    assert_eq!(token_prefix(&t), "xz_0123-");
    assert_eq!(token_prefix("短"), "短");
    assert_eq!(check_token_name("  ").unwrap_err(), "Token 名称不能为空");
    assert!(check_token_name("ci").is_ok());
    assert!(!is_token_expired(None, 0));
    assert!(!is_token_expired(Some(""), i64::MAX));
    assert!(!is_token_expired(Some("tomorrow"), i64::MAX));
    assert!(is_token_expired(Some("2020-01-01T00:00:00Z"), 1_600_000_000_000));
    assert!(!is_token_expired(Some("2020-01-01T00:00:00Z"), 1_500_000_000_000));
}

#[test]
fn voice_clone_quotas() {
    assert_eq!(quota_use(" ", None, None), QuotaUse::Free);
    assert_eq!(quota_use("tts", Some("Admin"), None), QuotaUse::Free);
    assert_eq!(quota_use("tts", Some("user"), Some((4, -1, 9))), QuotaUse::Unlimited);
    assert_eq!(quota_use("tts", None, Some((4, 3, 1))), QuotaUse::Count(4));
    assert_eq!(quota_use("tts", None, Some((4, 3, 2))), QuotaUse::Count(4));
    assert_eq!(
        quota_use("tts", Some("user"), Some((4, 3, 3))),
        QuotaUse::Refused("声音复刻额度不足，请联系管理员分配额度".to_string())
    );
    assert_eq!(
        quota_use("tts", Some("user"), Some((4, 0, 0))),
        QuotaUse::Refused("声音复刻额度不足，请联系管理员分配额度".to_string())
    );
    assert_eq!(
        quota_use("tts", Some("user"), None),
        QuotaUse::Refused("声音复刻额度不足，请联系管理员分配额度".to_string())
    );
}

#[test]
fn pool_keys_and_llm_rows() {
    assert_eq!(resolve_memory_pool_key(" ", "{}"), "nomemo");
    assert_eq!(resolve_asr_pool_key(" sherpa ", "{}"), "sherpa");
    assert_eq!(resolve_tts_pool_key("x", r#"{"provider":" edge "}"#), "edge");
    assert_eq!(resolve_tts_pool_key("", "not json"), "doubao_ws");
    let mut body = ConfigInput {
        kind: "llm".into(),
        name: "n".into(),
        config_id: "deepseek".into(),
        provider: String::new(),
        json_data: String::new(),
        enabled: true,
        is_default: false,
    };
    prepare_llm_config(&mut body);
    assert_eq!(body.provider, "deepseek");
    assert_eq!(body.json_data, r#"{"provider":"deepseek"}"#);
    body.json_data = r#"{"base_url":"https://api.siliconflow.cn/v1","z":1}"#.into();
    prepare_llm_config(&mut body);
    assert_eq!(body.provider, "siliconflow");
    assert_eq!(body.json_data, r#"{"base_url":"https://api.siliconflow.cn/v1","provider":"siliconflow","z":1}"#);
    body.json_data = "oops".into();
    body.config_id = "cfg".into();
    body.provider = "Mine".into();
    prepare_llm_config(&mut body);
    assert_eq!(body.provider, "openai");
    assert_eq!(body.json_data, r#"{"provider":"openai"}"#);
    body.json_data = "[1]".into();
    prepare_llm_config(&mut body);
    assert_eq!(body.json_data, "[1]");
}

#[test]
fn imported_service_fingerprints() {
    let h = url_hash("https://x/mcp");
    assert_eq!(h.len(), 64);
    assert_ne!(h, url_hash("https://y/mcp"));
    let row = |id: i64, json: &str| ConfigRow {
        id,
        kind: "mcp_imported".into(),
        name: String::new(),
        config_id: String::new(),
        provider: String::new(),
        json_data: json.into(),
        enabled: true,
        is_default: false,
        created_at: String::new(),
        updated_at: String::new(),
    };
    let rows = vec![row(1, r#"{"url_hash":"abc"}"#), row(2, "{}")];
    assert!(url_hash_exists(r#"{"url_hash":"abc"}"#, &rows, None).unwrap());
    assert!(!url_hash_exists(r#"{"url_hash":"abc"}"#, &rows, Some(1)).unwrap());
    assert!(!url_hash_exists(r#"{"url_hash":""}"#, &rows, None).unwrap());
    assert!(url_hash_exists("{", &rows, None).is_err());
}
