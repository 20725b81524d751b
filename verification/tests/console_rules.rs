use xiaozhi::manager::activation::{activation_decision, challenge_verdict, Activation};
use xiaozhi::manager::allowances::{verify_api_token, TokenCandidate};
use xiaozhi::manager::auth::{
    authenticate, claims_from_payload, create_token, create_token_at, decode_token, decode_ws_token, hash_password,
    session_claims, ws_claims_from_payload, JWT_SECRET,
};
use xiaozhi::manager::openclaw::{
    openclaw_chat_request, openclaw_reply, openclaw_stream_step, openclaw_wait_ms, OpenClawStep,
};
use xiaozhi::manager::voice_clone::{check_append_audio, claim_task, indextts_config_text};
use xiaozhi::manager::records::VoiceCloneTaskRow;
use xiaozhi::manager::allowances::consume_quota;
use xiaozhi::llm::llm_common::llm_error_message;
use xiaozhi::manager::chat_history::{enrich_with_device, ensure_message_id, legacy_chat_input};
use xiaozhi::manager::chat_settings::ChatSettings;
use xiaozhi::manager::config_rules::{seed_config, seed_configs, test_target, SeedDefaults, SeedSection};
use xiaozhi::manager::requests::live_status_device_ids;
use xiaozhi::manager::config_tests::{
    relayed_test_outcome, select_configs, test_route, unsupported_test_message, TestRoute,
};
use xiaozhi::manager::device_binding::{admin_device_edit, device_registration, AdminDeviceEdit, Registration};
use xiaozhi::manager::paging::{page_bounds, page_offset, take_page};
use xiaozhi::manager::records::{AgentInput, AgentRow, ConfigRow, DeviceInput, DeviceRow};
use xiaozhi::manager::simulator::{
    local_server_ws_url, simulator_admission, simulator_token, simulator_upstream_url, SimulatorRefusal,
};
use xiaozhi::manager::summaries::{agent_label, agent_summary, config_brief, device_summary};
use xiaozhi::manager::voice_clone::{
    check_clone_name, check_clone_provider, check_clone_retry, check_clone_upload, clone_provider,
    is_claimable_status,
};

fn row(id: i64, config_id: &str, provider: &str) -> ConfigRow {
    ConfigRow {
        id,
        kind: "tts".to_string(),
        name: format!("name-{config_id}"),
        config_id: config_id.to_string(),
        provider: provider.to_string(),
        json_data: "{}".to_string(),
        enabled: true,
        is_default: false,
        created_at: String::new(),
        updated_at: String::new(),
    }
}

fn device(user_id: Option<i64>, online: bool, last: &str) -> DeviceRow {
    DeviceRow {
        id: 7,
        user_id,
        device_id: "aa:bb".to_string(),
        client_id: "client".to_string(),
        name: "kitchen".to_string(),
        activated: true,
        activation_code: "123456".to_string(),
        agent_id: Some(3),
        role_name: String::new(),
        online,
        created_at: "2024-01-01T00:00:00Z".to_string(),
        last_active_at: last.to_string(),
    }
}

#[test]
fn clone_upload_needs_config_and_audio() {
    assert_eq!(check_clone_upload("", true), Err("tts_config_id 不能为空".to_string()));
    assert_eq!(check_clone_upload("tts-1", false), Err("请上传音频文件(audio_file)".to_string()));
    assert_eq!(check_clone_upload("tts-1", true), Ok(()));
}

#[test]
fn clone_provider_prefers_the_request() {
    assert_eq!(clone_provider("  MiniMax ", "doubao"), "minimax");
    assert_eq!(clone_provider("   ", " CosyVoice "), "cosyvoice");
}

#[test]
fn clone_provider_rules() {
    assert_eq!(
        check_clone_provider("x", "", false, false),
        Err("当前仅支持 豆包/Minimax/CosyVoice/千问/IndexTTS 提供商的声音复刻".to_string())
    );
    assert_eq!(
        check_clone_provider("doubao", "  ", true, true),
        Err("该提供商复刻要求必须填写音频对应文字".to_string())
    );
    assert_eq!(
        check_clone_provider("minimax", " short ", true, false),
        Err("Minimax 复刻需要提供至少 10 个字符的 transcript".to_string())
    );
    assert_eq!(check_clone_provider("minimax", "四个汉字", true, false), Ok(()));
    assert_eq!(check_clone_provider("doubao", "", true, false), Ok(()));
}

#[test]
fn clone_names_and_states() {
    assert_eq!(check_clone_name(None), Ok(()));
    assert_eq!(check_clone_name(Some("  ")), Err("名称不能为空".to_string()));
    assert_eq!(check_clone_name(Some("声".repeat(100).as_str())), Ok(()));
    assert_eq!(check_clone_name(Some("声".repeat(101).as_str())), Err("名称长度不能超过100个字符".to_string()));
    assert_eq!(check_clone_retry("failed"), Ok(()));
    assert_eq!(check_clone_retry("succeeded"), Err("仅失败状态的复刻任务允许重新提交".to_string()));
    assert!(is_claimable_status(" Queued "));
    assert!(is_claimable_status("processing"));
    assert!(!is_claimable_status("failed"));
}

#[test]
fn simulator_token_and_address() {
    assert_eq!(simulator_token(Some("Bearer  abc "), Some("q")), Some("abc".to_string()));
    assert_eq!(simulator_token(Some("raw"), None), Some("raw".to_string()));
    assert_eq!(simulator_token(Some("Bearer   "), Some(" q ")), Some("q".to_string()));
    assert_eq!(simulator_token(None, Some("  ")), None);
    assert_eq!(local_server_ws_url(8000), "ws://127.0.0.1:8000/xiaozhi/v1/");
    assert_eq!(simulator_upstream_url(Some(" ws://x/ "), 1), "ws://x/");
    assert_eq!(simulator_upstream_url(Some(" "), 9), "ws://127.0.0.1:9/xiaozhi/v1/");
}

#[test]
fn simulator_admission_rules() {
    assert_eq!(simulator_admission(None, "d", true, false), Err(SimulatorRefusal::Unauthorized));
    assert_eq!(simulator_admission(Some("user"), "d", true, true), Err(SimulatorRefusal::Forbidden));
    assert_eq!(simulator_admission(Some("admin"), " ", true, false), Err(SimulatorRefusal::BadRequest));
    assert_eq!(simulator_admission(Some("admin"), " d ", true, false), Ok("d".to_string()));
    assert_eq!(simulator_admission(Some("user"), " ", false, false), Err(SimulatorRefusal::BadRequest));
    assert_eq!(simulator_admission(Some("user"), "d", false, false), Err(SimulatorRefusal::Forbidden));
    assert_eq!(simulator_admission(Some("user"), "d", false, true), Ok("d".to_string()));
    assert_eq!(SimulatorRefusal::Forbidden.status(), 403);
}

fn settings() -> ChatSettings {
    ChatSettings {
        auth_enable: false,
        login_captcha_enabled: true,
        max_idle_duration: 60,
        chat_max_silence_duration: 5,
        speak_request_reuse_window_ms: 800,
        realtime_mode: 1,
        global_system_prompt: String::new(),
        system_prompt: "file prompt".to_string(),
    }
}

#[test]
fn chat_settings_apply_edits() {
    let mut s = settings();
    s.apply_edit(
        r#"{"auth":{"enable":true,"login_captcha_enabled":"no"},"chat":{"max_idle_duration":120,"realtime_mode":258,"global_system_prompt":"be kind","chat_max_silence_duration":-1}}"#,
    );
    assert!(s.auth_enable);
    assert!(s.login_captcha_enabled);
    assert_eq!(s.max_idle_duration, 120);
    assert_eq!(s.chat_max_silence_duration, 5);
    assert_eq!(s.realtime_mode, 2);
    assert_eq!(s.global_system_prompt, "be kind");
    assert_eq!(s.system_prompt, "be kind");
    assert_eq!(s.speak_request_reuse_window_ms, 800);
    let mut t = settings();
    t.apply_edit("not json");
    assert_eq!(t.max_idle_duration, 60);
    assert_eq!(settings().seeded().global_system_prompt, "file prompt");
}

#[test]
fn seeded_configs() {
    assert!(seed_config("asr", "", "{}").is_none());
    let asr = seed_config("asr", "funasr", r#"{"a":1}"#).unwrap();
    assert_eq!(asr.name, "默认asr配置");
    assert_eq!(asr.config_id, "funasr");
    assert_eq!(asr.provider, "funasr");
    assert_eq!(asr.json_data, r#"{"a":1}"#);
    assert!(asr.enabled && asr.is_default);
    let llm = seed_config("llm", "deepseek", r#"{"type":"openai","base_url":"https://api.deepseek.com/v1"}"#).unwrap();
    assert_eq!(llm.provider, "deepseek");
    let v: serde_json::Value = serde_json::from_str(&llm.json_data).unwrap();
    assert_eq!(v["provider"], "deepseek");
    assert_eq!(v["base_url"], "https://api.deepseek.com/v1");
}

#[test]
fn test_targets_by_kind() {
    let tts = test_target("tts", "t1", "edge", r#"{"name":"x","voice":"v","type":"tts","enabled":true}"#);
    assert_eq!(tts.pool_key, "edge");
    assert_eq!(tts.config, r#"{"provider":"edge","voice":"v"}"#);
    let asr = test_target("asr", "a1", "", r#"{"provider":" doubao "}"#);
    assert_eq!(asr.pool_key, "doubao");
    let mem = test_target("memory", "m1", "", "broken");
    assert_eq!(mem.pool_key, "nomemo");
    assert_eq!(mem.config, "{}");
    let llm = test_target("llm", "my-llm", "openai", r#"{"base_url":"https://api.deepseek.com/v1"}"#);
    assert_eq!(llm.pool_key, "my-llm");
    let v: serde_json::Value = serde_json::from_str(&llm.config).unwrap();
    assert_eq!(v["config_id"], "my-llm");
    assert_eq!(v["provider"], "deepseek");
    let vad = test_target("vad", "v1", "silero", "{}");
    assert_eq!(vad.pool_key, "silero");
}

#[test]
fn test_routes_and_selection() {
    assert_eq!(test_route("ota", 0), TestRoute::Ota);
    assert_eq!(test_route("mcp", 0), TestRoute::Mcp);
    assert_eq!(test_route("knowledge_search", 0), TestRoute::KnowledgeSearch);
    assert_eq!(test_route("tts", 0), TestRoute::NoClient);
    assert_eq!(test_route("tts", 2), TestRoute::ViaServer);
    assert_eq!(test_route("foo", 2), TestRoute::Unsupported);
    assert_eq!(unsupported_test_message("foo"), "不支持的测试类型: foo");
    let rows = vec![row(1, "a", "p"), row(2, "b", "p"), row(3, "c", "p")];
    let all = select_configs(rows.clone(), None);
    assert_eq!(all.len(), 3);
    let some = select_configs(rows, Some(vec!["c".to_string(), "a".to_string(), "zz".to_string()]));
    let ids: Vec<i64> = some.iter().map(|r| r.id).collect();
    assert_eq!(ids, vec![1, 3]);
}

#[test]
fn relayed_outcomes() {
    let ok = relayed_test_outcome(200, r#"{"message":"fine"}"#, "");
    assert!(ok.ok);
    assert_eq!(ok.message, "fine");
    let flagged = relayed_test_outcome(200, r#"{"ok":false}"#, "");
    assert!(!flagged.ok);
    assert_eq!(flagged.message, "测试完成");
    let failed = relayed_test_outcome(502, "{}", "");
    assert!(!failed.ok);
    assert_eq!(failed.message, "测试失败");
    assert_eq!(relayed_test_outcome(400, "{}", "bad").message, "bad");
}

#[test]
fn device_and_agent_summaries() {
    let d = device(None, true, "");
    let s = device_summary(&d, Some("agent".to_string()));
    assert!(s.bind_pending);
    assert_eq!(s.agent_id, 3);
    assert_eq!(s.last_active_at, d.created_at);
    assert_eq!(s.device_name, "aa:bb");
    assert_eq!(s.device_code, "123456");
    let offline = device_summary(&device(Some(1), false, ""), None);
    assert_eq!(offline.last_active_at, "");
    assert!(!offline.bind_pending);
    let seen = device_summary(&device(Some(1), false, "2024-02-02"), None);
    assert_eq!(seen.last_active_at, "2024-02-02");

    assert!(config_brief("", None).is_none());
    let missing = config_brief("gone", None).unwrap();
    assert_eq!((missing.id, missing.name.as_str(), missing.provider.as_str()), (None, "gone", "gone"));
    let r = row(9, "edge-1", "edge");
    let found = config_brief("edge-1", Some(&r)).unwrap();
    assert_eq!((found.id, found.provider.as_str()), (Some(9), "edge"));

    let a = AgentRow {
        id: 3,
        user_id: 1,
        name: "小智".to_string(),
        system_prompt: "p".to_string(),
        llm_provider: String::new(),
        llm_config: String::new(),
        tts_provider: "edge-1".to_string(),
        tts_config: String::new(),
        asr_provider: String::new(),
        asr_config: String::new(),
        vad_provider: String::new(),
        created_at: "c".to_string(),
        extra_json: r#"{"memory_mode":"long","voice":{"id":1},"knowledge_base_ids":[4]}"#.to_string(),
    };
    let s = agent_summary(&a, "alice".to_string(), 2, None, Some(found));
    assert_eq!(s.nickname, "小智");
    assert_eq!(s.llm_config_id, None);
    assert_eq!(s.tts_config_id, Some("edge-1".to_string()));
    assert_eq!(s.voice, r#"{"id":1}"#);
    assert_eq!(s.asr_speed, "normal");
    assert_eq!(s.memory_mode, "long");
    assert_eq!(s.speaker_chat_mode, "off");
    assert_eq!(s.openclaw, "{}");
    assert_eq!(s.knowledge_base_ids, "[4]");
    assert_eq!(s.updated_at, "c");
    assert_eq!(agent_label(5, None), "智能体 #5");
    assert_eq!(agent_label(5, Some("x".to_string())), "x");
}

#[test]
fn api_tokens_are_checked_in_order() {
    let hash = hash_password("tok_secret").unwrap();
    let cand = |hash: &str, exp: Option<&str>, user: i64| TokenCandidate {
        token_hash: hash.to_string(),
        expires_at: exp.map(|e| e.to_string()),
        user_id: user,
        username: format!("u{user}"),
        role: "user".to_string(),
    };
    let now = 1_700_000_000_000i64;
    let cands = vec![
        cand(&hash, Some("2000-01-01T00:00:00Z"), 1),
        cand("not a hash", None, 2),
        cand(&hash, Some(""), 3),
        cand(&hash, None, 4),
    ];
    assert_eq!(verify_api_token("tok_secret", &cands, now), Some((3, "u3".to_string(), "user".to_string())));
    assert_eq!(verify_api_token("", &cands, now), None);
    assert_eq!(verify_api_token("tok_other", &cands, now), None);
}

#[test]
fn device_registration_and_admin_edits() {
    assert_eq!(device_registration("", Some((1, Some(2))), 5), Ok(Registration::Create));
    assert_eq!(device_registration("m", None, 5), Ok(Registration::Create));
    assert_eq!(device_registration("m", Some((1, None)), 5), Ok(Registration::Adopt(1)));
    assert_eq!(device_registration("m", Some((1, Some(5))), 5), Ok(Registration::Keep(1)));
    assert_eq!(device_registration("m", Some((1, Some(6))), 5), Err("该设备 MAC 已在系统中注册".to_string()));

    let req = DeviceInput {
        device_id: String::new(),
        client_id: "  new-client ".to_string(),
        name: " ".to_string(),
        agent_id: Some(0),
        user_id: Some(-1),
    };
    match admin_device_edit(&device(None, false, ""), &req) {
        AdminDeviceEdit::Pending(e) => {
            assert_eq!(e.device_id, "aa:bb");
            assert_eq!(e.client_id, "new-client");
            assert_eq!(e.name, "kitchen");
            assert_eq!(e.agent_id, None);
            assert_eq!(e.owner, None);
        }
        AdminDeviceEdit::Owned(_) => panic!("pending device"),
    }
    match admin_device_edit(&device(Some(4), false, ""), &req) {
        AdminDeviceEdit::Owned(u) => assert_eq!(u, 4),
        AdminDeviceEdit::Pending(_) => panic!("owned device"),
    }
    let req2 = DeviceInput { user_id: Some(8), ..req };
    match admin_device_edit(&device(Some(4), false, ""), &req2) {
        AdminDeviceEdit::Owned(u) => assert_eq!(u, 8),
        AdminDeviceEdit::Pending(_) => panic!("owned device"),
    }
}

#[test]
fn login_tokens_round_trip() {
    let token = create_token(42, "alice", "admin").unwrap();
    let claims = decode_token(&token).unwrap();
    assert_eq!((claims.sub, claims.username.as_str(), claims.role.as_str()), (42, "alice", "admin"));
    assert!(claims.exp > 0);
    assert!(decode_token("garbage").is_err());
    assert!(decode_ws_token(&token, "another secret").is_err());
    let via_login = authenticate(&token, &vec![], 0).unwrap();
    assert_eq!(via_login.sub, 42);
    assert!(authenticate("nope", &vec![], 0).is_none());
    let hash = hash_password("api-token-1").unwrap();
    let cands = vec![TokenCandidate {
        token_hash: hash,
        expires_at: None,
        user_id: 7,
        username: "bot".to_string(),
        role: "user".to_string(),
    }];
    let via_api = authenticate("api-token-1", &cands, 0).unwrap();
    assert_eq!((via_api.sub, via_api.exp), (7, 0));
    let none = session_claims(Err("bad".to_string()), None);
    assert!(none.is_none());
}

#[test]
fn activation_answers() {
    let mut d = device(Some(1), false, "");
    d.activated = false;
    assert_eq!(activation_decision(r#"{"code":"123456"}"#, None), Activation::NotRegistered);
    assert_eq!(activation_decision(r#"{"code":"123456"}"#, Some(&d)), Activation::Activate);
    assert_eq!(activation_decision(r#"{"activation_code":"000000"}"#, Some(&d)), Activation::WrongCode);
    assert_eq!(activation_decision(r#"{"code":5,"activation_code":"123456"}"#, Some(&d)), Activation::Waiting);
    assert_eq!(
        activation_decision(r#"{"challenge":"ch","hmac":"h"}"#, Some(&d)),
        Activation::CheckChallenge("ch".to_string())
    );
    assert_eq!(activation_decision(r#"{"challenge":"ch"}"#, Some(&d)), Activation::Waiting);
    d.user_id = None;
    assert_eq!(activation_decision(r#"{"code":"123456"}"#, Some(&d)), Activation::Unbound);
    d.activated = true;
    assert_eq!(activation_decision("{}", Some(&d)), Activation::AlreadyActive);
    assert_eq!(challenge_verdict("ch", Some("ch")), Ok(()));
    assert_eq!(challenge_verdict("ch", Some("other")), Err("挑战码错误".to_string()));
    assert_eq!(challenge_verdict("ch", None), Ok(()));
}

#[test]
fn agent_extra_settings_json() {
    let a = AgentInput {
        name: "n".into(),
        system_prompt: String::new(),
        llm_provider: String::new(),
        llm_config: String::new(),
        tts_provider: String::new(),
        tts_config: String::new(),
        asr_provider: String::new(),
        asr_config: String::new(),
        vad_provider: String::new(),
        nickname: "小智".into(),
        user_id: None,
        voice: None,
        asr_speed: "normal".into(),
        memory_mode: "short".into(),
        speaker_chat_mode: "off".into(),
        mcp_service_names: "a,b".into(),
        openclaw: Some(r#"{ "enabled" : true }"#.into()),
        knowledge_base_ids: vec![3, -1],
    };
    assert_eq!(
        a.extra_json(),
        r#"{"asr_speed":"normal","knowledge_base_ids":[3,-1],"mcp_service_names":"a,b","memory_mode":"short","nickname":"小智","openclaw":{"enabled":true},"speaker_chat_mode":"off","voice":null}"#
    );
    let b = AgentInput { openclaw: None, voice: Some("v1".into()), knowledge_base_ids: vec![], ..a };
    let v: serde_json::Value = serde_json::from_str(&b.extra_json()).unwrap();
    assert_eq!(v["openclaw"], serde_json::from_str::<serde_json::Value>("{}").unwrap());
    assert_eq!(v["voice"], "v1");
}

#[test]
fn pages_of_listings() {
    assert_eq!(page_bounds(None, None, 10, 200), (1, 10));
    assert_eq!(page_bounds(Some(0), Some(500), 10, 200), (1, 200));
    assert_eq!(page_bounds(Some(3), Some(-4), 50, i64::MAX), (3, 1));
    assert_eq!(page_offset(3, 20), 40);
    assert_eq!(take_page(vec![1, 2, 3, 4, 5], 1, 2), vec![2, 3]);
    assert_eq!(take_page(vec![1, 2, 3], 2, 10), vec![3]);
    assert!(take_page(vec![1, 2, 3], 3, 10).is_empty());
}

#[test]
fn legacy_chat_reports() {
    let mut m = legacy_chat_input(r#"{"device_id":"aa","agent_id":3,"content":"hi","session_id":"s"}"#);
    assert_eq!((m.device_id.as_str(), m.agent_id, m.user_id, m.role.as_str()), ("aa", Some(3), None, "user"));
    assert_eq!(m.message_id, "");
    ensure_message_id(&mut m);
    assert_eq!(m.message_id.len(), 36);
    for (i, c) in m.message_id.chars().enumerate() {
        if i == 8 || i == 13 || i == 18 || i == 23 {
            assert_eq!(c, '-');
        } else {
            assert!(c.is_ascii_digit() || ('a'..='f').contains(&c));
        }
    }
    let id = m.message_id.clone();
    ensure_message_id(&mut m);
    assert_eq!(m.message_id, id);
    enrich_with_device(&mut m, Some((Some(9), Some(4))));
    assert_eq!((m.user_id, m.agent_id), (Some(9), Some(3)));
    enrich_with_device(&mut m, None);
    assert_eq!((m.user_id, m.agent_id), (Some(9), Some(3)));
}

#[test]
fn login_tokens_at_a_given_time() {
    assert_eq!(create_token_at(1, "a", "user", i64::MAX), Err("时间超出范围".to_string()));
    assert_eq!(create_token_at(1, "a", "user", -604801), Err("时间超出范围".to_string()));
    let token = create_token_at(42, "alice", "admin", 1000).unwrap();
    assert_eq!(token.split('.').count(), 3);
    let mut v = jsonwebtoken::Validation::default();
    v.validate_exp = false;
    let key = jsonwebtoken::DecodingKey::from_secret(JWT_SECRET.as_bytes());
    let data = jsonwebtoken::decode::<serde_json::Value>(&token, &key, &v).unwrap();
    assert_eq!(
        data.claims.to_string(),
        r#"{"exp":605800,"role":"admin","sub":42,"username":"alice"}"#
    );
    // Issued long ago, the token has expired.
    assert!(decode_token(&token).is_err());
}

#[test]
fn claims_read_from_payloads() {
    let c = claims_from_payload(r#"{"exp":5,"role":"user","sub":-3,"username":"bob"}"#).unwrap();
    assert_eq!((c.sub, c.username.as_str(), c.role.as_str(), c.exp), (-3, "bob", "user", 5));
    assert_eq!(claims_from_payload(r#"{"exp":5,"role":"user","username":"bob"}"#).unwrap_err(), "令牌缺少字段");
    assert_eq!(claims_from_payload(r#"{"exp":"5","role":"user","sub":1,"username":"bob"}"#).unwrap_err(), "令牌缺少字段");
    let w = ws_claims_from_payload(r#"{"purpose":"ws","uuid":"u-1","exp":9}"#).unwrap();
    assert_eq!((w.purpose.as_str(), w.uuid.as_str(), w.exp), ("ws", "u-1", 9));
    assert_eq!(ws_claims_from_payload(r#"{"purpose":"ws","exp":9}"#).unwrap_err(), "令牌缺少字段");
    assert_eq!(ws_claims_from_payload("not json").unwrap_err(), "令牌缺少字段");
}

#[test]
fn openclaw_chat_requests() {
    assert_eq!(
        openclaw_chat_request(r#"{"message":"  hi  ","timeout_ms":5}"#, 5).unwrap(),
        r#"{"agent_id":"5","message":"hi","timeout_ms":5}"#
    );
    assert_eq!(
        openclaw_chat_request(r#"{"message":" x ","agent_id":9}"#, 5).unwrap(),
        r#"{"agent_id":9,"message":"x"}"#
    );
    assert_eq!(openclaw_chat_request(r#"{"message":"   "}"#, 5).unwrap_err(), "message 不能为空");
    assert_eq!(openclaw_chat_request(r#"{"message":3}"#, 5).unwrap_err(), "message 不能为空");
    assert_eq!(openclaw_chat_request("[1]", 5).unwrap_err(), "message 不能为空");
    assert_eq!(openclaw_wait_ms(1000), 6000);
    assert_eq!(openclaw_wait_ms(u64::MAX - 1), u64::MAX);
}

#[test]
fn openclaw_answers() {
    assert_eq!(openclaw_stream_step(200), OpenClawStep::Succeeded);
    assert_eq!(openclaw_stream_step(404), OpenClawStep::Failed);
    assert_eq!(openclaw_stream_step(102), OpenClawStep::Forward);
    assert_eq!(openclaw_stream_step(201), OpenClawStep::Forward);
    assert_eq!(openclaw_reply(200, "ignored"), None);
    assert_eq!(openclaw_reply(500, ""), Some("OpenClaw 对话测试失败: status=500".to_string()));
    assert_eq!(openclaw_reply(400, "boom"), Some("boom".to_string()));
}

#[test]
fn appending_reference_audio() {
    assert_eq!(check_append_audio(false, Some("v"), 3).unwrap_err(), "仅已成功的复刻音色允许追加参考音频");
    assert_eq!(check_append_audio(true, Some("  "), 3).unwrap_err(), "复刻音色ID为空");
    assert_eq!(check_append_audio(true, None, 0).unwrap_err(), "复刻音色ID为空");
    assert_eq!(check_append_audio(true, Some(" v1 "), 0).unwrap_err(), "请上传音频文件(audio_file)");
    assert_eq!(check_append_audio(true, Some(" v1 "), 10).unwrap(), "v1");
    assert_eq!(indextts_config_text(r#"{"api_url":"x"}"#), r#"{"api_url":"x"}"#);
    assert_eq!(indextts_config_text("not json"), "{}");
}

#[test]
fn seeding_a_fresh_database() {
    let sections = vec![
        SeedSection { kind: "asr".to_string(), provider: "funasr".to_string(), settings: "{}".to_string(), existing_rows: 0 },
        SeedSection { kind: "tts".to_string(), provider: "edge".to_string(), settings: "{}".to_string(), existing_rows: 2 },
        SeedSection { kind: "vad".to_string(), provider: String::new(), settings: "{}".to_string(), existing_rows: 0 },
    ];
    let defaults = SeedDefaults {
        auth_json: r#"{"enable":true}"#.to_string(),
        auth_rows: 0,
        chat_json: "{}".to_string(),
        chat_rows: 1,
        vision_enable_auth: false,
        vision_url: "http://v/\"x\"".to_string(),
        vision_rows: 0,
    };
    let rows = seed_configs(&sections, &defaults);
    let kinds: Vec<&str> = rows.iter().map(|r| r.kind.as_str()).collect();
    assert_eq!(kinds, vec!["asr", "auth", "vision_base"]);
    assert_eq!((rows[0].name.as_str(), rows[0].config_id.as_str()), ("默认asr配置", "funasr"));
    assert_eq!((rows[1].name.as_str(), rows[1].config_id.as_str(), rows[1].json_data.as_str()), ("默认认证配置", "default", r#"{"enable":true}"#));
    assert_eq!(rows[2].name, "默认 Vision 基础配置");
    assert_eq!(rows[2].json_data, r#"{"enable_auth":false,"vision_url":"http://v/\"x\""}"#);
    assert!(rows.iter().all(|r| r.enabled && r.is_default));
}

#[test]
fn live_status_asks_only_for_own_devices() {
    let mut a = device(Some(1), true, "");
    a.device_id = "aa".to_string();
    let mut b = device(Some(1), true, "");
    b.device_id = "bb".to_string();
    let mut blank = device(Some(1), true, "");
    blank.device_id = String::new();
    let own = vec![a.clone(), b.clone(), a.clone(), blank.clone()];
    let none: Vec<String> = vec![];
    assert_eq!(live_status_device_ids(&none, Some(&own), &[]), vec!["aa", "bb"]);
    let asked = vec![" bb ".to_string(), "zz".to_string(), "  ".to_string(), "aa".to_string()];
    assert_eq!(live_status_device_ids(&asked, Some(&own), &[]), vec!["bb", "aa"]);
    assert_eq!(live_status_device_ids(&asked, None, &own), vec!["bb", "zz", "aa"]);
    assert_eq!(live_status_device_ids(&none, None, &own), vec!["aa", "bb", "aa"]);
}

fn task(status: &str) -> VoiceCloneTaskRow {
    VoiceCloneTaskRow {
        id: 5,
        task_id: "t-5".to_string(),
        user_id: 2,
        voice_clone_id: 9,
        provider: "minimax".to_string(),
        status: status.to_string(),
        attempts: 1,
        last_error: "boom".to_string(),
        started_at: None,
        finished_at: Some("x".to_string()),
        meta_json: "{}".to_string(),
        created_at: "c".to_string(),
        updated_at: "u".to_string(),
    }
}

#[test]
fn claiming_clone_tasks() {
    assert!(claim_task(None, "now").is_none());
    for s in ["succeeded", "failed", "Queued", " queued", "other"] {
        assert!(claim_task(Some(&task(s)), "now").is_none(), "{s}");
    }
    for s in ["queued", "processing"] {
        let c = claim_task(Some(&task(s)), "now").unwrap();
        assert_eq!((c.status.as_str(), c.attempts, c.last_error.as_str()), ("processing", 2, ""));
        assert_eq!((c.started_at.as_deref(), c.finished_at.as_deref(), c.updated_at.as_str()), (Some("now"), None, "now"));
        assert_eq!((c.voice_clone_id, c.user_id), (9, 2));
    }
}

#[test]
fn consuming_clone_allowance() {
    assert_eq!(consume_quota("tts", Some("user"), Some((4, 3, 2))), (Ok(()), Some((4, 3, 3))));
    assert_eq!(
        consume_quota("tts", Some("user"), Some((4, 3, 3))),
        (Err("声音复刻额度不足，请联系管理员分配额度".to_string()), Some((4, 3, 3)))
    );
    assert_eq!(consume_quota("tts", Some("user"), Some((4, -1, 7))), (Ok(()), Some((4, -1, 7))));
    assert_eq!(consume_quota("tts", Some("ADMIN"), Some((4, 0, 0))), (Ok(()), Some((4, 0, 0))));
    assert_eq!(consume_quota(" ", None, None), (Ok(()), None));
    assert_eq!(consume_quota("tts", None, None).0, Err("声音复刻额度不足，请联系管理员分配额度".to_string()));
}

#[test]
fn provider_failures_become_error_messages() {
    let m = llm_error_message("bad \"key\"");
    assert_eq!(m.content, "");
    assert_eq!(m.extra, vec![("error".to_string(), r#""bad \"key\"""#.to_string())]);
    assert_eq!(m.error_text(), Some("bad \"key\"".to_string()));
    assert!(m.is_error());
}
