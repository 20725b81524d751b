use xiaozhi::manager::quotas::{
    check_quota_user, quota_changes, read_quota_items, voice_clone_quota_summaries, QuotaChange,
};
use xiaozhi::manager::records::{ConfigRow, VoiceCloneQuotaRow};
use xiaozhi::manager::requests::VoiceCloneQuotaItem;

fn tts(id: &str, name: &str) -> ConfigRow {
    ConfigRow {
        id: 1,
        kind: "tts".to_string(),
        name: name.to_string(),
        config_id: id.to_string(),
        provider: "edge".to_string(),
        json_data: "{}".to_string(),
        enabled: true,
        is_default: false,
        created_at: String::new(),
        updated_at: String::new(),
    }
}

fn quota(id: &str, max: i64, used: i64) -> VoiceCloneQuotaRow {
    VoiceCloneQuotaRow {
        id: 1,
        user_id: 2,
        tts_config_id: id.to_string(),
        max_count: max,
        used_count: used,
        created_at: String::new(),
        updated_at: String::new(),
    }
}

#[test]
fn quota_summaries_cover_configs_and_orphans() {
    let configs = vec![tts("a", "A"), tts("b", "B"), tts("c", "C")];
    let quotas = vec![quota("a", 5, 1), quota("b", -1, 0), quota("gone", 3, 4)];
    let usage = vec![("a".to_string(), 2), ("gone".to_string(), 1)];
    let s = voice_clone_quota_summaries(&configs, &quotas, &usage);
    let rows: Vec<(String, String, i64, i64, i64, bool)> = s
        .iter()
        .map(|q| (q.tts_config_id.clone(), q.tts_config_name.clone(), q.max_count, q.used_count, q.remaining_count, q.enabled))
        .collect();
    assert_eq!(
        rows,
        vec![
            ("a".to_string(), "A".to_string(), 5, 2, 3, true),
            ("b".to_string(), "B".to_string(), -1, 0, -1, true),
            ("c".to_string(), "C".to_string(), 0, 0, 0, true),
            ("gone".to_string(), "(已删除配置)".to_string(), 3, 4, 0, false),
        ]
    );
}

#[test]
fn quota_edits_are_checked_and_planned() {
    assert_eq!(check_quota_user("admin"), Err("仅支持为普通用户分配复刻额度".to_string()));
    assert_eq!(check_quota_user("user"), Ok(()));
    assert_eq!(read_quota_items(&vec![]), Err("items不能为空".to_string()));
    let item = |id: &str, max: i64| VoiceCloneQuotaItem { tts_config_id: id.to_string(), max_count: max };
    assert_eq!(read_quota_items(&vec![item(" ", 1)]), Err("tts_config_id不能为空".to_string()));
    assert_eq!(read_quota_items(&vec![item("a", -2)]), Err("max_count 不能小于 -1".to_string()));
    let limits = read_quota_items(&vec![item(" a ", 1), item("b", -1), item("a", 7)]).unwrap();
    assert_eq!(limits, vec![("b".to_string(), -1), ("a".to_string(), 7)]);
    let valid = vec!["a".to_string()];
    let usage = vec![("a".to_string(), 3)];
    let changes = quota_changes(&limits, &valid, &usage).unwrap();
    match &changes[0] {
        QuotaChange::Remove(id) => assert_eq!(id, "b"),
        other => panic!("unexpected {other:?}"),
    }
    match &changes[1] {
        QuotaChange::Store(id, max, used) => assert_eq!((id.as_str(), *max, *used), ("a", 7, 3)),
        other => panic!("unexpected {other:?}"),
    }
    let bad = quota_changes(&vec![("zz".to_string(), 2)], &valid, &usage);
    assert_eq!(bad.unwrap_err(), "TTS配置不存在: zz");
}
