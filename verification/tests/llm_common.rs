use sha2::Digest;
use xiaozhi::llm::llm_common::{
    build_provider_query, build_stable_user_id, get_conversation_id, normalize_api_token,
    sanitize_user_id_part, set_conversation_id, ConversationMap,
};
use xiaozhi::llm::message::ChatMessage;

#[test]
fn builds_stable_user_id() {
    let id = build_stable_user_id("xiaozhi", "session-1");
    assert!(id.starts_with("xiaozhi_"));
    assert!(id.len() <= 64);
}

#[test]
fn picks_last_user_query() {
    let dialogue = vec![
        ChatMessage::user("hello"),
        ChatMessage::assistant("hi"),
        ChatMessage::user("  world  "),
    ];
    assert_eq!(build_provider_query(&dialogue), "world");
}

#[test]
fn query_falls_back_to_any_nonblank_message() {
    let dialogue = vec![ChatMessage::user("  "), ChatMessage::assistant(" answer ")];
    assert_eq!(build_provider_query(&dialogue), "answer");
    assert_eq!(build_provider_query(&[]), "");
}

#[test]
fn stable_user_id_sanitises_and_defaults() {
    assert_eq!(build_stable_user_id("", "a b!!c"), "xiaozhi_a_b_c");
    assert_eq!(build_stable_user_id("p", "  "), "p_anonymous");
    assert_eq!(sanitize_user_id_part(" ._x y_. "), "x_y");
    let long = "s".repeat(100);
    let id = build_stable_user_id("prefix", &long);
    assert!(id.len() <= 64);
    assert!(id.starts_with("prefix_"));
    assert_eq!(id, build_stable_user_id("prefix", &long));
    assert_ne!(id, build_stable_user_id("prefix", &"t".repeat(100)));
}

#[test]
fn long_stable_user_id_ends_in_digest_prefix() {
    let long = "s".repeat(100);
    let id = build_stable_user_id("prefix", &long);
    let digest = hex::encode(sha2::Sha256::digest(format!("prefix:{long}").as_bytes()));
    assert_eq!(id, format!("prefix_{}", &digest[..16]));
    let odd = build_stable_user_id(&"é".repeat(80), &"中".repeat(80));
    assert!(!odd.is_empty() && odd.len() <= 64);
    assert!(odd.chars().all(|c| c.is_ascii_alphanumeric() || c == '_' || c == '-' || c == '.'));
}

#[test]
fn normalises_bearer_tokens() {
    assert_eq!(normalize_api_token("  Bearer  abc "), "abc");
    assert_eq!(normalize_api_token("bEaReR xyz"), "xyz");
    assert_eq!(normalize_api_token("token"), "token");
}

#[test]
fn conversation_ids_read_after_write() {
    let mut m = ConversationMap::new();
    assert_eq!(get_conversation_id(&m, "s1"), "");
    set_conversation_id(&mut m, " s1 ", " c1 ");
    set_conversation_id(&mut m, "s2", "c2");
    set_conversation_id(&mut m, "s1", "  ");
    assert_eq!(get_conversation_id(&m, "s1"), "c1");
    set_conversation_id(&mut m, "s1", "c3");
    assert_eq!(get_conversation_id(&m, "s1"), "c3");
    assert_eq!(get_conversation_id(&m, "s2"), "c2");
    assert_eq!(get_conversation_id(&m, " "), "");
}
