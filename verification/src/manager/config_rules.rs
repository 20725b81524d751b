//! Rules the console applies to provider configurations before storing or
//! testing them: which pool a configuration is served from, and the
//! provider recorded for a language model.
use vstd::prelude::*;
use crate::json_fields::{json_member_or, json_quote, json_quoted, member_or};
use crate::llm::factory::{normalized_llm_provider, normalize_llm_provider, LlmConfig};
use crate::llm::openai_stream::{json_is_valid, json_text_is_valid};
use crate::manager::records::ConfigInput;
use crate::text::{concat3, eq_str, owned, trim, trim_str};

verus! {

broadcast use vstd::string::group_string_axioms;

/// The pool a configuration is served from: its `provider` member
/// (trimmed) when not blank, else the stored provider (trimmed), else the
/// kind's default pool.
pub open spec fn pool_key(provider: Seq<char>, config: Seq<char>, default: Seq<char>) -> Seq<char> {
    let own = trim(member_or(config, "provider"@, Seq::empty()));
    if own.len() > 0 {
        own
    } else if trim(provider).len() > 0 {
        trim(provider)
    } else {
        default
    }
}

fn resolve_pool_key(provider: &str, config_json: &str, default: &str) -> (r: String)
    ensures
        r@ == pool_key(provider@, config_json@, default@),
{
    proof {
        reveal_strlit("");
        assert(""@ =~= Seq::<char>::empty());
    }
    let own = trim_str(json_member_or(config_json, "provider", "").as_str());
    if !own.as_str().is_empty() {
        return own;
    }
    let p = trim_str(provider);
    if !p.as_str().is_empty() {
        p
    } else {
        owned(default)
    }
}

/// The memory pool of a configuration (`nomemo` by default).
pub fn resolve_memory_pool_key(provider: &str, config_json: &str) -> (r: String)
    ensures
        r@ == pool_key(provider@, config_json@, "nomemo"@),
{
    resolve_pool_key(provider, config_json, "nomemo")
}

/// The speech-recognition pool of a configuration (`funasr` by default).
pub fn resolve_asr_pool_key(provider: &str, config_json: &str) -> (r: String)
    ensures
        r@ == pool_key(provider@, config_json@, "funasr"@),
{
    resolve_pool_key(provider, config_json, "funasr")
}

/// The speech-synthesis pool of a configuration (`doubao_ws` by default).
pub fn resolve_tts_pool_key(provider: &str, config_json: &str) -> (r: String)
    ensures
        r@ == pool_key(provider@, config_json@, "doubao_ws"@),
{
    resolve_pool_key(provider, config_json, "doubao_ws")
}

/// What setting a string member of a JSON text gives, as `serde_json`
/// writes it: `Invalid` when the text is not JSON, `Unchanged` with the
/// rewritten text when it is JSON but not an object, `Updated` with the
/// object's text after the member is set.
#[derive(Debug, Clone)]
pub enum MemberUpdate {
    Invalid,
    Unchanged(String),
    Updated(String),
}

/// The plain content of a member update.
pub enum MemberUpdateView {
    Invalid,
    Unchanged(Seq<char>),
    Updated(Seq<char>),
}

impl View for MemberUpdate {
    type V = MemberUpdateView;

    open spec fn view(&self) -> MemberUpdateView {
        match self {
            MemberUpdate::Invalid => MemberUpdateView::Invalid,
            MemberUpdate::Unchanged(t) => MemberUpdateView::Unchanged(t@),
            MemberUpdate::Updated(t) => MemberUpdateView::Updated(t@),
        }
    }
}

/// The outcome of setting string member `key` to `value` in a JSON text.
pub uninterp spec fn member_set(text: Seq<char>, key: Seq<char>, value: Seq<char>) -> MemberUpdateView;

/// Parses the text with `serde_json`, sets the member when it is an object
/// (`Map::insert`), and writes it again with `serde_json::to_string`.  The
/// contract names the result.
#[verifier::external_body]
pub(crate) fn set_string_member(text: &str, key: &str, value: &str) -> (r: MemberUpdate)
    ensures
        r@ == member_set(text@, key@, value@),
{
    match serde_json::from_str::<serde_json::Value>(text) {
        Err(_) => MemberUpdate::Invalid,
        Ok(serde_json::Value::Object(mut m)) => {
            m.insert(key.to_string(), serde_json::Value::String(value.to_string()));
            MemberUpdate::Updated(serde_json::Value::Object(m).to_string())
        },
        Ok(v) => MemberUpdate::Unchanged(v.to_string()),
    }
}

/// The JSON text a language-model configuration is stored with: its text
/// (`{}` when empty) with `provider` set; text that is not JSON is taken
/// as an empty object.
pub open spec fn stored_llm_json(json_data: Seq<char>, provider: Seq<char>) -> Seq<char> {
    let text = if json_data.len() == 0 { "{}"@ } else { json_data };
    match member_set(text, "provider"@, provider) {
        MemberUpdateView::Invalid => "{\"provider\":"@ + json_quoted(provider) + "}"@,
        MemberUpdateView::Unchanged(t) => t,
        MemberUpdateView::Updated(t) => t,
    }
}

/// Settles the provider of a language-model configuration before it is
/// stored: the provider is decided from the configuration (see the model
/// factory) and recorded both in the row and in its JSON.
pub fn prepare_llm_config(body: &mut ConfigInput)
    ensures
        ({
            let text = if old(body).json_data@.len() == 0 { "{}"@ } else { old(body).json_data@ };
            let p = normalized_llm_provider(old(body).config_id@, old(body).provider@, LlmConfig::view_of_json(text));
            &&& final(body).provider@ == p
            &&& final(body).json_data@ == stored_llm_json(old(body).json_data@, p)
            &&& final(body).kind == old(body).kind
            &&& final(body).name == old(body).name
            &&& final(body).config_id == old(body).config_id
            &&& final(body).enabled == old(body).enabled
            &&& final(body).is_default == old(body).is_default
        }),
{
    if body.json_data.as_str().is_empty() {
        body.json_data = owned("{}");
    }
    let cfg = LlmConfig::from_json(body.json_data.as_str());
    let provider = normalize_llm_provider(body.config_id.as_str(), body.provider.as_str(), &cfg);
    let json = match set_string_member(body.json_data.as_str(), "provider", provider.as_str()) {
        MemberUpdate::Invalid => {
            let q = json_quote(provider.as_str());
            concat3("{\"provider\":", q.as_str(), "}")
        },
        MemberUpdate::Unchanged(t) => t,
        MemberUpdate::Updated(t) => t,
    };
    proof {
        reveal_strlit("{}");
        reveal_strlit("");
    }
    body.provider = provider;
    body.json_data = json;
}

/// The provider a seeded configuration of `kind` is recorded with: for a
/// language model the one decided from its settings (see the model
/// factory), else the section's own.
pub open spec fn seeded_provider(kind: Seq<char>, provider: Seq<char>, settings: Seq<char>) -> Seq<char> {
    if kind == "llm"@ {
        normalized_llm_provider(provider, provider, LlmConfig::view_of_json(settings))
    } else {
        provider
    }
}

/// The JSON a seeded configuration is stored with: for a language model
/// its settings with `provider` set when they are an object (rewritten by
/// `serde_json` when they are JSON but not an object), else the settings.
pub open spec fn seeded_json(kind: Seq<char>, provider: Seq<char>, settings: Seq<char>) -> Seq<char> {
    if kind == "llm"@ {
        match member_set(settings, "provider"@, seeded_provider(kind, provider, settings)) {
            MemberUpdateView::Invalid => settings,
            MemberUpdateView::Unchanged(t) => t,
            MemberUpdateView::Updated(t) => t,
        }
    } else {
        settings
    }
}

/// The default configuration of `kind` seeded from a section of the
/// configuration file: none when the section names no provider, else one
/// enabled default row named `默认{kind}配置` whose id is the provider's
/// name.  `settings` is the JSON text of the provider's settings in the
/// section (`{}` when the section has none for it).
pub fn seed_config(kind: &str, provider: &str, settings: &str) -> (r: Option<ConfigInput>)
    ensures
        r is None <==> provider@.len() == 0,
        r matches Some(c) ==> {
            &&& c.kind@ == kind@
            &&& c.name@ == "默认"@ + kind@ + "配置"@
            &&& c.config_id@ == provider@
            &&& c.provider@ == seeded_provider(kind@, provider@, settings@)
            &&& c.json_data@ == seeded_json(kind@, provider@, settings@)
            &&& c.enabled
            &&& c.is_default
        },
{
    if provider.is_empty() {
        return None;
    }
    proof {
        reveal_strlit("llm");
    }
    let (p, json) = if eq_str(kind, "llm") {
        let cfg = LlmConfig::from_json(settings);
        let p = normalize_llm_provider(provider, provider, &cfg);
        let json = match set_string_member(settings, "provider", p.as_str()) {
            MemberUpdate::Invalid => owned(settings),
            MemberUpdate::Unchanged(t) => t,
            MemberUpdate::Updated(t) => t,
        };
        (p, json)
    } else {
        (owned(provider), owned(settings))
    };
    Some(ConfigInput {
        kind: owned(kind),
        name: concat3("默认", kind, "配置"),
        config_id: owned(provider),
        provider: p,
        json_data: json,
        enabled: true,
        is_default: true,
    })
}

/// A section of the configuration file that can seed a kind of
/// configuration: the kind, the provider it names, the JSON of that
/// provider's settings, and how many rows of the kind the database has.
#[derive(Debug, Clone)]
pub struct SeedSection {
    pub kind: String,
    pub provider: String,
    pub settings: String,
    pub existing_rows: u64,
}

/// What a fresh database is seeded with besides the sections: the JSON of
/// the authentication settings, the JSON of the chat settings (after
/// `ChatSettings::seeded`), the vision base settings, and how many rows of
/// each of these kinds the database has.
#[derive(Debug, Clone)]
pub struct SeedDefaults {
    pub auth_json: String,
    pub auth_rows: u64,
    pub chat_json: String,
    pub chat_rows: u64,
    pub vision_enable_auth: bool,
    pub vision_url: String,
    pub vision_rows: u64,
}

/// The row a section seeds, if any.
pub open spec fn section_row(sec: SeedSection) -> Option<crate::manager::imported_services::InputView> {
    if sec.existing_rows > 0 || sec.provider@.len() == 0 {
        None
    } else {
        Some((
            sec.kind@,
            "默认"@ + sec.kind@ + "配置"@,
            sec.provider@,
            seeded_provider(sec.kind@, sec.provider@, sec.settings@),
            seeded_json(sec.kind@, sec.provider@, sec.settings@),
            true,
            true,
        ))
    }
}

/// The rows the first `k` sections seed, in order.
pub open spec fn section_rows(secs: Seq<SeedSection>, k: nat) -> Seq<crate::manager::imported_services::InputView>
    decreases k,
{
    if k == 0 {
        Seq::empty()
    } else {
        let prev = section_rows(secs, (k - 1) as nat);
        match section_row(secs[k - 1]) {
            Some(row) => prev.push(row),
            None => prev,
        }
    }
}

/// A default row of a kind without a provider, stored under the id `default`.
pub open spec fn default_row(kind: Seq<char>, name: Seq<char>, json: Seq<char>) -> crate::manager::imported_services::InputView {
    (kind, name, "default"@, Seq::empty(), json, true, true)
}

/// The JSON of the vision base settings.
pub open spec fn vision_base_json(enable_auth: bool, url: Seq<char>) -> Seq<char> {
    "{\"enable_auth\":"@ + (if enable_auth { "true"@ } else { "false"@ }) + ",\"vision_url\":"@ + json_quoted(url) + "}"@
}

/// Everything a fresh database is seeded with: the sections' rows, then
/// the authentication, chat and vision base defaults, each only when the
/// database has no row of its kind.
pub open spec fn seed_rows(secs: Seq<SeedSection>, d: SeedDefaults) -> Seq<crate::manager::imported_services::InputView> {
    let a = section_rows(secs, secs.len());
    let b = if d.auth_rows == 0 { a.push(default_row("auth"@, "默认认证配置"@, d.auth_json@)) } else { a };
    let c = if d.chat_rows == 0 { b.push(default_row("chat"@, "默认聊天配置"@, d.chat_json@)) } else { b };
    if d.vision_rows == 0 {
        c.push(default_row("vision_base"@, "默认 Vision 基础配置"@, vision_base_json(d.vision_enable_auth, d.vision_url@)))
    } else {
        c
    }
}

fn default_input(kind: &str, name: &str, json: String) -> (r: ConfigInput)
    ensures
        crate::manager::imported_services::input_view(r) == default_row(kind@, name@, json@),
{
    proof {
        reveal_strlit("default");
        reveal_strlit("");
    }
    ConfigInput {
        kind: owned(kind),
        name: owned(name),
        config_id: owned("default"),
        provider: owned(""),
        json_data: json,
        enabled: true,
        is_default: true,
    }
}

/// Lists the rows a fresh database is seeded with from the configuration
/// file; a kind that already has rows is left as it is.
pub fn seed_configs(sections: &Vec<SeedSection>, defaults: &SeedDefaults) -> (r: Vec<ConfigInput>)
    ensures
        r@.map_values(|c: ConfigInput| crate::manager::imported_services::input_view(c)) == seed_rows(sections@, *defaults),
{
    let mut out: Vec<ConfigInput> = Vec::new();
    let mut i: usize = 0;
    while i < sections.len()
        invariant
            i <= sections@.len(),
            out@.map_values(|c: ConfigInput| crate::manager::imported_services::input_view(c)) == section_rows(sections@, i as nat),
        decreases sections.len() - i,
    {
        let sec = &sections[i];
        let ghost before = out@.map_values(|c: ConfigInput| crate::manager::imported_services::input_view(c));
        if sec.existing_rows == 0 {
            match seed_config(sec.kind.as_str(), sec.provider.as_str(), sec.settings.as_str()) {
                Some(c) => {
                    out.push(c);
                    assert(out@.map_values(|c: ConfigInput| crate::manager::imported_services::input_view(c))
                        =~= before.push(section_row(sections@[i as int]).unwrap()));
                },
                None => {},
            }
        }
        i = i + 1;
    }
    let ghost before_defaults = out@.map_values(|c: ConfigInput| crate::manager::imported_services::input_view(c));
    proof {
        reveal_strlit("auth");
        reveal_strlit("默认认证配置");
        reveal_strlit("chat");
        reveal_strlit("默认聊天配置");
        reveal_strlit("vision_base");
        reveal_strlit("默认 Vision 基础配置");
        reveal_strlit("{\"enable_auth\":");
        reveal_strlit("true");
        reveal_strlit("false");
        reveal_strlit(",\"vision_url\":");
        reveal_strlit("}");
    }
    let ghost a = out@.map_values(|c: ConfigInput| crate::manager::imported_services::input_view(c));
    if defaults.auth_rows == 0 {
        out.push(default_input("auth", "默认认证配置", owned(defaults.auth_json.as_str())));
    }
    let ghost b = out@.map_values(|c: ConfigInput| crate::manager::imported_services::input_view(c));
    assert(b =~= if defaults.auth_rows == 0 { a.push(default_row("auth"@, "默认认证配置"@, defaults.auth_json@)) } else { a });
    if defaults.chat_rows == 0 {
        out.push(default_input("chat", "默认聊天配置", owned(defaults.chat_json.as_str())));
    }
    let ghost c = out@.map_values(|c: ConfigInput| crate::manager::imported_services::input_view(c));
    assert(c =~= if defaults.chat_rows == 0 { b.push(default_row("chat"@, "默认聊天配置"@, defaults.chat_json@)) } else { b });
    if defaults.vision_rows == 0 {
        let q = json_quote(defaults.vision_url.as_str());
        let head = concat3("{\"enable_auth\":", if defaults.vision_enable_auth { "true" } else { "false" }, ",\"vision_url\":");
        let json = concat3(head.as_str(), q.as_str(), "}");
        assert(json@ =~= vision_base_json(defaults.vision_enable_auth, defaults.vision_url@));
        out.push(default_input("vision_base", "默认 Vision 基础配置", json));
    }
    let ghost e = out@.map_values(|c: ConfigInput| crate::manager::imported_services::input_view(c));
    assert(e =~= seed_rows(sections@, *defaults));
    out
}

/// The outcome of removing member `key` from a JSON text.
pub uninterp spec fn member_removed(text: Seq<char>, key: Seq<char>) -> MemberUpdateView;

/// Parses the text with `serde_json`, removes the member when it is an
/// object (`Map::remove`), and writes it again with
/// `serde_json::to_string`.  The contract names the result.
#[verifier::external_body]
fn remove_member(text: &str, key: &str) -> (r: MemberUpdate)
    ensures
        r@ == member_removed(text@, key@),
{
    match serde_json::from_str::<serde_json::Value>(text) {
        Err(_) => MemberUpdate::Invalid,
        Ok(serde_json::Value::Object(mut m)) => {
            m.remove(key);
            MemberUpdate::Updated(serde_json::Value::Object(m).to_string())
        },
        Ok(v) => MemberUpdate::Unchanged(v.to_string()),
    }
}

/// The text after an update, or the text as it was when it is not JSON.
pub open spec fn updated_text(u: MemberUpdateView, text: Seq<char>) -> Seq<char> {
    match u {
        MemberUpdateView::Invalid => text,
        MemberUpdateView::Unchanged(t) => t,
        MemberUpdateView::Updated(t) => t,
    }
}

fn update_text(u: MemberUpdate, text: &str) -> (r: String)
    ensures
        r@ == updated_text(u@, text@),
{
    match u {
        MemberUpdate::Invalid => owned(text),
        MemberUpdate::Unchanged(t) => t,
        MemberUpdate::Updated(t) => t,
    }
}

/// The members a speech-synthesis configuration is stripped of before a
/// test: bookkeeping of the console, not settings of the provider.
pub open spec fn tts_meta_keys() -> Seq<Seq<char>> {
    seq!["name"@, "config_id"@, "enabled"@, "is_default"@, "double_stream"@, "type"@]
}

/// The text with the first `n` bookkeeping members removed in turn.
pub open spec fn without_meta(text: Seq<char>, n: nat) -> Seq<char>
    decreases n,
{
    if n == 0 {
        text
    } else {
        let before = without_meta(text, (n - 1) as nat);
        updated_text(member_removed(before, tts_meta_keys()[n - 1]), before)
    }
}

/// The settings of a speech-synthesis configuration as sent to a test:
/// without the bookkeeping members, with `provider` set to its pool.
pub open spec fn tts_test_config(stored: Seq<char>, config: Seq<char>) -> Seq<char> {
    let stripped = without_meta(config, 6);
    updated_text(member_set(stripped, "provider"@, pool_key(stored, config, "doubao_ws"@)), stripped)
}

/// What a configuration test is sent: the pool of the server to test with
/// and the settings to test.
#[derive(Debug, Clone)]
pub struct TestTarget {
    pub pool_key: String,
    pub config: String,
}

/// The target of a test of a configuration of `kind` with id `config_id`,
/// stored provider `stored` and settings `config` (taken as `{}` when not
/// JSON).  A language model is tested under its id, with its decided
/// provider and its id set in its settings; speech recognition, synthesis
/// and memory under their pools, synthesis without bookkeeping members
/// and with its pool as provider; anything else under the stored provider.
pub open spec fn test_target_of(
    kind: Seq<char>,
    config_id: Seq<char>,
    stored: Seq<char>,
    config: Seq<char>,
) -> (Seq<char>, Seq<char>) {
    let text = if json_is_valid(config) { config } else { "{}"@ };
    if kind == "llm"@ {
        let p = normalized_llm_provider(config_id, stored, LlmConfig::view_of_json(text));
        let with_provider = updated_text(member_set(text, "provider"@, p), text);
        (config_id, updated_text(member_set(with_provider, "config_id"@, config_id), with_provider))
    } else if kind == "asr"@ {
        (pool_key(stored, text, "funasr"@), text)
    } else if kind == "tts"@ {
        let t = tts_test_config(stored, text);
        (pool_key(stored, t, "doubao_ws"@), t)
    } else if kind == "memory"@ {
        (pool_key(stored, text, "nomemo"@), text)
    } else {
        (stored, text)
    }
}

/// Works out what a test of a configuration is sent.
pub fn test_target(kind: &str, config_id: &str, stored: &str, config: &str) -> (r: TestTarget)
    ensures
        (r.pool_key@, r.config@) == test_target_of(kind@, config_id@, stored@, config@),
{
    proof {
        reveal_strlit("{}");
        reveal_strlit("llm");
        reveal_strlit("asr");
        reveal_strlit("tts");
        reveal_strlit("memory");
    }
    let text = if json_text_is_valid(config) { owned(config) } else { owned("{}") };
    if eq_str(kind, "llm") {
        let cfg = LlmConfig::from_json(text.as_str());
        let p = normalize_llm_provider(config_id, stored, &cfg);
        let with_provider = update_text(set_string_member(text.as_str(), "provider", p.as_str()), text.as_str());
        let t = update_text(
            set_string_member(with_provider.as_str(), "config_id", config_id),
            with_provider.as_str(),
        );
        TestTarget { pool_key: owned(config_id), config: t }
    } else if eq_str(kind, "asr") {
        TestTarget { pool_key: resolve_asr_pool_key(stored, text.as_str()), config: text }
    } else if eq_str(kind, "tts") {
        let t = prepare_tts_config(stored, text.as_str());
        TestTarget { pool_key: resolve_tts_pool_key(stored, t.as_str()), config: t }
    } else if eq_str(kind, "memory") {
        TestTarget { pool_key: resolve_memory_pool_key(stored, text.as_str()), config: text }
    } else {
        TestTarget { pool_key: owned(stored), config: text }
    }
}

/// Strips a speech-synthesis configuration for a test and sets its pool
/// as its provider.
fn prepare_tts_config(stored: &str, config: &str) -> (r: String)
    ensures
        r@ == tts_test_config(stored@, config@),
{
    let provider = resolve_tts_pool_key(stored, config);
    let keys: [&str; 6] = ["name", "config_id", "enabled", "is_default", "double_stream", "type"];
    proof {
        reveal_strlit("name");
        reveal_strlit("config_id");
        reveal_strlit("enabled");
        reveal_strlit("is_default");
        reveal_strlit("double_stream");
        reveal_strlit("type");
        assert(keys@.map_values(|k: &str| k@) =~= tts_meta_keys());
    }
    let mut t = owned(config);
    let mut i: usize = 0;
    while i < 6
        invariant
            0 <= i <= 6,
            keys@.map_values(|k: &str| k@) == tts_meta_keys(),
            t@ == without_meta(config@, i as nat),
        decreases 6 - i,
    {
        let k = keys[i];
        assert(k@ == tts_meta_keys()[i as int]);
        let next = update_text(remove_member(t.as_str(), k), t.as_str());
        t = next;
        i = i + 1;
    }
    update_text(set_string_member(t.as_str(), "provider", provider.as_str()), t.as_str())
}

} // verus!
