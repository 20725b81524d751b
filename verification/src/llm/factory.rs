//! Choosing a language-model backend from a stored configuration: the
//! provider name, the protocol family, and the default endpoint.
use vstd::prelude::*;
use crate::json_fields::{is_json_object, json_is_object, json_top_field, read_json_field, JsonField, JsonFieldView};
use crate::text::{
    contains, contains_str, eq_str, lowercase, owned, to_lowercase, trim, trim_str,
};

verus! {

broadcast use vstd::string::group_string_axioms;

/// Protocol families of the model backends.
pub const OPENAI: &'static str = "openai";
pub const OLLAMA: &'static str = "ollama";
pub const DIFY: &'static str = "dify";
pub const COZE: &'static str = "coze";
pub const EINO: &'static str = "eino";
pub const EINO_LLM: &'static str = "eino_llm";

/// The members of a model configuration that the choice reads and writes.
/// `is_object` is false when the configuration is not a JSON object; such a
/// configuration has no members and cannot be written to.
#[derive(Debug, Clone)]
pub struct LlmConfig {
    pub is_object: bool,
    pub provider: JsonField,
    pub llm_type: JsonField,
    pub base_url: JsonField,
    pub api_url: JsonField,
}

/// What the choice sees of a model configuration.
pub struct LlmConfigView {
    pub is_object: bool,
    pub provider: JsonFieldView,
    pub llm_type: JsonFieldView,
    pub base_url: JsonFieldView,
    pub api_url: JsonFieldView,
}

impl View for LlmConfig {
    type V = LlmConfigView;

    open spec fn view(&self) -> LlmConfigView {
        LlmConfigView {
            is_object: self.is_object,
            provider: self.provider@,
            llm_type: self.llm_type@,
            base_url: self.base_url@,
            api_url: self.api_url@,
        }
    }
}

/// What a top-level member of a JSON document is (absent when the text is
/// not JSON).
pub open spec fn member_view(text: Seq<char>, key: Seq<char>) -> JsonFieldView {
    match json_top_field(text, key) {
        Some(f) => f,
        None => JsonFieldView::Absent,
    }
}

fn member_of(text: &str, key: &str) -> (r: JsonField)
    ensures
        r@ == member_view(text@, key@),
{
    match read_json_field(text, key) {
        Some(f) => f,
        None => JsonField::Absent,
    }
}

impl LlmConfig {
    /// What the choice sees of a configuration given as JSON text.
    pub open spec fn view_of_json(text: Seq<char>) -> LlmConfigView {
        LlmConfigView {
            is_object: is_json_object(text),
            provider: member_view(text, "provider"@),
            llm_type: member_view(text, "type"@),
            base_url: member_view(text, "base_url"@),
            api_url: member_view(text, "api_url"@),
        }
    }

    /// The members the choice reads, from a configuration's JSON text.
    pub fn from_json(config_json: &str) -> (r: Self)
        ensures
            r@ == LlmConfig::view_of_json(config_json@),
            r.is_object == is_json_object(config_json@),
            r.provider@ == member_view(config_json@, "provider"@),
            r.llm_type@ == member_view(config_json@, "type"@),
            r.base_url@ == member_view(config_json@, "base_url"@),
            r.api_url@ == member_view(config_json@, "api_url"@),
    {
        LlmConfig {
            is_object: json_is_object(config_json),
            provider: member_of(config_json, "provider"),
            llm_type: member_of(config_json, "type"),
            base_url: member_of(config_json, "base_url"),
            api_url: member_of(config_json, "api_url"),
        }
    }
}

/// The backend a configuration is served by.
#[derive(Debug, Clone, Copy, PartialEq, Eq, Structural)]
pub enum LlmBackend {
    OpenAi,
    Dify,
    Coze,
}

/// The text of a member, if it is a string.
pub open spec fn member_text(f: JsonFieldView) -> Option<Seq<char>> {
    match f {
        JsonFieldView::Text(s) => Some(s),
        _ => None,
    }
}

/// The text of a member, or empty.
pub open spec fn member_text_or_empty(f: JsonFieldView) -> Seq<char> {
    match f {
        JsonFieldView::Text(s) => s,
        _ => Seq::empty(),
    }
}

fn text_of(f: &JsonField) -> (r: Option<String>)
    ensures
        crate::text::opt_view(r) == member_text(f@),
{
    match f {
        JsonField::Text(s) => Some(s.clone()),
        _ => None,
    }
}

fn text_or_empty(f: &JsonField) -> (r: String)
    ensures
        r@ == member_text_or_empty(f@),
{
    match f {
        JsonField::Text(s) => s.clone(),
        _ => String::new(),
    }
}

/// Provider names the console knows.
pub open spec fn known_providers() -> Seq<Seq<char>> {
    seq![
        "openai"@, "ollama"@, "azure"@, "anthropic"@, "zhipu"@, "aliyun"@, "doubao"@,
        "siliconflow"@, "deepseek"@, "dify"@, "coze"@,
    ]
}

/// A candidate name, trimmed and lower-cased, when it is a known provider.
pub open spec fn known_provider(p: Seq<char>) -> Option<Seq<char>> {
    let q = lowercase(trim(p));
    if q.len() > 0 && known_providers().contains(q) { Some(q) } else { None }
}

/// Looks a candidate name up among the known providers.
pub fn known_llm_provider(provider: &str) -> (r: Option<String>)
    ensures
        crate::text::opt_view(r) == known_provider(provider@),
{
    let q = to_lowercase(trim_str(provider).as_str());
    if q.as_str().is_empty() {
        return None;
    }
    let names: Vec<&'static str> = vec![
        "openai", "ollama", "azure", "anthropic", "zhipu", "aliyun", "doubao", "siliconflow",
        "deepseek", "dify", "coze",
    ];
    let ghost nv = names@.map_values(|s: &str| s@);
    assert(nv =~= known_providers());
    let mut i: usize = 0;
    while i < names.len()
        invariant
            i <= names.len(),
            nv == names@.map_values(|s: &str| s@),
            nv == known_providers(),
            q@ == lowercase(trim(provider@)),
            q@.len() > 0,
            forall|j: int| 0 <= j < i ==> nv[j] != q@,
        decreases names.len() - i,
    {
        assert(nv[i as int] == names@[i as int]@);
        if eq_str(names[i], q.as_str()) {
            assert(known_providers()[i as int] == q@);
            return Some(q);
        }
        i = i + 1;
    }
    None
}

/// The endpoint text a configuration names: `base_url` when the member is
/// present, else `api_url`; empty when it is not a string.
pub open spec fn endpoint_text(cfg: LlmConfigView) -> Seq<char> {
    match cfg.base_url {
        JsonFieldView::Absent => member_text_or_empty(cfg.api_url),
        b => member_text_or_empty(b),
    }
}

/// Endpoint fragments that identify a provider, in order of precedence.
pub open spec fn endpoint_markers() -> Seq<(Seq<Seq<char>>, Seq<char>)> {
    seq![
        (seq!["openai.azure.com"@], "azure"@),
        (seq!["anthropic.com"@], "anthropic"@),
        (seq!["bigmodel.cn"@], "zhipu"@),
        (seq!["dashscope.aliyuncs.com"@], "aliyun"@),
        (seq!["volces.com"@, "volcengineapi.com"@, "ark.cn-"@], "doubao"@),
        (seq!["siliconflow.cn"@], "siliconflow"@),
        (seq!["deepseek.com"@], "deepseek"@),
        (seq!["localhost:11434"@, "127.0.0.1:11434"@], "ollama"@),
    ]
}

/// `url` holds one of `frags`.
pub open spec fn holds_any(url: Seq<char>, frags: Seq<Seq<char>>) -> bool {
    exists|k: int| 0 <= k < frags.len() && contains(url, #[trigger] frags[k])
}

/// The provider of the first marker (from `i` on) that `url` holds.
pub open spec fn first_marker(url: Seq<char>, i: nat) -> Option<Seq<char>>
    decreases endpoint_markers().len() - i,
{
    if i >= endpoint_markers().len() {
        None
    } else if holds_any(url, endpoint_markers()[i as int].0) {
        Some(endpoint_markers()[i as int].1)
    } else {
        first_marker(url, i + 1)
    }
}

/// The provider an endpoint address reveals, if any.
pub open spec fn provider_from_endpoint(cfg: LlmConfigView) -> Option<Seq<char>> {
    let url = lowercase(endpoint_text(cfg));
    if url.len() == 0 { None } else { first_marker(url, 0) }
}

fn holds_any_exec(url: &str, frags: &Vec<&'static str>) -> (r: bool)
    ensures
        r == holds_any(url@, frags@.map_values(|s: &str| s@)),
{
    let ghost fv = frags@.map_values(|s: &str| s@);
    let mut k: usize = 0;
    while k < frags.len()
        invariant
            k <= frags.len(),
            fv == frags@.map_values(|s: &str| s@),
            forall|j: int| 0 <= j < k ==> !contains(url@, #[trigger] fv[j]),
        decreases frags.len() - k,
    {
        assert(fv[k as int] == frags@[k as int]@);
        if contains_str(url, frags[k]) {
            return true;
        }
        k = k + 1;
    }
    false
}

/// Infers the provider from the configured endpoint address.
pub fn infer_llm_provider_from_base_url(config: &LlmConfig) -> (r: Option<String>)
    ensures
        crate::text::opt_view(r) == provider_from_endpoint(config@),
{
    let raw = match &config.base_url {
        JsonField::Absent => text_or_empty(&config.api_url),
        b => text_or_empty(b),
    };
    let url = to_lowercase(raw.as_str());
    if url.as_str().is_empty() {
        return None;
    }
    let markers: Vec<(Vec<&'static str>, &'static str)> = vec![
        (vec!["openai.azure.com"], "azure"),
        (vec!["anthropic.com"], "anthropic"),
        (vec!["bigmodel.cn"], "zhipu"),
        (vec!["dashscope.aliyuncs.com"], "aliyun"),
        (vec!["volces.com", "volcengineapi.com", "ark.cn-"], "doubao"),
        (vec!["siliconflow.cn"], "siliconflow"),
        (vec!["deepseek.com"], "deepseek"),
        (vec!["localhost:11434", "127.0.0.1:11434"], "ollama"),
    ];
    let ghost mv = markers@.map_values(|m: (Vec<&'static str>, &'static str)| (m.0@.map_values(|s: &str| s@), m.1@));
    assert(mv =~= endpoint_markers()) by {
        assert(markers@[0].0@.map_values(|s: &str| s@) =~= seq!["openai.azure.com"@]);
        assert(markers@[1].0@.map_values(|s: &str| s@) =~= seq!["anthropic.com"@]);
        assert(markers@[2].0@.map_values(|s: &str| s@) =~= seq!["bigmodel.cn"@]);
        assert(markers@[3].0@.map_values(|s: &str| s@) =~= seq!["dashscope.aliyuncs.com"@]);
        assert(markers@[4].0@.map_values(|s: &str| s@) =~= seq!["volces.com"@, "volcengineapi.com"@, "ark.cn-"@]);
        assert(markers@[5].0@.map_values(|s: &str| s@) =~= seq!["siliconflow.cn"@]);
        assert(markers@[6].0@.map_values(|s: &str| s@) =~= seq!["deepseek.com"@]);
        assert(markers@[7].0@.map_values(|s: &str| s@) =~= seq!["localhost:11434"@, "127.0.0.1:11434"@]);
    }
    let mut i: usize = 0;
    while i < markers.len()
        invariant
            i <= markers.len(),
            mv == markers@.map_values(|m: (Vec<&'static str>, &'static str)| (m.0@.map_values(|s: &str| s@), m.1@)),
            mv == endpoint_markers(),
            url@.len() > 0,
            provider_from_endpoint(config@) == first_marker(url@, i as nat),
        decreases markers.len() - i,
    {
        assert(mv[i as int] == (markers@[i as int].0@.map_values(|s: &str| s@), markers@[i as int].1@));
        if holds_any_exec(url.as_str(), &markers[i].0) {
            return Some(owned(markers[i].1));
        }
        i = i + 1;
    }
    None
}

/// The configured `type`, trimmed and lower-cased (empty when missing).
pub open spec fn configured_type(cfg: LlmConfigView) -> Seq<char> {
    match member_text(cfg.llm_type) {
        Some(t) => lowercase(trim(t)),
        None => Seq::empty(),
    }
}

/// The provider a configuration belongs to.  An endpoint address decides
/// first; then the first known name among the configuration's `provider`,
/// the stored provider and the configuration id; then a known `type` other
/// than `openai`; then `openai` for an OpenAI or missing type; else the
/// stored provider or the id, lower-cased.
pub open spec fn normalized_llm_provider(config_id: Seq<char>, stored: Seq<char>, cfg: LlmConfigView) -> Seq<char> {
    let from_cfg = member_text_or_empty(cfg.provider);
    let ty = configured_type(cfg);
    if provider_from_endpoint(cfg) is Some {
        provider_from_endpoint(cfg).unwrap()
    } else if known_provider(from_cfg) is Some {
        known_provider(from_cfg).unwrap()
    } else if known_provider(stored) is Some {
        known_provider(stored).unwrap()
    } else if known_provider(config_id) is Some {
        known_provider(config_id).unwrap()
    } else if known_provider(ty) is Some && known_provider(ty).unwrap() != "openai"@ {
        known_provider(ty).unwrap()
    } else if ty == "openai"@ || ty.len() == 0 {
        "openai"@
    } else if trim(stored).len() > 0 {
        lowercase(trim(stored))
    } else {
        lowercase(trim(config_id))
    }
}

/// Decides which provider a stored model configuration belongs to.
pub fn normalize_llm_provider(config_id: &str, stored_provider: &str, config: &LlmConfig) -> (r: String)
    ensures
        r@ == normalized_llm_provider(config_id@, stored_provider@, config@),
{
    if let Some(p) = infer_llm_provider_from_base_url(config) {
        return p;
    }
    let from_cfg = text_or_empty(&config.provider);
    if let Some(p) = known_llm_provider(from_cfg.as_str()) {
        return p;
    }
    if let Some(p) = known_llm_provider(stored_provider) {
        return p;
    }
    if let Some(p) = known_llm_provider(config_id) {
        return p;
    }
    let ty = match text_of(&config.llm_type) {
        Some(t) => to_lowercase(trim_str(t.as_str()).as_str()),
        None => String::new(),
    };
    if let Some(p) = known_llm_provider(ty.as_str()) {
        if !eq_str(p.as_str(), "openai") {
            return p;
        }
    }
    if eq_str(ty.as_str(), "openai") || ty.as_str().is_empty() {
        return owned("openai");
    }
    let fallback = trim_str(stored_provider);
    if !fallback.as_str().is_empty() {
        return to_lowercase(fallback.as_str());
    }
    to_lowercase(trim_str(config_id).as_str())
}

/// The provider name used for choices: the given one, or the
/// configuration's `provider` when the given one is blank; trimmed and
/// lower-cased.
pub open spec fn effective_provider(provider: Seq<char>, cfg: LlmConfigView) -> Seq<char> {
    let p = lowercase(trim(provider));
    if p.len() == 0 {
        match member_text(cfg.provider) {
            Some(q) => lowercase(trim(q)),
            None => p,
        }
    } else {
        p
    }
}

fn effective_provider_exec(provider: &str, config: &LlmConfig) -> (r: String)
    ensures
        r@ == effective_provider(provider@, config@),
{
    let p = to_lowercase(trim_str(provider).as_str());
    if p.as_str().is_empty() {
        if let Some(q) = text_of(&config.provider) {
            return to_lowercase(trim_str(q.as_str()).as_str());
        }
    }
    p
}

/// The protocol family of a configuration: `ollama`, `dify` or `coze` when
/// the provider (or, for the OpenAI provider or an unknown one, the type)
/// says so; `openai` otherwise.
pub open spec fn llm_type_of(provider: Seq<char>, cfg: LlmConfigView) -> Seq<char> {
    let p = effective_provider(provider, cfg);
    let t = configured_type(cfg);
    let named = p == "openai"@ || p == "azure"@ || p == "anthropic"@ || p == "zhipu"@
        || p == "aliyun"@ || p == "doubao"@ || p == "siliconflow"@ || p == "deepseek"@;
    if p == "openai"@ && (t == OLLAMA@ || t == DIFY@ || t == COZE@) {
        t
    } else if p == "ollama"@ {
        OLLAMA@
    } else if p == "dify"@ {
        DIFY@
    } else if p == "coze"@ {
        COZE@
    } else if named {
        OPENAI@
    } else if t == OLLAMA@ || t == DIFY@ || t == COZE@ {
        t
    } else {
        OPENAI@
    }
}

/// Decides the protocol family of a configuration.
pub fn resolve_llm_type(provider: &str, config: &LlmConfig) -> (r: String)
    ensures
        r@ == llm_type_of(provider@, config@),
{
    let p = effective_provider_exec(provider, config);
    let t = match text_of(&config.llm_type) {
        Some(x) => to_lowercase(trim_str(x.as_str()).as_str()),
        None => String::new(),
    };
    let ps = p.as_str();
    let ts = t.as_str();
    let family = eq_str(ts, OLLAMA) || eq_str(ts, DIFY) || eq_str(ts, COZE);
    if eq_str(ps, "openai") && family {
        return t;
    }
    if eq_str(ps, "ollama") {
        return owned(OLLAMA);
    }
    if eq_str(ps, "dify") {
        return owned(DIFY);
    }
    if eq_str(ps, "coze") {
        return owned(COZE);
    }
    if eq_str(ps, "openai") || eq_str(ps, "azure") || eq_str(ps, "anthropic") || eq_str(ps, "zhipu")
        || eq_str(ps, "aliyun") || eq_str(ps, "doubao") || eq_str(ps, "siliconflow")
        || eq_str(ps, "deepseek") {
        return owned(OPENAI);
    }
    if family {
        return t;
    }
    owned(OPENAI)
}

/// The provider whose default endpoint applies: the effective provider,
/// except that an `openai` provider of the Ollama, Dify or Coze family is
/// named after that family.
pub open spec fn llm_provider_key(provider: Seq<char>, cfg: LlmConfigView, llm_type: Seq<char>) -> Seq<char> {
    let p = effective_provider(provider, cfg);
    if p == "openai"@ && (llm_type == OLLAMA@ || llm_type == DIFY@ || llm_type == COZE@) {
        llm_type
    } else {
        p
    }
}

/// Decides which provider's defaults apply.
pub fn resolve_llm_provider_name(provider_name: &str, config: &LlmConfig, llm_type: &str) -> (r: String)
    ensures
        r@ == llm_provider_key(provider_name@, config@, llm_type@),
{
    let p = effective_provider_exec(provider_name, config);
    if eq_str(p.as_str(), "openai") && (eq_str(llm_type, OLLAMA) || eq_str(llm_type, DIFY) || eq_str(llm_type, COZE)) {
        return owned(llm_type);
    }
    p
}

/// The documented endpoint of a provider, if it has a fixed one.
pub open spec fn default_endpoint(provider: Seq<char>) -> Option<Seq<char>> {
    if provider == "anthropic"@ {
        Some("https://api.anthropic.com/v1/"@)
    } else if provider == "zhipu"@ {
        Some("https://open.bigmodel.cn/api/paas/v4"@)
    } else if provider == "aliyun"@ {
        Some("https://dashscope.aliyuncs.com/compatible-mode/v1"@)
    } else if provider == "doubao"@ {
        Some("https://ark.cn-beijing.volces.com/api/v3"@)
    } else if provider == "siliconflow"@ {
        Some("https://api.siliconflow.cn/v1"@)
    } else if provider == "deepseek"@ {
        Some("https://api.deepseek.com/v1"@)
    } else {
        None
    }
}

/// The default endpoint of a provider.
pub fn default_base_url(provider: &str) -> (r: Option<&'static str>)
    ensures
        match r {
            Some(u) => default_endpoint(provider@) == Some(u@),
            None => default_endpoint(provider@) is None,
        },
{
    if eq_str(provider, "anthropic") {
        Some("https://api.anthropic.com/v1/")
    } else if eq_str(provider, "zhipu") {
        Some("https://open.bigmodel.cn/api/paas/v4")
    } else if eq_str(provider, "aliyun") {
        Some("https://dashscope.aliyuncs.com/compatible-mode/v1")
    } else if eq_str(provider, "doubao") {
        Some("https://ark.cn-beijing.volces.com/api/v3")
    } else if eq_str(provider, "siliconflow") {
        Some("https://api.siliconflow.cn/v1")
    } else if eq_str(provider, "deepseek") {
        Some("https://api.deepseek.com/v1")
    } else {
        None
    }
}

/// The configuration has a non-blank string `base_url`.
pub open spec fn has_endpoint(cfg: LlmConfigView) -> bool {
    match member_text(cfg.base_url) {
        Some(u) => trim(u).len() > 0,
        None => false,
    }
}

/// A configuration after the default endpoint is applied: an existing
/// endpoint stays; otherwise the provider's default is set, or a
/// non-string `base_url` is removed.  Only an object can change.
pub open spec fn with_default_endpoint(provider: Seq<char>, cfg: LlmConfigView, r: LlmConfigView) -> bool {
    &&& r.is_object == cfg.is_object
    &&& r.provider == cfg.provider
    &&& r.llm_type == cfg.llm_type
    &&& r.api_url == cfg.api_url
    &&& r.base_url == if has_endpoint(cfg) || !cfg.is_object {
        cfg.base_url
    } else {
        match default_endpoint(provider) {
            Some(u) => JsonFieldView::Text(u),
            None => JsonFieldView::Absent,
        }
    }
}

/// Fills in the provider's default endpoint when none is configured.
pub fn apply_default_base_url(provider: &str, config: &mut LlmConfig)
    ensures
        with_default_endpoint(provider@, old(config)@, final(config)@),
{
    let has_url = match &config.base_url {
        JsonField::Text(u) => !trim_str(u.as_str()).as_str().is_empty(),
        _ => false,
    };
    if has_url || !config.is_object {
        return;
    }
    match default_base_url(provider) {
        Some(url) => {
            config.base_url = JsonField::Text(owned(url));
        },
        None => {
            config.base_url = JsonField::Absent;
        },
    }
}

/// What preparing a configuration leads to: the backend for the family, and
/// the configuration with `provider`, `type` and the endpoint settled.
pub open spec fn prepared_llm(pool_key: Seq<char>, cfg: LlmConfigView, r: LlmConfigView, backend: LlmBackend) -> bool {
    let stored = member_text_or_empty(cfg.provider);
    let name = normalized_llm_provider(trim(pool_key), stored, cfg);
    let with_name = if cfg.is_object {
        LlmConfigView { provider: JsonFieldView::Text(name), ..cfg }
    } else {
        cfg
    };
    let ty = llm_type_of(name, with_name);
    let with_type = if cfg.is_object {
        LlmConfigView { llm_type: JsonFieldView::Text(ty), ..with_name }
    } else {
        with_name
    };
    let key = llm_provider_key(name, with_type, ty);
    &&& with_default_endpoint(key, with_type, r)
    &&& backend == if ty == DIFY@ {
        LlmBackend::Dify
    } else if ty == COZE@ {
        LlmBackend::Coze
    } else {
        LlmBackend::OpenAi
    }
}

/// Settles a model configuration before its backend is built: records the
/// normalised provider and the protocol family in it, fills in the default
/// endpoint, and says which backend serves it.
pub fn prepare_llm_config(pool_key: &str, config: &mut LlmConfig) -> (r: LlmBackend)
    ensures
        prepared_llm(pool_key@, old(config)@, final(config)@, r),
{
    let key = trim_str(pool_key);
    let stored = text_or_empty(&config.provider);
    let name = normalize_llm_provider(key.as_str(), stored.as_str(), config);
    if config.is_object {
        config.provider = JsonField::Text(name.clone());
    }
    let ty = resolve_llm_type(name.as_str(), config);
    if config.is_object {
        config.llm_type = JsonField::Text(ty.clone());
    }
    let provider_key = resolve_llm_provider_name(name.as_str(), config, ty.as_str());
    apply_default_base_url(provider_key.as_str(), config);
    if eq_str(ty.as_str(), DIFY) {
        LlmBackend::Dify
    } else if eq_str(ty.as_str(), COZE) {
        LlmBackend::Coze
    } else {
        LlmBackend::OpenAi
    }
}

/// An endpoint address that names a provider decides the provider, whatever
/// the configuration id, the stored provider or the type say.
pub proof fn law_endpoint_decides_provider(config_id: Seq<char>, stored: Seq<char>, cfg: LlmConfigView)
    requires
        provider_from_endpoint(cfg) is Some,
    ensures
        normalized_llm_provider(config_id, stored, cfg) == provider_from_endpoint(cfg).unwrap(),
{
}

/// A configured (non-blank) endpoint is never replaced by a default one.
pub proof fn law_configured_endpoint_kept(provider: Seq<char>, cfg: LlmConfigView, r: LlmConfigView)
    requires
        has_endpoint(cfg),
        with_default_endpoint(provider, cfg, r),
    ensures
        r.base_url == cfg.base_url,
{
}

/// Without an endpoint that names a provider, a known `provider` in the
/// configuration itself decides, whatever the stored provider and the
/// configuration id are.
pub proof fn law_configured_provider_first(config_id: Seq<char>, stored: Seq<char>, cfg: LlmConfigView)
    requires
        provider_from_endpoint(cfg) is None,
        known_provider(member_text_or_empty(cfg.provider)) is Some,
    ensures
        normalized_llm_provider(config_id, stored, cfg) == known_provider(member_text_or_empty(cfg.provider)).unwrap(),
{
}

/// Without an endpoint or a known `provider` in the configuration, a known
/// stored provider decides, whatever the configuration id is: the stored
/// provider is tried before the id.
pub proof fn law_stored_provider_before_id(config_id: Seq<char>, stored: Seq<char>, cfg: LlmConfigView)
    requires
        provider_from_endpoint(cfg) is None,
        known_provider(member_text_or_empty(cfg.provider)) is None,
        known_provider(stored) is Some,
    ensures
        normalized_llm_provider(config_id, stored, cfg) == known_provider(stored).unwrap(),
{
}

/// The configuration id is consulted only when nothing before it is a
/// known name: then a known id decides.
pub proof fn law_id_decides_last_among_names(config_id: Seq<char>, stored: Seq<char>, cfg: LlmConfigView)
    requires
        provider_from_endpoint(cfg) is None,
        known_provider(member_text_or_empty(cfg.provider)) is None,
        known_provider(stored) is None,
        known_provider(config_id) is Some,
    ensures
        normalized_llm_provider(config_id, stored, cfg) == known_provider(config_id).unwrap(),
{
}

/// When no endpoint and none of the configuration's `provider`, the stored
/// provider and the id is a known name, a known `type` other than `openai`
/// gives itself, and otherwise an `openai` or missing `type` gives `openai`.
pub proof fn law_type_decides_after_names(config_id: Seq<char>, stored: Seq<char>, cfg: LlmConfigView)
    requires
        provider_from_endpoint(cfg) is None,
        known_provider(member_text_or_empty(cfg.provider)) is None,
        known_provider(stored) is None,
        known_provider(config_id) is None,
    ensures
        (configured_type(cfg) == "openai"@ || configured_type(cfg).len() == 0)
            && !(known_provider(configured_type(cfg)) is Some && known_provider(configured_type(cfg)).unwrap() != "openai"@)
            ==> normalized_llm_provider(config_id, stored, cfg) == "openai"@,
        (known_provider(configured_type(cfg)) is Some && known_provider(configured_type(cfg)).unwrap() != "openai"@)
            ==> normalized_llm_provider(config_id, stored, cfg) == known_provider(configured_type(cfg)).unwrap(),
{
}

} // verus!
