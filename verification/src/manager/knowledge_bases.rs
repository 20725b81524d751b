//! Creating, editing and removing knowledge bases and their documents in
//! the console: the fields stored, and what is synchronised with the
//! knowledge provider afterwards.
use vstd::prelude::*;
use crate::json_fields::{canonical_json, json_at, json_canonical, read_json_pointer, JsonField, JsonFieldView};
use crate::manager::knowledge_sync::{external_provider, is_external_provider};
use crate::manager::records::KnowledgeBaseRow;
use crate::text::{eq_str, lowercase, owned, to_lowercase, trim, trim_str};

verus! {

broadcast use vstd::string::group_string_axioms;

/// What a user saves for a knowledge base.  `config_json` is the JSON text
/// of its provider settings (none, or `null`, leaves them unset).
#[derive(Debug, Clone)]
pub struct KnowledgeBaseInput {
    pub name: String,
    pub description: String,
    pub provider: String,
    pub status: String,
    pub config_json: Option<String>,
}

/// The fields a knowledge base is stored with.
#[derive(Debug, Clone)]
pub struct KnowledgeBaseFields {
    pub name: String,
    pub description: String,
    pub provider: String,
    pub status: String,
    pub config_json: String,
}

/// The provider settings given, as stored: unset (none or `null`) becomes
/// `fallback`; anything else as `serde_json` writes it (`{}` when not
/// JSON).
pub open spec fn settings_given(config: Option<Seq<char>>, fallback: Seq<char>) -> Seq<char> {
    match config {
        None => fallback,
        Some(t) => if json_at(t, Seq::empty()) == Some(JsonFieldView::Null) {
            fallback
        } else {
            match canonical_json(t) {
                Some(c) => c,
                None => "{}"@,
            }
        },
    }
}

fn settings_text(config: &Option<String>, fallback: &str) -> (r: String)
    ensures
        r@ == settings_given(match config { Some(t) => Some(t@), None => None }, fallback@),
{
    proof {
        reveal_strlit("");
        assert(""@ =~= Seq::<char>::empty());
        reveal_strlit("{}");
    }
    match config {
        None => owned(fallback),
        Some(t) => match read_json_pointer(t.as_str(), "") {
            Some(JsonField::Null) => owned(fallback),
            _ => match json_canonical(t.as_str()) {
                Some(c) => c,
                None => owned("{}"),
            },
        },
    }
}

/// A text of the form, trimmed, or `fallback` when blank.
pub open spec fn trimmed_or(given: Seq<char>, fallback: Seq<char>) -> Seq<char> {
    if trim(given).len() > 0 { trim(given) } else { fallback }
}

/// The provider of the form (trimmed, lower-cased), or `fallback` when
/// blank.
pub open spec fn provider_or(given: Seq<char>, fallback: Seq<char>) -> Seq<char> {
    if trim(given).len() > 0 { lowercase(trim(given)) } else { fallback }
}

/// The fields of a knowledge base saved from a form: refused without a
/// name; the provider, status and settings the form leaves blank are
/// taken from `provider`, `status` and `settings`.
pub open spec fn saved_fields(
    req: KnowledgeBaseInput,
    provider: Seq<char>,
    status: Seq<char>,
    settings: Seq<char>,
) -> Result<(Seq<char>, Seq<char>, Seq<char>, Seq<char>, Seq<char>), Seq<char>> {
    if trim(req.name@).len() == 0 {
        Err("知识库名称不能为空"@)
    } else {
        Ok((
            trim(req.name@),
            trim(req.description@),
            provider_or(req.provider@, provider),
            trimmed_or(req.status@, status),
            settings_given(match req.config_json { Some(t) => Some(t@), None => None }, settings),
        ))
    }
}

/// The plain form of saved fields.
pub open spec fn fields_view(r: Result<KnowledgeBaseFields, String>) -> Result<(Seq<char>, Seq<char>, Seq<char>, Seq<char>, Seq<char>), Seq<char>> {
    match r {
        Ok(f) => Ok((f.name@, f.description@, f.provider@, f.status@, f.config_json@)),
        Err(e) => Err(e@),
    }
}

fn save_fields(req: &KnowledgeBaseInput, provider: &str, status: &str, settings: &str) -> (r: Result<KnowledgeBaseFields, String>)
    ensures
        fields_view(r) == saved_fields(*req, provider@, status@, settings@),
{
    let name = trim_str(req.name.as_str());
    if name.as_str().is_empty() {
        return Err(owned("知识库名称不能为空"));
    }
    let p = trim_str(req.provider.as_str());
    let provider = if p.as_str().is_empty() { owned(provider) } else { to_lowercase(p.as_str()) };
    let s = trim_str(req.status.as_str());
    let status = if s.as_str().is_empty() { owned(status) } else { s };
    Ok(KnowledgeBaseFields {
        name,
        description: trim_str(req.description.as_str()),
        provider,
        status,
        config_json: settings_text(&req.config_json, settings),
    })
}

/// The fields of a new knowledge base: blank provider means the default
/// provider of the console (`default_provider`), blank status `active`,
/// unset settings `{}`.
pub fn new_knowledge_base(req: &KnowledgeBaseInput, default_provider: &str) -> (r: Result<KnowledgeBaseFields, String>)
    ensures
        fields_view(r) == saved_fields(*req, default_provider@, "active"@, "{}"@),
{
    save_fields(req, default_provider, "active", "{}")
}

/// The fields of an edited knowledge base: what the form leaves blank is
/// kept from the stored one.
pub fn edited_knowledge_base(req: &KnowledgeBaseInput, existing: &KnowledgeBaseRow) -> (r: Result<KnowledgeBaseFields, String>)
    ensures
        fields_view(r) == saved_fields(*req, existing.provider@, existing.status@, existing.config_json@),
{
    save_fields(req, existing.provider.as_str(), existing.status.as_str(), existing.config_json.as_str())
}

/// Whether a knowledge base on `provider` is synchronised with an outside
/// service: its provider, trimmed and lower-cased, is neither empty nor
/// `local`.
pub open spec fn synced_provider(provider: Seq<char>) -> bool {
    lowercase(trim(provider)) != "local"@ && lowercase(trim(provider)).len() > 0
}

/// Whether a knowledge base is synchronised with an outside service.
pub fn syncs_externally(provider: &str) -> (r: bool)
    ensures
        r == synced_provider(provider@),
{
    let p = to_lowercase(trim_str(provider).as_str());
    !eq_str(p.as_str(), "local") && !p.as_str().is_empty()
}

/// What removing a knowledge base leaves to clean up at its provider.
#[derive(Debug, Clone, PartialEq, Eq)]
pub enum KnowledgeBaseCleanup {
    /// Nothing: the knowledge base is local.
    Nothing,
    /// The provider's dataset (the knowledge base has no documents).
    Dataset,
    /// Each of its documents, one by one.
    Documents,
}

/// Decides what removing a knowledge base leaves to clean up.
pub fn knowledge_base_cleanup(provider: &str, document_count: usize) -> (r: KnowledgeBaseCleanup)
    ensures
        !synced_provider(provider@) ==> r == KnowledgeBaseCleanup::Nothing,
        synced_provider(provider@) && document_count == 0 ==> r == KnowledgeBaseCleanup::Dataset,
        synced_provider(provider@) && document_count > 0 ==> r == KnowledgeBaseCleanup::Documents,
{
    if !syncs_externally(provider) {
        KnowledgeBaseCleanup::Nothing
    } else if document_count == 0 {
        KnowledgeBaseCleanup::Dataset
    } else {
        KnowledgeBaseCleanup::Documents
    }
}

/// The state a new document starts in, and the answer to its creation: a
/// document of a knowledge base kept at Dify, RAGFlow or WeKnora waits to
/// be synchronised; any other is ready.
pub fn new_document_state(provider: &str) -> (r: (&'static str, &'static str))
    ensures
        external_provider(provider@) ==> r.0@ == "pending"@ && r.1@ == "文档已保存，后台正在同步"@,
        !external_provider(provider@) ==> r.0@ == "ready"@ && r.1@ == "创建成功"@,
{
    proof {
        reveal_strlit("pending");
        reveal_strlit("文档已保存，后台正在同步");
        reveal_strlit("ready");
        reveal_strlit("创建成功");
    }
    if is_external_provider(provider) {
        ("pending", "文档已保存，后台正在同步")
    } else {
        ("ready", "创建成功")
    }
}

} // verus!
