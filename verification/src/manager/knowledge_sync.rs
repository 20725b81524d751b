//! Synchronising knowledge bases with external providers (Dify, RAGFlow,
//! WeKnora): endpoint addresses, names, retry decisions and error texts.
use vstd::prelude::*;
use crate::json_fields::{json_top_field, read_json_field, JsonField, JsonFieldView};
use crate::manager::knowledge_upload::{decode_upload_content, decoded_upload, sanitize_upload_file_name, sanitized_file_name};
use crate::text::{concat, concat3, contains, contains_char, contains_str, decimal, ends_with, ends_with_str, eq_str, i64_to_string, lowercase, owned, replace_char, replace_char_str, take_chars, take_chars_str, to_lowercase, trim, trim_end_char, trim_end_char_str, trim_str};

verus! {

broadcast use vstd::string::group_string_axioms;

pub const SYNC_STATUS_PENDING: &'static str = "pending";
pub const SYNC_STATUS_SYNCED: &'static str = "synced";
pub const SYNC_STATUS_UPLOADING: &'static str = "uploading";
pub const SYNC_STATUS_UPLOAD_FAILED: &'static str = "upload_failed";
pub const SYNC_STATUS_PARSE_FAILED: &'static str = "parse_failed";
pub const SYNC_STATUS_FAILED: &'static str = "failed";

/// What a deletion needs to know of a knowledge base after its row is gone.
#[derive(Clone, Debug)]
pub struct KbSyncSnapshot {
    pub provider: String,
    pub config_json: String,
}

/// What a deletion needs to know of a document after its row is gone.
#[derive(Clone, Debug)]
pub struct KbDocumentDeleteSnapshot {
    pub external_doc_id: String,
}

/// A provider name as compared: trimmed and lower-cased.
pub open spec fn normalized_provider(provider: Seq<char>) -> Seq<char> {
    lowercase(trim(provider))
}

impl KbSyncSnapshot {
    /// Records a knowledge base's provider (normalised) and configuration.
    pub fn from_kb(provider: &str, config_json: &str) -> (r: Self)
        ensures
            r.provider@ == normalized_provider(provider@),
            r.config_json@ == config_json@,
    {
        KbSyncSnapshot {
            provider: to_lowercase(trim_str(provider).as_str()),
            config_json: owned(config_json),
        }
    }
}

// ---------------------------------------------------------------------------
// Endpoint addresses
// ---------------------------------------------------------------------------

/// Dify's API root is `<base>/v1`; a base that already ends in `/v1`
/// (any case, trailing slashes ignored) is used as it is.
pub open spec fn dify_url(base: Seq<char>, path: Seq<char>) -> Seq<char> {
    let t = trim_end_char(base, '/');
    if ends_with(lowercase(t), "/v1"@) {
        t + path
    } else {
        t + "/v1"@ + path
    }
}

/// RAGFlow's API root is `<base>/api/v1`; a base ending in `/api/v1` or
/// `/api` is completed rather than extended.
pub open spec fn ragflow_url(base: Seq<char>, path: Seq<char>) -> Seq<char> {
    let t = trim_end_char(base, '/');
    let lower = lowercase(t);
    if ends_with(lower, "/api/v1"@) {
        t + path
    } else if ends_with(lower, "/api"@) {
        t + "/v1"@ + path
    } else {
        t + "/api/v1"@ + path
    }
}

/// The address of a Dify API path.
pub fn build_dify_url(base: &str, path: &str) -> (r: String)
    ensures
        r@ == dify_url(base@, path@),
{
    let trimmed = trim_end_char_str(base, '/');
    let lower = to_lowercase(trimmed.as_str());
    if ends_with_str(lower.as_str(), "/v1") {
        concat(trimmed.as_str(), path)
    } else {
        concat3(trimmed.as_str(), "/v1", path)
    }
}

/// The address of a RAGFlow API path.
pub fn build_ragflow_url(base: &str, path: &str) -> (r: String)
    ensures
        r@ == ragflow_url(base@, path@),
{
    let trimmed = trim_end_char_str(base, '/');
    let lower = to_lowercase(trimmed.as_str());
    if ends_with_str(lower.as_str(), "/api/v1") {
        concat(trimmed.as_str(), path)
    } else if ends_with_str(lower.as_str(), "/api") {
        concat3(trimmed.as_str(), "/v1", path)
    } else {
        concat3(trimmed.as_str(), "/api/v1", path)
    }
}

/// The address of a WeKnora API path (laid out as RAGFlow's).
pub fn build_weknora_url(base: &str, path: &str) -> (r: String)
    ensures
        r@ == ragflow_url(base@, path@),
{
    build_ragflow_url(base, path)
}

// ---------------------------------------------------------------------------
// Names
// ---------------------------------------------------------------------------

/// The dataset name created for a knowledge base: `kb-<id>-<name>` with line
/// breaks turned into spaces, at most 100 characters.
pub open spec fn auto_dataset_name(kb_id: int, name: Seq<char>) -> Seq<char> {
    let n = replace_char(replace_char(trim(name), '\n', ' '), '\r', ' ');
    let n2 = if n.len() == 0 { "knowledge-base"@ } else { n };
    take_chars("kb-"@ + decimal(kb_id) + "-"@ + n2, 100)
}

/// Names the external dataset of a knowledge base.
pub fn build_auto_dataset_name(kb_id: i64, name: &str) -> (r: String)
    ensures
        r@ == auto_dataset_name(kb_id as int, name@),
{
    let t = trim_str(name);
    let a = replace_char_str(t.as_str(), '\n', ' ');
    let mut n = replace_char_str(a.as_str(), '\r', ' ');
    if n.as_str().is_empty() {
        n = owned("knowledge-base");
    }
    let id = i64_to_string(kb_id);
    let head = concat3("kb-", id.as_str(), "-");
    let full = concat(head.as_str(), n.as_str());
    take_chars_str(full.as_str(), 100)
}

/// A text document's file name for RAGFlow: a sanitised name, `.txt` added
/// when it has no dot.
pub open spec fn ragflow_text_name(name: Seq<char>) -> Seq<char> {
    let f = sanitized_file_name(name);
    let f2 = if f.len() == 0 { "document"@ } else { f };
    if f2.contains('.') { f2 } else { f2 + ".txt"@ }
}

/// A text document's file name for WeKnora: a sanitised name, `.md` added
/// when it has no dot.
pub open spec fn weknora_text_name(name: Seq<char>) -> Seq<char> {
    let f = sanitized_file_name(name);
    let f2 = if f.len() == 0 { "document.md"@ } else { f };
    if f2.contains('.') { f2 } else { f2 + ".md"@ }
}

/// Names the file a text document is uploaded as to RAGFlow.
pub fn ragflow_text_file_name(name: &str) -> (r: String)
    ensures
        r@ == ragflow_text_name(name@),
{
    let mut file_name = sanitize_upload_file_name(name);
    if file_name.as_str().is_empty() {
        file_name = owned("document");
    }
    if !contains_char(file_name.as_str(), '.') {
        file_name = concat(file_name.as_str(), ".txt");
    }
    file_name
}

/// Names the file a text document is uploaded as to WeKnora.
pub fn weknora_text_file_name(name: &str) -> (r: String)
    ensures
        r@ == weknora_text_name(name@),
{
    let mut file_name = sanitize_upload_file_name(name);
    if file_name.as_str().is_empty() {
        file_name = owned("document.md");
    }
    if !contains_char(file_name.as_str(), '.') {
        file_name = concat(file_name.as_str(), ".md");
    }
    file_name
}

// ---------------------------------------------------------------------------
// Decisions
// ---------------------------------------------------------------------------

/// Error fragments that mark a Dify request as worth retrying.
pub open spec fn retry_markers() -> Seq<Seq<char>> {
    seq![
        "context deadline exceeded"@, "client.timeout exceeded"@, "timeout"@,
        "connection reset"@, "broken pipe"@, "unexpected eof"@, "tls handshake timeout"@,
        "server closed idle connection"@, "no such host"@, "status=408"@, "status=429"@,
        "status=500"@, "status=502"@, "status=503"@, "status=504"@,
    ]
}

/// A failed Dify request is retried when its lower-cased error text holds
/// one of the transient-failure markers.
pub open spec fn retryable_dify_error(err: Seq<char>) -> bool {
    exists|i: int| 0 <= i < retry_markers().len() && contains(lowercase(err), #[trigger] retry_markers()[i])
}

/// Whether a failed Dify request should be tried again.
pub fn should_retry_dify_request(err: &str) -> (r: bool)
    ensures
        r == retryable_dify_error(err@),
{
    let msg = to_lowercase(err);
    let markers: Vec<&'static str> = vec![
        "context deadline exceeded", "client.timeout exceeded", "timeout",
        "connection reset", "broken pipe", "unexpected eof", "tls handshake timeout",
        "server closed idle connection", "no such host", "status=408", "status=429",
        "status=500", "status=502", "status=503", "status=504",
    ];
    let ghost mv = markers@.map_values(|s: &str| s@);
    assert(mv =~= retry_markers());
    let mut i: usize = 0;
    while i < markers.len()
        invariant
            i <= markers.len(),
            mv == markers@.map_values(|s: &str| s@),
            mv == retry_markers(),
            msg@ == lowercase(err@),
            forall|j: int| 0 <= j < i ==> !contains(msg@, #[trigger] retry_markers()[j]),
        decreases markers.len() - i,
    {
        if contains_str(msg.as_str(), markers[i]) {
            assert(mv[i as int] == markers@[i as int]@);
            return true;
        }
        assert(mv[i as int] == markers@[i as int]@);
        i = i + 1;
    }
    false
}

/// The provider keeps documents outside the console.
pub open spec fn external_provider(provider: Seq<char>) -> bool {
    let p = normalized_provider(provider);
    p == "dify"@ || p == "ragflow"@ || p == "weknora"@
}

/// Whether a knowledge provider keeps its documents outside the console.
pub fn is_external_provider(provider: &str) -> (r: bool)
    ensures
        r == external_provider(provider@),
{
    let p = to_lowercase(trim_str(provider).as_str());
    eq_str(p.as_str(), "dify") || eq_str(p.as_str(), "ragflow") || eq_str(p.as_str(), "weknora")
}

/// The UTF-8 bytes of a character sequence.
pub open spec fn utf8(s: Seq<char>) -> Seq<u8> {
    vstd::utf8::encode_utf8(s)
}

/// An error text is stored trimmed; beyond 800 bytes it is cut to its first
/// 800 bytes and marked with `...`.
pub open spec fn truncated_error(msg: Seq<char>, r: Seq<char>) -> bool {
    let t = trim(msg);
    if utf8(t).len() <= 800 {
        r == t
    } else {
        exists|head: Seq<char>| r == head + "..."@ && utf8(head) == utf8(t).take(800)
    }
}

/// Shortens an error text for storage.  Cutting inside a character would
/// panic, so that input is excluded; a string's byte length always fits a
/// `usize`.
pub fn truncate_error(msg: &str) -> (r: String)
    requires
        utf8(trim(msg@)).len() <= usize::MAX,
        utf8(trim(msg@)).len() > 800 ==> vstd::utf8::is_char_boundary(utf8(trim(msg@)), 800),
    ensures
        truncated_error(msg@, r@),
{
    let t = trim_str(msg);
    let ts = t.as_str();
    if ts.len() <= 800 {
        return t;
    }
    let (head, _) = ts.split_at(800);
    let r = concat(head, "...");
    assert(utf8(head@) =~= utf8(ts@).take(800));
    r
}

// ---------------------------------------------------------------------------
// Configuration flags kept in a knowledge base's JSON
// ---------------------------------------------------------------------------

/// `auto_dataset` of a knowledge base's configuration, false when missing,
/// not a boolean, or the text is not JSON.
pub open spec fn auto_dataset_flag(config_json: Seq<char>) -> bool {
    match json_top_field(config_json, "auto_dataset"@) {
        Some(JsonFieldView::Flag(b)) => b,
        _ => false,
    }
}

/// Whether the console created the external dataset itself.
pub fn auto_dataset_from_config(config_json: &str) -> (r: bool)
    ensures
        r == auto_dataset_flag(config_json@),
{
    match read_json_field(config_json, "auto_dataset") {
        Some(JsonField::Flag(b)) => b,
        _ => false,
    }
}

/// `external_doc_id` of a configuration, trimmed, or empty.
pub open spec fn external_doc_id(config_json: Seq<char>) -> Seq<char> {
    match json_top_field(config_json, "external_doc_id"@) {
        Some(JsonFieldView::Text(s)) => trim(s),
        _ => Seq::empty(),
    }
}

/// The external document id recorded in a configuration.
pub fn kb_external_doc_id_from_config(config_json: &str) -> (r: String)
    ensures
        r@ == external_doc_id(config_json@),
{
    match read_json_field(config_json, "external_doc_id") {
        Some(JsonField::Text(s)) => trim_str(s.as_str()),
        _ => String::new(),
    }
}


// ---------------------------------------------------------------------------
// Synchronising one document
// ---------------------------------------------------------------------------

/// What is done with a document on Dify.
#[derive(Debug, Clone)]
pub enum DifyDocumentAction {
    /// Upload the file as a new document: (file name, bytes).
    CreateFile(String, Vec<u8>),
    /// Replace the document's file: (old document id, file name, bytes).
    ReplaceFile(String, String, Vec<u8>),
    /// Create a text document: (title, text).
    CreateText(String, String),
    /// Update the text document: (old document id, title, text).
    UpdateText(String, String, String),
    /// The text is empty: refused (after the dataset is ensured).
    EmptyText,
}

/// How a document is synchronised.
#[derive(Debug, Clone)]
pub enum DocumentSync {
    /// The knowledge base is local: the document is synced as it is.
    Local,
    /// The stored body is a malformed upload: refused with this error.
    Undecodable(String),
    Dify(DifyDocumentAction),
    /// RAGFlow: the file to upload, or none for an empty text.
    Ragflow(Option<(String, Vec<u8>)>),
    /// WeKnora: the file to upload, or none for an empty text.
    Weknora(Option<(String, Vec<u8>)>),
    /// Another provider: refused with this error.
    Unsupported(String),
}

/// The file an uploaded or text document is sent as to RAGFlow or WeKnora:
/// the upload itself, or the trimmed text under the provider's text name;
/// none for an empty text.
pub open spec fn provider_file(
    upload: (Seq<char>, Seq<u8>, bool),
    text: Seq<char>,
    text_name: Seq<char>,
) -> Option<(Seq<char>, Seq<u8>)> {
    if upload.2 {
        Some((upload.0, upload.1))
    } else if trim(text).len() == 0 {
        None
    } else {
        Some((text_name, utf8(trim(text))))
    }
}

/// The plain form of a file choice.
pub open spec fn file_view(f: Option<(String, Vec<u8>)>) -> Option<(Seq<char>, Seq<u8>)> {
    match f {
        Some((n, d)) => Some((n@, d@)),
        None => None,
    }
}

/// Whether a Dify action is what a document calls for: an upload creates
/// or replaces (by whether the document already has an external id), a
/// text creates or updates, and an empty text is refused.
pub open spec fn dify_action_for(
    a: DifyDocumentAction,
    upload: (Seq<char>, Seq<u8>, bool),
    text: Seq<char>,
    title: Seq<char>,
    old_id: Seq<char>,
) -> bool {
    if upload.2 {
        if old_id.len() == 0 {
            a matches DifyDocumentAction::CreateFile(n, d) && n@ == upload.0 && d@ == upload.1
        } else {
            a matches DifyDocumentAction::ReplaceFile(o, n, d) && o@ == old_id && n@ == upload.0 && d@ == upload.1
        }
    } else if trim(text).len() == 0 {
        a is EmptyText
    } else if old_id.len() == 0 {
        a matches DifyDocumentAction::CreateText(t, x) && t@ == title && x@ == trim(text)
    } else {
        a matches DifyDocumentAction::UpdateText(o, t, x) && o@ == old_id && t@ == title && x@ == trim(text)
    }
}

/// Decides how a document of a knowledge base on `provider` is
/// synchronised.  `content` is its stored body (text, or an upload
/// envelope), `external_doc_id` its id at the provider (empty when it has
/// none).
pub fn document_sync_plan(provider: &str, content: &str, external_doc_id: &str, title: &str) -> (r: DocumentSync)
    ensures
        ({
            let p = lowercase(trim(provider@));
            let old_id = trim(external_doc_id@);
            if p == "local"@ || p.len() == 0 {
                r is Local
            } else {
                match decoded_upload(content@) {
                    Err(e) => r matches DocumentSync::Undecodable(m) && m@ == e,
                    Ok(u) => if p == "dify"@ {
                        r matches DocumentSync::Dify(a) && dify_action_for(a, u, content@, title@, old_id)
                    } else if p == "ragflow"@ {
                        r matches DocumentSync::Ragflow(f) && file_view(f) == provider_file(u, content@, ragflow_text_name(title@))
                    } else if p == "weknora"@ {
                        r matches DocumentSync::Weknora(f) && file_view(f) == provider_file(u, content@, weknora_text_name(title@))
                    } else {
                        r matches DocumentSync::Unsupported(m) && m@ == "知识库文档同步暂不支持 provider: "@ + p
                    },
                }
            }
        }),
{
    let p = to_lowercase(trim_str(provider).as_str());
    proof {
        reveal_strlit("local");
        reveal_strlit("dify");
        reveal_strlit("ragflow");
        reveal_strlit("weknora");
    }
    if eq_str(p.as_str(), "local") || p.as_str().is_empty() {
        return DocumentSync::Local;
    }
    let (name, data, is_upload) = match decode_upload_content(content) {
        Ok(v) => v,
        Err(e) => return DocumentSync::Undecodable(e),
    };
    let text = trim_str(content);
    let old_id = trim_str(external_doc_id);
    if eq_str(p.as_str(), "dify") {
        let a = if is_upload {
            if old_id.as_str().is_empty() {
                DifyDocumentAction::CreateFile(name, data)
            } else {
                DifyDocumentAction::ReplaceFile(old_id, name, data)
            }
        } else if text.as_str().is_empty() {
            DifyDocumentAction::EmptyText
        } else if old_id.as_str().is_empty() {
            DifyDocumentAction::CreateText(owned(title), text)
        } else {
            DifyDocumentAction::UpdateText(old_id, owned(title), text)
        };
        return DocumentSync::Dify(a);
    }
    let is_ragflow = eq_str(p.as_str(), "ragflow");
    if is_ragflow || eq_str(p.as_str(), "weknora") {
        let file = if is_upload {
            Some((name, data))
        } else if text.as_str().is_empty() {
            None
        } else {
            let n = if is_ragflow { ragflow_text_file_name(title) } else { weknora_text_file_name(title) };
            Some((n, text.as_str().as_bytes_vec()))
        };
        return if is_ragflow { DocumentSync::Ragflow(file) } else { DocumentSync::Weknora(file) };
    }
    DocumentSync::Unsupported(concat("知识库文档同步暂不支持 provider: ", p.as_str()))
}

/// The old document to delete at the provider once a new upload took its
/// place: the old id, when there was one and the provider gave a new one.
pub fn superseded_document(old_id: &str, new_id: &str) -> (r: Option<String>)
    ensures
        r matches Some(o) ==> o@ == old_id@,
        r is Some <==> (old_id@.len() > 0 && old_id@ != new_id@),
{
    if !old_id.is_empty() && !eq_str(old_id, new_id) {
        Some(owned(old_id))
    } else {
        None
    }
}

// ---------------------------------------------------------------------------
// A document's synchronisation state
// ---------------------------------------------------------------------------

/// Where a document's synchronisation stands.
#[derive(Debug, Clone, PartialEq, Eq)]
pub enum SyncStage {
    /// Waiting to be synchronised.
    Pending,
    /// Being uploaded (under the external id it had, if any).
    Uploading,
    /// The upload failed (the external id it had, if any, is kept).
    UploadFailed,
    /// Uploaded under the external id given, but the provider could not
    /// parse it.
    ParseFailed,
    /// Stored under the external id given.
    Synced,
    /// Kept only locally: nothing is stored elsewhere.
    Local,
}

/// What is recorded of a document's synchronisation: the external id to
/// store (`None` leaves the stored one), the status and the error text.
#[derive(Debug, Clone)]
pub struct DocumentSyncState {
    pub external_doc_id: Option<String>,
    pub status: String,
    pub error: String,
}

/// Whether a stage records an error.
pub open spec fn failed_stage(stage: SyncStage) -> bool {
    stage == SyncStage::UploadFailed || stage == SyncStage::ParseFailed
}

/// An external id worth storing: the id when it is not empty.
pub open spec fn given_id(id: Seq<char>) -> Option<Seq<char>> {
    if id.len() == 0 { None } else { Some(id) }
}

/// What is recorded for a stage, given the document's external id (the
/// one it had, or the one the provider gave) and, for a failure, the error.
pub open spec fn stage_record(stage: SyncStage, external_id: Seq<char>) -> (Option<Seq<char>>, Seq<char>) {
    match stage {
        SyncStage::Pending => (None, "pending"@),
        SyncStage::Uploading => (given_id(external_id), "uploading"@),
        SyncStage::UploadFailed => (given_id(external_id), "upload_failed"@),
        SyncStage::ParseFailed => (Some(external_id), "parse_failed"@),
        SyncStage::Synced => (Some(external_id), "synced"@),
        SyncStage::Local => (None, "synced"@),
    }
}

/// Builds what is recorded of a document's synchronisation at `stage`: a
/// failure records the error shortened by `truncate_error`, any other
/// stage an empty error.
pub fn document_sync_state(stage: SyncStage, external_id: &str, err: &str) -> (r: DocumentSyncState)
    requires
        failed_stage(stage) ==> utf8(trim(err@)).len() <= usize::MAX,
        failed_stage(stage) ==> (utf8(trim(err@)).len() > 800 ==> vstd::utf8::is_char_boundary(utf8(trim(err@)), 800)),
    ensures
        crate::text::opt_view(r.external_doc_id) == stage_record(stage, external_id@).0,
        r.status@ == stage_record(stage, external_id@).1,
        failed_stage(stage) ==> truncated_error(err@, r.error@),
        !failed_stage(stage) ==> r.error@.len() == 0,
{
    let some_id = if external_id.is_empty() { None } else { Some(owned(external_id)) };
    match stage {
        SyncStage::Pending => DocumentSyncState { external_doc_id: None, status: owned(SYNC_STATUS_PENDING), error: String::new() },
        SyncStage::Uploading => DocumentSyncState { external_doc_id: some_id, status: owned(SYNC_STATUS_UPLOADING), error: String::new() },
        SyncStage::UploadFailed => DocumentSyncState {
            external_doc_id: some_id,
            status: owned(SYNC_STATUS_UPLOAD_FAILED),
            error: truncate_error(err),
        },
        SyncStage::ParseFailed => DocumentSyncState {
            external_doc_id: Some(owned(external_id)),
            status: owned(SYNC_STATUS_PARSE_FAILED),
            error: truncate_error(err),
        },
        SyncStage::Synced => DocumentSyncState {
            external_doc_id: Some(owned(external_id)),
            status: owned(SYNC_STATUS_SYNCED),
            error: String::new(),
        },
        SyncStage::Local => DocumentSyncState { external_doc_id: None, status: owned(SYNC_STATUS_SYNCED), error: String::new() },
    }
}

} // verus!
