//! Uploaded knowledge-base documents: file names, accepted types, and the
//! text envelope in which an uploaded file travels inside a document body.
use vstd::prelude::*;
use crate::codec::{
    base64_decode, base64_decoded, base64_encode, base64_encoded, json_error_text,
    json_pair_object, json_parse_error, json_string_pair_object,
};
use crate::json_fields::{json_top_field, read_json_field, JsonField, JsonFieldView};
use crate::paths::{extension_of, file_name_of, path_extension, path_file_name};
use crate::text::{is_white_space, join, 
    chars_of, concat, concat3, digits, lowercase, owned, starts_with, starts_with_str,
    string_from_range, take_chars, take_chars_str, to_lowercase, to_uppercase, trim, trim_str,
    u64_to_string, uppercase,
};

verus! {

broadcast use vstd::string::group_string_axioms;

/// Marks a document body that carries an uploaded file.
pub const KNOWLEDGE_UPLOAD_CONTENT_PREFIX: &'static str = "__KB_FILE_UPLOAD_V1__:";

/// Largest accepted upload, in bytes.
pub const KNOWLEDGE_DOCUMENT_UPLOAD_MAX_BYTES: usize = 2097152;

// ---------------------------------------------------------------------------
// File names
// ---------------------------------------------------------------------------

/// The file-name part of `name`, or `document.txt` when there is none.
pub open spec fn sanitized_file_name(name: Seq<char>) -> Seq<char> {
    let t = trim(name);
    if t.len() == 0 {
        "document.txt"@
    } else {
        match file_name_of(t) {
            Some(f) => if f.len() > 0 { f } else { "document.txt"@ },
            None => "document.txt"@,
        }
    }
}

/// Keeps only the final component of an uploaded file's name: never
/// empty, never holding a `/`.
pub fn sanitize_upload_file_name(name: &str) -> (r: String)
    ensures
        r@ == sanitized_file_name(name@),
        r@ == match file_name_of(trim(name@)) {
            Some(f) => f,
            None => "document.txt"@,
        },
        r@.len() > 0,
        !r@.contains('/'),
{
    proof {
        reveal_strlit("document.txt");
        assert(!"document.txt"@.contains('/')) by {
            assert forall|i: int| 0 <= i < "document.txt"@.len() implies "document.txt"@[i] != '/' by {}
        }
    }
    let trimmed = trim_str(name);
    let named = path_file_name(trimmed.as_str());
    if trimmed.as_str().is_empty() {
        return owned("document.txt");
    }
    match named {
        Some(f) => if f.as_str().is_empty() { owned("document.txt") } else { f },
        None => owned("document.txt"),
    }
}

/// The first `max` characters of `s`.
pub fn truncate_runes(s: &str, max: usize) -> (r: String)
    ensures
        r@ == take_chars(s@, max as nat),
{
    take_chars_str(s, max)
}

/// The name a document gets: the given name, else the file's name, at most
/// 200 characters, else a default.
pub open spec fn upload_document_name(input_name: Seq<char>, file_name: Seq<char>) -> Seq<char> {
    if trim(input_name).len() > 0 {
        take_chars(trim(input_name), 200)
    } else if trim(file_name).len() > 0 {
        take_chars(trim(file_name), 200)
    } else {
        "上传文档"@
    }
}

/// Chooses the title of an uploaded document.
pub fn build_upload_document_name(input_name: &str, file_name: &str) -> (r: String)
    ensures
        r@ == upload_document_name(input_name@, file_name@),
{
    let name = trim_str(input_name);
    if !name.as_str().is_empty() {
        return truncate_runes(name.as_str(), 200);
    }
    let from_file = trim_str(file_name);
    if !from_file.as_str().is_empty() {
        return truncate_runes(from_file.as_str(), 200);
    }
    owned("上传文档")
}

// ---------------------------------------------------------------------------
// Accepted file types
// ---------------------------------------------------------------------------

/// File types Dify accepts.
pub open spec fn dify_extensions() -> Seq<Seq<char>> {
    seq![
        ".txt"@, ".md"@, ".markdown"@, ".pdf"@, ".html"@, ".htm"@, ".xlsx"@, ".xls"@, ".docx"@,
        ".csv"@, ".eml"@, ".msg"@, ".pptx"@, ".ppt"@, ".xml"@, ".epub"@,
    ]
}

/// File types RAGFlow and WeKnora accept.
pub open spec fn ragflow_extensions() -> Seq<Seq<char>> {
    seq![
        ".txt"@, ".text"@, ".md"@, ".markdown"@, ".pdf"@, ".doc"@, ".docx"@, ".ppt"@, ".pptx"@,
        ".xls"@, ".xlsx"@, ".wps"@, ".json"@, ".csv"@, ".log"@, ".xml"@, ".html"@, ".htm"@,
        ".yml"@, ".yaml"@, ".rtf"@, ".sql"@, ".ini"@, ".jpg"@, ".jpeg"@, ".png"@, ".gif"@,
        ".bmp"@, ".webp"@, ".tif"@, ".tiff"@, ".eml"@, ".msg"@,
    ]
}

/// The list shown to users for Dify.
pub open spec fn dify_supported_text() -> Seq<char> {
    "txt, md, markdown, pdf, html, htm, xlsx, xls, docx, csv, eml, msg, pptx, ppt, xml, epub"@
}

/// The list shown to users for RAGFlow and WeKnora.
pub open spec fn ragflow_supported_text() -> Seq<char> {
    "txt, text, md, markdown, pdf, doc, docx, ppt, pptx, xls, xlsx, wps, json, csv, log, xml, html, htm, yml, yaml, rtf, sql, ini, jpg, jpeg, png, gif, bmp, webp, tif, tiff, eml, msg"@
}

/// The provider is Dify (after trimming and lower-casing).
pub open spec fn is_dify_provider(provider: Seq<char>) -> bool {
    lowercase(trim(provider)) == "dify"@
}

/// The accepted file types of a knowledge provider.
pub open spec fn allowed_extensions(provider: Seq<char>) -> Seq<Seq<char>> {
    if is_dify_provider(provider) { dify_extensions() } else { ragflow_extensions() }
}

/// The accepted file types of a knowledge provider, as shown to users.
pub open spec fn supported_text(provider: Seq<char>) -> Seq<char> {
    if is_dify_provider(provider) { dify_supported_text() } else { ragflow_supported_text() }
}

/// The views of a list of static strings.
pub open spec fn str_views(v: Seq<&str>) -> Seq<Seq<char>> {
    v.map_values(|s: &str| s@)
}

/// The accepted extensions (with their dot) of a knowledge provider, and
/// the same list as shown to users.
pub fn allowed_extensions_for(provider: &str) -> (r: (Vec<&'static str>, &'static str))
    ensures
        str_views(r.0@) == allowed_extensions(provider@),
        r.1@ == supported_text(provider@),
{
    let p = to_lowercase(trim_str(provider).as_str());
    if crate::text::eq_str(p.as_str(), "dify") {
        let v: Vec<&'static str> = vec![
            ".txt", ".md", ".markdown", ".pdf", ".html", ".htm", ".xlsx", ".xls", ".docx",
            ".csv", ".eml", ".msg", ".pptx", ".ppt", ".xml", ".epub",
        ];
        assert(str_views(v@) =~= dify_extensions());
        (
            v,
            "txt, md, markdown, pdf, html, htm, xlsx, xls, docx, csv, eml, msg, pptx, ppt, xml, epub",
        )
    } else {
        let v: Vec<&'static str> = vec![
            ".txt", ".text", ".md", ".markdown", ".pdf", ".doc", ".docx", ".ppt", ".pptx",
            ".xls", ".xlsx", ".wps", ".json", ".csv", ".log", ".xml", ".html", ".htm", ".yml",
            ".yaml", ".rtf", ".sql", ".ini", ".jpg", ".jpeg", ".png", ".gif", ".bmp", ".webp",
            ".tif", ".tiff", ".eml", ".msg",
        ];
        assert(str_views(v@) =~= ragflow_extensions());
        (
            v,
            "txt, text, md, markdown, pdf, doc, docx, ppt, pptx, xls, xlsx, wps, json, csv, log, xml, html, htm, yml, yaml, rtf, sql, ini, jpg, jpeg, png, gif, bmp, webp, tif, tiff, eml, msg",
        )
    }
}

/// The accepted extensions without their dot.
pub open spec fn undotted(exts: Seq<Seq<char>>) -> Seq<Seq<char>> {
    exts.map_values(|e: Seq<char>| e.drop_first())
}

#[verifier::rlimit(100)]
proof fn lemma_dify_list()
    ensures
        dify_supported_text() == join(undotted(dify_extensions()), ", "@),
{
    reveal_with_fuel(join, 17);
    reveal_strlit(", ");
    reveal_strlit(".txt"); reveal_strlit(".md"); reveal_strlit(".markdown"); reveal_strlit(".pdf");
    reveal_strlit(".html"); reveal_strlit(".htm"); reveal_strlit(".xlsx"); reveal_strlit(".xls");
    reveal_strlit(".docx"); reveal_strlit(".csv"); reveal_strlit(".eml"); reveal_strlit(".msg");
    reveal_strlit(".pptx"); reveal_strlit(".ppt"); reveal_strlit(".xml"); reveal_strlit(".epub");
    reveal_strlit("txt, md, markdown, pdf, html, htm, xlsx, xls, docx, csv, eml, msg, pptx, ppt, xml, epub");
    assert(join(undotted(dify_extensions()), ", "@) =~= dify_supported_text());
}

/// `join` of `parts` is `join` of its first `k` parts, the separator and
/// `join` of the rest.
proof fn lemma_join_split(parts: Seq<Seq<char>>, sep: Seq<char>, k: int)
    requires
        0 < k < parts.len(),
    ensures
        join(parts, sep) == join(parts.take(k), sep) + sep + join(parts.skip(k), sep),
    decreases parts.len(),
{
    if k == parts.len() - 1 {
        assert(parts.take(k) =~= parts.drop_last());
        assert(parts.skip(k) =~= seq![parts.last()]);
    } else {
        lemma_join_split(parts.drop_last(), sep, k);
        assert(parts.drop_last().take(k) =~= parts.take(k));
        assert(parts.drop_last().skip(k) =~= parts.skip(k).drop_last());
        assert(parts.skip(k).last() == parts.last());
    }
}

#[verifier::rlimit(100)]
proof fn lemma_ragflow_head()
    ensures
        join(undotted(ragflow_extensions()).take(16), ", "@)
            == "txt, text, md, markdown, pdf, doc, docx, ppt, pptx, xls, xlsx, wps, json, csv, log, xml"@,
{
    reveal_with_fuel(join, 17);
    reveal_strlit(", ");
    reveal_strlit(".txt"); reveal_strlit(".text"); reveal_strlit(".md"); reveal_strlit(".markdown");
    reveal_strlit(".pdf"); reveal_strlit(".doc"); reveal_strlit(".docx"); reveal_strlit(".ppt");
    reveal_strlit(".pptx"); reveal_strlit(".xls"); reveal_strlit(".xlsx"); reveal_strlit(".wps");
    reveal_strlit(".json"); reveal_strlit(".csv"); reveal_strlit(".log"); reveal_strlit(".xml");
    reveal_strlit("txt, text, md, markdown, pdf, doc, docx, ppt, pptx, xls, xlsx, wps, json, csv, log, xml");
    let h = undotted(ragflow_extensions()).take(16);
    assert(h =~= undotted(seq![
        ".txt"@, ".text"@, ".md"@, ".markdown"@, ".pdf"@, ".doc"@, ".docx"@, ".ppt"@, ".pptx"@,
        ".xls"@, ".xlsx"@, ".wps"@, ".json"@, ".csv"@, ".log"@, ".xml"@,
    ]));
    assert(join(h, ", "@) =~= "txt, text, md, markdown, pdf, doc, docx, ppt, pptx, xls, xlsx, wps, json, csv, log, xml"@);
}

#[verifier::rlimit(100)]
proof fn lemma_ragflow_tail()
    ensures
        join(undotted(ragflow_extensions()).skip(16), ", "@)
            == "html, htm, yml, yaml, rtf, sql, ini, jpg, jpeg, png, gif, bmp, webp, tif, tiff, eml, msg"@,
{
    reveal_with_fuel(join, 18);
    reveal_strlit(", ");
    reveal_strlit(".html"); reveal_strlit(".htm"); reveal_strlit(".yml"); reveal_strlit(".yaml");
    reveal_strlit(".rtf"); reveal_strlit(".sql"); reveal_strlit(".ini"); reveal_strlit(".jpg");
    reveal_strlit(".jpeg"); reveal_strlit(".png"); reveal_strlit(".gif"); reveal_strlit(".bmp");
    reveal_strlit(".webp"); reveal_strlit(".tif"); reveal_strlit(".tiff"); reveal_strlit(".eml");
    reveal_strlit(".msg");
    reveal_strlit("html, htm, yml, yaml, rtf, sql, ini, jpg, jpeg, png, gif, bmp, webp, tif, tiff, eml, msg");
    let t = undotted(ragflow_extensions()).skip(16);
    assert(t =~= undotted(seq![
        ".html"@, ".htm"@, ".yml"@, ".yaml"@, ".rtf"@, ".sql"@, ".ini"@, ".jpg"@, ".jpeg"@, ".png"@,
        ".gif"@, ".bmp"@, ".webp"@, ".tif"@, ".tiff"@, ".eml"@, ".msg"@,
    ]));
    assert(join(t, ", "@) =~= "html, htm, yml, yaml, rtf, sql, ini, jpg, jpeg, png, gif, bmp, webp, tif, tiff, eml, msg"@);
}

proof fn lemma_ragflow_list()
    ensures
        ragflow_supported_text() == join(undotted(ragflow_extensions()), ", "@),
{
    let u = undotted(ragflow_extensions());
    lemma_join_split(u, ", "@, 16);
    lemma_ragflow_head();
    lemma_ragflow_tail();
    reveal_strlit(", ");
    reveal_strlit("txt, text, md, markdown, pdf, doc, docx, ppt, pptx, xls, xlsx, wps, json, csv, log, xml");
    reveal_strlit("html, htm, yml, yaml, rtf, sql, ini, jpg, jpeg, png, gif, bmp, webp, tif, tiff, eml, msg");
    reveal_strlit("txt, text, md, markdown, pdf, doc, docx, ppt, pptx, xls, xlsx, wps, json, csv, log, xml, html, htm, yml, yaml, rtf, sql, ini, jpg, jpeg, png, gif, bmp, webp, tif, tiff, eml, msg");
    assert(join(u, ", "@) =~= ragflow_supported_text());
}

proof fn lemma_dify_members()
    ensures
        dify_extensions().len() == 16,
        dify_extensions().contains(".epub"@),
        !dify_extensions().contains(".png"@),
{
    reveal_strlit(".epub");
    reveal_strlit(".png");
    reveal_strlit(".txt"); reveal_strlit(".md"); reveal_strlit(".markdown"); reveal_strlit(".pdf");
    reveal_strlit(".html"); reveal_strlit(".htm"); reveal_strlit(".xlsx"); reveal_strlit(".xls");
    reveal_strlit(".docx"); reveal_strlit(".csv"); reveal_strlit(".eml"); reveal_strlit(".msg");
    reveal_strlit(".pptx"); reveal_strlit(".ppt"); reveal_strlit(".xml");
    let d = dify_extensions();
    assert(d[15] == ".epub"@);
    assert forall|i: int| 0 <= i < d.len() implies d[i] != ".png"@ by {
        assert(d[i].len() != 4 || d[i][1] != ".png"@[1] || d[i][2] != ".png"@[2] || d[i][3] != ".png"@[3]);
    }
}

proof fn lemma_ragflow_members()
    ensures
        ragflow_extensions().len() == 33,
        ragflow_extensions().contains(".png"@),
        ragflow_extensions().contains(".json"@),
        ragflow_extensions().contains(".txt"@),
        !ragflow_extensions().contains(".epub"@),
{
    reveal_strlit(".epub");
    reveal_strlit(".txt"); reveal_strlit(".text"); reveal_strlit(".md"); reveal_strlit(".markdown");
    reveal_strlit(".pdf"); reveal_strlit(".doc"); reveal_strlit(".docx"); reveal_strlit(".ppt");
    reveal_strlit(".pptx"); reveal_strlit(".xls"); reveal_strlit(".xlsx"); reveal_strlit(".wps");
    reveal_strlit(".json"); reveal_strlit(".csv"); reveal_strlit(".log"); reveal_strlit(".xml");
    reveal_strlit(".html"); reveal_strlit(".htm"); reveal_strlit(".yml"); reveal_strlit(".yaml");
    reveal_strlit(".rtf"); reveal_strlit(".sql"); reveal_strlit(".ini"); reveal_strlit(".jpg");
    reveal_strlit(".jpeg"); reveal_strlit(".png"); reveal_strlit(".gif"); reveal_strlit(".bmp");
    reveal_strlit(".webp"); reveal_strlit(".tif"); reveal_strlit(".tiff"); reveal_strlit(".eml");
    reveal_strlit(".msg");
    let r = ragflow_extensions();
    assert(r[0] == ".txt"@);
    assert(r[12] == ".json"@);
    assert(r[25] == ".png"@);
    assert forall|i: int| 0 <= i < r.len() implies r[i] != ".epub"@ by {
        assert(r[i].len() != 5 || r[i][1] != ".epub"@[1] || r[i][2] != ".epub"@[2] || r[i][3] != ".epub"@[3]
            || r[i][4] != ".epub"@[4]);
    }
}

/// The list shown to users names exactly the accepted file types: it is
/// the accepted extensions, without their dot, joined by `, `.  Dify
/// accepts 16 types, `.epub` among them and not `.png`; the other
/// providers accept 33, `.png`, `.json` and `.txt` among them and not
/// `.epub`.
pub proof fn law_shown_list_is_accepted_list(provider: Seq<char>)
    ensures
        supported_text(provider) == join(undotted(allowed_extensions(provider)), ", "@),
        is_dify_provider(provider) ==> {
            &&& allowed_extensions(provider).len() == 16
            &&& allowed_extensions(provider).contains(".epub"@)
            &&& !allowed_extensions(provider).contains(".png"@)
        },
        !is_dify_provider(provider) ==> {
            &&& allowed_extensions(provider).len() == 33
            &&& allowed_extensions(provider).contains(".png"@)
            &&& allowed_extensions(provider).contains(".json"@)
            &&& allowed_extensions(provider).contains(".txt"@)
            &&& !allowed_extensions(provider).contains(".epub"@)
        },
{
    lemma_dify_list();
    lemma_ragflow_list();
    lemma_dify_members();
    lemma_ragflow_members();
}

/// Whether `x` is one of `v`.
fn str_list_contains(v: &Vec<&'static str>, x: &str) -> (r: bool)
    ensures
        r == str_views(v@).contains(x@),
{
    let mut i: usize = 0;
    while i < v.len()
        invariant
            i <= v.len(),
            forall|j: int| 0 <= j < i ==> v@[j]@ != x@,
        decreases v.len() - i,
    {
        if crate::text::eq_str(v[i], x) {
            assert(str_views(v@)[i as int] == x@);
            return true;
        }
        i = i + 1;
    }
    assert forall|j: int| 0 <= j < str_views(v@).len() implies str_views(v@)[j] != x@ by {
        assert(str_views(v@)[j] == v@[j]@);
    }
    false
}

/// The extension of a file name, lower-cased and with its dot, or empty.
pub open spec fn dotted_extension(name: Seq<char>) -> Seq<char> {
    match extension_of(name) {
        Some(e) => "."@ + lowercase(e),
        None => Seq::empty(),
    }
}

/// The verdict on an upload: empty, too large, no extension, a type the
/// provider does not accept, or accepted.
pub open spec fn upload_verdict(provider: Seq<char>, file_name: Seq<char>, size: nat) -> Result<(), Seq<char>> {
    let ext = dotted_extension(sanitized_file_name(file_name));
    if size == 0 {
        Err("上传文件为空"@)
    } else if size > KNOWLEDGE_DOCUMENT_UPLOAD_MAX_BYTES {
        Err("文件过大，最大支持 "@ + digits(2) + "MB"@)
    } else if ext.len() == 0 {
        Err("文件类型不支持，缺少扩展名，"@ + uppercase(provider) + "支持格式: "@ + supported_text(provider))
    } else if !allowed_extensions(provider).contains(ext) {
        Err("文件类型不支持，"@ + uppercase(provider) + "支持格式: "@ + supported_text(provider))
    } else {
        Ok(())
    }
}

/// The view of a check's result.
pub open spec fn unit_result_view(r: Result<(), String>) -> Result<(), Seq<char>> {
    match r {
        Ok(()) => Ok(()),
        Err(e) => Err(e@),
    }
}

/// Checks an uploaded file against the size limit and the provider's
/// accepted types.
pub fn validate_upload_file(provider: &str, file_name: &str, data: &[u8]) -> (r: Result<(), String>)
    ensures
        unit_result_view(r) == upload_verdict(provider@, file_name@, data@.len()),
{
    if data.len() == 0 {
        return Err(owned("上传文件为空"));
    }
    if data.len() > KNOWLEDGE_DOCUMENT_UPLOAD_MAX_BYTES {
        let mb = u64_to_string(2);
        return Err(concat3("文件过大，最大支持 ", mb.as_str(), "MB"));
    }
    let safe_name = sanitize_upload_file_name(file_name);
    let ext = match path_extension(safe_name.as_str()) {
        Some(e) => concat(".", to_lowercase(e.as_str()).as_str()),
        None => String::new(),
    };
    let (allowed, supported) = allowed_extensions_for(provider);
    let upper = to_uppercase(provider);
    if ext.as_str().is_empty() {
        let head = concat3("文件类型不支持，缺少扩展名，", upper.as_str(), "支持格式: ");
        return Err(concat(head.as_str(), supported));
    }
    if !str_list_contains(&allowed, ext.as_str()) {
        let head = concat3("文件类型不支持，", upper.as_str(), "支持格式: ");
        return Err(concat(head.as_str(), supported));
    }
    Ok(())
}

// ---------------------------------------------------------------------------
// Upload envelope
// ---------------------------------------------------------------------------

/// `s` with every leading copy of the non-empty `p` removed.
pub open spec fn strip_prefix_all(s: Seq<char>, p: Seq<char>) -> Seq<char>
    decreases s.len(),
{
    if p.len() > 0 && starts_with(s, p) {
        strip_prefix_all(s.skip(p.len() as int), p)
    } else {
        s
    }
}

/// The text of a string field of the envelope's JSON, or empty.
pub open spec fn text_field_or_empty(f: Option<JsonFieldView>) -> Seq<char> {
    match f {
        Some(JsonFieldView::Text(s)) => s,
        _ => Seq::empty(),
    }
}

/// What reading a document body gives: `(file name, bytes, is upload)`, or
/// the error for a malformed envelope.
pub open spec fn decoded_upload(content: Seq<char>) -> Result<(Seq<char>, Seq<u8>, bool), Seq<char>> {
    let raw = trim(content);
    let prefix = KNOWLEDGE_UPLOAD_CONTENT_PREFIX@;
    let json_part = trim(strip_prefix_all(raw, prefix));
    if !starts_with(raw, prefix) {
        Ok((Seq::empty(), Seq::empty(), false))
    } else if json_part.len() == 0 {
        Err("上传文件元数据为空"@)
    } else if json_parse_error(json_part) is Some {
        Err("解析上传文件元数据失败: "@ + json_parse_error(json_part).unwrap())
    } else {
        let file_name = sanitized_file_name(text_field_or_empty(json_top_field(json_part, "file_name"@)));
        let b64 = trim(text_field_or_empty(json_top_field(json_part, "content_base64"@)));
        if b64.len() == 0 {
            Err("上传文件内容为空"@)
        } else {
            match base64_decoded(b64) {
                Err(e) => Err("解析上传文件内容失败: "@ + e),
                Ok(bytes) => if bytes.len() == 0 {
                    Err("上传文件内容为空"@)
                } else {
                    Ok((file_name, bytes, true))
                },
            }
        }
    }
}

/// The view of a decoding result.
pub open spec fn decode_result_view(r: Result<(String, Vec<u8>, bool), String>) -> Result<(Seq<char>, Seq<u8>, bool), Seq<char>> {
    match r {
        Ok((n, d, u)) => Ok((n@, d@, u)),
        Err(e) => Err(e@),
    }
}

fn strip_prefix_all_str(s: &str, p: &str) -> (r: String)
    requires
        p@.len() > 0,
    ensures
        r@ == strip_prefix_all(s@, p@),
{
    let v = chars_of(s);
    let pv = chars_of(p);
    let mut i: usize = 0;
    assert(v@.skip(0) =~= v@);
    while pv.len() <= v.len() - i && crate::text::occurs_at_vec(&v, &pv, i)
        invariant
            v@ == s@,
            pv@ == p@,
            pv.len() > 0,
            i <= v.len(),
            strip_prefix_all(s@, p@) == strip_prefix_all(v@.skip(i as int), p@),
        decreases v.len() - i,
    {
        assert(v@.skip(i as int).subrange(0, pv.len() as int) =~= v@.subrange(i as int, i + pv.len()));
        assert(v@.skip(i as int).skip(pv.len() as int) =~= v@.skip(i + pv.len()));
        i = i + pv.len();
    }
    proof {
        let t = v@.skip(i as int);
        if starts_with(t, p@) {
            assert(t.subrange(0, pv.len() as int) =~= v@.subrange(i as int, i + pv.len()));
        }
        assert(v@.subrange(i as int, v.len() as int) =~= t);
    }
    string_from_range(&v, i, v.len())
}

fn text_or_empty(f: Option<JsonField>) -> (r: String)
    ensures
        r@ == text_field_or_empty(crate::json_fields::field_read_view(f)),
{
    match f {
        Some(JsonField::Text(s)) => s,
        _ => String::new(),
    }
}

/// Reads a document body: `(file name, bytes, true)` for an upload
/// envelope, `("", [], false)` for ordinary text, or the envelope's error.
pub fn decode_upload_content(content: &str) -> (r: Result<(String, Vec<u8>, bool), String>)
    ensures
        decode_result_view(r) == decoded_upload(content@),
{
    let raw = trim_str(content);
    if !starts_with_str(raw.as_str(), KNOWLEDGE_UPLOAD_CONTENT_PREFIX) {
        return Ok((String::new(), Vec::new(), false));
    }
    proof {
        assert(KNOWLEDGE_UPLOAD_CONTENT_PREFIX@.len() > 0) by {
            reveal_strlit("__KB_FILE_UPLOAD_V1__:");
        }
    }
    let stripped = strip_prefix_all_str(raw.as_str(), KNOWLEDGE_UPLOAD_CONTENT_PREFIX);
    let json_part = trim_str(stripped.as_str());
    if json_part.as_str().is_empty() {
        return Err(owned("上传文件元数据为空"));
    }
    if let Some(e) = json_error_text(json_part.as_str()) {
        return Err(concat("解析上传文件元数据失败: ", e.as_str()));
    }
    let name_field = text_or_empty(read_json_field(json_part.as_str(), "file_name"));
    let file_name = sanitize_upload_file_name(name_field.as_str());
    let b64_field = text_or_empty(read_json_field(json_part.as_str(), "content_base64"));
    let b64 = trim_str(b64_field.as_str());
    if b64.as_str().is_empty() {
        return Err(owned("上传文件内容为空"));
    }
    match base64_decode(b64.as_str()) {
        Err(e) => Err(concat("解析上传文件内容失败: ", e.as_str())),
        Ok(file_data) => {
            if file_data.len() == 0 {
                Err(owned("上传文件内容为空"))
            } else {
                Ok((file_name, file_data, true))
            }
        },
    }
}

/// The envelope for an uploaded file.
pub open spec fn upload_envelope(file_name: Seq<char>, data: Seq<u8>) -> Seq<char> {
    KNOWLEDGE_UPLOAD_CONTENT_PREFIX@ + json_string_pair_object(
        "file_name"@,
        sanitized_file_name(file_name),
        "content_base64"@,
        base64_encoded(data),
    )
}

proof fn lemma_trim_fixed(s: Seq<char>)
    requires
        s.len() > 0,
        !is_white_space(s[0]),
        !is_white_space(s.last()),
    ensures
        trim(s) == s,
{
}

proof fn lemma_trim_no_white(s: Seq<char>)
    requires
        forall|i: int| 0 <= i < s.len() ==> !is_white_space(#[trigger] s[i]),
    ensures
        trim(s) == s,
{
    if s.len() > 0 {
        assert(!is_white_space(s[s.len() - 1]));
    }
}

/// Wraps an uploaded file into a document body.  Reading the body back
/// gives the file's bytes and its name (sanitised once more).
pub fn encode_upload_content(file_name: &str, file_data: &[u8]) -> (r: Result<String, String>)
    ensures
        r matches Ok(s) && s@ == upload_envelope(file_name@, file_data@),
        file_data@.len() > 0 ==> (r matches Ok(s) && decoded_upload(s@) == Ok::<(Seq<char>, Seq<u8>, bool), Seq<char>>(
            (sanitized_file_name(sanitized_file_name(file_name@)), file_data@, true),
        )),
{
    let name = sanitize_upload_file_name(file_name);
    let b64 = base64_encode(file_data);
    let payload = json_pair_object("file_name", name.as_str(), "content_base64", b64.as_str());
    let r = concat(KNOWLEDGE_UPLOAD_CONTENT_PREFIX, payload.as_str());
    proof {
        if file_data@.len() > 0 {
            reveal_strlit("__KB_FILE_UPLOAD_V1__:");
            reveal_strlit("file_name");
            reveal_strlit("content_base64");
            let p = KNOWLEDGE_UPLOAD_CONTENT_PREFIX@;
            let j = payload@;
            let whole = r@;
            assert(whole =~= p + j);
            assert(whole[0] == '_');
            assert(whole.last() == j.last());
            lemma_trim_fixed(whole);
            assert(starts_with(whole, p)) by {
                assert(whole.subrange(0, p.len() as int) =~= p);
            }
            assert(whole.skip(p.len() as int) =~= j);
            assert(!starts_with(j, p)) by {
                if starts_with(j, p) {
                    assert(j.subrange(0, p.len() as int)[0] == j[0]);
                }
            }
            assert(strip_prefix_all(j, p) == j);
            assert(strip_prefix_all(whole, p) == j);
            lemma_trim_fixed(j);
            assert("file_name"@ != "content_base64"@) by {
                assert("file_name"@[0] != "content_base64"@[0]);
            }
            lemma_trim_no_white(b64@);
        }
    }
    Ok(r)
}

/// A non-empty file within the size limit whose extension, lower-cased
/// and with its dot, is one the provider accepts is accepted, whatever the
/// capitals the extension is written with.
pub proof fn law_accepted_extension_any_case(provider: Seq<char>, file_name: Seq<char>, size: nat, ext: Seq<char>)
    requires
        0 < size <= KNOWLEDGE_DOCUMENT_UPLOAD_MAX_BYTES,
        extension_of(sanitized_file_name(file_name)) == Some(ext),
        allowed_extensions(provider).contains("."@ + lowercase(ext)),
    ensures
        upload_verdict(provider, file_name, size) == Ok::<(), Seq<char>>(()),
{
    reveal_strlit(".");
}

/// Two file names whose extensions are equal up to upper and lower letters
/// are judged alike.
pub proof fn law_verdict_ignores_extension_capitals(
    provider: Seq<char>,
    name1: Seq<char>,
    name2: Seq<char>,
    size: nat,
    ext1: Seq<char>,
    ext2: Seq<char>,
)
    requires
        extension_of(sanitized_file_name(name1)) == Some(ext1),
        extension_of(sanitized_file_name(name2)) == Some(ext2),
        lowercase(ext1) == lowercase(ext2),
    ensures
        upload_verdict(provider, name1, size) == upload_verdict(provider, name2, size),
{
}

/// An empty file is refused, and so is one over 2 MB, whatever its name
/// and the provider.
pub proof fn law_size_refusals(provider: Seq<char>, file_name: Seq<char>, size: nat)
    ensures
        size == 0 ==> upload_verdict(provider, file_name, size) is Err,
        size > KNOWLEDGE_DOCUMENT_UPLOAD_MAX_BYTES ==> upload_verdict(provider, file_name, size) is Err,
{
}

} // verus!
