//! Reading single fields of JSON text with `serde_json`.
use vstd::prelude::*;

verus! {

/// What a top-level field of a JSON document holds, as seen by the logic.
pub enum JsonFieldView {
    Absent,
    Null,
    Text(Seq<char>),
    Flag(bool),
    Object,
    Other,
}

/// A field of a JSON document: missing, `null`, a string, a boolean, an
/// object, or another kind of value (a number or an array).
#[derive(Debug, Clone)]
pub enum JsonField {
    Absent,
    Null,
    Text(String),
    Flag(bool),
    Object,
    Other,
}

impl View for JsonField {
    type V = JsonFieldView;

    open spec fn view(&self) -> JsonFieldView {
        match self {
            JsonField::Absent => JsonFieldView::Absent,
            JsonField::Null => JsonFieldView::Null,
            JsonField::Text(s) => JsonFieldView::Text(s@),
            JsonField::Flag(b) => JsonFieldView::Flag(*b),
            JsonField::Object => JsonFieldView::Object,
            JsonField::Other => JsonFieldView::Other,
        }
    }
}

/// The view of an optional field read.
pub open spec fn field_read_view(r: Option<JsonField>) -> Option<JsonFieldView> {
    match r {
        Some(f) => Some(f@),
        None => None,
    }
}

/// What `serde_json::from_str::<Value>(text)` followed by `.get(key)` gives:
/// `None` when `text` is not a JSON document, else the field (absent also
/// when the document is not an object).
pub uninterp spec fn json_top_field(text: Seq<char>, key: Seq<char>) -> Option<JsonFieldView>;

/// Parses `text` with `serde_json::from_str::<serde_json::Value>` and reads
/// the top-level `key` with `Value::get`.  The contract names the result and
/// says nothing of JSON syntax itself.
#[verifier::external_body]
pub(crate) fn read_json_field(text: &str, key: &str) -> (r: Option<JsonField>)
    ensures
        field_read_view(r) == json_top_field(text@, key@),
{
    match serde_json::from_str::<serde_json::Value>(text) {
        Err(_) => None,
        Ok(v) => Some(match v.get(key) {
            None => JsonField::Absent,
            Some(serde_json::Value::Null) => JsonField::Null,
            Some(serde_json::Value::String(s)) => JsonField::Text(s.clone()),
            Some(serde_json::Value::Bool(b)) => JsonField::Flag(*b),
            Some(serde_json::Value::Object(_)) => JsonField::Object,
            Some(_) => JsonField::Other,
        }),
    }
}

/// What a JSON document holds at a JSON Pointer (RFC 6901): `None` when
/// `text` is not a JSON document, else the value found there (absent when
/// the pointer leads nowhere).
pub uninterp spec fn json_at(text: Seq<char>, pointer: Seq<char>) -> Option<JsonFieldView>;

/// Parses `text` with `serde_json::from_str::<serde_json::Value>` and looks
/// `pointer` up with `Value::pointer`.  The contract names the result.
#[verifier::external_body]
pub(crate) fn read_json_pointer(text: &str, pointer: &str) -> (r: Option<JsonField>)
    ensures
        field_read_view(r) == json_at(text@, pointer@),
{
    match serde_json::from_str::<serde_json::Value>(text) {
        Err(_) => None,
        Ok(v) => Some(match v.pointer(pointer) {
            None => JsonField::Absent,
            Some(serde_json::Value::Null) => JsonField::Null,
            Some(serde_json::Value::String(s)) => JsonField::Text(s.clone()),
            Some(serde_json::Value::Bool(b)) => JsonField::Flag(*b),
            Some(serde_json::Value::Object(_)) => JsonField::Object,
            Some(_) => JsonField::Other,
        }),
    }
}

/// The text at a pointer, when a string is there.
pub open spec fn text_at(text: Seq<char>, pointer: Seq<char>) -> Option<Seq<char>> {
    match json_at(text, pointer) {
        Some(JsonFieldView::Text(s)) => Some(s),
        _ => None,
    }
}

/// Reads the string at a pointer, if one is there.
pub fn json_text_at(text: &str, pointer: &str) -> (r: Option<String>)
    ensures
        crate::text::opt_view(r) == text_at(text@, pointer@),
{
    match read_json_pointer(text, pointer) {
        Some(JsonField::Text(s)) => Some(s),
        _ => None,
    }
}

/// The text of a top-level member, when it is a string.
pub open spec fn member_at(text: Seq<char>, key: Seq<char>) -> Option<Seq<char>> {
    match json_top_field(text, key) {
        Some(JsonFieldView::Text(s)) => Some(s),
        _ => None,
    }
}

/// The text of a top-level member, or `default` when it is not a string.
pub open spec fn member_or(text: Seq<char>, key: Seq<char>, default: Seq<char>) -> Seq<char> {
    match member_at(text, key) {
        Some(s) => s,
        None => default,
    }
}

/// Reads a top-level string member, falling back to `default`.
pub fn json_member_or(text: &str, key: &str, default: &str) -> (r: String)
    ensures
        r@ == member_or(text@, key@, default@),
{
    match read_json_field(text, key) {
        Some(JsonField::Text(s)) => s,
        _ => crate::text::owned(default),
    }
}

/// A member that a string-typed record field would accept: the text of a
/// string, empty for a missing member, `None` for any other value.
pub open spec fn string_or_absent_at(text: Seq<char>, pointer: Seq<char>) -> Option<Seq<char>> {
    match json_at(text, pointer) {
        Some(JsonFieldView::Absent) => Some(Seq::empty()),
        Some(JsonFieldView::Text(s)) => Some(s),
        _ => None,
    }
}

/// Reads a member as a defaulted string field reads it.
pub fn json_string_or_absent_at(text: &str, pointer: &str) -> (r: Option<String>)
    ensures
        crate::text::opt_view(r) == string_or_absent_at(text@, pointer@),
{
    match read_json_pointer(text, pointer) {
        Some(JsonField::Absent) => Some(String::new()),
        Some(JsonField::Text(s)) => Some(s),
        _ => None,
    }
}

/// The document is a JSON object.
pub open spec fn is_json_object(text: Seq<char>) -> bool {
    json_at(text, Seq::empty()) == Some(JsonFieldView::Object)
}

/// Whether the text is a JSON object.
pub fn json_is_object(text: &str) -> (r: bool)
    ensures
        r == is_json_object(text@),
{
    proof {
        reveal_strlit("");
        assert(""@ =~= Seq::<char>::empty());
    }
    match read_json_pointer(text, "") {
        Some(JsonField::Object) => true,
        _ => false,
    }
}

/// The string a JSON document is, when it is a single string.
pub uninterp spec fn json_string_value(text: Seq<char>) -> Option<Seq<char>>;

/// `serde_json::from_str::<String>`: the decoded string when the text is
/// a JSON string literal.  The contract names the result, and states what
/// the JSON grammar gives: the literal has its two quotes besides the
/// characters it encodes, each encoded by at least one character, so the
/// string is shorter than the text.
#[verifier::external_body]
pub(crate) fn json_string_literal(text: &str) -> (r: Option<String>)
    ensures
        crate::text::opt_view(r) == json_string_value(text@),
        r matches Some(s) ==> s@.len() < text@.len(),
{
    serde_json::from_str::<String>(text).ok()
}

/// A lower-case hex digit of a value below 16.
pub open spec fn hex_digit(n: u32) -> char {
    if n < 10 { (('0' as u32) + n) as char } else { (('a' as u32) + n - 10) as char }
}

/// How `serde_json` writes a character inside a string: `"` and `\` behind
/// a backslash, backspace, form feed, line feed, carriage return and tab
/// as `\b`, `\f`, `\n`, `\r`, `\t`, the other control characters below
/// U+0020 as `\u00` and two lower-case hex digits, anything else as it is.
pub open spec fn json_escaped(c: char) -> Seq<char> {
    if c == '"' {
        seq!['\\', '"']
    } else if c == '\\' {
        seq!['\\', '\\']
    } else if c == '\u{8}' {
        seq!['\\', 'b']
    } else if c == '\u{c}' {
        seq!['\\', 'f']
    } else if c == '\n' {
        seq!['\\', 'n']
    } else if c == '\r' {
        seq!['\\', 'r']
    } else if c == '\t' {
        seq!['\\', 't']
    } else if (c as u32) < 0x20 {
        seq!['\\', 'u', '0', '0', hex_digit((c as u32) / 16), hex_digit((c as u32) % 16)]
    } else {
        seq![c]
    }
}

/// The characters of `s`, each as `serde_json` writes it inside a string.
pub open spec fn json_escaped_all(s: Seq<char>) -> Seq<char>
    decreases s.len(),
{
    if s.len() == 0 {
        Seq::empty()
    } else {
        json_escaped_all(s.drop_last()) + json_escaped(s.last())
    }
}

/// The string form that `serde_json::to_string(&str)` gives a string: the
/// escaped characters between double quotes.
pub open spec fn json_quoted(s: Seq<char>) -> Seq<char> {
    seq!['"'] + json_escaped_all(s) + seq!['"']
}

fn push_escaped(out: &mut String, c: char)
    ensures
        final(out)@ == old(out)@ + json_escaped(c),
{
    let esc: Option<char> = if c == '"' {
        Some('"')
    } else if c == '\\' {
        Some('\\')
    } else if c == '\u{8}' {
        Some('b')
    } else if c == '\u{c}' {
        Some('f')
    } else if c == '\n' {
        Some('n')
    } else if c == '\r' {
        Some('r')
    } else if c == '\t' {
        Some('t')
    } else {
        None
    };
    match esc {
        Some(e) => {
            crate::text::push_char(out, '\\');
            crate::text::push_char(out, e);
            assert(final(out)@ =~= old(out)@ + json_escaped(c));
        },
        None => {
            let code = c as u32;
            if code < 0x20 {
                let hi = code / 16;
                let lo = code % 16;
                let h = if hi < 10 { char_of(0x30 + hi) } else { char_of(0x61 + hi - 10) };
                let l = if lo < 10 { char_of(0x30 + lo) } else { char_of(0x61 + lo - 10) };
                crate::text::push_char(out, '\\');
                crate::text::push_char(out, 'u');
                crate::text::push_char(out, '0');
                crate::text::push_char(out, '0');
                crate::text::push_char(out, h);
                crate::text::push_char(out, l);
                assert(final(out)@ =~= old(out)@ + json_escaped(c));
            } else {
                crate::text::push_char(out, c);
                assert(final(out)@ =~= old(out)@ + json_escaped(c));
            }
        },
    }
}

/// The ASCII character with code `n`.
fn char_of(n: u32) -> (r: char)
    requires
        n < 128,
    ensures
        r == n as char,
{
    let b: u8 = n as u8;
    b as char
}

/// Writes a string as `serde_json` does.
pub(crate) fn json_quote(s: &str) -> (r: String)
    ensures
        r@ == json_quoted(s@),
{
    let cs = crate::text::chars_of(s);
    let mut out = String::new();
    crate::text::push_char(&mut out, '"');
    let mut i: usize = 0;
    while i < cs.len()
        invariant
            i <= cs@.len(),
            cs@ == s@,
            out@ == seq!['"'] + json_escaped_all(cs@.take(i as int)),
        decreases cs.len() - i,
    {
        assert(cs@.take(i + 1).drop_last() =~= cs@.take(i as int));
        let ghost before = out@;
        push_escaped(&mut out, cs[i]);
        assert(out@ =~= seq!['"'] + json_escaped_all(cs@.take(i + 1)));
        i = i + 1;
    }
    assert(cs@.take(cs@.len() as int) =~= cs@);
    crate::text::push_char(&mut out, '"');
    assert(out@ =~= json_quoted(s@));
    out
}

/// The length of the array at a pointer: `None` when the text is not JSON
/// or no array is there.
pub uninterp spec fn json_array_length(text: Seq<char>, pointer: Seq<char>) -> Option<usize>;

/// Parses `text` with `serde_json`, goes to `pointer` with
/// `Value::pointer` and gives `as_array().len()`.  The contract names the
/// result.
#[verifier::external_body]
pub(crate) fn json_array_len(text: &str, pointer: &str) -> (r: Option<usize>)
    ensures
        r == json_array_length(text@, pointer@),
{
    let v: serde_json::Value = serde_json::from_str(text).ok()?;
    v.pointer(pointer)?.as_array().map(|a| a.len())
}

/// The keys of the object at a pointer, in the order `serde_json` keeps
/// them: `None` when the text is not JSON or no object is there.
pub uninterp spec fn object_keys(text: Seq<char>, pointer: Seq<char>) -> Option<Seq<Seq<char>>>;

/// Parses `text` with `serde_json`, goes to `pointer` with
/// `Value::pointer` and lists the keys of the object there with
/// `Map::keys`.  The contract names the result.
#[verifier::external_body]
pub(crate) fn json_object_keys(text: &str, pointer: &str) -> (r: Option<Vec<String>>)
    ensures
        match r {
            Some(v) => object_keys(text@, pointer@) == Some(v@.map_values(|k: String| k@)),
            None => object_keys(text@, pointer@) is None,
        },
{
    let v: serde_json::Value = serde_json::from_str(text).ok()?;
    Some(v.pointer(pointer)?.as_object()?.keys().cloned().collect())
}

/// A character as it stands in a JSON Pointer reference token: `~` is
/// written `~0` and `/` is written `~1`.
pub open spec fn escaped_char(c: char) -> Seq<char> {
    if c == '~' {
        "~0"@
    } else if c == '/' {
        "~1"@
    } else {
        seq![c]
    }
}

/// An object key as a JSON Pointer reference token.
pub open spec fn pointer_token(k: Seq<char>) -> Seq<char>
    decreases k.len(),
{
    if k.len() == 0 {
        Seq::empty()
    } else {
        pointer_token(k.drop_last()) + escaped_char(k.last())
    }
}

/// The JSON Pointer of member `k` of the object at `base`.
pub open spec fn member_pointer(base: Seq<char>, k: Seq<char>) -> Seq<char> {
    base + "/"@ + pointer_token(k)
}

/// Writes an object key as a JSON Pointer reference token.
pub fn pointer_token_of(k: &str) -> (r: String)
    ensures
        r@ == pointer_token(k@),
{
    let cs = crate::text::chars_of(k);
    let mut out = String::new();
    let mut i: usize = 0;
    while i < cs.len()
        invariant
            i <= cs@.len(),
            cs@ == k@,
            out@ == pointer_token(cs@.take(i as int)),
        decreases cs.len() - i,
    {
        let c = cs[i];
        proof {
            reveal_strlit("~0");
            reveal_strlit("~1");
            assert(cs@.take(i + 1 as int).drop_last() =~= cs@.take(i as int));
        }
        if c == '~' {
            crate::text::push_char(&mut out, '~');
            crate::text::push_char(&mut out, '0');
            assert(escaped_char(c) =~= seq!['~', '0']);
        } else if c == '/' {
            crate::text::push_char(&mut out, '~');
            crate::text::push_char(&mut out, '1');
            assert(escaped_char(c) =~= seq!['~', '1']);
        } else {
            crate::text::push_char(&mut out, c);
        }
        i = i + 1;
        assert(out@ =~= pointer_token(cs@.take(i as int)));
    }
    assert(cs@.take(cs@.len() as int) =~= cs@);
    out
}

/// The members among keys `ks` of the object at `base` whose values are
/// strings, in the order of `ks`.
pub open spec fn string_pairs(text: Seq<char>, base: Seq<char>, ks: Seq<Seq<char>>) -> Seq<(Seq<char>, Seq<char>)>
    decreases ks.len(),
{
    if ks.len() == 0 {
        Seq::empty()
    } else {
        let rest = string_pairs(text, base, ks.drop_last());
        match text_at(text, member_pointer(base, ks.last())) {
            Some(v) => rest.push((ks.last(), v)),
            None => rest,
        }
    }
}

/// The members of the object at a pointer whose values are strings, in the
/// order `serde_json` keeps them; empty when no object is there.
pub open spec fn string_members(text: Seq<char>, pointer: Seq<char>) -> Seq<(Seq<char>, Seq<char>)> {
    match object_keys(text, pointer) {
        Some(ks) => string_pairs(text, pointer, ks),
        None => Seq::empty(),
    }
}

/// Lists the string-valued members of the object at a pointer.
pub fn json_string_members(text: &str, pointer: &str) -> (r: Vec<(String, String)>)
    ensures
        r@.map_values(|m: (String, String)| (m.0@, m.1@)) == string_members(text@, pointer@),
{
    let mut out: Vec<(String, String)> = Vec::new();
    let keys = match json_object_keys(text, pointer) {
        Some(ks) => ks,
        None => {
            assert(out@.map_values(|m: (String, String)| (m.0@, m.1@)) =~= Seq::empty());
            return out;
        },
    };
    let ghost ks = keys@.map_values(|k: String| k@);
    let mut i: usize = 0;
    while i < keys.len()
        invariant
            i <= keys@.len(),
            ks == keys@.map_values(|k: String| k@),
            out@.map_values(|m: (String, String)| (m.0@, m.1@)) == string_pairs(text@, pointer@, ks.take(i as int)),
        decreases keys.len() - i,
    {
        let token = pointer_token_of(keys[i].as_str());
        let p = crate::text::concat3(pointer, "/", token.as_str());
        proof {
            reveal_strlit("/");
            assert(ks.take(i + 1 as int).drop_last() =~= ks.take(i as int));
            assert(ks.take(i + 1 as int).last() == keys@[i as int]@);
        }
        let ghost before = out@.map_values(|m: (String, String)| (m.0@, m.1@));
        match json_text_at(text, p.as_str()) {
            Some(v) => {
                let k = keys[i].clone();
                out.push((k, v));
                assert(out@.map_values(|m: (String, String)| (m.0@, m.1@)) =~= before.push((keys@[i as int]@, v@)));
            },
            None => {},
        }
        i = i + 1;
    }
    assert(ks.take(keys@.len() as int) =~= ks);
    out
}

/// The flag at a pointer, when a boolean is there.
pub open spec fn flag_at(text: Seq<char>, pointer: Seq<char>) -> Option<bool> {
    match json_at(text, pointer) {
        Some(JsonFieldView::Flag(b)) => Some(b),
        _ => None,
    }
}

/// Reads the boolean at a pointer, if one is there.
pub fn json_flag_at(text: &str, pointer: &str) -> (r: Option<bool>)
    ensures
        r == flag_at(text@, pointer@),
{
    match read_json_pointer(text, pointer) {
        Some(JsonField::Flag(b)) => Some(b),
        _ => None,
    }
}

/// The unsigned integer at a pointer: `None` when the text is not JSON or
/// no number that fits a `u64` is there.
pub uninterp spec fn json_unsigned_at(text: Seq<char>, pointer: Seq<char>) -> Option<u64>;

/// Parses `text` with `serde_json`, goes to `pointer` with
/// `Value::pointer` and gives `Value::as_u64`.  The contract names the
/// result.
#[verifier::external_body]
pub(crate) fn json_u64_at(text: &str, pointer: &str) -> (r: Option<u64>)
    ensures
        r == json_unsigned_at(text@, pointer@),
{
    let v: serde_json::Value = serde_json::from_str(text).ok()?;
    v.pointer(pointer)?.as_u64()
}

/// The JSON text of the value at a pointer: `None` when the text is not
/// JSON or nothing is there.
pub uninterp spec fn value_text_at(text: Seq<char>, pointer: Seq<char>) -> Option<Seq<char>>;

/// Parses `text` with `serde_json`, goes to `pointer` with
/// `Value::pointer` and writes the value found there with
/// `Value::to_string`.  The contract names the result.
#[verifier::external_body]
pub(crate) fn json_value_at(text: &str, pointer: &str) -> (r: Option<String>)
    ensures
        crate::text::opt_view(r) == value_text_at(text@, pointer@),
{
    let v: serde_json::Value = serde_json::from_str(text).ok()?;
    v.pointer(pointer).map(|x| x.to_string())
}

/// A JSON document as `serde_json` writes it back: `None` when the text is
/// not JSON.
pub uninterp spec fn canonical_json(text: Seq<char>) -> Option<Seq<char>>;

/// Parses `text` with `serde_json::from_str::<serde_json::Value>` and
/// writes the value again with `Value::to_string`.  The contract names the
/// result.
#[verifier::external_body]
pub(crate) fn json_canonical(text: &str) -> (r: Option<String>)
    ensures
        crate::text::opt_view(r) == canonical_json(text@),
{
    serde_json::from_str::<serde_json::Value>(text).ok().map(|v| v.to_string())
}

/// The signed integer at a pointer: `None` when the text is not JSON or
/// no number that fits an `i64` is there.
pub uninterp spec fn json_signed_at(text: Seq<char>, pointer: Seq<char>) -> Option<i64>;

/// Parses `text` with `serde_json`, goes to `pointer` with
/// `Value::pointer` and gives `Value::as_i64`.  The contract names the
/// result.
#[verifier::external_body]
pub(crate) fn json_i64_at(text: &str, pointer: &str) -> (r: Option<i64>)
    ensures
        r == json_signed_at(text@, pointer@),
{
    let v: serde_json::Value = serde_json::from_str(text).ok()?;
    v.pointer(pointer)?.as_i64()
}

/// The text of a JSON document after the object at `pointer` gets member
/// `key` set to the JSON `value`: `None` when either text is not JSON or no
/// object is at `pointer`.
pub uninterp spec fn json_member_set_at(text: Seq<char>, pointer: Seq<char>, key: Seq<char>, value: Seq<char>) -> Option<Seq<char>>;

/// Parses both texts with `serde_json`, goes to `pointer` with
/// `Value::pointer_mut`, sets member `key` there with `Map::insert` when an
/// object is there, and writes the document with `Value::to_string`.  The
/// contract names the result.
#[verifier::external_body]
pub(crate) fn set_json_member_at(text: &str, pointer: &str, key: &str, value: &str) -> (r: Option<String>)
    ensures
        crate::text::opt_view(r) == json_member_set_at(text@, pointer@, key@, value@),
{
    let mut v: serde_json::Value = serde_json::from_str(text).ok()?;
    let x: serde_json::Value = serde_json::from_str(value).ok()?;
    v.pointer_mut(pointer)?.as_object_mut()?.insert(key.to_string(), x);
    Some(v.to_string())
}

/// The JSON Pointer of element `i` of the array at `base`.
pub open spec fn element_pointer(base: Seq<char>, i: int) -> Seq<char> {
    base + "/"@ + crate::text::decimal(i)
}

/// Builds the pointer of an array element.
pub fn element_pointer_of(base: &str, i: usize) -> (r: String)
    ensures
        r@ == element_pointer(base@, i as int),
{
    let n = crate::text::u64_to_string(i as u64);
    crate::text::concat3(base, "/", n.as_str())
}

} // verus!
