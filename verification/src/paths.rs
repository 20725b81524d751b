//! File-system path arithmetic as `std::path` does it on Unix, where `/`
//! is the only separator (no file-system access).
use vstd::prelude::*;
use crate::text::opt_view;

verus! {

/// What `Path::file_name` gives for a path: its last normal component.
pub uninterp spec fn file_name_of(p: Seq<char>) -> Option<Seq<char>>;

/// What `Path::extension` gives for a path.
pub uninterp spec fn extension_of(p: Seq<char>) -> Option<Seq<char>>;

/// What `Path::is_absolute` says of a path: on Unix a path is absolute
/// exactly when it starts with the root `/`.
pub open spec fn is_absolute_path(p: Seq<char>) -> bool {
    p.len() > 0 && p[0] == '/'
}

/// What `Path::join` gives (as `PathBuf::push` does on Unix): an absolute
/// `p` replaces the base; otherwise `p` is appended, after a `/` when the
/// base is not empty and does not already end in one.
pub open spec fn joined_path(base: Seq<char>, p: Seq<char>) -> Seq<char> {
    if is_absolute_path(p) {
        p
    } else if base.len() > 0 && base.last() != '/' {
        base + seq!['/'] + p
    } else {
        base + p
    }
}

/// `Path::new(p).file_name()` as a string; a `&str` path has only UTF-8
/// components, so the conversion back to `str` loses nothing.  What it
/// gives is a normal component: not empty, and (the separator being `/`
/// on the Unix targets this library is built for) without a `/`.  An
/// empty path has no component, so it has no file name.
#[verifier::external_body]
pub(crate) fn path_file_name(p: &str) -> (r: Option<String>)
    ensures
        opt_view(r) == file_name_of(p@),
        r matches Some(f) ==> f@.len() > 0 && !f@.contains('/'),
        p@.len() == 0 ==> r is None,
{
    std::path::Path::new(p).file_name().and_then(|s| s.to_str()).map(|s| s.to_string())
}

/// `Path::new(p).extension()` as a string.
#[verifier::external_body]
pub(crate) fn path_extension(p: &str) -> (r: Option<String>)
    ensures
        opt_view(r) == extension_of(p@),
{
    std::path::Path::new(p).extension().and_then(|s| s.to_str()).map(|s| s.to_string())
}

/// Whether a path is absolute.
pub(crate) fn path_is_absolute(p: &str) -> (r: bool)
    ensures
        r == is_absolute_path(p@),
{
    let cs = crate::text::chars_of(p);
    cs.len() > 0 && cs[0] == '/'
}

/// Joins a path to a base.
pub(crate) fn path_join(base: &str, p: &str) -> (r: String)
    ensures
        r@ == joined_path(base@, p@),
{
    if path_is_absolute(p) {
        return crate::text::owned(p);
    }
    let bs = crate::text::chars_of(base);
    proof {
        reveal_strlit("/");
    }
    if bs.len() > 0 && bs[bs.len() - 1] != '/' {
        crate::text::concat3(base, "/", p)
    } else {
        crate::text::concat(base, p)
    }
}

} // verus!
