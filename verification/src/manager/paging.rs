//! Paging of listings: which page is shown, how long it is, and which
//! rows it holds.
use vstd::prelude::*;

verus! {

/// The page asked for (the first when none; never before the first) and
/// its length (`default` when none; between 1 and `max`).
pub open spec fn page_of(page: Option<i64>, size: Option<i64>, default: i64, max: i64) -> (i64, i64) {
    let p = match page {
        Some(p) => if p < 1 { 1 } else { p },
        None => 1,
    };
    let s0 = match size {
        Some(s) => s,
        None => default,
    };
    let s = if s0 < 1 { 1 } else if s0 > max { max } else { s0 };
    (p, s)
}

/// Settles the page a listing shows and its length.
pub fn page_bounds(page: Option<i64>, page_size: Option<i64>, default_size: i64, max_size: i64) -> (r: (i64, i64))
    requires
        1 <= max_size,
    ensures
        r == page_of(page, page_size, default_size, max_size),
        r.0 >= 1,
        1 <= r.1 <= max_size,
{
    let p = match page {
        Some(p) => if p < 1 { 1 } else { p },
        None => 1,
    };
    let s0 = match page_size {
        Some(s) => s,
        None => default_size,
    };
    let s = if s0 < 1 { 1 } else if s0 > max_size { max_size } else { s0 };
    (p, s)
}

/// How many rows come before a page: `(page - 1) * size`.  (Beyond
/// `i64::MAX` the product overflows, so such pages are left out.)
pub fn page_offset(page: i64, size: i64) -> (r: i64)
    requires
        page >= 1,
        size >= 1,
        (page - 1) * size <= i64::MAX,
    ensures
        r == (page - 1) * size,
        r >= 0,
{
    assert((page - 1) * size >= 0) by (nonlinear_arith)
        requires
            page >= 1,
            size >= 1,
    ;
    (page - 1) * size
}

/// The rows of a page: at most `size` rows after the first `offset`.
pub open spec fn page_rows<T>(items: Seq<T>, offset: nat, size: nat) -> Seq<T> {
    let rest = if offset >= items.len() { Seq::empty() } else { items.skip(offset as int) };
    if size >= rest.len() { rest } else { rest.take(size as int) }
}

/// Keeps the rows of a page.
pub fn take_page<T>(items: Vec<T>, offset: usize, size: usize) -> (r: Vec<T>)
    ensures
        r@ == page_rows(items@, offset as nat, size as nat),
{
    let mut v = items;
    let ghost all = v@;
    if offset >= v.len() {
        return Vec::new();
    }
    let mut tail = v.split_off(offset);
    assert(tail@ =~= all.skip(offset as int));
    if size < tail.len() {
        tail.truncate(size);
        assert(tail@ =~= all.skip(offset as int).take(size as int));
    }
    tail
}

} // verus!
