//! Bounded pagination of list operations.
use vstd::prelude::*;

verus! {

/// The largest page a list operation returns.
pub const MAX_PAGE_SIZE: i64 = 200;

/// A page as the store reads it: page number from 1, page size, and the
/// number of rows skipped before it.
#[derive(Clone, Copy, Debug, PartialEq, Eq, Structural)]
pub struct PageWindow {
    pub page: i64,
    pub page_size: i64,
    pub offset: i64,
}

/// The requested page, raised to 1 when it is below.
pub open spec fn effective_page(page: i64) -> int {
    if page < 1 { 1 } else { page as int }
}

/// The requested page size, brought into 1..=200.
pub open spec fn effective_page_size(page_size: i64) -> int {
    if page_size < 1 { 1 } else if page_size > MAX_PAGE_SIZE { MAX_PAGE_SIZE as int } else { page_size as int }
}

/// The rows before a page.
pub open spec fn page_offset(page: int, page_size: int) -> int {
    (page - 1) * page_size
}

/// The offset of the requested page fits an `i64`.
pub open spec fn page_window_fits(page: i64, page_size: i64) -> bool {
    page_offset(effective_page(page), effective_page_size(page_size)) <= i64::MAX
}

/// The window of the requested page: page at least 1, size within 1..=200,
/// offset the rows of the pages before it.
pub fn page_window(page: i64, page_size: i64) -> (w: PageWindow)
    requires
        page_window_fits(page, page_size),
    ensures
        w.page == effective_page(page),
        w.page_size == effective_page_size(page_size),
        w.offset == page_offset(w.page as int, w.page_size as int),
        1 <= w.page,
        1 <= w.page_size <= MAX_PAGE_SIZE,
        0 <= w.offset,
        page < 1 ==> w.page == 1,
        page >= 1 ==> w.page == page,
        page_size < 1 ==> w.page_size == 1,
        page_size > 200 ==> w.page_size == 200,
        1 <= page_size <= 200 ==> w.page_size == page_size,
        w.offset == (w.page - 1) * w.page_size,
{
    let p: i64 = if page < 1 { 1 } else { page };
    let s: i64 = if page_size < 1 { 1 } else if page_size > MAX_PAGE_SIZE { MAX_PAGE_SIZE } else { page_size };
    assert(0 <= (p - 1) * s) by (nonlinear_arith)
        requires
            p >= 1,
            s >= 1,
    ;
    let offset: i64 = (p - 1) * s;
    PageWindow { page: p, page_size: s, offset }
}

/// Consecutive pages of one size meet without gap or overlap, and the first
/// page starts at the first row.
pub proof fn lemma_pages_tile(page: int, page_size: int)
    requires
        page >= 1,
    ensures
        page_offset(1, page_size) == 0,
        page_offset(page + 1, page_size) == page_offset(page, page_size) + page_size,
{
    assert((page + 1 - 1) * page_size == (page - 1) * page_size + page_size) by (nonlinear_arith);
}

/// A page below the first reads as the first and any other page as itself;
/// a size below 1 reads as 1, a size above 200 as 200, and any other size
/// as itself.
pub proof fn lemma_window_clamps(page: i64, page_size: i64)
    ensures
        page < 1 ==> effective_page(page) == 1,
        page >= 1 ==> effective_page(page) == page,
        page_size < 1 ==> effective_page_size(page_size) == 1,
        page_size > 200 ==> effective_page_size(page_size) == 200,
        1 <= page_size <= 200 ==> effective_page_size(page_size) == page_size,
        page_offset(effective_page(page), effective_page_size(page_size)) == (effective_page(page) - 1)
            * effective_page_size(page_size),
{
}

/// Normalising a window that is already normal changes nothing.
pub proof fn lemma_window_normal_is_fixed(page: i64, page_size: i64)
    requires
        page >= 1,
        1 <= page_size <= MAX_PAGE_SIZE,
    ensures
        effective_page(page) == page,
        effective_page_size(page_size) == page_size,
{
}

/// `w` is the window of the requested page and page size.
pub open spec fn is_window_of(w: PageWindow, page: i64, page_size: i64) -> bool {
    &&& w.page == effective_page(page)
    &&& w.page_size == effective_page_size(page_size)
    &&& w.offset == page_offset(w.page as int, w.page_size as int)
}

/// Whether the offset of the requested page fits an `i64`, as
/// `page_window` needs.
pub fn fits_page_window(page: i64, page_size: i64) -> (r: bool)
    ensures
        r == page_window_fits(page, page_size),
{
    let p: i64 = if page < 1 { 1 } else { page };
    let s: i64 = if page_size < 1 { 1 } else if page_size > MAX_PAGE_SIZE { MAX_PAGE_SIZE } else { page_size };
    assert(0 <= (p - 1) * s) by (nonlinear_arith)
        requires
            p >= 1,
            s >= 1,
    ;
    (p - 1).checked_mul(s).is_some()
}

} // verus!
