//! Page numbers and sizes, and the rows of the store that a page covers.
use crate::error::ApiError;
use vstd::prelude::*;

verus! {

/// Page size used when a request names none.
pub const DEFAULT_PAGE_SIZE: usize = 10;

/// Largest page size that the listing endpoints hand out.
pub const MAX_PAGE_SIZE: usize = 1000;

/// The paging parameters of a request; both are optional.
#[derive(Debug)]
pub struct Pagination {
    /// Page number, starting from 0.
    pub page: Option<usize>,
    /// Page size.
    pub page_size: Option<usize>,
}

/// The page and page size that a request gets: a missing page is 0, a missing size is
/// `default_size`, and then a size above `max_size` is cut to `max_size`.
pub open spec fn normalized_page(
    page: Option<usize>,
    page_size: Option<usize>,
    default_size: usize,
    max_size: usize,
) -> (usize, usize) {
    (
        match page {
            Some(p) => p,
            None => 0,
        },
        clamped_size(
            match page_size {
                Some(s) => s,
                None => default_size,
            },
            max_size,
        ),
    )
}

/// `size`, cut to `max_size` where it is larger.
pub open spec fn clamped_size(size: usize, max_size: usize) -> usize {
    if size > max_size {
        max_size
    } else {
        size
    }
}

/// Normalizes a page request against a default and a largest page size.
pub fn normalize_page(
    page: Option<usize>,
    page_size: Option<usize>,
    default_size: usize,
    max_size: usize,
) -> (r: (usize, usize))
    ensures
        r == normalized_page(page, page_size, default_size, max_size),
{
    let p = match page {
        Some(p) => p,
        None => 0,
    };
    let s = match page_size {
        Some(s) => s,
        None => default_size,
    };
    let s = if s > max_size {
        max_size
    } else {
        s
    };
    (p, s)
}

impl Pagination {
    /// The page and the page size, with the default size and `max_page_size` as the limit.
    pub fn extract(&self, max_page_size: usize) -> (r: (usize, usize))
        ensures
            r == normalized_page(self.page, self.page_size, DEFAULT_PAGE_SIZE, max_page_size),
    {
        normalize_page(self.page, self.page_size, DEFAULT_PAGE_SIZE, max_page_size)
    }
}

/// The rows of one page: they start at `offset` and there are `limit` of them.
#[derive(Debug)]
pub struct PageWindow {
    pub offset: usize,
    pub limit: usize,
}

/// Whether the last row of the page has an index that fits in `usize`.
pub open spec fn window_fits(page: int, page_size: int) -> bool {
    (page + 1) * page_size <= usize::MAX + 1
}

/// The window of page `page` with `page_size` rows a page, where its rows can be indexed.
pub open spec fn window_of(page: usize, page_size: usize) -> Option<PageWindow> {
    if window_fits(page as int, page_size as int) {
        Some(PageWindow { offset: (page * page_size) as usize, limit: page_size })
    } else {
        None
    }
}

/// The rows of page `page`; nothing when their indexes would not fit in `usize`.
pub fn page_window(page: usize, page_size: usize) -> (r: Option<PageWindow>)
    ensures
        r == window_of(page, page_size),
{
    let pages: u128 = page as u128 + 1;
    let size: u128 = page_size as u128;
    assert(pages * size <= 0x1_0000_0000_0000_0000 * 0xFFFF_FFFF_FFFF_FFFF) by (nonlinear_arith)
        requires
            pages <= 0x1_0000_0000_0000_0000,
            size <= 0xFFFF_FFFF_FFFF_FFFF,
    ;
    let end: u128 = pages * size;
    if end > usize::MAX as u128 + 1 {
        return None;
    }
    assert(page * page_size <= usize::MAX) by (nonlinear_arith)
        requires
            (page + 1) * page_size <= usize::MAX + 1,
            page_size >= 0,
    ;
    Some(PageWindow { offset: page * page_size, limit: page_size })
}

/// The first and last row index of a window, both included, or nothing for an empty one.
pub open spec fn store_range_of(w: PageWindow) -> Option<(usize, usize)> {
    if w.limit == 0 {
        None
    } else {
        Some((w.offset, (w.offset + w.limit - 1) as usize))
    }
}

impl PageWindow {
    /// The first and last row index, both included; nothing when the page holds no rows.
    pub fn store_range(&self) -> (r: Option<(usize, usize)>)
        requires
            self.offset + self.limit <= usize::MAX + 1,
        ensures
            r == store_range_of(*self),
    {
        if self.limit == 0 {
            None
        } else {
            Some((self.offset, self.offset + (self.limit - 1)))
        }
    }
}

/// The rows of page `page` as an inclusive range of indexes, nothing for an empty page, or a
/// bad request where the indexes do not fit.
pub fn page_rows(page: usize, page_size: usize) -> (r: Result<Option<(usize, usize)>, ApiError>)
    ensures
        match window_of(page, page_size) {
            Some(w) => r == Ok::<Option<(usize, usize)>, ApiError>(store_range_of(w)),
            None => r matches Err(e) && e.status_code == crate::error::BAD_REQUEST,
        },
{
    match page_window(page, page_size) {
        Some(w) => {
            assert(page * page_size + page_size <= usize::MAX + 1) by (nonlinear_arith)
                requires
                    (page + 1) * page_size <= usize::MAX + 1,
            ;
            assert(page * page_size <= usize::MAX) by (nonlinear_arith)
                requires
                    (page + 1) * page_size <= usize::MAX + 1,
                    page_size >= 0,
            ;
            Ok(w.store_range())
        },
        None => Err(ApiError::new_bad_request("page out of range")),
    }
}

/// A normalized page size never exceeds the largest one, and the page's window starts at
/// page times page size and is page size rows wide.
pub proof fn pagination_is_bounded(
    page: Option<usize>,
    page_size: Option<usize>,
    default_size: usize,
    max_size: usize,
)
    ensures
        normalized_page(page, page_size, default_size, max_size).1 <= max_size,
        ({
            let (p, s) = normalized_page(page, page_size, default_size, max_size);
            window_of(p, s) matches Some(w) ==> w.offset == p * s && w.limit == s
        }),
        ({
            let (p, s) = normalized_page(page, page_size, default_size, max_size);
            window_of(p, s) matches Some(w) ==> (store_range_of(w) matches Some(rg) ==> rg.1
                - rg.0 + 1 == s)
        }),
{
    let (p, s) = normalized_page(page, page_size, default_size, max_size);
    if window_fits(p as int, s as int) {
        assert(p * s <= usize::MAX) by (nonlinear_arith)
            requires
                (p + 1) * s <= usize::MAX + 1,
                s >= 0,
        ;
        assert(p * s + s <= usize::MAX + 1) by (nonlinear_arith)
            requires
                (p + 1) * s <= usize::MAX + 1,
        ;
    }
}

} // verus!
