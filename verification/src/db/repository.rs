//! Pagination of list queries.

use vstd::prelude::*;

verus! {

/// A page of a list query: at most `limit` rows after skipping `offset`.
#[derive(Clone, Copy, Debug, PartialEq, Eq, Structural)]
pub struct Pagination {
    /// Maximum number of rows.
    pub limit: i64,
    /// Number of rows skipped.
    pub offset: i64,
}

/// The page after `p`: same size, offset advanced by one page.
pub open spec fn next_page(p: Pagination) -> Pagination {
    Pagination { limit: p.limit, offset: (p.offset + p.limit) as i64 }
}

/// The page before `p`, when `p` does not start before one full page.
pub open spec fn previous_page(p: Pagination) -> Option<Pagination> {
    if p.offset >= p.limit {
        Some(Pagination { limit: p.limit, offset: (p.offset - p.limit) as i64 })
    } else {
        None
    }
}

/// Page number `page` (from 0) of `size` rows.
pub open spec fn nth_page(page: int, size: int) -> Pagination {
    Pagination { limit: size as i64, offset: (page * size) as i64 }
}

/// Whether an `i64` can hold the value.
pub open spec fn fits_i64(v: int) -> bool {
    i64::MIN <= v <= i64::MAX
}

impl Default for Pagination {
    /// Fifty rows from the start.
    fn default() -> (p: Self)
        ensures
            p == (Pagination { limit: 50, offset: 0 }),
    {
        Pagination { limit: 50, offset: 0 }
    }
}

impl Pagination {
    /// A pagination with the given limit and offset.
    pub fn new(limit: i64, offset: i64) -> (p: Self)
        ensures
            p == (Pagination { limit, offset }),
    {
        Pagination { limit, offset }
    }

    /// The first page of `page_size` rows.
    pub fn first_page(page_size: i64) -> (p: Self)
        ensures
            p == (Pagination { limit: page_size, offset: 0 }),
    {
        Pagination { limit: page_size, offset: 0 }
    }

    /// Page number `page` (from 0) of `page_size` rows.
    pub fn page(page: i64, page_size: i64) -> (p: Self)
        requires
            fits_i64(page * page_size),
        ensures
            p == nth_page(page as int, page_size as int),
    {
        Pagination { limit: page_size, offset: page * page_size }
    }

    /// The next page.
    pub fn next(&self) -> (p: Self)
        requires
            fits_i64(self.offset + self.limit),
        ensures
            p == next_page(*self),
    {
        Pagination { limit: self.limit, offset: self.offset + self.limit }
    }

    /// The previous page, or `None` when this page starts within the first
    /// page's worth of rows.
    pub fn previous(&self) -> (r: Option<Self>)
        requires
            self.offset >= self.limit ==> fits_i64(self.offset - self.limit),
        ensures
            r == previous_page(*self),
    {
        if self.offset >= self.limit {
            Some(Pagination { limit: self.limit, offset: self.offset - self.limit })
        } else {
            None
        }
    }
}

/// Going forward one page and back again returns to the same page, for
/// any page that does not start before the first row.
pub proof fn law_previous_undoes_next(p: Pagination)
    requires
        p.offset >= 0,
        fits_i64(p.offset + p.limit),
    ensures
        previous_page(next_page(p)) == Some(p),
{
}

/// Going back one page and forward again returns to the same page.
pub proof fn law_next_undoes_previous(p: Pagination)
    requires
        previous_page(p) is Some,
        fits_i64(p.offset - p.limit),
    ensures
        next_page(previous_page(p)->0) == p,
{
}

/// The page after page `k` is page `k + 1`.
pub proof fn law_next_of_nth(k: int, size: int)
    requires
        fits_i64(size),
        fits_i64(k * size),
        fits_i64((k + 1) * size),
    ensures
        next_page(nth_page(k, size)) == nth_page(k + 1, size),
{
    assert((k + 1) * size == k * size + size) by (nonlinear_arith);
}

/// The first page has no previous page, whatever its (positive) size.
pub proof fn law_first_page_has_no_previous(size: i64)
    requires
        size > 0,
    ensures
        previous_page(Pagination { limit: size, offset: 0 }) is None,
        nth_page(0, size as int) == (Pagination { limit: size, offset: 0 }),
{
}

} // verus!
