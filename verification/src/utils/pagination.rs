//! Cutting a list into pages.

use vstd::prelude::*;

verus! {

/// A position in a paged list: pages are counted from 0.
#[derive(Clone, Copy, Debug, PartialEq, Eq, Structural)]
pub struct Pagination {
    /// Index of the page, from 0.
    pub page: usize,
    /// Number of items on a full page.
    pub per_page: usize,
    /// Number of items in the whole list.
    pub total: usize,
}

/// Number of pages that `total` items fill at `per_page` items a page: the
/// quotient, rounded up.
pub open spec fn pages_needed(total: int, per_page: int) -> int
    recommends
        per_page > 0,
{
    (total + per_page - 1) / per_page
}

/// Where in a list of `len` items the page `page` starts and ends, as a
/// half-open range of positions. A page that starts beyond the list is the
/// empty range at 0.
pub open spec fn page_range(len: int, page: int, per_page: int) -> (int, int) {
    let start = page * per_page;
    if start >= len {
        (0, 0)
    } else if start + per_page >= len {
        (start, len)
    } else {
        (start, start + per_page)
    }
}

impl Pagination {
    /// The position `page` in a list of `total` items cut into pages of
    /// `per_page`.
    pub fn new(page: usize, per_page: usize, total: usize) -> (p: Pagination)
        ensures
            p.page == page,
            p.per_page == per_page,
            p.total == total,
    {
        Pagination { page, per_page, total }
    }

    /// Number of pages in the list.
    pub open spec fn spec_total_pages(&self) -> int {
        pages_needed(self.total as int, self.per_page as int)
    }

    /// Position of the page's first item in the list.
    pub fn offset(&self) -> (start: usize)
        requires
            self.page * self.per_page <= usize::MAX,
        ensures
            start == self.page * self.per_page,
    {
        self.page * self.per_page
    }

    /// Number of pages in the list: `total / per_page`, rounded up.
    pub fn total_pages(&self) -> (pages: usize)
        requires
            self.per_page > 0,
        ensures
            pages == self.spec_total_pages(),
    {
        let full = self.total / self.per_page;
        let rest = self.total % self.per_page;
        proof {
            lemma_pages_needed(self.total as int, self.per_page as int);
            vstd::arithmetic::div_mod::lemma_fundamental_div_mod(
                self.total as int,
                self.per_page as int,
            );
            assert(full <= self.per_page * full) by (nonlinear_arith)
                requires
                    self.per_page >= 1,
                    full >= 0,
            ;
        }
        if rest == 0 {
            full
        } else {
            full + 1
        }
    }

    /// Whether a page follows this one.
    pub fn has_next(&self) -> (r: bool)
        requires
            self.per_page > 0,
        ensures
            r == (self.page + 1 < self.spec_total_pages()),
    {
        let pages = self.total_pages();
        pages > 0 && self.page < pages - 1
    }

    /// Whether a page precedes this one.
    pub fn has_prev(&self) -> (r: bool)
        ensures
            r == (self.page > 0),
    {
        self.page > 0
    }
}

/// Rounding the quotient up adds one exactly when there is a remainder.
pub proof fn lemma_pages_needed(total: int, per_page: int)
    requires
        total >= 0,
        per_page > 0,
    ensures
        pages_needed(total, per_page) == total / per_page + if total % per_page == 0 {
            0int
        } else {
            1int
        },
        total <= pages_needed(total, per_page) * per_page < total + per_page,
{
    let q = total / per_page;
    let r = total % per_page;
    vstd::arithmetic::div_mod::lemma_fundamental_div_mod(total, per_page);
    vstd::arithmetic::div_mod::lemma_mod_bound(total, per_page);
    assert(total == per_page * q + r);
    let bump = if r == 0 { 0int } else { 1int };
    let rest = if r == 0 { per_page - 1 } else { r - 1 };
    assert(total + per_page - 1 == per_page * (q + bump) + rest) by (nonlinear_arith)
        requires
            total == per_page * q + r,
            bump == (if r == 0 { 0int } else { 1int }),
            rest == (if r == 0 { per_page - 1 } else { r - 1 }),
    ;
    vstd::arithmetic::div_mod::lemma_fundamental_div_mod_converse(
        total + per_page - 1,
        per_page,
        q + bump,
        rest,
    );
    assert((q + bump) * per_page == per_page * (q + bump)) by (nonlinear_arith);
}

/// The items of `items` on the page that `pagination` names: those at the
/// positions of [`page_range`]. A page beyond the end of the list is empty,
/// and the last page may be short. `pagination.total` plays no part.
pub fn paginate<'a, T>(items: &'a [T], pagination: &Pagination) -> (page: &'a [T])
    ensures
        page@ == items@.subrange(
            page_range(items@.len() as int, pagination.page as int, pagination.per_page as int).0,
            page_range(items@.len() as int, pagination.page as int, pagination.per_page as int).1,
        ),
{
    let len = items.len();
    match pagination.page.checked_mul(pagination.per_page) {
        Some(start) => {
            if start >= len {
                &items[0..0]
            } else if pagination.per_page >= len - start {
                &items[start..len]
            } else {
                &items[start..start + pagination.per_page]
            }
        },
        None => &items[0..0],
    }
}

} // verus!
