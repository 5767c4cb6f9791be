//! The pagination engine: page arithmetic and result envelopes.

use vstd::prelude::*;

use crate::query::spec_offset;

verus! {

/// A page of results together with the counters a listing response
/// carries.  `count` is always the number of rows in `results` and never
/// exceeds `page_size`; `all_count` is the unpaginated (but scoped) total.
#[derive(Debug, Clone, PartialEq, Eq)]
pub struct PagedResult<T> {
    pub page: u32,
    pub page_size: u32,
    pub all_count: u32,
    pub count: usize,
    pub results: Vec<T>,
}

impl<T> PagedResult<T> {
    /// The envelope's internal invariant.
    pub open spec fn wf(self) -> bool {
        self.count == self.results@.len() && self.count <= self.page_size
    }

    /// Wraps fetched rows in the response envelope.
    pub fn assemble(page: u32, page_size: u32, all_count: u32, results: Vec<T>) -> (r:
        PagedResult<T>)
        requires
            results@.len() <= page_size,
        ensures
            r.page == page,
            r.page_size == page_size,
            r.all_count == all_count,
            r.count == results@.len(),
            r.results == results,
            r.wf(),
    {
        let count = results.len();
        PagedResult { page, page_size, all_count, count, results }
    }
}

/// The rows a page selects out of an ordered row set: the `page_size` rows
/// starting at offset `(page - 1) * page_size`, clipped to the end of the
/// set.
pub open spec fn spec_page<T>(rows: Seq<T>, page: int, page_size: int) -> Seq<T> {
    let offset = spec_offset(page, page_size);
    if offset >= rows.len() {
        Seq::empty()
    } else if offset + page_size >= rows.len() {
        rows.subrange(offset, rows.len() as int)
    } else {
        rows.subrange(offset, offset + page_size)
    }
}

/// Pagination invariant: a page holds `min(page_size, remaining)` rows,
/// where `remaining` is what is left past the page's offset.
pub proof fn lemma_page_count<T>(rows: Seq<T>, page: int, page_size: int)
    requires
        page >= 1,
        page_size >= 1,
    ensures
        ({
            let offset = spec_offset(page, page_size);
            let remaining = if rows.len() >= offset {
                rows.len() - offset
            } else {
                0
            };
            spec_page(rows, page, page_size).len() == if page_size <= remaining {
                page_size
            } else {
                remaining
            }
        }),
{
    assert(spec_offset(page, page_size) >= 0) by (nonlinear_arith)
        requires
            page >= 1,
            page_size >= 1,
    ;
}

/// Selects one page out of an ordered row set; the reference semantics of
/// `LIMIT ? OFFSET ?`.
pub fn page_of<T>(rows: Vec<T>, page: u32, page_size: u32) -> (r: Vec<T>)
    requires
        page >= 1,
        page_size >= 1,
    ensures
        r@ == spec_page(rows@, page as int, page_size as int),
        r@.len() <= page_size,
{
    let ghost orig = rows@;
    proof {
        lemma_page_count::<T>(rows@, page as int, page_size as int);
    }
    let offset = crate::query::compute_offset(page, page_size);
    let mut rows = rows;
    if offset >= rows.len() as u64 {
        proof {
            assert(spec_page(orig, page as int, page_size as int) =~= Seq::<T>::empty());
        }
        return Vec::new();
    }
    let mut tail = rows.split_off(offset as usize);
    tail.truncate(page_size as usize);
    proof {
        assert(tail@ =~= spec_page(orig, page as int, page_size as int));
    }
    tail
}

/// Runs the whole engine on fetched rows: clips them to the requested page
/// and wraps them in the envelope.
pub fn paginate<T>(rows: Vec<T>, page: u32, page_size: u32, all_count: u32) -> (r: PagedResult<T>)
    requires
        page >= 1,
        page_size >= 1,
    ensures
        r.page == page,
        r.page_size == page_size,
        r.all_count == all_count,
        r.results@ == spec_page(rows@, page as int, page_size as int),
        r.count == r.results@.len(),
        r.wf(),
{
    let selected = page_of(rows, page, page_size);
    PagedResult::assemble(page, page_size, all_count, selected)
}

} // verus!
