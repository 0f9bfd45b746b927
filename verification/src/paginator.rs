use vstd::prelude::*;

use crate::entity::EntityTrait;
use crate::error::OrmError;
use crate::query::select::Select;
use crate::statement::{ExprV, OrderExprV, SelectExprV, SelectStmt, SelectExpr, SimpleExpr};

verus! {

/// A page-bounded reader over a built query: the query and the page size.
/// It holds no cursor; each page is an independent statement.
pub struct Paginator {
    pub query: SelectStmt,
    pub page_size: u64,
}

/// How many pages `total` rows make at `size` rows a page: the rounded-up
/// quotient, and none at all for an empty result.
pub open spec fn num_pages_s(total: int, size: int) -> int
    recommends
        size > 0,
{
    if total == 0 {
        0
    } else {
        (total - 1) / size + 1
    }
}

/// How many rows page `page` holds when `total` rows are read `size` a page.
pub open spec fn page_len_s(total: int, size: int, page: int) -> int
    recommends
        size > 0,
        page >= 0,
{
    let start = if page * size > total {
        total
    } else {
        page * size
    };
    if start + size > total {
        total - start
    } else {
        size
    }
}

/// The rows of page `page`: what OFFSET `page * size` and LIMIT `size`
/// select from the ordered result.
pub open spec fn page_rows_s<A>(rows: Seq<A>, size: int, page: int) -> Seq<A>
    recommends
        size > 0,
        page >= 0,
{
    let start = if page * size > rows.len() {
        rows.len() as int
    } else {
        page * size
    };
    let end = if start + size > rows.len() {
        rows.len() as int
    } else {
        start + size
    };
    rows.subrange(start, end)
}

/// A page holds exactly `page_len_s` rows; every page from `num_pages_s` on
/// is empty, and every earlier page holds at least one row.
pub proof fn lemma_page_rows<A>(rows: Seq<A>, size: int, page: int)
    requires
        size > 0,
        page >= 0,
    ensures
        page_rows_s(rows, size, page).len() == page_len_s(rows.len() as int, size, page),
        page >= num_pages_s(rows.len() as int, size) ==> page_rows_s(rows, size, page).len() == 0,
        page < num_pages_s(rows.len() as int, size) ==> page_rows_s(rows, size, page).len() > 0,
{
    let total = rows.len() as int;
    let pages = num_pages_s(total, size);
    if page >= pages {
        assert(page * size >= total) by (nonlinear_arith)
            requires
                size > 0,
                page >= 0,
                total >= 0,
                page >= pages,
                pages == num_pages_s(total, size),
                pages == if total == 0 { 0int } else { (total - 1) / size + 1 },
        {
            if total > 0 {
                assert((total - 1) / size * size + (total - 1) % size == total - 1);
            }
        }
    } else {
        assert(page * size <= total - 1) by (nonlinear_arith)
            requires
                size > 0,
                page >= 0,
                total >= 0,
                page < pages,
                pages == if total == 0 { 0int } else { (total - 1) / size + 1 },
        {
            assert((total - 1) / size * size + (total - 1) % size == total - 1);
        }
    }
}

impl<E> Select<E> where E: EntityTrait {
    /// Wraps the built query for page-bounded reading. A page size of zero
    /// is builder misuse and is rejected outright.
    pub fn paginate(self, page_size: u64) -> (r: Result<Paginator, OrmError>)
        ensures
            match r {
                Ok(p) => {
                    &&& page_size > 0
                    &&& p.query@ == self.query@
                    &&& p.page_size == page_size
                },
                Err(e) => {
                    &&& page_size == 0
                    &&& e == OrmError::InvalidPageSize
                },
            },
    {
        if page_size == 0 {
            Err(OrmError::InvalidPageSize)
        } else {
            Ok(Paginator { query: self.query, page_size })
        }
    }
}

impl Paginator {
    /// How many pages the wrapped query yields, given the row count its
    /// count query reported: the rounded-up quotient, zero for no rows.
    pub fn num_pages(&self, total_rows: u64) -> (r: u64)
        requires
            self.page_size > 0,
        ensures
            r as int == num_pages_s(total_rows as int, self.page_size as int),
    {
        if total_rows == 0 {
            0
        } else {
            (total_rows - 1) / self.page_size + 1
        }
    }

    /// The statement that reports the wrapped query's row count: same FROM,
    /// JOIN and WHERE clauses, a bare COUNT(*) projection, and no grouping,
    /// ordering or page bounds.
    pub fn count_query(&self) -> (r: SelectStmt)
        ensures
            r@.selects =~= seq![SelectExprV { expr: ExprV::CountAll, alias: None }],
            r@.from == self.query@.from,
            r@.joins == self.query@.joins,
            r@.wheres == self.query@.wheres,
            r@.groups =~= Seq::<ExprV>::empty(),
            r@.orders =~= Seq::<OrderExprV>::empty(),
            r@.limit is None,
            r@.offset is None,
    {
        let mut c = SelectStmt::new();
        c.selects.push(SelectExpr { expr: SimpleExpr::CountAll, alias: None });
        c.from = self.query.from.clone();
        c.joins = self.query.joins.clone();
        c.wheres = self.query.wheres.clone();
        proof {
            assert(c@.joins =~= self.query@.joins);
            assert(c@.wheres =~= self.query@.wheres);
        }
        c
    }

    /// The statement for page `page` (zero-indexed): the wrapped query with
    /// OFFSET `page * page_size` and LIMIT `page_size`. A page past the last
    /// one selects no rows but is not an error.
    pub fn fetch_page(&self, page: u64) -> (r: SelectStmt)
        requires
            self.page_size > 0,
            page * self.page_size <= u64::MAX,
        ensures
            r@.limit == Some(self.page_size),
            r@.offset == Some((page * self.page_size) as u64),
            r@.selects == self.query@.selects,
            r@.from == self.query@.from,
            r@.joins == self.query@.joins,
            r@.wheres == self.query@.wheres,
            r@.groups == self.query@.groups,
            r@.orders == self.query@.orders,
    {
        let mut q = self.query.clone();
        q.limit = Some(self.page_size);
        q.offset = Some(page * self.page_size);
        q
    }

    /// How many rows page `page` holds when the wrapped query yields
    /// `total_rows` in all: the page's slice of the result, never an error
    /// past the end — just zero.
    pub fn rows_on_page(&self, total_rows: u64, page: u64) -> (r: u64)
        requires
            self.page_size > 0,
        ensures
            r as int == page_len_s(total_rows as int, self.page_size as int, page as int),
    {
        let size = self.page_size;
        proof {
            assert((page as int) * (size as int) <= (u64::MAX as int) * (u64::MAX as int))
                by (nonlinear_arith)
                requires
                    0 <= page as int <= u64::MAX as int,
                    0 <= size as int <= u64::MAX as int,
            ;
        }
        let start_wide: u128 = (page as u128) * (size as u128);
        if start_wide >= total_rows as u128 {
            0
        } else {
            let start: u64 = start_wide as u64;
            if total_rows - start > size {
                size
            } else {
                total_rows - start
            }
        }
    }
}

} // verus!
