//! What a client may send: the page it asks for, and the shapes of a record
//! to create or to change.

use vstd::prelude::*;
use vstd::arithmetic::div_mod::lemma_fundamental_div_mod;
use vstd::arithmetic::div_mod::lemma_mod_bound;

verus! {

/// The page taken where the client names none.
pub const DEFAULT_PAGE: usize = 1;

/// The page size taken where the client names none.
pub const DEFAULT_LIMIT: usize = 100;

/// The largest limit and the largest offset that storage is asked for.
pub const MAX_WINDOW: usize = 0x7fff_ffff;

/// The page a client asks for: pages count from 1.
#[derive(Debug, Clone, Copy)]
pub struct FilterOptions {
    pub page: Option<usize>,
    pub limit: Option<usize>,
}

/// Filters by the two ends of a transfer.
#[derive(Debug, Clone)]
pub struct ParamOptions {
    pub source: Option<String>,
    pub destination: Option<String>,
}

/// A record to create.
#[derive(Debug, Clone)]
pub struct CreateTxdataSchema {
    pub txhash: String,
    pub height: i64,
    pub source: String,
    pub destination: String,
    pub token: String,
    pub amount: String,
    pub timestamp: String,
}

/// The fields of a record to change: those that are set.
#[derive(Debug, Clone)]
pub struct UpdateTxdataSchema {
    pub txhash: Option<String>,
    pub height: Option<i64>,
    pub source: Option<String>,
    pub destination: Option<String>,
    pub token: Option<String>,
    pub amount: Option<String>,
    pub timemstamp: Option<String>,
}

/// The rows to ask storage for: `limit` rows after the first `offset`.
#[derive(Debug, Clone, Copy, PartialEq, Eq, Structural)]
pub struct PageWindow {
    pub limit: i32,
    pub offset: i32,
}

impl Default for FilterOptions {
    /// Names neither page nor limit.
    fn default() -> (opts: FilterOptions)
        ensures
            opts.page is None,
            opts.limit is None,
    {
        FilterOptions { page: None, limit: None }
    }
}

impl FilterOptions {
    /// The page asked for: 1 where none is named.
    pub open spec fn page_or_default(self) -> nat {
        match self.page {
            Some(p) => p as nat,
            None => DEFAULT_PAGE as nat,
        }
    }

    /// The page size asked for: 100 where none is named.
    pub open spec fn limit_or_default(self) -> nat {
        match self.limit {
            Some(l) => l as nat,
            None => DEFAULT_LIMIT as nat,
        }
    }

    /// The rows before the page asked for: the full pages before it.
    pub open spec fn offset(self) -> int {
        (self.page_or_default() - 1) * self.limit_or_default()
    }

    /// The page exists and storage can be asked for it: pages count from 1,
    /// and neither limit nor offset passes `MAX_WINDOW`.
    pub open spec fn has_window(self) -> bool {
        &&& self.page_or_default() >= 1
        &&& self.limit_or_default() <= MAX_WINDOW
        &&& self.offset() <= MAX_WINDOW
    }

    /// The rows to ask storage for: as many as the limit, after the full
    /// pages before the page asked for. None for page 0, and where the limit or
    /// the offset passes `MAX_WINDOW`.
    pub fn window(&self) -> (w: Option<PageWindow>)
        ensures
            w.is_some() == self.has_window(),
            w matches Some(found) ==> found.limit == self.limit_or_default() && found.offset
                == self.offset(),
    {
        let page: usize = match self.page {
            Some(p) => p,
            None => DEFAULT_PAGE,
        };
        let limit: usize = match self.limit {
            Some(l) => l,
            None => DEFAULT_LIMIT,
        };
        if page == 0 || limit > MAX_WINDOW {
            return None;
        }
        let before: usize = page - 1;
        if limit == 0 {
            assert(before * limit == 0) by (nonlinear_arith)
                requires
                    limit == 0,
            ;
            return Some(PageWindow { limit: 0, offset: 0 });
        }
        proof {
            lemma_fundamental_div_mod(MAX_WINDOW as int, limit as int);
            lemma_mod_bound(MAX_WINDOW as int, limit as int);
        }
        if before > MAX_WINDOW / limit {
            assert(before * limit > MAX_WINDOW) by (nonlinear_arith)
                requires
                    before >= MAX_WINDOW / limit + 1,
                    limit > 0,
                    MAX_WINDOW == limit * (MAX_WINDOW / limit) + MAX_WINDOW % limit,
                    MAX_WINDOW % limit < limit,
            ;
            return None;
        }
        assert(before * limit <= MAX_WINDOW) by (nonlinear_arith)
            requires
                before <= MAX_WINDOW / limit,
                limit > 0,
                MAX_WINDOW == limit * (MAX_WINDOW / limit) + MAX_WINDOW % limit,
                0 <= MAX_WINDOW % limit,
        ;
        let offset: usize = before * limit;
        Some(PageWindow { limit: limit as i32, offset: offset as i32 })
    }
}

} // verus!
