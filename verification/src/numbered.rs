//! A ready-made pagination contract over numbered pages.
//!
//! Many paged APIs hand out consecutive page numbers: each response names
//! the number of the next page, or nothing when it is the last. This module
//! gives that contract a concrete request type, and proves the exact shape
//! of its paginated runs: a script of `n` successes, each pointing at the
//! following page and the last pointing nowhere, yields exactly `n`
//! successful items in issue order.
use crate::pagination::{spec_step_ok, PaginatedRequest, State};
use crate::runs::{
    lemma_run_reaches, lemma_run_stops, lemma_run_successes, spec_issue_request, spec_run,
    spec_state_at,
};
use vstd::prelude::*;

verus! {

/// A request for one numbered page; `page` is the cursor, absent before
/// the first invocation of an operation that starts at the first page.
#[derive(Clone, Copy, Debug, PartialEq, Eq)]
pub struct NumberedRequest {
    /// The page to fetch, if one has been chosen.
    pub page: Option<u64>,
}

/// A response carrying one numbered page.
#[derive(Clone, Debug, PartialEq, Eq)]
pub struct NumberedResponse {
    /// The number of the page after this one, or `None` on the last page.
    pub next_page: Option<u64>,
    /// The page's payload.
    pub data: String,
}

impl PaginatedRequest for NumberedRequest {
    type PaginationData = u64;

    type Response = NumberedResponse;

    open spec fn spec_page(&self) -> Option<u64> {
        self.page
    }

    open spec fn spec_next_page(&self, prev_page: Option<u64>, response: NumberedResponse) -> Option<
        u64,
    > {
        response.next_page
    }

    open spec fn spec_with_page(&self, page: u64) -> Self {
        NumberedRequest { page: Some(page) }
    }

    fn get_page(&self) -> (page: Option<u64>) {
        self.page
    }

    fn next_page(&self, prev_page: Option<&u64>, response: &NumberedResponse) -> (next: Option<
        u64,
    >) {
        response.next_page
    }

    fn update_request(&mut self, page: &u64) {
        self.page = Some(*page);
    }
}

/// A script points onward for `m` pages when each of its first `m` answers
/// is a success, and names a next page exactly as long as pages remain.
pub open spec fn spec_points_onward<E>(
    script: Seq<Result<NumberedResponse, E>>,
    m: int,
) -> bool {
    &&& m <= script.len()
    &&& forall|i: int| 0 <= i < m ==> script[i] is Ok
    &&& forall|i: int| 0 <= i < m ==> ((script[i]->Ok_0.next_page is Some) <==> (i + 1 < m))
}

/// Pagination over a script that points onward for `m` pages has not
/// terminated after fewer than `m` pages.
proof fn lemma_numbered_not_end<E>(
    s: State<u64>,
    req: NumberedRequest,
    script: Seq<Result<NumberedResponse, E>>,
    m: int,
    k: int,
)
    requires
        s !is End,
        0 <= k < m,
        spec_points_onward(script, m),
    ensures
        spec_state_at(s, req, script, k) !is End,
    decreases k,
{
    if k > 0 {
        let req1 = spec_issue_request(s, req);
        let resp = script[0]->Ok_0;
        let s1 = spec_step_ok(s, req1, resp);
        assert(resp.next_page is Some);
        assert(s1 !is End);
        let rest = script.drop_first();
        assert(spec_points_onward(rest, m - 1)) by {
            assert forall|i: int| 0 <= i < m - 1 implies rest[i] is Ok && ((rest[i]->Ok_0.next_page
                is Some) <==> (i + 1 < m - 1)) by {
                assert(rest[i] == script[i + 1]);
            }
        }
        lemma_numbered_not_end(s1, req1, rest, m - 1, k - 1);
        assert(spec_state_at(s, req, script, k) == spec_state_at(s1, req1, rest, k - 1));
    }
}

/// Pagination over a script that points onward for `m` pages has
/// terminated once all `m` pages are drained.
proof fn lemma_numbered_end<E>(
    s: State<u64>,
    req: NumberedRequest,
    script: Seq<Result<NumberedResponse, E>>,
    m: int,
)
    requires
        s !is End,
        1 <= m,
        spec_points_onward(script, m),
    ensures
        spec_state_at(s, req, script, m) is End,
    decreases m,
{
    let req1 = spec_issue_request(s, req);
    let resp = script[0]->Ok_0;
    let s1 = spec_step_ok(s, req1, resp);
    let rest = script.drop_first();
    if m == 1 {
        assert(resp.next_page is None);
        assert(s1 is End);
        assert(spec_state_at(s, req, script, 1) == spec_state_at(s1, req1, rest, 0));
    } else {
        assert(resp.next_page is Some);
        assert(s1 !is End);
        assert(spec_points_onward(rest, m - 1)) by {
            assert forall|i: int| 0 <= i < m - 1 implies rest[i] is Ok && ((rest[i]->Ok_0.next_page
                is Some) <==> (i + 1 < m - 1)) by {
                assert(rest[i] == script[i + 1]);
            }
        }
        lemma_numbered_end(s1, req1, rest, m - 1);
        assert(spec_state_at(s, req, script, m) == spec_state_at(s1, req1, rest, m - 1));
    }
}

/// For every `n >= 1`: an executor whose answers point onward for `n`
/// pages makes the run deliver exactly `n` successful items, item `i`
/// being answer `i` — all pages, in ascending issue order, then the end.
pub proof fn lemma_numbered_run<E>(
    s: State<u64>,
    req: NumberedRequest,
    script: Seq<Result<NumberedResponse, E>>,
    n: int,
)
    requires
        s !is End,
        1 <= n,
        script.len() == n,
        spec_points_onward(script, n),
    ensures
        spec_run(s, req, script).len() == n,
        forall|i: int| 0 <= i < n ==> spec_run(s, req, script)[i] == script[i],
    decreases n,
{
    assert forall|k: int| 0 <= k < n implies spec_state_at(s, req, script, k) !is End by {
        if k > 0 {
            lemma_numbered_not_end(s, req, script, n, k);
        } else {
            assert(spec_state_at(s, req, script, 0) == s);
        }
    }
    lemma_run_reaches(s, req, script, n);
    lemma_numbered_end(s, req, script, n);
    lemma_run_stops(s, req, script, n);
    lemma_run_successes(s, req, script);
}

} // verus!
