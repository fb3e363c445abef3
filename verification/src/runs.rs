//! The laws of whole paginated runs.
//!
//! [`spec_run`] is the mathematical model of a complete paginated operation:
//! given the initial cursor state, the request, and the executor's answer to
//! each invocation in issue order (the *script*), it gives the sequence of
//! items the engine delivers. The proof functions here state the laws of the
//! engine over this model, over the per-step transition relation
//! [`poll_next_rel`], and over whole traces of steps: successes arrive in
//! ascending issue order, the first failure is the final item, the output is
//! a function of the inputs alone, no cursor is applied before one exists,
//! the engine never runs more than one invocation ahead of the consumer, a
//! not-ready executor is never invoked, and every trace of the engine
//! refines the run model.
use crate::pagination::{
    spec_cursor, spec_step_ok, poll_next_rel, PaginatedRequest, PollNext, State, StreamModel,
};
use vstd::prelude::*;

verus! {

/// The request value used by an invocation issued from cursor state `s`:
/// retargeted at the state's cursor, or handed over unchanged when no
/// cursor exists yet.
pub open spec fn spec_issue_request<T, R: PaginatedRequest<PaginationData = T>>(
    s: State<T>,
    req: R,
) -> R {
    match spec_cursor(s) {
        Some(c) => req.spec_with_page(c),
        None => req,
    }
}

/// The items a paginated run delivers, in issue order.
///
/// `script[i]` is the executor's answer to invocation `i`. The run drains
/// one answer per invocation: a success is delivered and pagination
/// continues at the derived cursor until the pagination contract signals
/// termination; a failure is delivered as the final item and the run ends
/// at once. A script too short to reach termination models an executor
/// that never completes the next invocation: the run simply stops short,
/// delivering only completed work.
pub open spec fn spec_run<T, R: PaginatedRequest<PaginationData = T>, E>(
    s: State<T>,
    req: R,
    script: Seq<Result<R::Response, E>>,
) -> Seq<Result<R::Response, E>>
    decreases script.len(),
{
    if s is End || script.len() == 0 {
        Seq::empty()
    } else {
        let req1 = spec_issue_request(s, req);
        match script[0] {
            Ok(resp) => seq![script[0]] + spec_run(
                spec_step_ok(s, req1, resp),
                req1,
                script.drop_first(),
            ),
            Err(_) => seq![script[0]],
        }
    }
}

/// The cursor state after the first `k` answers of `script` are drained.
pub open spec fn spec_state_at<T, R: PaginatedRequest<PaginationData = T>, E>(
    s: State<T>,
    req: R,
    script: Seq<Result<R::Response, E>>,
    k: int,
) -> State<T>
    decreases k,
{
    if k <= 0 || s is End || script.len() == 0 {
        s
    } else {
        match script[0] {
            Ok(resp) => spec_state_at(
                spec_step_ok(s, spec_issue_request(s, req), resp),
                spec_issue_request(s, req),
                script.drop_first(),
                k - 1,
            ),
            Err(_) => State::End,
        }
    }
}

/// Successes are delivered in ascending issue order: when every scripted
/// answer is a success, the run delivers a prefix of the script, item `i`
/// of the output being exactly answer `i`; and the run falls short of the
/// whole script only because pagination terminated.
pub proof fn lemma_run_successes<T, R: PaginatedRequest<PaginationData = T>, E>(
    s: State<T>,
    req: R,
    script: Seq<Result<R::Response, E>>,
)
    requires
        forall|i: int| 0 <= i < script.len() ==> script[i] is Ok,
    ensures
        spec_run(s, req, script).len() <= script.len(),
        forall|i: int|
            0 <= i < spec_run(s, req, script).len() ==> spec_run(s, req, script)[i] == script[i],
        spec_run(s, req, script).len() < script.len() ==> spec_state_at(
            s,
            req,
            script,
            spec_run(s, req, script).len() as int,
        ) is End,
    decreases script.len(),
{
    if s is End || script.len() == 0 {
    } else {
        let req1 = spec_issue_request(s, req);
        let resp = script[0]->Ok_0;
        let s1 = spec_step_ok(s, req1, resp);
        let rest = script.drop_first();
        lemma_run_successes(s1, req1, rest);
        let run = spec_run(s, req, script);
        let run1 = spec_run(s1, req1, rest);
        assert forall|i: int| 0 <= i < run.len() implies run[i] == script[i] by {
            if i > 0 {
                assert(run[i] == run1[i - 1]);
                assert(rest[i - 1] == script[i]);
            }
        }
        if run.len() < script.len() {
            assert(spec_state_at(s, req, script, run.len() as int) == spec_state_at(
                s1,
                req1,
                rest,
                run1.len() as int,
            ));
        }
    }
}

/// As long as pagination has not terminated, every completed invocation
/// yields one delivered item: a run over an all-success script reaches at
/// least `n` items when the cursor state has not hit `End` within the
/// first `n` answers.
pub proof fn lemma_run_reaches<T, R: PaginatedRequest<PaginationData = T>, E>(
    s: State<T>,
    req: R,
    script: Seq<Result<R::Response, E>>,
    n: int,
)
    requires
        forall|i: int| 0 <= i < script.len() ==> script[i] is Ok,
        0 <= n <= script.len(),
        forall|k: int| 0 <= k < n ==> spec_state_at(s, req, script, k) !is End,
    ensures
        spec_run(s, req, script).len() >= n,
    decreases n,
{
    if n > 0 {
        assert(spec_state_at(s, req, script, 0) == s);
        let req1 = spec_issue_request(s, req);
        let resp = script[0]->Ok_0;
        let s1 = spec_step_ok(s, req1, resp);
        let rest = script.drop_first();
        assert forall|k: int| 0 <= k < n - 1 implies spec_state_at(s1, req1, rest, k) !is End by {
            assert(spec_state_at(s, req, script, k + 1) == spec_state_at(s1, req1, rest, k));
        }
        lemma_run_reaches(s1, req1, rest, n - 1);
    }
}

/// A run never outlives termination: once the cursor state has hit `End`
/// within the first `n` answers of an all-success script, at most `n`
/// items are delivered.
pub proof fn lemma_run_stops<T, R: PaginatedRequest<PaginationData = T>, E>(
    s: State<T>,
    req: R,
    script: Seq<Result<R::Response, E>>,
    n: int,
)
    requires
        forall|i: int| 0 <= i < script.len() ==> script[i] is Ok,
        0 <= n,
        spec_state_at(s, req, script, n) is End,
    ensures
        spec_run(s, req, script).len() <= n,
    decreases n,
{
    if s is End || script.len() == 0 {
    } else if n == 0 {
        assert(spec_state_at(s, req, script, 0) == s);
    } else {
        let req1 = spec_issue_request(s, req);
        let resp = script[0]->Ok_0;
        let s1 = spec_step_ok(s, req1, resp);
        let rest = script.drop_first();
        assert(spec_state_at(s, req, script, n) == spec_state_at(s1, req1, rest, n - 1));
        lemma_run_stops(s1, req1, rest, n - 1);
    }
}

/// Fail-fast: when invocation `j` (1-indexed) is the first to fail and
/// pagination would not have terminated earlier, the run delivers exactly
/// the `j - 1` earlier successes in issue order, then the one failure,
/// and nothing after it.
pub proof fn lemma_fail_fast<T, R: PaginatedRequest<PaginationData = T>, E>(
    s: State<T>,
    req: R,
    script: Seq<Result<R::Response, E>>,
    j: int,
)
    requires
        1 <= j <= script.len(),
        forall|i: int| 0 <= i < j - 1 ==> script[i] is Ok,
        script[j - 1] is Err,
        forall|k: int| 0 <= k < j ==> spec_state_at(s, req, script, k) !is End,
    ensures
        spec_run(s, req, script).len() == j,
        forall|i: int| 0 <= i < j ==> spec_run(s, req, script)[i] == script[i],
    decreases j,
{
    assert(spec_state_at(s, req, script, 0) == s);
    if j == 1 {
    } else {
        let req1 = spec_issue_request(s, req);
        let resp = script[0]->Ok_0;
        let s1 = spec_step_ok(s, req1, resp);
        let rest = script.drop_first();
        assert forall|k: int| 0 <= k < j - 1 implies spec_state_at(s1, req1, rest, k) !is End by {
            assert(spec_state_at(s, req, script, k + 1) == spec_state_at(s1, req1, rest, k));
        }
        lemma_fail_fast(s1, req1, rest, j - 1);
        let run = spec_run(s, req, script);
        let run1 = spec_run(s1, req1, rest);
        assert forall|i: int| 0 <= i < j implies run[i] == script[i] by {
            if i > 0 {
                assert(run[i] == run1[i - 1]);
                assert(rest[i - 1] == script[i]);
            }
        }
    }
}

/// Determinism: the delivered sequence is a function of the initial cursor
/// state, the request, and the executor's answers alone, so identical
/// inputs yield the identical output sequence on repeated runs.
pub proof fn lemma_run_deterministic<T, R: PaginatedRequest<PaginationData = T>, E>(
    s1: State<T>,
    req1: R,
    script1: Seq<Result<R::Response, E>>,
    s2: State<T>,
    req2: R,
    script2: Seq<Result<R::Response, E>>,
)
    requires
        s1 == s2,
        req1 == req2,
        script1 == script2,
    ensures
        spec_run(s1, req1, script1) == spec_run(s2, req2, script2),
{
}

/// No premature mutation: a step taken while no cursor exists — in
/// particular any step of a stream started without an initial cursor —
/// leaves the request untouched and applies no cursor to it.
pub proof fn lemma_no_premature_mutation<T, R: PaginatedRequest<PaginationData = T>, E>(
    pre: StreamModel<T, R>,
    post: StreamModel<T, R>,
    r: PollNext<R::Response, E>,
)
    requires
        poll_next_rel(pre, post, r),
        pre.state == State::<T>::Start(None),
    ensures
        post.request == pre.request,
        post.applied == pre.applied,
{
}

/// No premature mutation, along whole traces: a stream started without an
/// initial cursor keeps its request untouched and applies no cursor for as
/// long as no item has been delivered — in particular the first invocation
/// is issued with the request exactly as the caller supplied it.
pub proof fn lemma_trace_no_premature_mutation<T, R: PaginatedRequest<PaginationData = T>, E>(
    models: Seq<StreamModel<T, R>>,
    answers: Seq<PollNext<R::Response, E>>,
    k: int,
)
    requires
        is_trace(models, answers),
        models[0].state == State::<T>::Start(None),
        0 <= k < models.len(),
        forall|j: int| 0 <= j < k ==> !((#[trigger] answers[j]) matches PollNext::Ready(Some(_))),
    ensures
        models[k].state == State::<T>::Start(None),
        models[k].request == models[0].request,
        models[k].applied == models[0].applied,
    decreases k,
{
    if k > 0 {
        lemma_trace_no_premature_mutation(models, answers, k - 1);
        assert(poll_next_rel(models[k - 1], models[k], answers[k - 1]));
    }
}

/// Once the last page is reached and every outstanding result has been
/// delivered, the stream only ever reports exhaustion: no invocation is
/// issued, nothing changes.
pub proof fn lemma_end_is_final<T, R: PaginatedRequest<PaginationData = T>, E>(
    pre: StreamModel<T, R>,
    post: StreamModel<T, R>,
    r: PollNext<R::Response, E>,
)
    requires
        poll_next_rel(pre, post, r),
        pre.state is End,
        pre.pending == 0,
    ensures
        r matches PollNext::Ready(None),
        post == pre,
{
}

/// Early truncation: under sequential dispatch the engine never runs more
/// than one invocation ahead of the consumer, so a consumer that stops
/// after `k` items has caused at most `k + 1` invocations.
pub proof fn lemma_truncation<T, R: PaginatedRequest<PaginationData = T>, E>(
    pre: StreamModel<T, R>,
    post: StreamModel<T, R>,
    r: PollNext<R::Response, E>,
)
    requires
        pre.inv(),
        poll_next_rel(pre, post, r),
    ensures
        post.inv(),
        post.issued <= post.emitted + 1,
        post.emitted <= pre.emitted + 1,
{
}

/// A trace of the engine: `models[i]` is the stream's state before step
/// `i`, `answers[i]` what that step answered, and every consecutive pair
/// is connected by the transition relation.
pub open spec fn is_trace<T, R: PaginatedRequest<PaginationData = T>, E>(
    models: Seq<StreamModel<T, R>>,
    answers: Seq<PollNext<R::Response, E>>,
) -> bool {
    &&& models.len() == answers.len() + 1
    &&& forall|i: int|
        #![trigger answers[i]]
        0 <= i < answers.len() ==> poll_next_rel(models[i], models[i + 1], answers[i])
}

/// The items a sequence of step answers delivered, in order.
pub open spec fn spec_delivered<Resp, E>(answers: Seq<PollNext<Resp, E>>) -> Seq<Result<Resp, E>>
    decreases answers.len(),
{
    if answers.len() == 0 {
        Seq::empty()
    } else {
        match answers[0] {
            PollNext::Ready(Some(item)) => seq![item] + spec_delivered(answers.drop_first()),
            _ => spec_delivered(answers.drop_first()),
        }
    }
}

/// The engine's invariant holds along every trace that starts in it.
pub proof fn lemma_trace_inv<T, R: PaginatedRequest<PaginationData = T>, E>(
    models: Seq<StreamModel<T, R>>,
    answers: Seq<PollNext<R::Response, E>>,
)
    requires
        is_trace(models, answers),
        models[0].inv(),
    ensures
        forall|i: int| 0 <= i < models.len() ==> (#[trigger] models[i]).inv(),
    decreases answers.len(),
{
    if answers.len() > 0 {
        lemma_truncation(models[0], models[1], answers[0]);
        let sub_models = models.drop_first();
        let sub_answers = answers.drop_first();
        assert forall|i: int|
            #![trigger sub_answers[i]]
            0 <= i < sub_answers.len() implies poll_next_rel(
            sub_models[i],
            sub_models[i + 1],
            sub_answers[i],
        ) by {
            assert(poll_next_rel(models[i + 1], models[i + 2], answers[i + 1]));
        }
        lemma_trace_inv(sub_models, sub_answers);
        assert forall|i: int| 0 <= i < models.len() implies (#[trigger] models[i]).inv() by {
            if i > 0 {
                assert(models[i] == sub_models[i - 1]);
            }
        }
    }
}

/// Exactly the delivered items advance the consumer's count: along any
/// trace, the emitted counter grows by the number of delivered items.
pub proof fn lemma_trace_emitted<T, R: PaginatedRequest<PaginationData = T>, E>(
    models: Seq<StreamModel<T, R>>,
    answers: Seq<PollNext<R::Response, E>>,
)
    requires
        is_trace(models, answers),
    ensures
        models.last().emitted == models[0].emitted + spec_delivered(answers).len(),
    decreases answers.len(),
{
    if answers.len() > 0 {
        let sub_models = models.drop_first();
        let sub_answers = answers.drop_first();
        assert forall|i: int|
            #![trigger sub_answers[i]]
            0 <= i < sub_answers.len() implies poll_next_rel(
            sub_models[i],
            sub_models[i + 1],
            sub_answers[i],
        ) by {
            assert(poll_next_rel(models[i + 1], models[i + 2], answers[i + 1]));
        }
        lemma_trace_emitted(sub_models, sub_answers);
        assert(poll_next_rel(models[0], models[1], answers[0]));
        assert(models.last() == sub_models.last());
    }
}

/// Early truncation along whole runs: a consumer that has taken `k` items
/// from the stream has caused at most `k + 1` invocations, however many
/// steps were taken — the engine never works more than the sequential
/// pipeline depth ahead.
pub proof fn lemma_trace_issued_bound<T, R: PaginatedRequest<PaginationData = T>, E>(
    models: Seq<StreamModel<T, R>>,
    answers: Seq<PollNext<R::Response, E>>,
)
    requires
        is_trace(models, answers),
        models[0].inv(),
    ensures
        models.last().issued <= models[0].emitted + spec_delivered(answers).len() + 1,
    decreases answers.len(),
{
    lemma_trace_inv(models, answers);
    lemma_trace_emitted(models, answers);
    assert(models.last() == models[models.len() - 1]);
}

/// The engine refines the run model: along any trace, the delivered items
/// are exactly the run the model predicts for the script formed by those
/// very outcomes. In particular nothing is delivered past termination, a
/// success advances the cursor state through the pagination contract
/// before the next item, and everything after a delivered failure is bare
/// exhaustion.
pub proof fn lemma_trace_refines<T, R: PaginatedRequest<PaginationData = T>, E>(
    models: Seq<StreamModel<T, R>>,
    answers: Seq<PollNext<R::Response, E>>,
    s: State<T>,
    req: R,
)
    requires
        is_trace(models, answers),
        models[0].inv(),
        models[0].pending == 0 ==> models[0].state == s && models[0].request == req,
        models[0].pending == 1 ==> models[0].state == s && models[0].request
            == spec_issue_request(s, req),
    ensures
        spec_delivered(answers) == spec_run(s, req, spec_delivered(answers)),
    decreases answers.len(),
{
    if answers.len() == 0 {
    } else {
        let m0 = models[0];
        let m1 = models[1];
        let a0 = answers[0];
        assert(poll_next_rel(m0, m1, a0));
        lemma_truncation(m0, m1, a0);
        let sub_models = models.drop_first();
        let sub_answers = answers.drop_first();
        assert forall|i: int|
            #![trigger sub_answers[i]]
            0 <= i < sub_answers.len() implies poll_next_rel(
            sub_models[i],
            sub_models[i + 1],
            sub_answers[i],
        ) by {
            assert(poll_next_rel(models[i + 1], models[i + 2], answers[i + 1]));
        }
        assert(sub_models[0] == m1);
        match a0 {
            PollNext::Pending => {
                // Whether the head invocation was still pending, the
                // executor was not ready, or an invocation was just
                // issued: nothing is delivered, the cursor state stands,
                // and the alignment with the run model is kept — an
                // issue retargets the stored request at exactly the
                // cursor the model would.
                lemma_trace_refines(sub_models, sub_answers, s, req);
                assert(spec_delivered(answers) == spec_delivered(sub_answers));
            },
            PollNext::Ready(None) => {
                lemma_trace_refines(sub_models, sub_answers, s, req);
                assert(m0.state is End);
                assert(spec_delivered(answers) == spec_delivered(sub_answers));
            },
            PollNext::Ready(Some(item)) => {
                let req1 = spec_issue_request(s, req);
                assert(m0.pending == 1);
                assert(m0.state == s && m0.request == req1);
                assert(s !is End);
                match item {
                    Ok(resp) => {
                        let s1 = spec_step_ok(s, req1, resp);
                        assert(m1.state == s1 && m1.request == req1 && m1.pending == 0);
                        lemma_trace_refines(sub_models, sub_answers, s1, req1);
                        let rest = spec_delivered(sub_answers);
                        let dall = spec_delivered(answers);
                        assert(dall =~= seq![Result::<R::Response, E>::Ok(resp)] + rest);
                        assert(dall[0] == Result::<R::Response, E>::Ok(resp));
                        assert(dall.drop_first() =~= rest);
                        assert(spec_run(s, req, dall) == seq![dall[0]] + spec_run(
                            s1,
                            req1,
                            dall.drop_first(),
                        ));
                        assert(dall =~= spec_run(s, req, dall));
                    },
                    Err(_) => {
                        // Fail fast: the stream has reached its end; the
                        // rest of the trace delivers nothing.
                        assert(m1.state is End && m1.pending == 0);
                        lemma_trace_refines(sub_models, sub_answers, m1.state, m1.request);
                        let rest = spec_delivered(sub_answers);
                        assert(rest == spec_run(m1.state, m1.request, rest));
                        assert(rest =~= Seq::<Result<R::Response, E>>::empty());
                        assert(spec_delivered(answers) =~= seq![item]);
                        assert(spec_delivered(answers) =~= spec_run(
                            s,
                            req,
                            spec_delivered(answers),
                        ));
                    },
                }
            },
        }
    }
}

/// Backpressure: a step whose readiness check the executor answered with
/// not-ready suspends without issuing an invocation and without touching
/// the cursor state or the request.
pub proof fn lemma_not_ready_no_invoke<T, R: PaginatedRequest<PaginationData = T>, E>(
    pre: StreamModel<T, R>,
    post: StreamModel<T, R>,
    r: PollNext<R::Response, E>,
)
    requires
        poll_next_rel(pre, post, r),
        post.ready_checks == pre.ready_checks.push(false),
    ensures
        r is Pending,
        post.issued == pre.issued,
        post.pending == pre.pending,
        post.state == pre.state,
        post.request == pre.request,
        post.applied == pre.applied,
        post.emitted == pre.emitted,
{
    assert(pre.ready_checks.push(false).len() == pre.ready_checks.len() + 1);
    assert(pre.ready_checks.push(false).last() == false);
    assert(pre.ready_checks.push(true).last() == true);
}

} // verus!
