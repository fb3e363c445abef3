//! The paginated request streaming engine.
//!
//! A paginated operation is driven by three collaborators:
//!
//! - a [`PaginatedRequest`]: the caller's request type, which knows how to
//!   read an initial cursor, derive the next cursor from a response, and
//!   retarget itself at a given cursor;
//! - an [`Executor`]: the transport layer, which reports readiness and turns
//!   a request into an invocation handle that eventually yields a result;
//! - the [`PaginationStream`] state machine, which repeatedly invokes the
//!   executor, drains completed invocations in issue order, and hands each
//!   page result to the consumer.
//!
//! The engine uses the strictly sequential dispatch policy: at most one
//! invocation is in flight at a time, since in general the next cursor is
//! only knowable from the latest response. Delivery order therefore equals
//! issue order. The first failed invocation is delivered as the final item
//! of the sequence, after which the stream is exhausted.
use crate::queue::InFlightQueue;
use vstd::prelude::*;

verus! {

/// The cursor position of a paginated operation.
#[derive(Clone, Debug)]
pub enum State<T> {
    /// State associated with the initial request; holds the caller-supplied
    /// initial cursor, if any.
    Start(Option<T>),
    /// State associated with continuing pagination.
    Next(T),
    /// State denoting that the last page has been reached.
    End,
}

impl<T> Default for State<T> {
    /// The state before any page has been requested, with no initial cursor.
    fn default() -> (s: State<T>)
        ensures
            s == State::<T>::Start(None),
    {
        State::Start(None)
    }
}

/// The cursor a state would use for its next invocation, if it holds one.
pub open spec fn spec_cursor<T>(s: State<T>) -> Option<T> {
    match s {
        State::Start(page) => page,
        State::Next(cursor) => Some(cursor),
        State::End => None,
    }
}

/// The value behind an optional reference, as an optional value.
pub open spec fn spec_copy_opt<T>(o: Option<&T>) -> Option<T> {
    match o {
        Some(t) => Some(*t),
        None => None,
    }
}

/// A request for one page of a paginated API, able to steer pagination.
///
/// Each exec method is pinned to a spec-level model of the same operation, so
/// that pagination is a deterministic function of the request value, the
/// previous cursor and the latest response.
pub trait PaginatedRequest: Sized + Clone {
    /// The cursor type: an opaque, caller-defined position in the page
    /// sequence.
    type PaginationData;

    /// The response type produced by one invocation.
    type Response;

    /// Model of [`Self::get_page`].
    spec fn spec_page(&self) -> Option<Self::PaginationData>;

    /// Model of [`Self::next_page`].
    spec fn spec_next_page(
        &self,
        prev_page: Option<Self::PaginationData>,
        response: Self::Response,
    ) -> Option<Self::PaginationData>;

    /// Model of [`Self::update_request`]: this request retargeted at `page`.
    spec fn spec_with_page(&self, page: Self::PaginationData) -> Self;

    /// The cursor the very first invocation should use, if any.
    fn get_page(&self) -> (page: Option<Self::PaginationData>)
        ensures
            page == self.spec_page(),
    ;

    /// Derives the cursor of the page after `response`, or `None` to signal
    /// that `response` is the last page.
    fn next_page(
        &self,
        prev_page: Option<&Self::PaginationData>,
        response: &Self::Response,
    ) -> (next: Option<Self::PaginationData>)
        ensures
            next == self.spec_next_page(spec_copy_opt(prev_page), *response),
    ;

    /// Mutates this request so that its next invocation targets `page`.
    fn update_request(&mut self, page: &Self::PaginationData)
        ensures
            *final(self) == old(self).spec_with_page(*page),
    ;
}

/// The capability of issuing requests and eventually producing results.
///
/// This is the engine's view of the transport layer. `is_ready` is the
/// backpressure gate: the engine checks it before every new invocation and
/// never invokes while it reports `false`. `invoke` starts one call and
/// returns a handle; `poll_handle` asks, without blocking, whether the call
/// behind a handle has finished. Nothing is promised of any of the three:
/// readiness, completion order and results are the transport's business, and
/// the engine's contract states what holds whatever they do.
pub trait Executor<R> {
    /// The response type of a successful invocation.
    type Response;

    /// The error type of a failed invocation.
    type Error;

    /// The handle of an issued but not yet drained invocation.
    type Handle;

    /// Whether a new invocation may be issued now.
    fn is_ready(&mut self) -> bool;

    /// Issues one invocation for `request`.
    fn invoke(&mut self, request: R) -> Self::Handle;

    /// Returns the result of the invocation behind `handle` if it has
    /// completed, and `None` if it is still pending.
    fn poll_handle(&mut self, handle: &mut Self::Handle) -> Option<
        Result<Self::Response, Self::Error>,
    >;
}

/// One answer of [`PaginationStream::poll_next`].
pub enum PollNext<Resp, E> {
    /// No item can be produced yet: the engine is waiting for executor
    /// readiness or for the head invocation to complete. Poll again later.
    Pending,
    /// `Ready(Some(item))` delivers the next page result; `Ready(None)`
    /// says the sequence is exhausted.
    Ready(Option<Result<Resp, E>>),
}

/// The abstract state of a [`PaginationStream`], as its contracts speak of it.
///
/// The executor itself is absent: nothing is known of it. `pending` is the
/// number of in-flight invocations; `issued`, `emitted`, `applied` and
/// `ready_checks` record the engine's history: how many invocations were
/// issued, how many items were delivered, which cursors the request was
/// retargeted at, and what the executor answered to each readiness check.
pub ghost struct StreamModel<T, R> {
    /// The cursor state.
    pub state: State<T>,
    /// The stored request, as mutated so far.
    pub request: R,
    /// How many invocations have been issued.
    pub issued: nat,
    /// How many sequence items have been delivered.
    pub emitted: nat,
    /// How many invocations are in flight (issued, not yet drained).
    pub pending: nat,
    /// Every cursor the request was retargeted at, in order.
    pub applied: Seq<T>,
    /// Every answer the executor gave to a readiness check, in order.
    pub ready_checks: Seq<bool>,
}

impl<T, R> StreamModel<T, R> {
    /// The engine's invariant: at most one invocation in flight (the
    /// sequential dispatch policy), every issued invocation either drained
    /// or in flight, and nothing in flight once the last page is reached.
    pub open spec fn inv(self) -> bool {
        &&& self.pending <= 1
        &&& self.issued == self.emitted + self.pending
        &&& (self.state is End ==> self.pending == 0)
    }
}

/// The cursor state after draining a successful response: `Next` at the
/// derived cursor, or `End` when the pagination contract signals termination.
pub open spec fn spec_step_ok<T, R: PaginatedRequest<PaginationData = T>>(
    s: State<T>,
    req: R,
    resp: R::Response,
) -> State<T> {
    match req.spec_next_page(spec_cursor(s), resp) {
        Some(c) => State::Next(c),
        None => State::End,
    }
}

/// Everything one call of [`PaginationStream::poll_next`] may do: the
/// engine's transition relation, connecting the state before the call,
/// the state after it, and the answer.
pub open spec fn poll_next_rel<T, R: PaginatedRequest<PaginationData = T>, E>(
    pre: StreamModel<T, R>,
    post: StreamModel<T, R>,
    r: PollNext<R::Response, E>,
) -> bool {
    match r {
        // Exhausted: only answered once the last page is reached and every
        // outstanding result has been delivered, and nothing changes.
        PollNext::Ready(None) => {
            &&& pre.state is End
            &&& pre.pending == 0
            &&& post == pre
        },
        // One item delivered: the head invocation was drained. A success
        // advances the cursor state through the pagination contract; a
        // failure moves to `End`, so no further invocation is issued.
        PollNext::Ready(Some(item)) => {
            &&& pre.pending == 1
            &&& post.pending == 0
            &&& post.emitted == pre.emitted + 1
            &&& post.issued == pre.issued
            &&& post.request == pre.request
            &&& post.applied == pre.applied
            &&& post.ready_checks == pre.ready_checks
            &&& match item {
                Ok(resp) => post.state == spec_step_ok(pre.state, pre.request, resp),
                Err(_) => post.state is End,
            }
        },
        // Suspended: either the head invocation is still pending, or the
        // executor reported not-ready (recorded as a `false` check), or a
        // new invocation was just issued (after a `true` check), with the
        // request first retargeted at the cursor in state, if there is one.
        PollNext::Pending => {
            ||| (pre.pending == 1 && post == pre)
            ||| {
                &&& pre.pending == 0
                &&& pre.state !is End
                &&& post.state == pre.state
                &&& post.request == pre.request
                &&& post.issued == pre.issued
                &&& post.emitted == pre.emitted
                &&& post.pending == pre.pending
                &&& post.applied == pre.applied
                &&& post.ready_checks == pre.ready_checks.push(false)
            }
            ||| {
                &&& pre.pending == 0
                &&& pre.state !is End
                &&& post.state == pre.state
                &&& post.issued == pre.issued + 1
                &&& post.emitted == pre.emitted
                &&& post.pending == 1
                &&& post.ready_checks == pre.ready_checks.push(true)
                &&& match spec_cursor(pre.state) {
                    Some(c) => {
                        &&& post.request == pre.request.spec_with_page(c)
                        &&& post.applied == pre.applied.push(c)
                    },
                    None => {
                        &&& post.request == pre.request
                        &&& post.applied == pre.applied
                    },
                }
            }
        },
    }
}

/// The pagination state machine: a pull-based sequence of page results.
///
/// Created per paginated operation; owns its cursor state, its request and
/// its in-flight queue exclusively. Each [`Self::poll_next`] call performs
/// one step of the per-step algorithm: drain the completed head invocation,
/// or issue a new invocation when the executor is ready, or report that the
/// sequence is exhausted.
#[verifier::reject_recursive_types(T)]
pub struct PaginationStream<Svc, T, R> where
    Svc: Executor<R>,
    R: PaginatedRequest<PaginationData = T, Response = Svc::Response>,
{
    state: State<T>,
    svc: Svc,
    queue: InFlightQueue<Svc::Handle>,
    request: R,
    issued: Ghost<nat>,
    emitted: Ghost<nat>,
    applied: Ghost<Seq<T>>,
    ready_checks: Ghost<Seq<bool>>,
}

impl<Svc, T, R> View for PaginationStream<Svc, T, R> where
    Svc: Executor<R>,
    R: PaginatedRequest<PaginationData = T, Response = Svc::Response>,
{
    type V = StreamModel<T, R>;

    closed spec fn view(&self) -> StreamModel<T, R> {
        StreamModel {
            state: self.state,
            request: self.request,
            issued: self.issued@,
            emitted: self.emitted@,
            pending: self.queue@.len(),
            applied: self.applied@,
            ready_checks: self.ready_checks@,
        }
    }
}

impl<Svc, T, R> PaginationStream<Svc, T, R> where
    Svc: Executor<R>,
    R: PaginatedRequest<PaginationData = T, Response = Svc::Response>,
{
    /// Creates the state machine for one paginated operation, starting at
    /// the request's initial cursor, with nothing in flight.
    pub fn new(svc: Svc, request: R) -> (s: Self)
        ensures
            s@.state == State::Start(request.spec_page()),
            s@.request == request,
            s@.issued == 0,
            s@.emitted == 0,
            s@.pending == 0,
            s@.applied == Seq::<T>::empty(),
            s@.ready_checks == Seq::<bool>::empty(),
            s@.inv(),
    {
        let page = request.get_page();
        PaginationStream {
            state: State::Start(page),
            svc,
            queue: InFlightQueue::new(),
            request,
            issued: Ghost(0),
            emitted: Ghost(0),
            applied: Ghost(Seq::empty()),
            ready_checks: Ghost(Seq::empty()),
        }
    }

    /// Performs one step of the engine and reports its outcome.
    ///
    /// Exactly one of the following happens, as [`poll_next_rel`] states:
    /// the exhausted sequence answers `Ready(None)`; a completed head
    /// invocation is drained and its result delivered as `Ready(Some(..))`,
    /// advancing the cursor state (a failure moves it to `End`); or the
    /// engine suspends with `Pending`, possibly after issuing one new
    /// invocation — never without the executor having just reported ready.
    pub fn poll_next(&mut self) -> (r: PollNext<Svc::Response, Svc::Error>)
        requires
            old(self)@.inv(),
        ensures
            final(self)@.inv(),
            poll_next_rel(old(self)@, final(self)@, r),
    {
        match self.queue.pop_front() {
            Some(mut handle) => {
                match self.svc.poll_handle(&mut handle) {
                    None => {
                        // Still pending: keep it at the head and suspend.
                        self.queue.push_front(handle);
                        PollNext::Pending
                    },
                    Some(Ok(response)) => {
                        // Drain: derive the next cursor from this response.
                        let next = self.request.next_page(
                            match &self.state {
                                State::Start(None) => None,
                                State::Start(Some(c)) => Some(c),
                                State::Next(c) => Some(c),
                                State::End => None,
                            },
                            &response,
                        );
                        match next {
                            Some(c) => { self.state = State::Next(c); },
                            None => { self.state = State::End; },
                        }
                        self.emitted = Ghost(self.emitted@ + 1);
                        PollNext::Ready(Some(Ok(response)))
                    },
                    Some(Err(error)) => {
                        // Fail fast: surface the error as the final item.
                        self.state = State::End;
                        self.emitted = Ghost(self.emitted@ + 1);
                        PollNext::Ready(Some(Err(error)))
                    },
                }
            },
            None => {
                let is_end = match &self.state {
                    State::End => true,
                    _ => false,
                };
                if is_end {
                    return PollNext::Ready(None);
                }
                // Backpressure gate: checked before every new invocation.
                let ready = self.svc.is_ready();
                self.ready_checks = Ghost(self.ready_checks@.push(ready));
                if !ready {
                    return PollNext::Pending;
                }
                match &self.state {
                    State::Start(None) => {},
                    State::Start(Some(c)) => {
                        self.request.update_request(c);
                        self.applied = Ghost(self.applied@.push(*c));
                    },
                    State::Next(c) => {
                        self.request.update_request(c);
                        self.applied = Ghost(self.applied@.push(*c));
                    },
                    State::End => {},
                }
                let handle = self.svc.invoke(self.request.clone());
                self.queue.push_back(handle);
                self.issued = Ghost(self.issued@ + 1);
                PollNext::Pending
            },
        }
    }
}

/// Pagination as a method on any executor: `svc.paginate(request)` builds
/// the stream of page results for the paginated operation `request`
/// describes. Implemented for every [`Executor`].
pub trait ServiceExt<R, T>: Executor<R> + Sized where
    R: PaginatedRequest<PaginationData = T, Response = <Self as Executor<R>>::Response>,
{
    /// Wraps this executor and `request` into a [`PaginationStream`].
    fn paginate(self, request: R) -> (s: PaginationStream<Self, T, R>)
        ensures
            s@.state == State::Start(request.spec_page()),
            s@.request == request,
            s@.issued == 0,
            s@.emitted == 0,
            s@.pending == 0,
            s@.applied == Seq::<T>::empty(),
            s@.ready_checks == Seq::<bool>::empty(),
            s@.inv(),
    {
        PaginationStream::new(self, request)
    }
}

impl<Svc, T, R> ServiceExt<R, T> for Svc where
    Svc: Executor<R> + Sized,
    R: PaginatedRequest<PaginationData = T, Response = Svc::Response>,
{

}

} // verus!
