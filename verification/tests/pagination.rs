//! End-to-end tests of the pagination engine against scripted executors.
use api_client::numbered::{NumberedRequest, NumberedResponse};
use api_client::pagination::{Executor, PaginationStream, PollNext, ServiceExt, State};
use std::cell::RefCell;
use std::rc::Rc;

/// One scripted answer: `Some(result)` completes on the first poll after
/// the invocation is issued; `None` models an invocation that never
/// completes.
type Answer = Option<Result<NumberedResponse, String>>;

struct Inner {
    answers: Vec<Answer>,
    ready: bool,
    requests: Vec<NumberedRequest>,
}

/// A synthetic executor: answers invocations from a fixed script, records
/// every issued request, and reports readiness from a switch.
#[derive(Clone)]
struct ScriptedExecutor {
    inner: Rc<RefCell<Inner>>,
}

impl ScriptedExecutor {
    fn new(answers: Vec<Answer>) -> Self {
        ScriptedExecutor {
            inner: Rc::new(RefCell::new(Inner { answers, ready: true, requests: Vec::new() })),
        }
    }

    fn not_ready(answers: Vec<Answer>) -> Self {
        let exec = Self::new(answers);
        exec.inner.borrow_mut().ready = false;
        exec
    }

    fn set_ready(&self, ready: bool) {
        self.inner.borrow_mut().ready = ready;
    }

    fn requests(&self) -> Vec<NumberedRequest> {
        self.inner.borrow().requests.clone()
    }

    fn invocations(&self) -> usize {
        self.inner.borrow().requests.len()
    }
}

impl Executor<NumberedRequest> for ScriptedExecutor {
    type Response = NumberedResponse;
    type Error = String;
    type Handle = Answer;

    fn is_ready(&mut self) -> bool {
        self.inner.borrow().ready
    }

    fn invoke(&mut self, request: NumberedRequest) -> Answer {
        let mut inner = self.inner.borrow_mut();
        inner.requests.push(request);
        if inner.answers.is_empty() {
            None
        } else {
            inner.answers.remove(0)
        }
    }

    fn poll_handle(&mut self, handle: &mut Answer) -> Option<Result<NumberedResponse, String>> {
        handle.take()
    }
}

fn page(next_page: Option<u64>, data: &str) -> NumberedResponse {
    NumberedResponse { next_page, data: data.to_string() }
}

fn ok(next_page: Option<u64>, data: &str) -> Answer {
    Some(Ok(page(next_page, data)))
}

fn err(message: &str) -> Answer {
    Some(Err(message.to_string()))
}

type Stream = PaginationStream<ScriptedExecutor, u64, NumberedRequest>;

/// Pulls the stream within a poll budget; returns the delivered items and
/// whether the stream reported exhaustion.
fn pull_all(stream: &mut Stream, budget: usize) -> (Vec<Result<NumberedResponse, String>>, bool) {
    let mut items = Vec::new();
    for _ in 0..budget {
        match stream.poll_next() {
            PollNext::Pending => {}
            PollNext::Ready(Some(item)) => items.push(item),
            PollNext::Ready(None) => return (items, true),
        }
    }
    (items, false)
}

/// Pulls until `count` items have been delivered, then stops consuming.
fn pull_n(stream: &mut Stream, count: usize, budget: usize) -> Vec<Result<NumberedResponse, String>> {
    let mut items = Vec::new();
    for _ in 0..budget {
        if items.len() == count {
            break;
        }
        match stream.poll_next() {
            PollNext::Pending => {}
            PollNext::Ready(Some(item)) => items.push(item),
            PollNext::Ready(None) => break,
        }
    }
    items
}

#[test]
fn three_pages_in_order() {
    let exec = ScriptedExecutor::new(vec![
        ok(Some(1), "First!"),
        ok(Some(2), "Second!"),
        ok(None, "Last!"),
    ]);
    let mut stream = PaginationStream::new(exec.clone(), NumberedRequest { page: None });

    let (items, exhausted) = pull_all(&mut stream, 50);
    assert!(exhausted);
    assert_eq!(
        items,
        vec![
            Ok(page(Some(1), "First!")),
            Ok(page(Some(2), "Second!")),
            Ok(page(None, "Last!")),
        ]
    );
    // No initial cursor: the very first invocation used the request as
    // given; later ones targeted the declared cursors.
    assert_eq!(
        exec.requests(),
        vec![
            NumberedRequest { page: None },
            NumberedRequest { page: Some(1) },
            NumberedRequest { page: Some(2) },
        ]
    );
    // The exhausted stream stays exhausted.
    assert!(matches!(stream.poll_next(), PollNext::Ready(None)));
    assert_eq!(exec.invocations(), 3);
}

#[test]
fn many_pages_ascend_in_issue_order() {
    let n: u64 = 7;
    let mut answers = Vec::new();
    for i in 0..n {
        let next = if i + 1 < n { Some(i + 1) } else { None };
        answers.push(ok(next, &format!("page {}", i)));
    }
    let exec = ScriptedExecutor::new(answers);
    let mut stream = PaginationStream::new(exec.clone(), NumberedRequest { page: Some(0) });

    let (items, exhausted) = pull_all(&mut stream, 100);
    assert!(exhausted);
    assert_eq!(items.len(), n as usize);
    for (i, item) in items.iter().enumerate() {
        assert_eq!(item.as_ref().unwrap().data, format!("page {}", i));
    }
    // Cursors 0..n-1 were applied in ascending order.
    let pages: Vec<Option<u64>> = exec.requests().iter().map(|r| r.page).collect();
    assert_eq!(pages, (0..n).map(Some).collect::<Vec<_>>());
}

#[test]
fn failure_is_final_item_and_stops_invocations() {
    let exec = ScriptedExecutor::new(vec![
        ok(Some(1), "First!"),
        ok(Some(2), "Second!"),
        err("connection reset"),
        ok(Some(4), "never reached"),
    ]);
    let mut stream = PaginationStream::new(exec.clone(), NumberedRequest { page: None });

    let (items, exhausted) = pull_all(&mut stream, 50);
    assert!(exhausted);
    assert_eq!(items.len(), 3);
    assert_eq!(items[0], Ok(page(Some(1), "First!")));
    assert_eq!(items[1], Ok(page(Some(2), "Second!")));
    assert_eq!(items[2], Err("connection reset".to_string()));
    // Invocation 3 failed; invocation 4 never happened.
    assert_eq!(exec.invocations(), 3);
    assert!(matches!(stream.poll_next(), PollNext::Ready(None)));
    assert_eq!(exec.invocations(), 3);
}

#[test]
fn never_ready_executor_is_never_invoked() {
    let exec = ScriptedExecutor::not_ready(vec![ok(None, "unreachable")]);
    let mut stream = PaginationStream::new(exec.clone(), NumberedRequest { page: None });

    for _ in 0..50 {
        assert!(matches!(stream.poll_next(), PollNext::Pending));
    }
    assert_eq!(exec.invocations(), 0);
}

#[test]
fn invocation_waits_for_readiness() {
    let exec = ScriptedExecutor::not_ready(vec![ok(None, "only page")]);
    let mut stream = PaginationStream::new(exec.clone(), NumberedRequest { page: None });

    for _ in 0..5 {
        assert!(matches!(stream.poll_next(), PollNext::Pending));
    }
    assert_eq!(exec.invocations(), 0);

    exec.set_ready(true);
    let (items, exhausted) = pull_all(&mut stream, 50);
    assert!(exhausted);
    assert_eq!(items, vec![Ok(page(None, "only page"))]);
    assert_eq!(exec.invocations(), 1);
}

#[test]
fn readiness_is_rechecked_after_suspension() {
    let exec = ScriptedExecutor::new(vec![ok(Some(1), "First!"), ok(None, "Second!")]);
    let mut stream = PaginationStream::new(exec.clone(), NumberedRequest { page: None });

    let items = pull_n(&mut stream, 1, 50);
    assert_eq!(items, vec![Ok(page(Some(1), "First!"))]);
    assert_eq!(exec.invocations(), 1);

    // Backpressure kicks in mid-run: the engine suspends without invoking.
    exec.set_ready(false);
    for _ in 0..10 {
        assert!(matches!(stream.poll_next(), PollNext::Pending));
    }
    assert_eq!(exec.invocations(), 1);

    // Once the executor is ready again, the run completes.
    exec.set_ready(true);
    let (items, exhausted) = pull_all(&mut stream, 50);
    assert!(exhausted);
    assert_eq!(items, vec![Ok(page(None, "Second!"))]);
    assert_eq!(exec.invocations(), 2);
}

#[test]
fn pending_invocation_is_not_reissued() {
    // The single invocation never completes: the stream suspends without
    // ever issuing a duplicate.
    let exec = ScriptedExecutor::new(vec![None]);
    let mut stream = PaginationStream::new(exec.clone(), NumberedRequest { page: None });

    for _ in 0..50 {
        assert!(matches!(stream.poll_next(), PollNext::Pending));
    }
    assert_eq!(exec.invocations(), 1);
}

#[test]
fn truncated_consumer_stops_invocations() {
    let mut answers = Vec::new();
    for i in 0..5u64 {
        let next = if i + 1 < 5 { Some(i + 1) } else { None };
        answers.push(ok(next, &format!("page {}", i)));
    }
    let exec = ScriptedExecutor::new(answers);
    let mut stream = PaginationStream::new(exec.clone(), NumberedRequest { page: Some(0) });

    let items = pull_n(&mut stream, 2, 50);
    assert_eq!(items.len(), 2);
    // Sequential dispatch: stopping after two items has caused at most
    // one invocation beyond them.
    assert!(exec.invocations() <= 3);
}

#[test]
fn identical_scripts_yield_identical_sequences() {
    let script = || {
        vec![ok(Some(1), "First!"), ok(Some(2), "Second!"), err("boom")]
    };
    let exec_a = ScriptedExecutor::new(script());
    let exec_b = ScriptedExecutor::new(script());
    let mut stream_a = PaginationStream::new(exec_a.clone(), NumberedRequest { page: None });
    let mut stream_b = PaginationStream::new(exec_b.clone(), NumberedRequest { page: None });

    let (items_a, done_a) = pull_all(&mut stream_a, 50);
    let (items_b, done_b) = pull_all(&mut stream_b, 50);
    assert_eq!(items_a, items_b);
    assert_eq!(done_a, done_b);
    assert_eq!(exec_a.requests(), exec_b.requests());
}

#[test]
fn initial_cursor_is_applied_before_first_invocation() {
    let exec = ScriptedExecutor::new(vec![ok(Some(1), "First!"), ok(None, "Second!")]);
    let request = NumberedRequest { page: Some(0) };
    let mut stream = PaginationStream::new(exec.clone(), request);

    let (items, exhausted) = pull_all(&mut stream, 50);
    assert!(exhausted);
    assert_eq!(
        items,
        vec![Ok(page(Some(1), "First!")), Ok(page(None, "Second!"))]
    );
    // The caller-supplied cursor was applied to the very first invocation.
    assert_eq!(
        exec.requests(),
        vec![NumberedRequest { page: Some(0) }, NumberedRequest { page: Some(1) }]
    );
}

#[test]
fn paginate_builds_the_stream() {
    let exec = ScriptedExecutor::new(vec![ok(None, "only page")]);
    let mut stream = exec.clone().paginate(NumberedRequest { page: None });
    let (items, exhausted) = pull_all(&mut stream, 50);
    assert!(exhausted);
    assert_eq!(items, vec![Ok(page(None, "only page"))]);
}

#[test]
fn default_state_is_start_without_cursor() {
    let state: State<u64> = Default::default();
    assert!(matches!(state, State::Start(None)));
}
