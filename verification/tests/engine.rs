use std::ops::ControlFlow;
use std::time::Duration;

use tokentask::api_connector::background::{
    install, next_cycle, BackgroundTokenFetch, ThreadMessage, Worker,
};
use tokentask::api_connector::connection_handler::{apply_to_token, ConnectionHandler};
use tokentask::api_connector::fetch_strategy::{FetchStrategy, TokenError, TokenSuccess};
use tokentask::api_connector::lock_around::LockBehavior;
use tokentask::channel::WaitEnd;

/// One scripted answer of the source: a token or an error, and the wait in
/// milliseconds.
#[derive(Clone)]
enum Step {
    Token(&'static str, u64),
    Fail(&'static str, u64),
}

/// A source that plays its script, one step per fetch, and repeats the last
/// step once the script is over.
struct Scripted;

impl FetchStrategy for Scripted {
    type Config = Vec<Step>;
    type Context = usize;

    fn fetch(config: &Self::Config, context: &mut Self::Context) -> Result<TokenSuccess, TokenError> {
        let step = config[(*context).min(config.len() - 1)].clone();
        *context += 1;
        match step {
            Step::Token(token, wait) => Ok(TokenSuccess {
                token: token.to_string(),
                fetch_after: Duration::from_millis(wait),
            }),
            Step::Fail(message, wait) => Err(TokenError {
                error_message: message.to_string(),
                retry_after: Duration::from_millis(wait),
            }),
        }
    }

    fn init_context(_config: &Self::Config) -> Self::Context {
        0
    }
}

fn current<T: FetchStrategy>(engine: &BackgroundTokenFetch<T>) -> Option<String> {
    engine.acquire_read().token().map(|text| text.to_string())
}

fn timeout() -> Result<ThreadMessage, WaitEnd> {
    Err(WaitEnd::Timeout)
}

#[test]
fn no_token_before_first_cycle() {
    let (engine, _receiver) =
        BackgroundTokenFetch::<Scripted>::new(LockBehavior::HoldAfterOperation, vec![Step::Token("T1", 100)]);
    assert_eq!(current(&engine), None);
    let guard = engine.acquire_read();
    assert_eq!(apply_to_token(&guard, |token: &str| token.len()), None);
}

#[test]
fn scenario_two_tokens_then_stop() {
    let script = vec![Step::Token("T1", 100), Step::Token("T2", 100)];
    let (engine, receiver) = BackgroundTokenFetch::<Scripted>::new(LockBehavior::HoldAfterOperation, script);
    assert_eq!(current(&engine), None);

    let context = Scripted::init_context(&Vec::new());
    let (wait, context, failure) = match engine.background_job(&receiver, Duration::ZERO, context) {
        ControlFlow::Continue(next) => next,
        ControlFlow::Break(()) => panic!("the first cycle must not stop"),
    };
    assert_eq!(wait, Duration::from_millis(100));
    assert_eq!(failure, None);
    assert_eq!(current(&engine), Some("T1".to_string()));

    let (wait, context, failure) = match engine.background_job(&receiver, wait, context) {
        ControlFlow::Continue(next) => next,
        ControlFlow::Break(()) => panic!("the second cycle must not stop"),
    };
    assert_eq!(failure, None);
    assert_eq!(wait, Duration::from_millis(100));
    assert_eq!(context, 2);
    assert_eq!(current(&engine), Some("T2".to_string()));

    engine.exit();
    assert!(matches!(engine.background_job(&receiver, wait, context), ControlFlow::Break(())));
    assert_eq!(current(&engine), Some("T2".to_string()));
}

#[test]
fn failure_preserves_last_good_token() {
    let script = vec![Step::Token("A", 10), Step::Fail("down", 20)];
    let (engine, _receiver) = BackgroundTokenFetch::<Scripted>::new(LockBehavior::HoldDuringOperation, script);
    let (wait, context, failure) = match engine.cycle(timeout(), 0) {
        ControlFlow::Continue(next) => next,
        ControlFlow::Break(()) => panic!("a timeout must start a cycle"),
    };
    assert_eq!(wait, Duration::from_millis(10));
    assert_eq!(failure, None);
    assert_eq!(current(&engine), Some("A".to_string()));
    let (wait, context, failure) = match engine.cycle(timeout(), context) {
        ControlFlow::Continue(next) => next,
        ControlFlow::Break(()) => panic!("a failed fetch must not stop the loop"),
    };
    assert_eq!(wait, Duration::from_millis(20));
    assert_eq!(failure, Some("down".to_string()));
    assert_eq!(context, 2);
    assert_eq!(current(&engine), Some("A".to_string()));
}

#[test]
fn failures_before_any_success_leave_the_cell_empty() {
    let script = vec![Step::Fail("down", 5), Step::Fail("still down", 7), Step::Token("B", 9)];
    let (engine, _receiver) = BackgroundTokenFetch::<Scripted>::new(LockBehavior::HoldAfterOperation, script);
    let mut context = 0;
    for expected in [5, 7] {
        match engine.cycle(timeout(), context) {
            ControlFlow::Continue((wait, next, failure)) => {
                assert!(failure.is_some());
                assert_eq!(wait, Duration::from_millis(expected));
                context = next;
            }
            ControlFlow::Break(()) => panic!("a failed fetch must not stop the loop"),
        }
        assert_eq!(current(&engine), None);
    }
    assert!(matches!(engine.cycle(timeout(), context), ControlFlow::Continue(_)));
    assert_eq!(current(&engine), Some("B".to_string()));
}

#[test]
fn tokens_are_replaced_in_order() {
    let script = vec![
        Step::Token("t1", 1),
        Step::Fail("x", 1),
        Step::Token("t2", 1),
        Step::Token("t3", 1),
        Step::Fail("y", 1),
    ];
    let expected = ["t1", "t1", "t2", "t3", "t3"];
    let (engine, _receiver) = BackgroundTokenFetch::<Scripted>::new(LockBehavior::HoldAfterOperation, script);
    let mut context = 0;
    for seen in expected {
        match engine.cycle(timeout(), context) {
            ControlFlow::Continue((_, next, _)) => context = next,
            ControlFlow::Break(()) => panic!("the loop must go on"),
        }
        assert_eq!(current(&engine), Some(seen.to_string()));
    }
}

#[test]
fn stop_breaks_without_fetching() {
    let (engine, _receiver) =
        BackgroundTokenFetch::<Scripted>::new(LockBehavior::HoldAfterOperation, vec![Step::Token("T", 1)]);
    assert!(matches!(engine.cycle(Ok(ThreadMessage::Stop), 0), ControlFlow::Break(())));
    assert_eq!(current(&engine), None);
    assert!(matches!(engine.cycle(Err(WaitEnd::Disconnected), 0), ControlFlow::Break(())));
    assert_eq!(current(&engine), None);
}

#[test]
fn invalid_token_starts_a_cycle() {
    let (engine, receiver) =
        BackgroundTokenFetch::<Scripted>::new(LockBehavior::HoldAfterOperation, vec![Step::Token("fresh", 3)]);
    engine.invalid_token();
    match engine.background_job(&receiver, Duration::from_secs(15), 0) {
        ControlFlow::Continue((wait, context, failure)) => {
            assert_eq!(failure, None);
            assert_eq!(wait, Duration::from_millis(3));
            assert_eq!(context, 1);
        }
        ControlFlow::Break(()) => panic!("the message must not stop the loop"),
    }
    assert_eq!(current(&engine), Some("fresh".to_string()));
}

#[test]
fn disconnected_channel_stops_the_worker() {
    let (engine, receiver) =
        BackgroundTokenFetch::<Scripted>::new(LockBehavior::HoldAfterOperation, vec![Step::Token("T", 1)]);
    drop(engine);
    let (other, _other_receiver) =
        BackgroundTokenFetch::<Scripted>::new(LockBehavior::HoldAfterOperation, vec![Step::Token("T", 1)]);
    assert!(matches!(
        other.background_job(&receiver, Duration::from_secs(15), 0),
        ControlFlow::Break(())
    ));
    assert_eq!(current(&other), None);
}

#[test]
fn next_cycle_follows_the_signal() {
    let during = LockBehavior::HoldDuringOperation;
    let after = LockBehavior::HoldAfterOperation;
    assert!(next_cycle(Ok(ThreadMessage::Stop), after).is_none());
    assert!(next_cycle(Err(WaitEnd::Disconnected), during).is_none());
    assert!(matches!(next_cycle(Err(WaitEnd::Timeout), after), Some(LockBehavior::HoldAfterOperation)));
    assert!(matches!(next_cycle(Err(WaitEnd::Timeout), during), Some(LockBehavior::HoldDuringOperation)));
    assert!(matches!(
        next_cycle(Ok(ThreadMessage::InvalidToken), after),
        Some(LockBehavior::HoldDuringOperation)
    ));
    assert!(matches!(
        next_cycle(Ok(ThreadMessage::InvalidToken), during),
        Some(LockBehavior::HoldDuringOperation)
    ));
}

#[test]
fn init_runs_the_first_cycle() {
    let script = vec![Step::Token("warm", 40), Step::Token("next", 60)];
    let (engine, worker) = BackgroundTokenFetch::<Scripted>::init(LockBehavior::HoldAfterOperation, script);
    assert_eq!(current(&engine), Some("warm".to_string()));
    let worker: Worker<Scripted> = worker.expect("nothing asked for a stop");
    assert_eq!(worker.wait, Duration::from_millis(40));
    assert_eq!(worker.context, 1);
    let worker = match worker.turn() {
        ControlFlow::Continue(next) => next,
        ControlFlow::Break(()) => panic!("nothing asked for a stop"),
    };
    assert_eq!(worker.wait, Duration::from_millis(60));
    assert_eq!(current(&engine), Some("next".to_string()));
    engine.exit();
    assert!(matches!(worker.turn(), ControlFlow::Break(())));
    assert_eq!(current(&engine), Some("next".to_string()));
}

#[test]
fn with_token_hands_the_token_to_the_closure() {
    let (handler, worker) =
        ConnectionHandler::<Scripted>::new(LockBehavior::HoldDuringOperation, vec![Step::Token("abc", 10)]);
    assert!(worker.is_some());
    let mut calls = 0;
    let out = handler.with_token(|token| {
        calls += 1;
        format!("Bearer {token}")
    });
    assert_eq!(out, Some("Bearer abc".to_string()));
    assert_eq!(calls, 1);
}

#[test]
fn handle_stops_its_worker() {
    let script = vec![Step::Token("one", 5), Step::Token("two", 5)];
    let (handler, worker) = ConnectionHandler::<Scripted>::new(LockBehavior::HoldDuringOperation, script);
    let worker = worker.expect("nothing asked for a stop");
    assert_eq!(handler.with_token(|token| token.to_string()), Some("one".to_string()));
    handler.invalid_token();
    let worker = match worker.turn() {
        ControlFlow::Continue(next) => next,
        ControlFlow::Break(()) => panic!("nothing asked for a stop"),
    };
    assert_eq!(handler.with_token(|token| token.to_string()), Some("two".to_string()));
    handler.exit();
    assert!(matches!(worker.turn(), ControlFlow::Break(())));
    assert_eq!(handler.with_token(|token| token.to_string()), Some("two".to_string()));
}

#[test]
fn with_token_returns_nothing_without_a_token() {
    let (handler, worker) =
        ConnectionHandler::<Scripted>::new(LockBehavior::HoldAfterOperation, vec![Step::Fail("no", 10)]);
    assert_eq!(worker.expect("a failure does not stop the worker").wait, Duration::from_millis(10));
    let mut calls = 0;
    let out = handler.with_token(|token| {
        calls += 1;
        token.len()
    });
    assert_eq!(out, None);
    assert_eq!(calls, 0);
}

#[test]
fn install_writes_a_success_and_keeps_on_failure() {
    let lock = parking_lot::RwLock::new(Some("old".to_string()));
    let (mut guard, _) =
        tokentask::api_connector::lock_around::lock_around(&lock, LockBehavior::HoldAfterOperation, || ());
    let (wait, failure) = install(
        &mut guard,
        Err(TokenError { error_message: "boom".to_string(), retry_after: Duration::from_secs(30) }),
    );
    assert_eq!(wait, Duration::from_secs(30));
    assert_eq!(failure, Some("boom".to_string()));
    drop(guard);
    assert_eq!(*lock.read(), Some("old".to_string()));

    let (mut guard, _) =
        tokentask::api_connector::lock_around::lock_around(&lock, LockBehavior::HoldAfterOperation, || ());
    let (wait, failure) = install(
        &mut guard,
        Ok(TokenSuccess { token: "new".to_string(), fetch_after: Duration::from_secs(7) }),
    );
    assert_eq!(wait, Duration::from_secs(7));
    assert_eq!(failure, None);
    drop(guard);
    assert_eq!(*lock.read(), Some("new".to_string()));
}

#[test]
fn stop_after_the_worker_is_gone_is_a_no_op() {
    let (engine, worker) =
        BackgroundTokenFetch::<Scripted>::init(LockBehavior::HoldAfterOperation, vec![Step::Token("T", 1)]);
    drop(worker);
    engine.exit();
    engine.exit();
    engine.invalid_token();
    assert_eq!(current(&engine), Some("T".to_string()));
}

#[test]
fn first_cycle_does_not_wait() {
    let started = std::time::Instant::now();
    let (engine, worker) = BackgroundTokenFetch::<Scripted>::init(
        LockBehavior::HoldDuringOperation,
        vec![Step::Token("T", 3_600_000)],
    );
    assert!(started.elapsed() < Duration::from_secs(5));
    assert_eq!(tokentask::api_connector::background::FIRST_WAIT_SECS, 0);
    assert_eq!(current(&engine), Some("T".to_string()));
    assert_eq!(worker.expect("nothing asked for a stop").wait, Duration::from_secs(3_600));
}

#[test]
fn stops_are_seen_before_the_wait_runs_out() {
    let (engine, receiver) = BackgroundTokenFetch::<Scripted>::new(
        LockBehavior::HoldAfterOperation,
        vec![Step::Token("T", 1)],
    );
    engine.exit();
    let started = std::time::Instant::now();
    assert!(matches!(
        engine.background_job(&receiver, Duration::from_secs(3_600), 0),
        ControlFlow::Break(())
    ));
    assert!(started.elapsed() < Duration::from_secs(5));
    assert_eq!(current(&engine), None);
}

#[test]
fn worker_carries_the_message_of_a_failed_fetch() {
    let script = vec![Step::Fail("no route", 5), Step::Token("T", 5), Step::Fail("expired", 5)];
    let (engine, worker) = BackgroundTokenFetch::<Scripted>::init(LockBehavior::HoldAfterOperation, script);
    let worker = worker.expect("a failed fetch does not stop the worker");
    assert_eq!(worker.failure, Some("no route".to_string()));
    assert_eq!(worker.wait, Duration::from_millis(5));
    assert_eq!(worker.context, 1);
    assert_eq!(current(&engine), None);
    let worker = match worker.turn() {
        ControlFlow::Continue(next) => next,
        ControlFlow::Break(()) => panic!("nothing asked for a stop"),
    };
    assert_eq!(worker.failure, None);
    assert_eq!(worker.context, 2);
    assert_eq!(current(&engine), Some("T".to_string()));
    let worker = match worker.turn() {
        ControlFlow::Continue(next) => next,
        ControlFlow::Break(()) => panic!("nothing asked for a stop"),
    };
    assert_eq!(worker.failure, Some("expired".to_string()));
    assert_eq!(worker.context, 3);
    assert_eq!(current(&engine), Some("T".to_string()));
}
