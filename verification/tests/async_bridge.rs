use napi::env::{Env, NodeVersion};
use napi::runtime::{
    create_runtime_channel, runtime_try_recv, shut_down_runtime_receiver, submit_runtime_message,
    RecvAttempt,
};
use napi::status::{Error, Status};
use napi::task::Task;
use napi::tsfn::ThreadsafeFunction;
use napi::value::{HostValue, JsUnknown, PromiseState, ValueView};

fn fresh_env() -> Env {
    let version = NodeVersion { major: 18, minor: 2, patch: 1, release: b"node".to_vec() };
    Env::new(1, b"8".to_vec(), version)
}

fn make_tsfn(env: &mut Env, max_queue_size: usize) -> ThreadsafeFunction<u64> {
    let f = env.create_function("cb", 9).unwrap();
    env.create_threadsafe_function(&f, max_queue_size, 9).unwrap()
}

#[test]
fn threadsafe_queue_fails_fast_when_full() {
    let mut env = fresh_env();
    let mut tsfn = make_tsfn(&mut env, 2);
    tsfn.call(1).unwrap();
    tsfn.call(2).unwrap();
    let e = tsfn.call(3).unwrap_err();
    assert_eq!(e.status, Status::QueueFull);
    assert_eq!(tsfn.queue, vec![1, 2]);
}

#[test]
fn threadsafe_queue_fails_closing_after_teardown() {
    let mut env = fresh_env();
    let mut tsfn = make_tsfn(&mut env, 2);
    tsfn.call(1).unwrap();
    tsfn.tear_down();
    let e = tsfn.call(2).unwrap_err();
    assert_eq!(e.status, Status::Closing);
    // Already-enqueued payloads stay deliverable.
    assert_eq!(tsfn.take_next(), Some(1));
    assert_eq!(tsfn.take_next(), None);
}

#[test]
fn threadsafe_queue_delivers_in_fifo_order() {
    let mut env = fresh_env();
    let mut tsfn = make_tsfn(&mut env, 0);
    for v in [10, 20, 30] {
        tsfn.call(v).unwrap();
    }
    assert_eq!(tsfn.take_next(), Some(10));
    assert_eq!(tsfn.take_next(), Some(20));
    assert_eq!(tsfn.take_next(), Some(30));
    assert_eq!(tsfn.take_next(), None);
}

struct DoubleTask {
    x: u64,
}

impl Task for DoubleTask {
    type Output = u64;

    fn computed(&self) -> Result<u64, Error> {
        Ok(self.x * 2)
    }

    fn resolved_value(&self, output: u64) -> ValueView {
        ValueView::Number { value: output as i64 }
    }

    fn resolve_outcome(&self, _output: u64) -> Result<(), Error> {
        Ok(())
    }

    fn compute(&mut self) -> Result<u64, Error> {
        Ok(self.x * 2)
    }

    fn resolve(self, env: &mut Env, output: u64) -> Result<JsUnknown, Error> {
        let h = env.create_int64(output as i64)?;
        Ok(JsUnknown { idx: h.idx })
    }
}

struct FailingTask;

impl Task for FailingTask {
    type Output = u64;

    fn computed(&self) -> Result<u64, Error> {
        Err(Error::new(Status::GenericFailure, String::from("boom")))
    }

    fn resolved_value(&self, _output: u64) -> ValueView {
        ValueView::Undefined
    }

    fn resolve_outcome(&self, _output: u64) -> Result<(), Error> {
        Ok(())
    }

    fn compute(&mut self) -> Result<u64, Error> {
        Err(Error::new(Status::GenericFailure, String::from("boom")))
    }

    fn resolve(self, _env: &mut Env, _output: u64) -> Result<JsUnknown, Error> {
        unreachable!("a failing task is never resolved")
    }
}

#[test]
fn spawned_task_resolves_with_the_transformed_result() {
    let mut env = fresh_env();
    let p = env.spawn(DoubleTask { x: 5 }).unwrap();
    match &env.values[p.promise.idx] {
        HostValue::Promise { state: PromiseState::Resolved { value } } => {
            match &env.values[*value] {
                HostValue::Number { value } => assert_eq!(*value, 10),
                _ => panic!("expected the resolved number"),
            }
        },
        _ => panic!("expected a resolved promise"),
    }
}

struct UnresolvableTask;

impl Task for UnresolvableTask {
    type Output = u64;

    fn computed(&self) -> Result<u64, Error> {
        Ok(1)
    }

    fn resolved_value(&self, _output: u64) -> ValueView {
        ValueView::Undefined
    }

    fn resolve_outcome(&self, _output: u64) -> Result<(), Error> {
        Err(Error::new(Status::GenericFailure, String::from("no host value")))
    }

    fn compute(&mut self) -> Result<u64, Error> {
        Ok(1)
    }

    fn resolve(self, _env: &mut Env, _output: u64) -> Result<JsUnknown, Error> {
        Err(Error::new(Status::GenericFailure, String::from("no host value")))
    }
}

#[test]
fn spawned_task_resolver_failure_rejects_with_the_resolver_error() {
    let mut env = fresh_env();
    let p = env.spawn(UnresolvableTask).unwrap();
    match &env.values[p.promise.idx] {
        HostValue::Promise { state: PromiseState::Rejected { status, message } } => {
            assert_eq!(*status, Status::GenericFailure);
            assert_eq!(message.as_str(), "no host value");
        },
        _ => panic!("expected a rejected promise"),
    }
}

#[test]
fn settle_deferred_dispatches_on_the_outcome() {
    let mut env = fresh_env();
    let (deferred, promise) = env.create_promise().unwrap();
    let v = env.create_int32(9).unwrap();
    env.settle_deferred(deferred, Ok(JsUnknown { idx: v.idx })).unwrap();
    match &env.values[promise.idx] {
        HostValue::Promise { state: PromiseState::Resolved { value } } => {
            assert_eq!(*value, v.idx);
        },
        _ => panic!("expected a resolved promise"),
    }

    let (deferred, promise) = env.create_promise().unwrap();
    env.settle_deferred(
        deferred,
        Err(Error::new(Status::Closing, String::from("gone"))),
    )
    .unwrap();
    match &env.values[promise.idx] {
        HostValue::Promise { state: PromiseState::Rejected { status, message } } => {
            assert_eq!(*status, Status::Closing);
            assert_eq!(message.as_str(), "gone");
        },
        _ => panic!("expected a rejected promise"),
    }
}

#[test]
fn spawned_task_failure_rejects_with_the_original_error() {
    let mut env = fresh_env();
    let p = env.spawn(FailingTask).unwrap();
    match &env.values[p.promise.idx] {
        HostValue::Promise { state: PromiseState::Rejected { status, message } } => {
            assert_eq!(*status, Status::GenericFailure);
            assert_eq!(message.as_str(), "boom");
        },
        _ => panic!("expected a rejected promise"),
    }
}

#[test]
fn deferred_promises_settle_exactly_once() {
    let mut env = fresh_env();
    let (deferred, promise) = env.create_promise().unwrap();
    assert!(matches!(
        env.values[promise.idx],
        HostValue::Promise { state: PromiseState::Pending }
    ));
    let v = env.create_int32(3).unwrap();
    env.resolve_deferred(deferred, JsUnknown { idx: v.idx }).unwrap();
    match &env.values[promise.idx] {
        HostValue::Promise { state: PromiseState::Resolved { value } } => {
            assert_eq!(*value, v.idx);
        },
        _ => panic!("expected a resolved promise"),
    }

    let (deferred, promise) = env.create_promise().unwrap();
    env.reject_deferred(deferred, Error::new(Status::GenericFailure, String::from("no")))
        .unwrap();
    match &env.values[promise.idx] {
        HostValue::Promise { state: PromiseState::Rejected { status, message } } => {
            assert_eq!(*status, Status::GenericFailure);
            assert_eq!(message.as_str(), "no");
        },
        _ => panic!("expected a rejected promise"),
    }
}

#[test]
fn runtime_channel_is_bounded_and_fifo() {
    let (tx, mut rx) = create_runtime_channel::<u64>(4);
    submit_runtime_message(&tx, 1).unwrap();
    submit_runtime_message(&tx, 2).unwrap();
    submit_runtime_message(&tx, 3).unwrap();
    assert!(matches!(runtime_try_recv(&mut rx), RecvAttempt::Received(1)));
    assert!(matches!(runtime_try_recv(&mut rx), RecvAttempt::Received(2)));
    assert!(matches!(runtime_try_recv(&mut rx), RecvAttempt::Received(3)));
    assert!(matches!(runtime_try_recv(&mut rx), RecvAttempt::Empty));
}

#[test]
fn runtime_submission_fails_queue_full_at_capacity() {
    let (tx, mut rx) = create_runtime_channel::<u64>(1);
    submit_runtime_message(&tx, 1).unwrap();
    let e = submit_runtime_message(&tx, 2).unwrap_err();
    assert_eq!(e.status, Status::QueueFull);
    assert!(matches!(runtime_try_recv(&mut rx), RecvAttempt::Received(1)));
}

#[test]
fn runtime_submission_fails_closing_after_shutdown() {
    let (tx, mut rx) = create_runtime_channel::<u64>(2);
    submit_runtime_message(&tx, 1).unwrap();
    shut_down_runtime_receiver(&mut rx);
    let e = submit_runtime_message(&tx, 2).unwrap_err();
    assert_eq!(e.status, Status::Closing);
    // Buffered messages are still delivered after the shutdown.
    assert!(matches!(runtime_try_recv(&mut rx), RecvAttempt::Received(1)));
    assert!(matches!(runtime_try_recv(&mut rx), RecvAttempt::Disconnected));
}

#[test]
fn execute_with_runtime_creates_a_pending_promise() {
    let mut env = fresh_env();
    let (tx, mut rx) = create_runtime_channel::<u64>(1);
    let promise = env.execute_with_runtime(&tx, 7).unwrap();
    assert!(matches!(
        env.values[promise.idx],
        HostValue::Promise { state: PromiseState::Pending }
    ));
    // The channel is now full: the next submission fails as queue-full,
    // and the promise value it created first stays pending.
    let before = env.values.len();
    let e = env.execute_with_runtime(&tx, 8).unwrap_err();
    assert_eq!(e.status, Status::QueueFull);
    assert_eq!(env.values.len(), before + 1);
    assert!(matches!(runtime_try_recv(&mut rx), RecvAttempt::Received(7)));
}
