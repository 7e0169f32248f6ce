//! The thread-safe callback queue.
//!
//! Any native thread may enqueue a typed payload for eventual invocation
//! of a host-visible callback on the host's single logical thread.  The
//! queue is bounded: enqueueing fails fast with a queue-full error at the
//! configured capacity and with a closing error once the receiving end is
//! torn down — both recoverable, caller-visible conditions.  Delivery is
//! first-in, first-out per queue.

use vstd::prelude::*;
use crate::status::{Error, Status};
use crate::value::JsFunction;
use crate::env::{blocked_call, Env};

verus! {

/// A handle allowing callback invocations to be enqueued for the host
/// function it was created over.  `max_queue_size` of zero means
/// unbounded.
pub struct ThreadsafeFunction<T> {
    pub func: JsFunction,
    pub callback: u64,
    pub max_queue_size: usize,
    pub queue: Vec<T>,
    pub closed: bool,
}

/// Whether an enqueue onto the queue in this state must fail because the
/// bounded capacity is reached.
pub open spec fn queue_full<T>(f: ThreadsafeFunction<T>) -> bool {
    f.max_queue_size > 0 && f.queue@.len() >= f.max_queue_size
}

impl<T> ThreadsafeFunction<T> {
    /// Enqueue a payload for eventual delivery to the host callback.
    /// Fails with closing once the receiving end is torn down, with
    /// queue-full at the configured capacity, and otherwise appends the
    /// payload at the back of the queue.
    pub fn call(&mut self, value: T) -> (r: Result<(), Error>)
        ensures
            old(self).closed ==> *final(self) == *old(self) && (r matches Err(e) && e.status
                == Status::Closing),
            !old(self).closed && queue_full(*old(self)) ==> *final(self) == *old(self) && (
            r matches Err(e) && e.status == Status::QueueFull),
            !old(self).closed && !queue_full(*old(self)) ==> r is Ok
                && final(self).queue@ == old(self).queue@.push(value)
                && final(self).func == old(self).func
                && final(self).callback == old(self).callback
                && final(self).max_queue_size == old(self).max_queue_size
                && final(self).closed == old(self).closed,
    {
        if self.closed {
            return Err(Error::new(Status::Closing, String::from_str(
                "the receiving end of the queue has shut down",
            )));
        }
        if self.max_queue_size > 0 && self.queue.len() >= self.max_queue_size {
            return Err(Error::new(Status::QueueFull, String::from_str(
                "the queue is at its configured capacity",
            )));
        }
        self.queue.push(value);
        Ok(())
    }

    /// The host side tears down the receiving end: nothing can be
    /// enqueued afterwards, while already-enqueued payloads stay
    /// deliverable.
    pub fn tear_down(&mut self)
        ensures
            final(self).closed,
            final(self).queue@ == old(self).queue@,
            final(self).func == old(self).func,
            final(self).callback == old(self).callback,
            final(self).max_queue_size == old(self).max_queue_size,
    {
        self.closed = true;
    }

    /// Deliver the next payload to the host callback: strictly first-in,
    /// first-out.
    pub fn take_next(&mut self) -> (r: Option<T>)
        ensures
            old(self).queue@.len() == 0 ==> *final(self) == *old(self) && r is None,
            old(self).queue@.len() > 0 ==> (r matches Some(v) && v == old(self).queue@[0])
                && final(self).queue@ == old(self).queue@.drop_first()
                && final(self).func == old(self).func
                && final(self).callback == old(self).callback
                && final(self).max_queue_size == old(self).max_queue_size
                && final(self).closed == old(self).closed,
    {
        if self.queue.len() == 0 {
            return None;
        }
        let v = self.queue.remove(0);
        proof {
            assert(self.queue@ =~= old(self).queue@.drop_first());
        }
        Some(v)
    }
}

impl Env {
    /// Create a thread-safe function over a host function value, with the
    /// given maximum queue size (zero for unbounded) and the opaque token
    /// of the native callback that converts payloads into host values on
    /// the host thread.
    pub fn create_threadsafe_function<T>(
        &mut self,
        func: &JsFunction,
        max_queue_size: usize,
        callback: u64,
    ) -> (r: Result<ThreadsafeFunction<T>, Error>)
        requires
            func.idx < old(self)@.values.len(),
            old(self)@.values[func.idx as int] is Function,
        ensures
            old(self).blocked() ==> blocked_call(old(self)@, final(self)@, r),
            !old(self).blocked() ==> final(self)@ == old(self)@ && (r matches Ok(t)
                && t.func == *func
                && t.callback == callback
                && t.max_queue_size == max_queue_size
                && t.queue@ == Seq::<T>::empty()
                && !t.closed),
    {
        if self.pending.is_some() {
            return Err(self.pending_error());
        }
        Ok(ThreadsafeFunction {
            func: JsFunction { idx: func.idx },
            callback,
            max_queue_size,
            queue: Vec::new(),
            closed: false,
        })
    }
}

} // verus!
