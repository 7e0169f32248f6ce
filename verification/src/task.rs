//! The thread-pool task bridge.
//!
//! A unit of native work runs off the host's logical thread; on
//! completion, a host-thread callback converts the result into a host
//! value and settles an associated promise-like value.  Exactly one
//! compute and one resolve happen per submitted task, and a failed
//! compute settles the promise in the rejected state with the original
//! error's information preserved.

use vstd::prelude::*;
use crate::status::{Error, Status};
use crate::value::{HostValue, JsObject, JsUnknown, PromiseState, PromiseView, ValueView};
use crate::env::{blocked_call, same_except_values, Env, EnvView};

verus! {

broadcast use vstd::prelude::Seq::lemma_push_map_commute;

/// A handle to a pending promise value, held by whoever will settle it.
#[derive(Clone, Copy, Debug, PartialEq, Eq, Structural)]
pub struct JsDeferred {
    pub idx: usize,
}

/// The promise-like handle a submitted unit of work hands back: its
/// result will be observable through the promise value.
#[derive(Clone, Copy, Debug, PartialEq, Eq, Structural)]
pub struct AsyncWorkPromise {
    pub promise: JsObject,
}

/// The value heap only grew: every handle that was valid before is still
/// valid and still names the same value.
pub open spec fn values_extended(pre: EnvView, post: EnvView) -> bool {
    &&& pre.values.is_prefix_of(post.values)
    &&& same_except_values(pre, post)
}

/// A unit of native work for the thread pool.  `compute` runs on a worker
/// thread with no host access; `resolve` runs on the host thread and
/// converts the computed output into a host value.  The spec functions
/// name what each step returns — including whether the resolver itself
/// succeeds — so a caller of [`Env::spawn`] knows exactly how the settled
/// promise relates to the computed value.
pub trait Task: Sized {
    type Output;

    /// What `compute` returns.
    spec fn computed(&self) -> Result<Self::Output, Error>;

    /// The host value `resolve` produces for a given output.
    spec fn resolved_value(&self, output: Self::Output) -> ValueView;

    /// Whether `resolve` succeeds for a given output, and with which
    /// error it fails otherwise.
    spec fn resolve_outcome(&self, output: Self::Output) -> Result<(), Error>;

    /// Run the native work; no host access happens here.
    fn compute(&mut self) -> (r: Result<Self::Output, Error>)
        ensures
            r == old(self).computed(),
            final(self).computed() == old(self).computed(),
            forall|o: Self::Output| #[trigger] final(self).resolved_value(o) == old(
                self,
            ).resolved_value(o),
            forall|o: Self::Output| #[trigger] final(self).resolve_outcome(o) == old(
                self,
            ).resolve_outcome(o),
    ;

    /// Convert the computed output into a host value on the host thread:
    /// a fresh handle to the resolved value when the resolver succeeds,
    /// and exactly the named error when it fails.
    fn resolve(self, env: &mut Env, output: Self::Output) -> (r: Result<JsUnknown, Error>)
        ensures
            values_extended(old(env)@, final(env)@),
            match self.resolve_outcome(output) {
                Ok(()) => r matches Ok(h) && h.idx < final(env)@.values.len()
                    && final(env)@.values[h.idx as int] == self.resolved_value(output),
                Err(e) => r matches Err(e2) && e2.status == e.status && e2.reason@ == e.reason@,
            },
    ;
}

impl Env {
    /// Create a pending promise value, returning the deferred handle used
    /// to settle it and the promise handle handed to the host.
    pub fn create_promise(&mut self) -> (r: Result<(JsDeferred, JsObject), Error>)
        ensures
            old(self).blocked() ==> blocked_call(old(self)@, final(self)@, r),
            !old(self).blocked() ==> final(self)@ == (EnvView {
                values: old(self)@.values.push(
                    ValueView::Promise { state: PromiseView::Pending },
                ),
                ..old(self)@
            }) && (r matches Ok(p) && p.0.idx == old(self)@.values.len()
                && p.1.idx == old(self)@.values.len()),
    {
        if self.pending.is_some() {
            return Err(self.pending_error());
        }
        let idx = self.values.len();
        self.values.push(HostValue::Promise { state: PromiseState::Pending });
        Ok((JsDeferred { idx }, JsObject { idx }))
    }

    /// Settle a pending promise with the value at the given handle.  The
    /// deferred handle is good for exactly one settlement, which the
    /// precondition reflects.
    pub fn resolve_deferred(&mut self, deferred: JsDeferred, value: JsUnknown) -> (r: Result<
        (),
        Error,
    >)
        requires
            deferred.idx < old(self)@.values.len(),
            old(self)@.values[deferred.idx as int] matches ValueView::Promise {
                state: PromiseView::Pending,
            },
            value.idx < old(self)@.values.len(),
        ensures
            old(self).blocked() ==> blocked_call(old(self)@, final(self)@, r),
            !old(self).blocked() ==> final(self)@ == (EnvView {
                values: old(self)@.values.update(
                    deferred.idx as int,
                    ValueView::Promise {
                        state: PromiseView::Resolved { value: value.idx as int },
                    },
                ),
                ..old(self)@
            }) && r is Ok,
    {
        broadcast use crate::env::lemma_map_values_update;

        if self.pending.is_some() {
            return Err(self.pending_error());
        }
        self.values.set(deferred.idx, HostValue::Promise {
            state: PromiseState::Resolved { value: value.idx },
        });
        Ok(())
    }

    /// Settle a pending promise in the rejected state, preserving the
    /// error's kind and reason verbatim.
    pub fn reject_deferred(&mut self, deferred: JsDeferred, err: Error) -> (r: Result<(), Error>)
        requires
            deferred.idx < old(self)@.values.len(),
            old(self)@.values[deferred.idx as int] matches ValueView::Promise {
                state: PromiseView::Pending,
            },
        ensures
            old(self).blocked() ==> blocked_call(old(self)@, final(self)@, r),
            !old(self).blocked() ==> final(self)@ == (EnvView {
                values: old(self)@.values.update(
                    deferred.idx as int,
                    ValueView::Promise {
                        state: PromiseView::Rejected {
                            status: err.status,
                            message: err.reason@,
                        },
                    },
                ),
                ..old(self)@
            }) && r is Ok,
    {
        broadcast use crate::env::lemma_map_values_update;

        if self.pending.is_some() {
            return Err(self.pending_error());
        }
        let status = err.status;
        let message = err.reason;
        self.values.set(deferred.idx, HostValue::Promise {
            state: PromiseState::Rejected { status, message },
        });
        Ok(())
    }

    /// Settle a pending promise from the outcome of a finished unit of
    /// work: a computed value handle resolves it, and an error rejects it
    /// with that error's kind and reason.
    pub fn settle_deferred(
        &mut self,
        deferred: JsDeferred,
        outcome: Result<JsUnknown, Error>,
    ) -> (r: Result<(), Error>)
        requires
            deferred.idx < old(self)@.values.len(),
            old(self)@.values[deferred.idx as int] matches ValueView::Promise {
                state: PromiseView::Pending,
            },
            outcome matches Ok(h) ==> h.idx < old(self)@.values.len(),
        ensures
            old(self).blocked() ==> blocked_call(old(self)@, final(self)@, r),
            !old(self).blocked() ==> final(self)@ == (EnvView {
                values: old(self)@.values.update(
                    deferred.idx as int,
                    ValueView::Promise {
                        state: match outcome {
                            Ok(h) => PromiseView::Resolved { value: h.idx as int },
                            Err(e) => PromiseView::Rejected {
                                status: e.status,
                                message: e.reason@,
                            },
                        },
                    },
                ),
                ..old(self)@
            }) && r is Ok,
    {
        match outcome {
            Ok(value) => self.resolve_deferred(deferred, value),
            Err(e) => self.reject_deferred(deferred, e),
        }
    }

    /// Run a task: one compute, then one settlement of a fresh
    /// promise-like value.  A computed output is converted by the task's
    /// resolver and the promise resolves to exactly that host value; a
    /// failed compute — or a failed resolver — rejects the promise with
    /// that error's kind and reason.  Once submitted, the work cannot be
    /// cancelled.
    pub fn spawn<T: Task>(&mut self, task: T) -> (r: Result<AsyncWorkPromise, Error>)
        ensures
            old(self).blocked() ==> blocked_call(old(self)@, final(self)@, r),
            !old(self).blocked() ==> (r matches Ok(p) && {
                &&& values_extended(old(self)@, final(self)@)
                &&& p.promise.idx + 1 == final(self)@.values.len()
                &&& match task.computed() {
                    Err(e) => final(self)@ == (EnvView {
                        values: old(self)@.values.push(
                            ValueView::Promise {
                                state: PromiseView::Rejected {
                                    status: e.status,
                                    message: e.reason@,
                                },
                            },
                        ),
                        ..old(self)@
                    }),
                    Ok(o) => final(self)@.values.last() matches ValueView::Promise { state }
                        && match task.resolve_outcome(o) {
                            Ok(()) => state matches PromiseView::Resolved { value } && {
                                &&& 0 <= value < final(self)@.values.len()
                                &&& final(self)@.values[value] == task.resolved_value(o)
                            },
                            Err(e) => state == (PromiseView::Rejected {
                                status: e.status,
                                message: e.reason@,
                            }),
                        },
                }
            }),
    {
        if self.pending.is_some() {
            return Err(self.pending_error());
        }
        let mut t = task;
        match t.compute() {
            Err(e) => {
                let status = e.status;
                let message = e.reason;
                let idx = self.values.len();
                self.values.push(HostValue::Promise {
                    state: PromiseState::Rejected { status, message },
                });
                proof {
                    assert(old(self)@.values.is_prefix_of(self@.values));
                }
                Ok(AsyncWorkPromise { promise: JsObject { idx } })
            },
            Ok(o) => {
                let settled = match t.resolve(self, o) {
                    Ok(h) => PromiseState::Resolved { value: h.idx },
                    Err(e2) => {
                        let status = e2.status;
                        let message = e2.reason;
                        PromiseState::Rejected { status, message }
                    },
                };
                let idx = self.values.len();
                self.values.push(HostValue::Promise { state: settled });
                proof {
                    assert(old(self)@.values.is_prefix_of(self@.values));
                }
                Ok(AsyncWorkPromise { promise: JsObject { idx } })
            },
        }
    }
}

} // verus!
