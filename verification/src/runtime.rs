//! The future-based submission path.
//!
//! Long-running work is scheduled onto a dedicated runtime distinct from
//! the host's own event loop; messages for that runtime go over a bounded
//! channel, so the same full / closing failure modes apply as for the
//! thread-safe callback queue.  The channel itself belongs to an outside
//! crate and stands behind trusted wrappers; everything decided from its
//! outcomes is verified.

use vstd::prelude::*;
use crate::status::{Error, Status};
use crate::value::{JsObject, PromiseView, ValueView};
use crate::env::{blocked_call, Env, EnvView};

verus! {

#[verifier::external_type_specification]
#[verifier::external_body]
#[verifier::reject_recursive_types(T)]
pub struct ExSender<T>(tokio::sync::mpsc::Sender<T>);

#[verifier::external_type_specification]
#[verifier::external_body]
#[verifier::reject_recursive_types(T)]
pub struct ExReceiver<T>(tokio::sync::mpsc::Receiver<T>);

/// The outcome of a non-blocking enqueue onto the runtime's bounded
/// channel: either the message went in, or it comes back with the reason.
pub enum SendAttempt<T> {
    Sent,
    Full(T),
    Closed(T),
}

/// The outcome of a non-blocking take from the receiving end.
pub enum RecvAttempt<T> {
    Received(T),
    Empty,
    Disconnected,
}

/// Relies on tokio::sync::mpsc::channel: a bounded first-in, first-out
/// channel with the given buffer capacity.  The call panics on a zero
/// buffer and on one above the semaphore's permit limit, an eighth of the
/// address space, so both are excluded here.
#[verifier::external_body]
fn channel_raw<T>(buffer: usize) -> (tokio::sync::mpsc::Sender<T>, tokio::sync::mpsc::Receiver<T>)
    requires
        buffer >= 1,
        buffer <= usize::MAX / 8,
{
    tokio::sync::mpsc::channel(buffer)
}

/// Relies on tokio::sync::mpsc::Sender::try_send: the message is either
/// enqueued, or handed back at once — full when the channel already holds
/// `buffer` messages, closed when the receiving half was dropped or
/// closed.
#[verifier::external_body]
fn try_send_raw<T>(sender: &tokio::sync::mpsc::Sender<T>, message: T) -> (r: SendAttempt<T>)
    ensures
        (r matches SendAttempt::Full(m) ==> m == message),
        (r matches SendAttempt::Closed(m) ==> m == message),
{
    match sender.try_send(message) {
        Ok(()) => SendAttempt::Sent,
        Err(tokio::sync::mpsc::error::TrySendError::Full(m)) => SendAttempt::Full(m),
        Err(tokio::sync::mpsc::error::TrySendError::Closed(m)) => SendAttempt::Closed(m),
    }
}

/// Relies on tokio::sync::mpsc::Receiver::try_recv: a previously sent
/// message, or empty, or disconnected once the channel is closed and
/// drained.
#[verifier::external_body]
fn try_recv_raw<T>(receiver: &mut tokio::sync::mpsc::Receiver<T>) -> (r: RecvAttempt<T>) {
    match receiver.try_recv() {
        Ok(m) => RecvAttempt::Received(m),
        Err(tokio::sync::mpsc::error::TryRecvError::Empty) => RecvAttempt::Empty,
        Err(tokio::sync::mpsc::error::TryRecvError::Disconnected) => RecvAttempt::Disconnected,
    }
}

/// Relies on tokio::sync::mpsc::Receiver::close: the receiving half stops
/// accepting new messages, while already-buffered ones stay receivable.
#[verifier::external_body]
fn close_raw<T>(receiver: &mut tokio::sync::mpsc::Receiver<T>) {
    receiver.close()
}

/// Create the dedicated runtime's bounded message channel.  The buffer
/// must be positive and within the channel's permit limit.
pub fn create_runtime_channel<T>(buffer: usize) -> (tokio::sync::mpsc::Sender<T>, tokio::sync::mpsc::Receiver<T>)
    requires
        buffer >= 1,
        buffer <= usize::MAX / 8,
{
    channel_raw(buffer)
}

/// Take the next message from the receiving end, if any.
pub fn runtime_try_recv<T>(receiver: &mut tokio::sync::mpsc::Receiver<T>) -> (r: RecvAttempt<T>) {
    try_recv_raw(receiver)
}

/// Tear down the receiving end of the runtime channel: later submissions
/// fail as closing.
pub fn shut_down_runtime_receiver<T>(receiver: &mut tokio::sync::mpsc::Receiver<T>) {
    close_raw(receiver)
}

/// Map the outcome of an enqueue to the typed error the caller sees: a
/// full channel is the recoverable queue-full condition and a torn-down
/// receiving end the closing one; a sent message is success.
pub fn send_attempt_to_result<T>(attempt: SendAttempt<T>) -> (r: Result<(), Error>)
    ensures
        match attempt {
            SendAttempt::Sent => r is Ok,
            SendAttempt::Full(_) => r matches Err(e) && e.status == Status::QueueFull,
            SendAttempt::Closed(_) => r matches Err(e) && e.status == Status::Closing,
        },
{
    match attempt {
        SendAttempt::Sent => Ok(()),
        SendAttempt::Full(_) => Err(Error::new(Status::QueueFull, String::from_str(
            "failed to run future: no available capacity",
        ))),
        SendAttempt::Closed(_) => Err(Error::new(Status::Closing, String::from_str(
            "failed to run future: receiver closed",
        ))),
    }
}

/// Submit one message to the dedicated runtime without blocking,
/// surfacing a full channel as queue-full and a torn-down receiver as
/// closing.
pub fn submit_runtime_message<T>(sender: &tokio::sync::mpsc::Sender<T>, message: T) -> (r: Result<
    (),
    Error,
>)
    ensures
        r matches Err(e) ==> e.status == Status::QueueFull || e.status == Status::Closing,
{
    let attempt = try_send_raw(sender, message);
    send_attempt_to_result(attempt)
}

impl Env {
    /// Hand a unit of future-based work to the dedicated runtime: a
    /// pending promise value is created for the eventual result, then the
    /// message crosses the bounded channel.  If the channel is full or
    /// its receiving end has shut down, the typed error comes back and
    /// the promise value simply stays pending.
    pub fn execute_with_runtime<T>(
        &mut self,
        sender: &tokio::sync::mpsc::Sender<T>,
        message: T,
    ) -> (r: Result<JsObject, Error>)
        ensures
            old(self).blocked() ==> blocked_call(old(self)@, final(self)@, r),
            !old(self).blocked() ==> final(self)@ == (EnvView {
                values: old(self)@.values.push(
                    ValueView::Promise { state: PromiseView::Pending },
                ),
                ..old(self)@
            }) && match r {
                Ok(h) => h.idx == old(self)@.values.len(),
                Err(e) => e.status == Status::QueueFull || e.status == Status::Closing,
            },
    {
        if self.pending.is_some() {
            return Err(self.pending_error());
        }
        let created = self.create_promise();
        let (_, promise) = match created {
            Ok(p) => p,
            Err(_) => vstd::pervasive::unreached(),
        };
        match submit_runtime_message(sender, message) {
            Ok(()) => Ok(promise),
            Err(e) => Err(e),
        }
    }
}

} // verus!
