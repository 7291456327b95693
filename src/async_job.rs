//! Polling a background job from a foreground loop without blocking.

use vstd::prelude::*;
use std::sync::mpsc::{Receiver, TryRecvError};

verus! {

#[verifier::external_type_specification]
#[verifier::external_body]
#[verifier::reject_recursive_types(T)]
pub struct ExReceiver<T>(Receiver<T>);

#[verifier::external_type_specification]
#[verifier::external_body]
pub struct ExError(anyhow::Error);

/// What a non-blocking receive found.
pub enum ChannelPoll<T> {
    /// A message.
    Ready(T),
    /// Nothing yet; the sender is still there.
    Empty,
    /// The sender is gone and nothing is left.
    Disconnected,
}

/// Relies on `std::sync::mpsc::Receiver::try_recv`, which never blocks; what
/// it finds depends on the other thread.
#[verifier::external_body]
fn try_receive<T>(rx: &Receiver<T>) -> (r: ChannelPoll<T>) {
    match rx.try_recv() {
        Ok(v) => ChannelPoll::Ready(v),
        Err(TryRecvError::Empty) => ChannelPoll::Empty,
        Err(TryRecvError::Disconnected) => ChannelPoll::Disconnected,
    }
}

/// Relies on `anyhow::Error::msg`: an error that carries the message.
#[verifier::external_body]
fn disconnected_error() -> (r: anyhow::Error) {
    anyhow::Error::msg("Worker task disconnected")
}

/// A background job whose single result is polled for.
#[verifier::reject_recursive_types(T)]
pub struct AsyncJob<T> {
    receiver: Option<Receiver<Result<T, anyhow::Error>>>,
}

impl<T> AsyncJob<T> {
    /// The job is still running: its result has not been taken.
    pub closed spec fn running(&self) -> bool {
        self.receiver is Some
    }

    /// A job that reports on `receiver`.
    pub fn new(receiver: Receiver<Result<T, anyhow::Error>>) -> (r: Self)
        ensures
            r.running(),
    {
        AsyncJob { receiver: Some(receiver) }
    }

    /// Takes in what a non-blocking receive found on a running job: a
    /// message is the job's result and ends it; a sender gone without a
    /// result ends it with an error; nothing yet leaves it running.
    pub fn take_outcome(&mut self, outcome: ChannelPoll<Result<T, anyhow::Error>>) -> (r: Option<
        Result<T, anyhow::Error>,
    >)
        requires
            old(self).running(),
        ensures
            outcome matches ChannelPoll::Ready(v) ==> r == Some(v) && !final(self).running(),
            outcome is Empty ==> r is None && final(self).running(),
            outcome is Disconnected ==> (r matches Some(Err(_))) && !final(self).running(),
    {
        match outcome {
            ChannelPoll::Ready(res) => {
                self.receiver = None;
                Some(res)
            },
            ChannelPoll::Empty => None,
            ChannelPoll::Disconnected => {
                self.receiver = None;
                Some(Err(disconnected_error()))
            },
        }
    }

    /// The job's result once it is there, without blocking. A job whose
    /// worker went away without a result ends with an error. Once a result
    /// was handed out, the job is no longer running and polls give nothing.
    /// What a running job returns is what `take_outcome` makes of the
    /// receive, whose outcome depends on the worker.
    pub fn poll(&mut self) -> (r: Option<Result<T, anyhow::Error>>)
        ensures
            !old(self).running() ==> r is None && !final(self).running(),
            r is Some ==> !final(self).running(),
            r is None ==> final(self).running() == old(self).running(),
    {
        let outcome = match &self.receiver {
            Some(rx) => try_receive(rx),
            None => {
                return None;
            },
        };
        self.take_outcome(outcome)
    }

    /// The result has not been taken yet.
    pub fn is_running(&self) -> (r: bool)
        ensures
            r == self.running(),
    {
        self.receiver.is_some()
    }
}

} // verus!
