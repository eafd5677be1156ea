use async_channel::{Receiver, RecvError, Sender};
use vstd::prelude::*;
use vstd::string::*;

verus! {

/// `async_channel::Receiver`, the receiving end of a channel; opaque.
#[verifier::external_type_specification]
#[verifier::external_body]
#[verifier::reject_recursive_types(T)]
pub struct ExReceiver<T>(Receiver<T>);

/// `async_channel::Sender`, the sending end of a channel; opaque.
#[verifier::external_type_specification]
#[verifier::external_body]
#[verifier::reject_recursive_types(T)]
pub struct ExSender<T>(Sender<T>);

/// `async_channel::RecvError`: a receive found the channel empty and closed.
#[verifier::external_type_specification]
#[verifier::external_body]
pub struct ExRecvError(RecvError);

/// `async_channel::bounded`: a fresh channel whose buffer holds at most `cap`
/// messages. The crate panics when `cap` is zero, so that input is left out.
/// What the channel holds is left unsaid.
#[verifier::external_body]
fn bounded_channel<T>(cap: usize) -> (r: (Sender<T>, Receiver<T>))
    requires
        cap > 0,
{
    async_channel::bounded(cap)
}

/// `async_channel::Sender::try_send`, with its outcome discarded: the value is
/// queued unless the channel is full or every receiver is gone, in which case it
/// is dropped. Which of these happens depends on the other side, so nothing is
/// stated.
#[verifier::external_body]
fn offer<T>(sender: &Sender<T>, value: T) {
    let _ = sender.try_send(value);
}

/// The body of a spawned thread: runs the thread's function and hands its value
/// to the thread's [`JoinHandle`].
#[verifier::reject_recursive_types(T)]
pub struct ThreadMain<F, T> {
    f: F,
    sender: Sender<T>,
}

impl<F: FnOnce() -> T, T> ThreadMain<F, T> {
    /// The function the thread runs.
    pub closed spec fn body(&self) -> F {
        self.f
    }

    /// Runs the thread's function once and offers its value to the join handle.
    pub fn run(self)
        requires
            self.body().requires(()),
        ensures
            exists|v: T| self.body().ensures((), v),
    {
        let ThreadMain { f, sender } = self;
        let value = f();
        offer(&sender, value);
    }
}

/// Inner representation for JoinHandle
#[verifier::reject_recursive_types(T)]
struct JoinInner<T> {
    receiver: Receiver<T>,
}

/// An owned permission to join on a thread (block on its termination).
#[verifier::reject_recursive_types(T)]
pub struct JoinHandle<T>(JoinInner<T>);

impl<T> JoinHandle<T> {
    /// The channel end on which the thread's value arrives.
    pub closed spec fn receiver(&self) -> Receiver<T> {
        self.0.receiver
    }

    /// The channel end on which the thread's value arrives, for waiting on it.
    pub fn receiving_end(&self) -> (r: &Receiver<T>)
        ensures
            *r == self.receiver(),
    {
        &self.0.receiver
    }

    /// Completes the join, given what arrived on the thread's channel (see
    /// [`JoinHandle::receiving_end`]): the thread's value, or
    /// [`JoinError::Terminated`] when the channel closed without one, because the
    /// thread ended (it panicked) before handing it over.
    pub fn join(self, received: Result<T, RecvError>) -> (r: Result<T, JoinError>)
        ensures
            r == match received {
                Ok(v) => Ok(v),
                Err(_) => Err(JoinError::Terminated),
            },
    {
        match received {
            Ok(v) => Ok(v),
            Err(_) => Err(JoinError::Terminated),
        }
    }

    /// What `{:?}` shows of a join handle.
    pub fn describe(&self) -> (s: String)
        ensures
            s@ == "JoinHandle { .. }"@,
    {
        String::from_str("JoinHandle { .. }")
    }
}

/// Sets up a thread that will run `f`: the body to run on the new thread, and
/// the handle that joins it, linked by a channel holding at most one value.
pub fn prepare_thread<F: FnOnce() -> T, T>(f: F) -> (r: (ThreadMain<F, T>, JoinHandle<T>))
    ensures
        r.0.body() == f,
{
    let (sender, receiver) = bounded_channel(1);
    (ThreadMain { f, sender }, JoinHandle(JoinInner { receiver }))
}

/// Why a join gave no value: the thread ended (it panicked) without handing
/// one over.
#[derive(Debug, PartialEq, Eq, Structural)]
pub enum JoinError {
    Terminated,
}

} // verus!
