use std::marker::PhantomData;
use vstd::prelude::*;
use async_channel::{Receiver, RecvError};
use crate::join::JoinHandle;

verus! {

/// `std::io::Error`; opaque.
#[verifier::external_type_specification]
#[verifier::external_body]
pub struct ExIoError(std::io::Error);

/// `std::io::Error::other`: an error of kind `ErrorKind::Other` whose message
/// is `message`. Both types are opaque here, so the error's kind and message
/// are left unsaid.
#[verifier::external_body]
fn io_error_other(message: &str) -> (e: std::io::Error) {
    std::io::Error::other(message)
}

/// An owned permission to join on a scoped thread (block on its termination).
#[verifier::reject_recursive_types(T)]
pub struct ScopedJoinHandle<'scope, T>(pub(crate) JoinHandle<T>, pub(crate) PhantomData<&'scope ()>);

impl<'scope, T> ScopedJoinHandle<'scope, T> {
    /// The handle of the underlying thread.
    pub closed spec fn handle(&self) -> JoinHandle<T> {
        self.0
    }

    /// Wraps the handle of a thread spawned inside a scope.
    pub fn new(handle: JoinHandle<T>) -> (h: Self)
        ensures
            h.handle() == handle,
    {
        ScopedJoinHandle(handle, PhantomData)
    }

    /// The channel end on which the thread's value arrives, for waiting on it.
    pub fn receiving_end(&self) -> (r: &Receiver<T>)
        ensures
            *r == self.handle().receiver(),
    {
        self.0.receiving_end()
    }

    /// Completes the join, given what arrived on the thread's channel (see
    /// [`ScopedJoinHandle::receiving_end`]): the thread's value, or an I/O error
    /// with an empty message when the thread ended without handing one over.
    pub fn join(self, received: Result<T, RecvError>) -> (r: std::io::Result<T>)
        ensures
            r is Ok <==> received is Ok,
            received matches Ok(v) ==> r matches Ok(w) && w == v,
    {
        match self.0.join(received) {
            Ok(v) => Ok(v),
            Err(_) => Err(io_error_other("")),
        }
    }
}

/// What `scope` does once all of its threads have finished.
pub enum ScopeOutcome<T, P> {
    /// Return the value of the scope's function.
    Return(T),
    /// Resume the panic with which the scope's function ended.
    ResumePanic(P),
    /// Panic, because one of the scoped threads panicked.
    ThreadPanicked,
}

/// What `scope` does with the result of its function (`Err` holding the panic
/// payload if the function panicked) once all scoped threads have finished:
/// a panic of the function is resumed first; otherwise a panicked scoped thread
/// makes the scope panic; otherwise the function's value is returned.
pub fn scope_outcome<T, P>(result: Result<T, P>, a_thread_panicked: bool) -> (o: ScopeOutcome<T, P>)
    ensures
        o == match result {
            Err(p) => ScopeOutcome::ResumePanic(p),
            Ok(v) => if a_thread_panicked {
                ScopeOutcome::ThreadPanicked
            } else {
                ScopeOutcome::Return(v)
            },
        },
{
    match result {
        Err(p) => ScopeOutcome::ResumePanic(p),
        Ok(v) => {
            if a_thread_panicked {
                ScopeOutcome::ThreadPanicked
            } else {
                ScopeOutcome::Return(v)
            }
        },
    }
}

/// What `scope` does while it waits for its threads.
pub enum ScopeWait {
    /// Some scoped thread is still running: sleep a millisecond and look again.
    Sleep,
    /// Every scoped thread has finished.
    Finished,
}

/// The waiting decision of `scope`, given how many scoped threads are running.
pub fn scope_wait(num_running_threads: usize) -> (w: ScopeWait)
    ensures
        w is Finished <==> num_running_threads == 0,
{
    if num_running_threads != 0 {
        ScopeWait::Sleep
    } else {
        ScopeWait::Finished
    }
}

/// The threads of a scope: how many were started, how many have finished, and
/// whether one of them panicked. `scope` waits until every started thread has
/// finished.
pub struct ScopeCounter {
    num_running_threads: usize,
    a_thread_panicked: bool,
    started: Ghost<nat>,
    finished: Ghost<nat>,
}

impl ScopeCounter {
    #[verifier::type_invariant]
    spec fn counts_agree(self) -> bool {
        &&& self.finished@ <= self.started@
        &&& self.num_running_threads == self.started@ - self.finished@
    }

    /// How many threads were started in the scope.
    pub closed spec fn started(&self) -> nat {
        self.started@
    }

    /// How many threads of the scope have finished.
    pub closed spec fn finished(&self) -> nat {
        self.finished@
    }

    /// Whether a thread of the scope ended by panicking.
    pub closed spec fn panicked(&self) -> bool {
        self.a_thread_panicked
    }

    /// How many threads of the scope are running: those started and not yet
    /// finished.
    pub closed spec fn running(&self) -> nat {
        self.num_running_threads as nat
    }

    /// A scope in which no thread has been started.
    pub fn new() -> (c: Self)
        ensures
            c.started() == 0,
            c.finished() == 0,
            c.running() == 0,
            !c.panicked(),
    {
        ScopeCounter {
            num_running_threads: 0,
            a_thread_panicked: false,
            started: Ghost(0),
            finished: Ghost(0),
        }
    }

    /// Records that a thread is started in the scope. This fails, and changes
    /// nothing, only when the running count cannot grow any more.
    pub fn thread_started(&mut self) -> (ok: bool)
        ensures
            ok <==> old(self).running() < usize::MAX,
            ok ==> final(self).started() == old(self).started() + 1,
            !ok ==> final(self).started() == old(self).started(),
            final(self).finished() == old(self).finished(),
            final(self).panicked() == old(self).panicked(),
            final(self).running() == final(self).started() - final(self).finished(),
    {
        proof {
            use_type_invariant(&*self);
        }
        if self.num_running_threads < usize::MAX {
            let started = Ghost(self.started@ + 1);
            *self = ScopeCounter {
                num_running_threads: self.num_running_threads + 1,
                a_thread_panicked: self.a_thread_panicked,
                started,
                finished: self.finished,
            };
            true
        } else {
            false
        }
    }

    /// Records that a started thread of the scope has finished, and whether it
    /// panicked.
    pub fn thread_finished(&mut self, panicked: bool)
        requires
            old(self).running() > 0,
        ensures
            final(self).started() == old(self).started(),
            final(self).finished() == old(self).finished() + 1,
            final(self).panicked() == (old(self).panicked() || panicked),
            final(self).running() == final(self).started() - final(self).finished(),
    {
        proof {
            use_type_invariant(&*self);
        }
        let finished = Ghost(self.finished@ + 1);
        *self = ScopeCounter {
            num_running_threads: self.num_running_threads - 1,
            a_thread_panicked: self.a_thread_panicked || panicked,
            started: self.started,
            finished,
        };
    }

    /// Whether a thread of the scope ended by panicking.
    pub fn a_thread_panicked(&self) -> (p: bool)
        ensures
            p == self.panicked(),
    {
        self.a_thread_panicked
    }

    /// The waiting decision of `scope`: it is finished exactly when every
    /// thread started in it has finished.
    pub fn wait(&self) -> (w: ScopeWait)
        ensures
            w is Finished <==> self.finished() == self.started(),
    {
        proof {
            use_type_invariant(self);
        }
        scope_wait(self.num_running_threads)
    }
}

} // verus!
