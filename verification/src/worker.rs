use vstd::prelude::*;
use crate::builder::Builder;

verus! {

/// A request, sent to the main thread, to start a thread with `builder`'s
/// settings that runs `context`.
pub struct BuilderRequest<C> {
    pub builder: Builder,
    pub context: C,
}

/// A message a worker sends to the thread that started it.
pub enum WorkerMessage<C> {
    /// Start another thread on the worker's behalf.
    SpawnThread(BuilderRequest<C>),
    /// The worker's thread has finished.
    ThreadComplete,
}

/// How the thread that started a worker answers a message from it. `worker`
/// holds the worker while its thread runs; the result is the request to carry
/// out, if any. A finished thread lets go of its worker; a spawn request leaves
/// the worker held and is handed back to be carried out.
pub fn handle_message<C, W>(worker: &mut Option<W>, message: WorkerMessage<C>) -> (spawn: Option<
    BuilderRequest<C>,
>)
    ensures
        match message {
            WorkerMessage::SpawnThread(request) => *final(worker) == *old(worker) && spawn == Some(
                request,
            ),
            WorkerMessage::ThreadComplete => *final(worker) is None && spawn is None,
        },
{
    match message {
        WorkerMessage::SpawnThread(request) => Some(request),
        WorkerMessage::ThreadComplete => {
            *worker = None;
            None
        },
    }
}

} // verus!
