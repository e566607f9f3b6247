//! What a run of script code leaves behind, as the engine sees it.

use crate::ids::{CallContextId, CallbackId};
use vstd::prelude::*;

verus! {

/// The call context that the script-side registry hands back after script
/// code has run and the pending jobs have been drained. `replied` holds the
/// value that the context replied with, `rejected` the error that it was
/// rejected with; a context that waits for outgoing calls has neither.
#[derive(Debug)]
pub struct ContextHandle<V, E> {
    pub id: CallContextId,
    pub replied: Option<V>,
    pub rejected: Option<E>,
}

/// The state of a call context.
#[derive(Debug)]
pub enum Task<V, E> {
    /// The context is open: outgoing calls are still unresolved.
    Pending(CallContextId),
    /// The context has replied with a value.
    Replied(CallContextId, V),
    /// The context has been rejected with an error.
    Rejected(CallContextId, E),
}

/// A defect of the correlation itself, as opposed to the failure of a call or
/// of an endpoint. The embedder must not turn it into a rejection.
#[derive(Copy, Clone, Debug, PartialEq, Eq, Structural)]
pub enum Fault {
    /// A call context has both replied and been rejected.
    RepliedAndRejected(CallContextId),
    /// A call context finished and no reply producer waits for it.
    NoReplier(CallContextId),
    /// A reply arrived for a callback and no deserializer waits for it.
    NoDeserializer(CallbackId),
}

impl<V, E> ContextHandle<V, E> {
    /// The state that the handle shows, or the fault of a handle that shows
    /// two terminal states at once.
    pub open spec fn state(self) -> Result<Task<V, E>, Fault> {
        match (self.replied, self.rejected) {
            (None, None) => Ok(Task::Pending(self.id)),
            (Some(value), None) => Ok(Task::Replied(self.id, value)),
            (None, Some(error)) => Ok(Task::Rejected(self.id, error)),
            (Some(_), Some(_)) => Err(Fault::RepliedAndRejected(self.id)),
        }
    }
}

impl<V, E> Task<V, E> {
    /// The call context whose state this is.
    pub open spec fn context(self) -> CallContextId {
        match self {
            Task::Pending(id) => id,
            Task::Replied(id, _) => id,
            Task::Rejected(id, _) => id,
        }
    }

    /// What the reply producer of a finished context is called with; `None`
    /// while the context is open.
    pub open spec fn result(self) -> Option<Result<V, E>> {
        match self {
            Task::Pending(_) => None,
            Task::Replied(_, value) => Some(Ok(value)),
            Task::Rejected(_, error) => Some(Err(error)),
        }
    }
}

/// Reads the terminal fields of a call context after a run of script code.
pub fn inspect<V, E>(handle: ContextHandle<V, E>) -> (state: Result<Task<V, E>, Fault>)
    ensures
        state == handle.state(),
{
    let ContextHandle { id, replied, rejected } = handle;
    match (replied, rejected) {
        (None, None) => Ok(Task::Pending(id)),
        (Some(value), None) => Ok(Task::Replied(id, value)),
        (None, Some(error)) => Ok(Task::Rejected(id, error)),
        (Some(_), Some(_)) => Err(Fault::RepliedAndRejected(id)),
    }
}

} // verus!
