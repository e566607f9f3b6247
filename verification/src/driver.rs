//! The invocation driver: what the engine does before and after script code
//! runs on behalf of a public endpoint or of a completed outgoing call.

use crate::events::Event;
use crate::functions::{Arguments, Replier};
use crate::ids::CallContextId;
use crate::tables::{get_replier, put_replier, Engine};
use crate::task::{inspect, ContextHandle, Fault, Task};
use vstd::prelude::*;

verus! {

/// What the host is told when an endpoint invocation returns to it.
#[derive(Debug)]
pub enum Response<R> {
    /// The reply has been produced.
    Now(R),
    /// The call context waits for outgoing calls; the reply will be produced
    /// when the last of them has completed.
    Later,
}

/// What came back from resuming script code on behalf of a completed call.
#[derive(Debug)]
pub enum Resumed<V, E> {
    /// Script code ran; this is the call context that it ran in.
    Returned(ContextHandle<V, E>),
    /// Script code raised `error` while the call context `active` was entered.
    Raised { error: E, active: CallContextId },
}

impl<V, E> Resumed<V, E> {
    /// The call context that is finished by this outcome together with the
    /// result that its reply producer is owed; `Ok(None)` where the context
    /// stays open.
    pub open spec fn finished(self) -> Result<Option<(CallContextId, Result<V, E>)>, Fault> {
        match self {
            Resumed::Returned(handle) => match handle.state() {
                Ok(task) => match task.result() {
                    None => Ok(None),
                    Some(result) => Ok(Some((task.context(), result))),
                },
                Err(fault) => Err(fault),
            },
            Resumed::Raised { error, active } => Ok(Some((active, Err(error)))),
        }
    }
}

/// Builds the arguments with which the script-side registry starts an
/// endpoint: the endpoint's own function value, followed by what `arguments`
/// builds. An error of `arguments` is handed on, and no script code is to run.
pub fn endpoint_arguments<C, V, E, A: Arguments<C, V, E>>(
    context: &C,
    endpoint: V,
    arguments: A,
) -> (built: Result<Vec<V>, E>)
    requires
        call_requires(arguments, (context,)),
    ensures
        match built {
            Ok(all) => exists|own: Vec<V>| #[trigger]
                call_ensures(arguments, (context,), Ok::<Vec<V>, E>(own)) && all@ == seq![
                    endpoint,
                ] + own@,
            Err(error) => call_ensures(arguments, (context,), Err::<Vec<V>, E>(error)),
        },
{
    match arguments(context) {
        Ok(own) => {
            let mut all = own;
            all.insert(0, endpoint);
            Ok(all)
        },
        Err(error) => Err(error),
    }
}

/// Decides how an endpoint invocation returns to the host. `run` is what the
/// run of the endpoint came to: the call context that the script-side registry
/// handed back once the pending jobs were drained, or the error that stopped
/// the run.
///
/// A context that has replied or been rejected, and a run that failed, are
/// answered at once: `replier` is called with the value or the error. For a
/// context that is still open `replier` is stored under the context's
/// identifier. A context that is both replied and rejected is a fault.
pub fn execute<C, V, E, R, P: Replier<C, V, E, R>, D>(
    engine: &mut Engine<P, D>,
    context: &C,
    run: Result<ContextHandle<V, E>, E>,
    replier: P,
) -> (response: Result<Response<R>, Fault>)
    requires
        forall|result: Result<V, E>| call_requires(replier, (context, result)),
    ensures
        match run {
            Err(error) => {
                &&& final(engine)@ == old(engine)@
                &&& response matches Ok(Response::Now(reply))
                &&& call_ensures(replier, (context, Err::<V, E>(error)), reply)
            },
            Ok(handle) => match handle.state() {
                Ok(task) => match task.result() {
                    None => {
                        &&& final(engine)@ == old(engine)@.after(
                            Event::Suspended { context: task.context(), replier },
                        )
                        &&& response == Ok::<Response<R>, Fault>(Response::Later)
                    },
                    Some(result) => {
                        &&& final(engine)@ == old(engine)@
                        &&& response matches Ok(Response::Now(reply))
                        &&& call_ensures(replier, (context, result), reply)
                    },
                },
                Err(fault) => {
                    &&& final(engine)@ == old(engine)@
                    &&& response == Err::<Response<R>, Fault>(fault)
                },
            },
        },
{
    match run {
        Err(error) => Ok(Response::Now(replier(context, Err(error)))),
        Ok(handle) => match inspect(handle) {
            Ok(Task::Pending(id)) => {
                put_replier(engine, id, replier);
                Ok(Response::Later)
            },
            Ok(Task::Replied(_, value)) => Ok(Response::Now(replier(context, Ok(value)))),
            Ok(Task::Rejected(_, error)) => Ok(Response::Now(replier(context, Err(error)))),
            Err(fault) => Err(fault),
        },
    }
}

/// Decides what follows when script code has been resumed by the reply to, or
/// the rejection of, an outgoing call.
///
/// Where the resumed call context has replied or been rejected, its reply
/// producer is taken out of the engine and called with the value or the error,
/// and what it returned is handed back. Where script code raised an error, the
/// producer of the call context that was entered at that moment is taken and
/// called with the error. Where the resumed context is still open, nothing
/// happens. A finished context without a stored producer is a fault.
pub fn execute_js_callback<C, V, E, R, P: Replier<C, V, E, R>, D>(
    engine: &mut Engine<P, D>,
    context: &C,
    resumed: Resumed<V, E>,
) -> (reply: Result<Option<R>, Fault>)
    requires
        forall|id: i32, result: Result<V, E>|
            old(engine)@.repliers.contains_key(id) ==> #[trigger] call_requires(
                old(engine)@.repliers[id],
                (context, result),
            ),
    ensures
        match resumed.finished() {
            Ok(None) => {
                &&& final(engine)@ == old(engine)@
                &&& reply == Ok::<Option<R>, Fault>(None)
            },
            Ok(Some((id, result))) => {
                let event = Event::<P, D>::Finished { context: id };
                &&& final(engine)@ == old(engine)@.after(event)
                &&& match old(engine)@.fired_by(event) {
                    Some(replier) => {
                        &&& reply matches Ok(Some(produced))
                        &&& call_ensures(replier, (context, result), produced)
                    },
                    None => reply == Err::<Option<R>, Fault>(Fault::NoReplier(id)),
                }
            },
            Err(fault) => {
                &&& final(engine)@ == old(engine)@
                &&& reply == Err::<Option<R>, Fault>(fault)
            },
        },
{
    let (id, result) = match resumed {
        Resumed::Returned(handle) => match inspect(handle) {
            Ok(Task::Pending(_)) => {
                return Ok(None);
            },
            Ok(Task::Replied(id, value)) => (id, Ok(value)),
            Ok(Task::Rejected(id, error)) => (id, Err(error)),
            Err(fault) => {
                return Err(fault);
            },
        },
        Resumed::Raised { error, active } => (active, Err(error)),
    };
    match get_replier(engine, id) {
        Some(replier) => Ok(Some(replier(context, result))),
        None => Err(Fault::NoReplier(id)),
    }
}

} // verus!
