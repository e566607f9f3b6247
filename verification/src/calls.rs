//! Outgoing calls: issuing one, and the three handlers that the transport
//! invokes when it completes.

use crate::events::{Completion, Event};
use crate::functions::CallResultDeserializer;
use crate::ids::CallbackId;
use crate::message::{failure_message, failure_text};
use crate::tables::{get_deserializer, put_deserializer, Engine};
use crate::task::Fault;
use vstd::prelude::*;

verus! {

/// Why an outgoing call is rejected towards script code.
#[derive(Debug)]
pub enum Reason<E> {
    /// A description that is handed to script code as it stands.
    Message(String),
    /// The error with which the deserializer refused the reply's payload.
    Error(E),
}

/// The callback that the script-side registry is to run for a completed call.
#[derive(Debug)]
pub enum CallbackRun<V, E> {
    /// Run the reply callback of `callback` with `value`.
    Reply { callback: CallbackId, value: V },
    /// Run the reject callback of `callback` with `reason`.
    Reject { callback: CallbackId, reason: Reason<E> },
}

/// The context tokens that go to the transport together with the three handler
/// entry points of a call.
#[derive(Copy, Clone, Debug, PartialEq, Eq, Structural)]
pub struct HandlerTokens {
    pub reply: i32,
    pub reject: i32,
    pub cleanup: i32,
}

impl HandlerTokens {
    /// The tokens of the call whose callback is `callback`: each handler is
    /// given the callback's identifier.
    pub open spec fn of(callback: CallbackId) -> HandlerTokens {
        HandlerTokens { reply: callback.0, reject: callback.0, cleanup: callback.0 }
    }
}

/// What the reply handler asks the script-side registry to run once the
/// deserializer has come to `decoded`.
pub open spec fn reply_run<V, E>(callback: CallbackId, decoded: Result<V, E>) -> CallbackRun<V, E> {
    match decoded {
        Ok(value) => CallbackRun::Reply { callback, value },
        Err(error) => CallbackRun::Reject { callback, reason: Reason::Error(error) },
    }
}

/// Registers an outgoing call before it is handed to the transport:
/// `deserializer` is stored under `callback`, the identifier that the
/// script-side registry allocated for the call. The tokens that are handed
/// back go to the transport with the reply, reject and cleanup handlers.
pub fn call<P, D>(engine: &mut Engine<P, D>, callback: CallbackId, deserializer: D) -> (tokens:
    HandlerTokens)
    ensures
        final(engine)@ == old(engine)@.after(Event::Issued { callback, deserializer }),
        tokens == HandlerTokens::of(callback),
{
    put_deserializer(engine, callback, deserializer);
    HandlerTokens { reply: callback.0, reject: callback.0, cleanup: callback.0 }
}

/// Decides what follows when the transport has been asked to perform the call
/// of `callback` and has answered with `code`. Zero means that the call is
/// under way. Any other code means that the transport refused the call: its
/// reject callback is to run at once, with a description of the failure.
pub fn call_performed<V, E>(callback: CallbackId, code: i32) -> (run: Option<CallbackRun<V, E>>)
    ensures
        code == 0 ==> run is None,
        code != 0 ==> {
            &&& run matches Some(CallbackRun::Reject { callback: rejected, reason: Reason::Message(text) })
            &&& rejected == callback
            &&& text@ == failure_text(code as int)
        },
{
    if code != 0 {
        Some(CallbackRun::Reject { callback, reason: Reason::Message(failure_message(code)) })
    } else {
        None
    }
}

/// The reply handler of an outgoing call. The deserializer of `callback` is
/// taken out of the engine and called with `payload`. A value that it returns
/// goes to the reply callback, an error to the reject callback. A reply for
/// which no deserializer waits is a fault.
pub fn handle_call_reply<C, V, E, P, D: CallResultDeserializer<C, V, E>>(
    engine: &mut Engine<P, D>,
    context: &C,
    callback: CallbackId,
    payload: Vec<u8>,
) -> (run: Result<CallbackRun<V, E>, Fault>)
    requires
        old(engine)@.deserializer(callback) matches Some(deserializer) ==> call_requires(
            deserializer,
            (context, payload),
        ),
    ensures
        final(engine)@ == old(engine)@.after(
            Event::Completed { callback, how: Completion::Reply },
        ),
        match old(engine)@.released_by(Event::Completed { callback, how: Completion::Reply }) {
            Some(deserializer) => exists|decoded: Result<V, E>| #[trigger]
                call_ensures(deserializer, (context, payload), decoded) && run == Ok::<
                    CallbackRun<V, E>,
                    Fault,
                >(reply_run(callback, decoded)),
            None => run == Err::<CallbackRun<V, E>, Fault>(Fault::NoDeserializer(callback)),
        },
{
    match get_deserializer(engine, callback) {
        Some(deserializer) => {
            let decoded = deserializer(context, payload);
            match decoded {
                Ok(value) => Ok(CallbackRun::Reply { callback, value }),
                Err(error) => Ok(CallbackRun::Reject { callback, reason: Reason::Error(error) }),
            }
        },
        None => Err(Fault::NoDeserializer(callback)),
    }
}

/// The reject handler of an outgoing call. Where the deserializer of
/// `callback` still waits, it is dropped, and the reject callback is to run
/// with the transport's `message` as it stands. Where it is gone already, the
/// call has been completed before and nothing is to run.
pub fn handle_call_reject<V, E, P, D>(
    engine: &mut Engine<P, D>,
    callback: CallbackId,
    message: String,
) -> (run: Option<CallbackRun<V, E>>)
    ensures
        final(engine)@ == old(engine)@.after(
            Event::Completed { callback, how: Completion::Reject },
        ),
        run == if old(engine)@.resumed_by(Event::Completed { callback, how: Completion::Reject }) {
            Some(CallbackRun::<V, E>::Reject { callback, reason: Reason::Message(message) })
        } else {
            None
        },
        run.is_none() ==> final(engine)@ == old(engine)@,
{
    match get_deserializer(engine, callback) {
        Some(_) => Some(CallbackRun::Reject { callback, reason: Reason::Message(message) }),
        None => {
            assert(engine@.deserializers =~= old(engine)@.deserializers);
            None
        },
    }
}

/// The cleanup handler of an outgoing call. The deserializer of `callback` is
/// dropped if it still waits; `held` tells whether it did. A cleanup that
/// finds none leaves the engine as it is. Nothing is handed to script code
/// either way.
pub fn remove_js_callback<P, D>(engine: &mut Engine<P, D>, callback: CallbackId) -> (held: bool)
    ensures
        final(engine)@ == old(engine)@.after(
            Event::Completed { callback, how: Completion::Cleanup },
        ),
        held == old(engine)@.released_by(
            Event::Completed { callback, how: Completion::Cleanup },
        ).is_some(),
        !held ==> final(engine)@ == old(engine)@,
{
    let held = get_deserializer(engine, callback).is_some();
    assert(!held ==> engine@.deserializers =~= old(engine)@.deserializers);
    held
}

} // verus!
