//! The occasions on which the engine's tables change, and what each of them
//! does to the tables.

use crate::ids::{CallContextId, CallbackId};
use crate::tables::Tables;
use vstd::prelude::*;

verus! {

/// The three ways in which the transport completes an outgoing call.
pub enum Completion {
    /// The reply handler ran: `handle_call_reply`.
    Reply,
    /// The reject handler ran: `handle_call_reject`.
    Reject,
    /// The cleanup handler ran: `remove_js_callback`.
    Cleanup,
}

/// An occasion on which the engine's tables change.
pub enum Event<P, D> {
    /// An endpoint invocation came back with its call context still open, and
    /// `execute` stored the context's reply producer.
    Suspended { context: CallContextId, replier: P },
    /// Resumed script code finished a call context, or raised an error in it,
    /// and `execute_js_callback` asked for the context's reply producer.
    Finished { context: CallContextId },
    /// An outgoing call was issued, and `call` stored its deserializer.
    Issued { callback: CallbackId, deserializer: D },
    /// The transport completed an outgoing call, and the handler asked for
    /// the call's deserializer.
    Completed { callback: CallbackId, how: Completion },
}

impl<P, D> Event<P, D> {
    /// The event stores a reply producer for `context`.
    pub open spec fn suspends(self, context: CallContextId) -> bool {
        self matches Event::Suspended { context: stored, .. } && stored == context
    }

    /// The event asks for the reply producer of `context`.
    pub open spec fn finishes(self, context: CallContextId) -> bool {
        self matches Event::Finished { context: finished } && finished == context
    }

    /// The event stores a deserializer for `callback`.
    pub open spec fn issues(self, callback: CallbackId) -> bool {
        self matches Event::Issued { callback: issued, .. } && issued == callback
    }

    /// The event asks for the deserializer of `callback`.
    pub open spec fn completes(self, callback: CallbackId) -> bool {
        self matches Event::Completed { callback: completed, .. } && completed == callback
    }
}

impl<P, D> Tables<P, D> {
    /// The tables after `event`.
    pub open spec fn after(self, event: Event<P, D>) -> Self {
        match event {
            Event::Suspended { context, replier } => self.with_replier(context, replier),
            Event::Finished { context } => self.without_replier(context),
            Event::Issued { callback, deserializer } => self.with_deserializer(
                callback,
                deserializer,
            ),
            Event::Completed { callback, .. } => self.without_deserializer(callback),
        }
    }

    /// The reply producer that `event` takes out of the tables and calls.
    pub open spec fn fired_by(self, event: Event<P, D>) -> Option<P> {
        match event {
            Event::Finished { context } => self.replier(context),
            _ => None,
        }
    }

    /// The deserializer that `event` takes out of the tables.
    pub open spec fn released_by(self, event: Event<P, D>) -> Option<D> {
        match event {
            Event::Completed { callback, .. } => self.deserializer(callback),
            _ => None,
        }
    }

    /// Whether the handler of `event` asks the script-side registry to run a
    /// callback: a reply or a rejection does where it finds the deserializer
    /// of its call, a cleanup never does.
    pub open spec fn resumed_by(self, event: Event<P, D>) -> bool {
        match event {
            Event::Completed { callback, how } => !(how is Cleanup) && self.deserializer(
                callback,
            ).is_some(),
            _ => false,
        }
    }
}

} // verus!
