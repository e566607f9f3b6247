//! What holds of the engine over any sequence of the events that reach it, in
//! whatever order they come.

use crate::events::{Completion, Event};
use crate::ids::{CallContextId, CallbackId};
use crate::tables::Tables;
use vstd::prelude::*;

verus! {

impl<P, D> Tables<P, D> {
    /// The tables after all of `events`, first to last.
    pub open spec fn after_all(self, events: Seq<Event<P, D>>) -> Self
        decreases events.len(),
    {
        if events.len() == 0 {
            self
        } else {
            self.after(events[0]).after_all(events.drop_first())
        }
    }

    /// How many of `events` take a reply producer of `context` out of the
    /// tables.
    pub open spec fn times_fired(self, context: CallContextId, events: Seq<Event<P, D>>) -> nat
        decreases events.len(),
    {
        if events.len() == 0 {
            0
        } else {
            let now: nat = if events[0].finishes(context) && self.fired_by(events[0]).is_some() {
                1
            } else {
                0
            };
            now + self.after(events[0]).times_fired(context, events.drop_first())
        }
    }

    /// How many of `events` take a deserializer of `callback` out of the
    /// tables.
    pub open spec fn times_released(self, callback: CallbackId, events: Seq<Event<P, D>>) -> nat
        decreases events.len(),
    {
        if events.len() == 0 {
            0
        } else {
            let now: nat = if events[0].completes(callback) && self.released_by(
                events[0],
            ).is_some() {
                1
            } else {
                0
            };
            now + self.after(events[0]).times_released(callback, events.drop_first())
        }
    }

    /// How many of `events` are completions of `callback` that resume script
    /// code.
    pub open spec fn times_resumed(self, callback: CallbackId, events: Seq<Event<P, D>>) -> nat
        decreases events.len(),
    {
        if events.len() == 0 {
            0
        } else {
            let now: nat = if events[0].completes(callback) && self.resumed_by(events[0]) {
                1
            } else {
                0
            };
            now + self.after(events[0]).times_resumed(callback, events.drop_first())
        }
    }
}

/// No event of `events` stores a reply producer for `context`.
pub open spec fn never_suspends<P, D>(events: Seq<Event<P, D>>, context: CallContextId) -> bool {
    forall|i: int| 0 <= i < events.len() ==> !(#[trigger] events[i]).suspends(context)
}

/// No event of `events` asks for the reply producer of `context`.
pub open spec fn never_finishes<P, D>(events: Seq<Event<P, D>>, context: CallContextId) -> bool {
    forall|i: int| 0 <= i < events.len() ==> !(#[trigger] events[i]).finishes(context)
}

/// No event of `events` stores a deserializer for `callback`.
pub open spec fn never_issues<P, D>(events: Seq<Event<P, D>>, callback: CallbackId) -> bool {
    forall|i: int| 0 <= i < events.len() ==> !(#[trigger] events[i]).issues(callback)
}

/// No event of `events` asks for the deserializer of `callback`.
pub open spec fn never_completes<P, D>(events: Seq<Event<P, D>>, callback: CallbackId) -> bool {
    forall|i: int| 0 <= i < events.len() ==> !(#[trigger] events[i]).completes(callback)
}

proof fn lemma_tail<P, D>(events: Seq<Event<P, D>>)
    requires
        events.len() > 0,
    ensures
        forall|i: int|
            0 <= i < events.drop_first().len() ==> #[trigger] events.drop_first()[i] == events[i
                + 1],
        events.drop_first().len() == events.len() - 1,
{
}

/// A reply producer stays where it is until its call context is finished:
/// whatever else happens meanwhile, to other call contexts and to outgoing
/// calls, the producer of `context` is neither called nor replaced.
pub proof fn replier_waits_until_finished<P, D>(
    tables: Tables<P, D>,
    context: CallContextId,
    events: Seq<Event<P, D>>,
)
    requires
        never_suspends(events, context),
        never_finishes(events, context),
    ensures
        tables.after_all(events).replier(context) == tables.replier(context),
        tables.times_fired(context, events) == 0,
    decreases events.len(),
{
    if events.len() > 0 {
        lemma_tail(events);
        let first = events[0];
        replier_waits_until_finished(tables.after(first), context, events.drop_first());
    }
}

/// A call context for which no reply producer waits gets none called, as long
/// as none is stored for it.
pub proof fn absent_replier_never_fires<P, D>(
    tables: Tables<P, D>,
    context: CallContextId,
    events: Seq<Event<P, D>>,
)
    requires
        tables.replier(context).is_none(),
        never_suspends(events, context),
    ensures
        tables.times_fired(context, events) == 0,
        tables.after_all(events).replier(context).is_none(),
    decreases events.len(),
{
    if events.len() > 0 {
        lemma_tail(events);
        let first = events[0];
        absent_replier_never_fires(tables.after(first), context, events.drop_first());
    }
}

/// The reply producer of a call context is called at most once: of all the
/// events that follow its storing, in whatever order they come, at most one
/// takes it out of the engine. It is the first that finishes the context, and
/// if there is such an event the producer is called exactly once.
pub proof fn replier_fires_once<P, D>(
    tables: Tables<P, D>,
    context: CallContextId,
    events: Seq<Event<P, D>>,
)
    requires
        never_suspends(events, context),
    ensures
        tables.times_fired(context, events) <= 1,
        tables.times_fired(context, events) == 1 <==> tables.replier(context).is_some()
            && !never_finishes(events, context),
    decreases events.len(),
{
    if events.len() > 0 {
        lemma_tail(events);
        let first = events[0];
        let rest = events.drop_first();
        if first.finishes(context) {
            absent_replier_never_fires(tables.after(first), context, rest);
        } else {
            replier_fires_once(tables.after(first), context, rest);
            if !never_finishes(rest, context) {
                let i = choose|i: int| 0 <= i < rest.len() && (#[trigger] rest[i]).finishes(context);
                assert(events[i + 1].finishes(context));
            }
            if !never_finishes(events, context) {
                let i = choose|i: int|
                    0 <= i < events.len() && (#[trigger] events[i]).finishes(context);
                assert(rest[i - 1].finishes(context));
            }
        }
    }
}

/// A callback for which no deserializer waits gets none taken out, as long as
/// no call is issued under it.
pub proof fn absent_deserializer_never_released<P, D>(
    tables: Tables<P, D>,
    callback: CallbackId,
    events: Seq<Event<P, D>>,
)
    requires
        tables.deserializer(callback).is_none(),
        never_issues(events, callback),
    ensures
        tables.times_released(callback, events) == 0,
        tables.after_all(events).deserializer(callback).is_none(),
    decreases events.len(),
{
    if events.len() > 0 {
        lemma_tail(events);
        let first = events[0];
        absent_deserializer_never_released(tables.after(first), callback, events.drop_first());
    }
}

/// The deserializer of an outgoing call is looked up and removed at most
/// once: whichever of reply, reject and cleanup arrives first takes it out of
/// the engine, and none that arrives later finds it, in whatever order and
/// however often they come.
pub proof fn deserializer_released_once<P, D>(
    tables: Tables<P, D>,
    callback: CallbackId,
    events: Seq<Event<P, D>>,
)
    requires
        never_issues(events, callback),
    ensures
        tables.times_released(callback, events) <= 1,
        tables.times_released(callback, events) == 1 <==> tables.deserializer(callback).is_some()
            && !never_completes(events, callback),
    decreases events.len(),
{
    if events.len() > 0 {
        lemma_tail(events);
        let first = events[0];
        let rest = events.drop_first();
        if first.completes(callback) {
            absent_deserializer_never_released(tables.after(first), callback, rest);
        } else {
            deserializer_released_once(tables.after(first), callback, rest);
            if !never_completes(rest, callback) {
                let i = choose|i: int|
                    0 <= i < rest.len() && (#[trigger] rest[i]).completes(callback);
                assert(events[i + 1].completes(callback));
            }
            if !never_completes(events, callback) {
                let i = choose|i: int|
                    0 <= i < events.len() && (#[trigger] events[i]).completes(callback);
                assert(rest[i - 1].completes(callback));
            }
        }
    }
}

/// Of the completions that the transport delivers for one outgoing call, at
/// most one resumes script code: the one that takes the deserializer out, and
/// only if it is a reply or a rejection.
pub proof fn call_resumes_script_once<P, D>(
    tables: Tables<P, D>,
    callback: CallbackId,
    events: Seq<Event<P, D>>,
)
    requires
        never_issues(events, callback),
    ensures
        tables.times_resumed(callback, events) <= tables.times_released(callback, events) <= 1,
    decreases events.len(),
{
    deserializer_released_once(tables, callback, events);
    if events.len() > 0 {
        lemma_tail(events);
        call_resumes_script_once(tables.after(events[0]), callback, events.drop_first());
    }
}

/// Once a call has been completed in any of the three ways, a cleanup of the
/// same call finds no deserializer, leaves the engine as it is and resumes no
/// script code.
pub proof fn cleanup_after_completion_is_idle<P, D>(
    tables: Tables<P, D>,
    callback: CallbackId,
    first: Completion,
)
    ensures
        ({
            let completed = tables.after(Event::Completed { callback, how: first });
            let cleanup = Event::<P, D>::Completed { callback, how: Completion::Cleanup };
            &&& completed.released_by(cleanup).is_none()
            &&& completed.after(cleanup) == completed
            &&& !completed.resumed_by(cleanup)
        }),
{
    let completed = tables.after(Event::Completed { callback, how: first });
    let cleanup = Event::<P, D>::Completed { callback, how: Completion::Cleanup };
    assert(completed.after(cleanup).deserializers =~= completed.deserializers);
}

} // verus!
