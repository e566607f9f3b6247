//! The two correlation tables and the functions that fill and drain them.

use crate::ids::{CallContextId, CallbackId};
use std::collections::BTreeMap;
use vstd::prelude::*;

verus! {

/// The mathematical content of an [`Engine`]: which reply producer waits for
/// which call context, and which result deserializer for which callback.
pub ghost struct Tables<P, D> {
    pub repliers: Map<i32, P>,
    pub deserializers: Map<i32, D>,
}

impl<P, D> Tables<P, D> {
    /// No call context is open and no call is in flight.
    pub open spec fn empty() -> Self {
        Tables { repliers: Map::empty(), deserializers: Map::empty() }
    }

    /// The reply producer that waits for `id`, if there is one.
    pub open spec fn replier(self, id: CallContextId) -> Option<P> {
        if self.repliers.contains_key(id.0) {
            Some(self.repliers[id.0])
        } else {
            None
        }
    }

    /// The result deserializer that waits for `id`, if there is one.
    pub open spec fn deserializer(self, id: CallbackId) -> Option<D> {
        if self.deserializers.contains_key(id.0) {
            Some(self.deserializers[id.0])
        } else {
            None
        }
    }

    /// The tables once `replier` waits for `id`; a producer that waited for
    /// `id` before is replaced.
    pub open spec fn with_replier(self, id: CallContextId, replier: P) -> Self {
        Tables { repliers: self.repliers.insert(id.0, replier), deserializers: self.deserializers }
    }

    /// The tables once nothing waits for the call context `id`.
    pub open spec fn without_replier(self, id: CallContextId) -> Self {
        Tables { repliers: self.repliers.remove(id.0), deserializers: self.deserializers }
    }

    /// The tables once `deserializer` waits for `id`; a deserializer that
    /// waited for `id` before is replaced.
    pub open spec fn with_deserializer(self, id: CallbackId, deserializer: D) -> Self {
        Tables {
            repliers: self.repliers,
            deserializers: self.deserializers.insert(id.0, deserializer),
        }
    }

    /// The tables once nothing waits for the callback `id`.
    pub open spec fn without_deserializer(self, id: CallbackId) -> Self {
        Tables { repliers: self.repliers, deserializers: self.deserializers.remove(id.0) }
    }
}

/// The correlation engine's state. `P` is the type of the reply producers and
/// `D` the type of the result deserializers; the engine is their only owner
/// between the moment they are stored and the moment they are taken out.
pub struct Engine<P, D> {
    repliers: BTreeMap<i32, P>,
    deserializers: BTreeMap<i32, D>,
}

impl<P, D> View for Engine<P, D> {
    type V = Tables<P, D>;

    closed spec fn view(&self) -> Tables<P, D> {
        Tables { repliers: self.repliers@, deserializers: self.deserializers@ }
    }
}

impl<P, D> Engine<P, D> {
    /// An engine with no open call context and no call in flight.
    pub fn new() -> (engine: Self)
        ensures
            engine@ == Tables::<P, D>::empty(),
    {
        Engine { repliers: BTreeMap::new(), deserializers: BTreeMap::new() }
    }
}

/// Stores the reply producer of the call context `id`.
pub fn put_replier<P, D>(engine: &mut Engine<P, D>, id: CallContextId, replier: P)
    ensures
        final(engine)@ == old(engine)@.with_replier(id, replier),
{
    engine.repliers.insert(id.0, replier);
}

/// Takes the reply producer of the call context `id` out of the engine.
pub fn get_replier<P, D>(engine: &mut Engine<P, D>, id: CallContextId) -> (found: Option<P>)
    ensures
        found == old(engine)@.replier(id),
        final(engine)@ == old(engine)@.without_replier(id),
{
    engine.repliers.remove(&id.0)
}

/// Stores the result deserializer of the callback `id`.
pub fn put_deserializer<P, D>(engine: &mut Engine<P, D>, id: CallbackId, deserializer: D)
    ensures
        final(engine)@ == old(engine)@.with_deserializer(id, deserializer),
{
    engine.deserializers.insert(id.0, deserializer);
}

/// Takes the result deserializer of the callback `id` out of the engine.
pub fn get_deserializer<P, D>(engine: &mut Engine<P, D>, id: CallbackId) -> (found: Option<D>)
    ensures
        found == old(engine)@.deserializer(id),
        final(engine)@ == old(engine)@.without_deserializer(id),
{
    engine.deserializers.remove(&id.0)
}

} // verus!
