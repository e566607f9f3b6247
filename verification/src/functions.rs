//! The one-shot functions that an embedder hands to the engine.
//!
//! `C` is the script execution context, `V` the type of a script value and `E`
//! the embedder's error type. The engine never looks inside any of them.

use vstd::prelude::*;

verus! {

/// A function that returns the script arguments of a public endpoint. It
/// usually converts the endpoint's input from the wire format into script
/// values of the given context.
pub trait Arguments<C, V, E>: FnOnce(&C) -> Result<Vec<V>, E> {

}

/// A function that turns the result of an execution into the actual reply of
/// the endpoint.
pub trait Replier<C, V, E, R>: FnOnce(&C, Result<V, E>) -> R {

}

/// A function that deserializes the payload of the reply to an outgoing call
/// into a script value.
pub trait CallResultDeserializer<C, V, E>: FnOnce(&C, Vec<u8>) -> Result<V, E> {

}

impl<C, V, E, F: FnOnce(&C) -> Result<Vec<V>, E>> Arguments<C, V, E> for F {

}

impl<C, V, E, R, F: FnOnce(&C, Result<V, E>) -> R> Replier<C, V, E, R> for F {

}

impl<C, V, E, F: FnOnce(&C, Vec<u8>) -> Result<V, E>> CallResultDeserializer<C, V, E> for F {

}

} // verus!
