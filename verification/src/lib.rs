//! Correlation of endpoint invocations and outgoing calls for a single-threaded
//! script engine that lives behind an asynchronous, callback-driven call transport.
//!
//! The engine owns two tables: the reply producers of the call contexts that
//! are still open, and the result deserializers of the outgoing calls that are
//! still in flight. The functions of this crate decide what happens to those
//! tables, and which one-shot function runs, each time script code has run or
//! the transport has delivered a completion. Running script code and talking to
//! the transport is left to the embedder.

pub mod ids;
pub mod tables;
pub mod functions;
pub mod task;
pub mod driver;
pub mod message;
pub mod calls;
pub mod events;
pub mod laws;
