//! Identifiers handed out by the script-side registry.

use vstd::prelude::*;

verus! {

/// Identifies a call context: one execution of a public endpoint, from the
/// moment it is invoked until its reply has been produced.
#[derive(Copy, Clone, Debug, PartialEq, Eq, PartialOrd, Ord, Structural)]
pub struct CallContextId(pub i32);

/// Identifies the callback of one outgoing call, from the moment the call is
/// issued until its reply, rejection or cleanup has arrived.
#[derive(Copy, Clone, Debug, PartialEq, Eq, PartialOrd, Ord, Structural)]
pub struct CallbackId(pub i32);

} // verus!
