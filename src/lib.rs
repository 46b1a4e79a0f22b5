//! Single-instance launcher for a server that owns a privileged native
//! runtime: it probes the server's local socket, removes a stale socket
//! file, binds, initialises the runtime, serves until a stop is signalled and
//! destroys the runtime. The decisions are made here, one event at a time;
//! the process around them performs the actions.

use vstd::prelude::*;

pub mod address;
pub mod coordinator;
pub mod lifecycle;
pub mod probe;
pub mod run;
pub mod runtime;

verus! {

} // verus!
