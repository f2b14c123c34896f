//! The logic of the trace front ends: the records exchanged with the trace
//! server, what the windows show of them, and the menu that adds and removes
//! pannels. Drawing, the web socket and the JSON encoding stand outside.

use vstd::prelude::*;

pub mod example_app;
pub mod socket_event;
pub mod text;
pub mod trace_app;

verus! {

} // verus!
