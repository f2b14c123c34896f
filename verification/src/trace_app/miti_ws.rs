//! The record that the trace server sends to the trace front end.

use vstd::prelude::*;

verus! {

/// One trace record.
pub struct MitiTrace {
    pub direction: String,
    pub rate: u16,
    pub text: char,
    pub roaming: bool,
}

} // verus!
