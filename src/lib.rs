// Checks that code of the normal phase never reaches into the restricted
// phase: neither takes the address of a restricted static nor calls a
// restricted function. The host resolves the program; the checks decide.
use vstd::prelude::*;

pub mod access;
pub mod call;
pub mod diagnostic;
pub mod hir;
pub mod laws;
pub mod phase;
pub mod region;
pub mod sample;

verus! {

} // verus!
