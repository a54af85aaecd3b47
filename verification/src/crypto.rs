//! The cryptography library that both the participant and the coordinator
//! initialise before any other work.

use vstd::prelude::*;

verus! {

/// `sodiumoxide::init` initialises libsodium. Whether it succeeds depends on
/// the machine, so nothing is promised of the result. It has no panic path;
/// libsodium itself aborts the process only on a machine that offers it no
/// source of randomness at all.
pub assume_specification[ sodiumoxide::init ]() -> Result<(), ()>;

} // verus!
