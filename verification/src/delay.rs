//! The iteration count of the fallback busy-wait delay.
//!
//! Where the system-provided cycle delay cannot be linked, a local spin loop
//! stands in: each of its turns costs about four core cycles, so a delay of
//! roughly `n` cycles spins `n / 4 + 1` turns. The spinning itself is the
//! caller's, outside this layer; the count is computed here.
use vstd::prelude::*;

verus! {

/// How many turns the fallback delay loop spins to busy-wait roughly `n`
/// core cycles: `n / 4 + 1`, never zero, so even a zero-cycle request still
/// settles for one turn.
pub fn delay_spin_count(n: u32) -> (turns: u32)
    ensures
        turns == n / 4 + 1,
        turns >= 1,
{
    n / 4 + 1
}

} // verus!
