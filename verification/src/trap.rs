//! The faults by which a host binding ends the guest's current call.

use vstd::prelude::*;

verus! {

/// Why a host binding refused its arguments.
#[derive(Debug, Copy, Clone, PartialEq, Eq, Structural)]
pub enum Trap {
    /// A range given by the guest does not lie inside its memory.
    OutOfBounds,
    /// A string given by the guest is not well-formed UTF-8.
    InvalidUtf8,
    /// The token names no attached process.
    InvalidHandle(u64),
    /// The tick rate is not a finite number above zero.
    InvalidTickRate,
    /// The game time is not a finite number of seconds that a span holds, or
    /// is negative.
    InvalidGameTime,
}

} // verus!
