//! The reasons for which an operation of the sale is refused.

use vstd::prelude::*;

verus! {

/// Why the creation of a sale, or a price computation, was refused.
#[derive(Copy, Clone, Debug, PartialEq, Eq, Structural)]
pub enum ErrorCode {
    /// The sale must start strictly after the current time.
    IdoFuture,
    /// The sale must last at least one default round length.
    IdoShort,
    /// The end of the sale precedes its start.
    SeqTimes,
    /// A product in a price computation does not fit in 64 bits.
    ArithmeticOverflow,
}

} // verus!
