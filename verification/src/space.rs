//! How many bytes each stored value takes.  Every stored form has a fixed
//! size: integers at their width, a phase as one byte, an address as 32
//! bytes.

use crate::account::ProgramState;
use crate::price::TokenPrice;
use crate::schedule::IdoTimes;
use crate::state::StateMachineWrapper;
use vstd::prelude::*;

verus! {

/// A value with a stored form of fixed size.
pub trait Space {
    /// The size of the stored form in bytes.
    spec fn space_spec() -> nat;

    /// The size of the stored form in bytes.
    fn space() -> (n: usize)
        ensures
            n == Self::space_spec(),
    ;
}

impl Space for StateMachineWrapper {
    /// One discriminant byte; the markers take none.
    open spec fn space_spec() -> nat {
        1
    }

    fn space() -> (n: usize) {
        1
    }
}

impl Space for IdoTimes {
    /// Three 64-bit timestamps.
    open spec fn space_spec() -> nat {
        24
    }

    fn space() -> (n: usize) {
        24
    }
}

impl Space for TokenPrice {
    /// Two 64-bit numbers.
    open spec fn space_spec() -> nat {
        16
    }

    fn space() -> (n: usize) {
        16
    }
}

impl Space for ProgramState {
    /// The sum of the fields' sizes, in the order of the fields: 193 bytes.
    open spec fn space_spec() -> nat {
        32 + 8 + StateMachineWrapper::space_spec() + 8 + 32 + 32 + 32 + 8
            + TokenPrice::space_spec() + IdoTimes::space_spec()
    }

    fn space() -> (n: usize) {
        32 + 8 + StateMachineWrapper::space() + 8 + 32 + 32 + 32 + 8 + TokenPrice::space()
            + IdoTimes::space()
    }
}

} // verus!
