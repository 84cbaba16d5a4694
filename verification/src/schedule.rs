//! The schedule of a sale and the check it must pass before the sale is
//! created.

use crate::error::ErrorCode;
use vstd::prelude::*;

verus! {

/// When a sale runs, in seconds since the epoch, and how long one round
/// lasts by default, in seconds.
#[derive(Copy, Clone, Debug, PartialEq, Eq, Structural)]
pub struct IdoTimes {
    pub start_at: i64,
    pub end_at: i64,
    pub default_round_length: i64,
}

impl IdoTimes {
    /// The length of the sale in seconds; negative where it ends before it
    /// starts.
    pub open spec fn length(self) -> int {
        self.end_at - self.start_at
    }

    /// The sale lasts at least one round and does not end before it starts.
    pub open spec fn lasts_a_round(self) -> bool {
        &&& self.length() >= self.default_round_length
        &&& self.length() >= 0
    }

    /// The schedule may be used for a sale created at `current_time`: it
    /// starts later than that, lasts at least one round, and does not end
    /// before it starts.
    pub open spec fn is_acceptable_at(self, current_time: i64) -> bool {
        &&& current_time < self.start_at
        &&& self.lasts_a_round()
    }
}

/// What `validate_ido_times` answers.  The three checks are made in this
/// order and the first that fails decides the error.  So a schedule that
/// ends before it starts is reported as too short wherever its round length
/// is zero or more; it is reported as non-sequential only where the round
/// length is negative and no greater than the negative length.
pub open spec fn validate_ido_times_spec(ido_times: IdoTimes, current_time: i64) -> Result<
    (),
    ErrorCode,
> {
    if ido_times.start_at <= current_time {
        Err(ErrorCode::IdoFuture)
    } else if ido_times.length() < ido_times.default_round_length {
        Err(ErrorCode::IdoShort)
    } else if ido_times.length() < 0 {
        Err(ErrorCode::SeqTimes)
    } else {
        Ok(())
    }
}

/// Checks a schedule against the current time.  The differences are taken
/// exactly: no pair of timestamps overflows.
pub fn validate_ido_times(ido_times: IdoTimes, current_time: i64) -> (r: Result<(), ErrorCode>)
    ensures
        r == validate_ido_times_spec(ido_times, current_time),
        r is Ok <==> ido_times.is_acceptable_at(current_time),
        ido_times.start_at <= current_time ==> r == Err::<(), ErrorCode>(ErrorCode::IdoFuture),
        ido_times.default_round_length >= 0 ==> r != Err::<(), ErrorCode>(ErrorCode::SeqTimes),
        r matches Err(e) ==> e != ErrorCode::ArithmeticOverflow,
{
    let length: i128 = ido_times.end_at as i128 - ido_times.start_at as i128;
    if ido_times.start_at <= current_time {
        Err(ErrorCode::IdoFuture)
    } else if length < ido_times.default_round_length as i128 {
        Err(ErrorCode::IdoShort)
    } else if length < 0 {
        Err(ErrorCode::SeqTimes)
    } else {
        Ok(())
    }
}

} // verus!
