//! The time at which a response is made.

use std::time::UNIX_EPOCH;

use vstd::prelude::*;

verus! {

/// Why there is no timestamp.
#[derive(Clone, Copy, Debug, PartialEq, Eq, Structural)]
pub enum ClockError {
    /// The clock shows a time before the Unix epoch.
    BeforeEpoch,
}

impl ClockError {
    /// The words that describe the error.
    pub open spec fn message_spec(self) -> Seq<char> {
        "Time went backwards"@
    }

    /// The words that describe the error.
    pub fn message(&self) -> (message: String)
        ensures
            message@ == self.message_spec(),
    {
        "Time went backwards".to_owned()
    }
}

/// The timestamp of a reading of the clock, which is the time since the Unix
/// epoch in whole seconds and the nanoseconds beyond them.
pub open spec fn timestamp_spec(elapsed: Option<(u64, u32)>) -> Result<u64, ClockError> {
    match elapsed {
        Some((seconds, _)) => Ok(seconds),
        None => Err(ClockError::BeforeEpoch),
    }
}

/// Calls [`std::time::SystemTime::elapsed`] on the Unix epoch, and hands its
/// `Duration` over as whole seconds and the nanoseconds beyond them, or nothing
/// where the clock shows an earlier time than the epoch.
///
/// The time is the clock's. What the contract claims is that the nanoseconds
/// make up less than a second.
#[verifier::external_body]
fn elapsed_since_epoch() -> (elapsed: Option<(u64, u32)>)
    ensures
        elapsed matches Some((_, nanoseconds)) ==> nanoseconds < 1_000_000_000,
{
    match UNIX_EPOCH.elapsed() {
        Ok(duration) => Some((duration.as_secs(), duration.subsec_nanos())),
        Err(_) => None,
    }
}

/// The timestamp of a reading of the clock.
pub fn timestamp(elapsed: Option<(u64, u32)>) -> (result: Result<u64, ClockError>)
    ensures
        result == timestamp_spec(elapsed),
{
    match elapsed {
        Some((seconds, _)) => Ok(seconds),
        None => Err(ClockError::BeforeEpoch),
    }
}

/// The whole seconds since the Unix epoch, by the clock of the system. The
/// clock alone decides which.
pub fn current_timestamp() -> (result: Result<u64, ClockError>)
    ensures
        exists|elapsed: Option<(u64, u32)>| result == #[trigger] timestamp_spec(elapsed),
{
    timestamp(elapsed_since_epoch())
}

} // verus!
