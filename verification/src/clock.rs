//! The wall clock that stamps the events.
use crate::error::Error;
use time::error::IndeterminateOffset;
use time::OffsetDateTime;
use vstd::prelude::*;

verus! {

/// `time::OffsetDateTime`, a date and time with its offset from UTC. The library
/// carries such a value into an event and never looks inside it.
#[verifier::external_type_specification]
#[verifier::external_body]
pub struct ExOffsetDateTime(time::OffsetDateTime);

/// `time::error::IndeterminateOffset`, the error of a clock that cannot tell the
/// offset of the system from UTC. It carries nothing.
#[verifier::external_type_specification]
#[verifier::external_body]
pub struct ExIndeterminateOffset(time::error::IndeterminateOffset);

/// `time::OffsetDateTime::now_local`: the current date and time in the offset of the
/// system, or the error that this offset could not be determined. Nothing is claimed
/// of what comes back: it is the clock's to say.
#[verifier::external_body]
fn now_local() -> (now: Result<OffsetDateTime, IndeterminateOffset>) {
    OffsetDateTime::now_local()
}

/// What a reading of the clock means to the monitoring loop: the time it gave, or a
/// timing fault.
pub fn timestamp_of(clock: Result<OffsetDateTime, IndeterminateOffset>) -> (r: Result<
    OffsetDateTime,
    Error,
>)
    ensures
        r == match clock {
            Ok(timestamp) => Ok::<OffsetDateTime, Error>(timestamp),
            Err(_) => Err(Error::TimingFault),
        },
{
    match clock {
        Ok(timestamp) => Ok(timestamp),
        Err(_) => Err(Error::TimingFault),
    }
}

/// Reads the clock. The only failure is a timing fault.
pub fn get_timestamp() -> (r: Result<OffsetDateTime, Error>)
    ensures
        r matches Err(e) ==> e == Error::TimingFault,
{
    timestamp_of(now_local())
}

} // verus!
