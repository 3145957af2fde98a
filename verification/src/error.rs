//! The faults that the monitoring core tells apart.
use vstd::prelude::*;

verus! {

#[derive(Debug, PartialEq, Eq)]
pub enum Error {
    /// The hardware channel failed to answer or answered with an error.
    /// A restart of the channel recovers from it.
    SensorFault,
    /// The event sink refused a batch.
    StorageFault,
    /// The configuration of a scale is missing or malformed.
    ConfigFault,
    /// No clock reading could be had.
    TimingFault,
    /// No scale could be started.
    Initialization,
    Other(String),
}

} // verus!
