//! The events that the monitoring core hands to its sink.
use crate::device::Device;
use time::OffsetDateTime;
use vstd::prelude::*;

verus! {

/// What happened at a scale.
#[derive(Clone, Copy, Debug, PartialEq, Eq, Structural)]
pub enum Action {
    /// The first reading after the channel was opened or reopened.
    Starting,
    /// The settled weight went down.
    Served,
    /// The settled weight went up.
    Refilled,
    /// The channel failed and is not back yet.
    Offline,
    /// Periodic sign of life.
    Heartbeat,
}

impl Action {
    /// The name under which the action is logged.
    pub open spec fn name(self) -> Seq<char> {
        match self {
            Action::Starting => "Starting"@,
            Action::Served => "Served"@,
            Action::Refilled => "Refilled"@,
            Action::Offline => "Offline"@,
            Action::Heartbeat => "Heartbeat"@,
        }
    }

    pub fn to_string(&self) -> (s: String)
        ensures
            s@ == self.name(),
    {
        match self {
            Action::Starting => "Starting".to_owned(),
            Action::Served => "Served".to_owned(),
            Action::Refilled => "Refilled".to_owned(),
            Action::Offline => "Offline".to_owned(),
            Action::Heartbeat => "Heartbeat".to_owned(),
        }
    }
}

/// One logged event. `amount` is the signed change of the settled weight for a served
/// or refilled event, the reading for a starting event or a heartbeat, and zero for an
/// offline event, in thousandths of a weight unit.
#[derive(Debug, PartialEq)]
pub struct DataEntry {
    pub scale_action: Action,
    pub amount: i128,
    pub device: Device,
    pub timestamp: OffsetDateTime,
    pub location: String,
    pub ingredient: String,
}

impl DataEntry {
    pub fn new(
        scale_action: Action,
        amount: i128,
        device: Device,
        timestamp: OffsetDateTime,
        location: String,
        ingredient: String,
    ) -> (entry: DataEntry)
        ensures
            entry == (DataEntry { scale_action, amount, device, timestamp, location, ingredient }),
    {
        DataEntry { scale_action, amount, device, timestamp, location, ingredient }
    }
}

} // verus!
