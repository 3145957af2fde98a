//! Identity of a physical scale.
use vstd::prelude::*;

verus! {

/// Hardware generation of a scale.
#[derive(Clone, Copy, Debug, PartialEq, Eq, Structural)]
pub enum Model {
    LibraV0,
}

/// The pair of model and serial number by which logged events are joined.
#[derive(Clone, Copy, Debug, PartialEq, Eq, Structural)]
pub struct Device {
    pub model: Model,
    pub number: u64,
}

impl Device {
    pub fn new(model: Model, number: u64) -> (device: Device)
        ensures
            device.model == model,
            device.number == number,
    {
        Device { model, number }
    }
}

} // verus!
