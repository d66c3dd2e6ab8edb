//! Emulated time and the events a batch of it may raise.

use vstd::prelude::*;

verus! {

/// Events that a stretch of emulation may raise, each one bit of a mask.
#[derive(Clone, Copy, Debug, PartialEq, Eq, Structural)]
pub enum EmulationEvents {
    DEBUG,
    VSYNC,
    BOOTROMDISABLED,
}

impl EmulationEvents {
    /// The bit that stands for this event in a mask.
    pub open spec fn mask_spec(self) -> u8 {
        match self {
            EmulationEvents::DEBUG => 1,
            EmulationEvents::VSYNC => 2,
            EmulationEvents::BOOTROMDISABLED => 4,
        }
    }

    /// The bit that stands for this event in a mask.
    pub fn mask(self) -> (bit: u8)
        ensures
            bit == self.mask_spec(),
    {
        match self {
            EmulationEvents::DEBUG => 1,
            EmulationEvents::VSYNC => 2,
            EmulationEvents::BOOTROMDISABLED => 4,
        }
    }
}

/// A point in emulated time, counted in machine cycles.
#[derive(Clone, Copy, Debug, PartialEq, Eq, Structural)]
pub struct EmulationTime {
    pub machine_cycles: u64,
}

impl EmulationTime {
    /// The start of time.
    pub fn new() -> (time: Self)
        ensures
            time.machine_cycles == 0,
    {
        EmulationTime { machine_cycles: 0 }
    }
}

impl From<u64> for EmulationTime {
    fn from(machine_cycles: u64) -> (time: Self) {
        EmulationTime { machine_cycles }
    }
}

impl vstd::std_specs::convert::FromSpecImpl<u64> for EmulationTime {
    open spec fn obeys_from_spec() -> bool {
        true
    }

    open spec fn from_spec(machine_cycles: u64) -> Self {
        EmulationTime { machine_cycles }
    }
}

} // verus!
