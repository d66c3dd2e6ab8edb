//! What a host supplies to the processor, and what it is told in return.

use vstd::prelude::*;
use crate::emulation::EmulationEvents;

verus! {

/// The keys of the console's pad.
#[derive(Clone, Copy, Debug, PartialEq, Eq, Structural)]
pub enum Key {
    Up,
    Down,
    Left,
    Right,
    A,
    B,
    Start,
    Select,
}

/// Notifications that a host may ask for.
pub trait Callbacks {
    /// An opcode is about to run.
    fn debug_opcode(&mut self);

    /// The boot ROM has been switched off.
    fn bootrom_disabled(&mut self);

    /// A batch of events has fired.
    fn trigger_emulation_events(&mut self, event: &[EmulationEvents]);
}

/// Access to the host's callbacks, where it has any.
pub trait CoreContext {
    /// The callbacks of the host, where it has any.
    fn callbacks(&mut self) -> Option<&mut dyn Callbacks>;
}

} // verus!
