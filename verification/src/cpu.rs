//! The processor: registers, arithmetic, decoding and execution.

pub mod access;
pub mod alu;
pub mod context;
pub mod engine;
pub mod execute;
pub mod flags;
pub mod instruction;
pub mod laws;
pub mod ops;
pub mod registers;

use vstd::prelude::*;
use crate::cpu::alu::ALU;
use crate::cpu::registers::Registers;

verus! {

/// What the processor is doing between steps.
#[derive(Clone, Copy, Debug, PartialEq, Eq, Structural)]
pub enum Mode {
    Halted,
    Running,
    InterruptDispatch,
}

/// Why a step came to a stop that the machine cannot go on from.
#[derive(Clone, Copy, Debug, PartialEq, Eq, Structural)]
pub enum Fault {
    /// The byte fetched at `address` is none of the defined opcodes.
    UndefinedOpcode { opcode: u8, address: u16 },
    /// A STOP instruction ran.
    Stop,
    /// An interrupt is to be dispatched, which this processor cannot do.
    InterruptDispatch,
}

/// The processor's own state. Memory and time belong to the host.
#[derive(Clone, Copy, Debug, PartialEq, Eq, Structural)]
pub struct CPU {
    pub ime: bool,
    pub alu: ALU,
    pub registers: Registers,
    pub mode: Mode,
}

impl CPU {
    /// A processor whose registers are valid.
    pub open spec fn wf(self) -> bool {
        self.registers.wf()
    }

    /// The processor after reset: running, interrupts off.
    pub open spec fn initial() -> CPU {
        CPU { ime: false, alu: ALU {  }, registers: Registers::initial(), mode: Mode::Running }
    }

    /// The processor with other registers.
    pub open spec fn with_registers(self, registers: Registers) -> CPU {
        CPU { registers, ..self }
    }

    pub fn new() -> (cpu: Self)
        ensures
            cpu == CPU::initial(),
            cpu.wf(),
    {
        CPU { ime: false, alu: ALU {  }, registers: Registers::new(), mode: Mode::Running }
    }
}

} // verus!
