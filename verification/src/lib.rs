//! A Game Boy class emulator core: cartridge images, bank controllers,
//! the register file, the arithmetic unit, the instruction decoder and the
//! fetch-decode-execute engine, each with a machine-checked contract.

pub mod cartridge;
pub mod cpu;
pub mod emulation;
pub mod host;
pub mod io;
pub mod memory;
