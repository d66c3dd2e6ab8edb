//! Byte-wide operand access: reading from and writing to whatever an
//! operand of type `T` names, with the host at hand.

use vstd::prelude::*;
use crate::cpu::context::CpuContext;

verus! {

/// Something from which a byte named by a `T` can be read.
pub trait In8<T> {
    /// Reads the byte that `src` names.
    fn read<C: CpuContext>(&mut self, src: T, ctx: &mut C) -> u8;
}

/// Something to which a byte named by a `T` can be written.
pub trait Out8<T> {
    /// Whether `dst` names a byte that may be written.
    spec fn accepts(dst: T) -> bool;

    /// Writes `data` to the byte that `dst` names.
    fn write<C: CpuContext>(&mut self, dst: T, data: u8, ctx: &mut C)
        requires
            Self::accepts(dst),
    ;
}

} // verus!
