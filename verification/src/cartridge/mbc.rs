//! Memory bank controllers: what sits between the address space and the
//! banks of a cartridge.

pub mod mbc3;

use vstd::prelude::*;
use crate::cartridge::banks::BankError;

verus! {

/// A controller as the bus sees it: bytes are read and written by address.
/// The view of a controller is all that it holds.
pub trait AddressMapper: View {
    /// Whether a read at `address` can be served.
    spec fn can_read(&self, address: u16) -> bool;

    /// Whether a write of `value` at `address` can be served.
    spec fn can_write(&self, address: u16, value: u8) -> bool;

    /// What a read at `address` yields from a controller that holds
    /// `state`.
    spec fn read_from(state: Self::V, address: u16) -> Result<u8, BankError>;

    /// What a write of `value` at `address` leaves of `state`.
    spec fn write_to(state: Self::V, address: u16, value: u8) -> Self::V;

    /// Reads the byte that `address` is mapped to.
    fn read(&self, address: u16) -> (out: Result<u8, BankError>)
        requires
            self.can_read(address),
        ensures
            out == Self::read_from(self@, address),
    ;

    /// Writes `value` to what `address` is mapped to.
    fn write(&mut self, address: u16, value: u8)
        requires
            old(self).can_write(address, value),
        ensures
            final(self)@ == Self::write_to(old(self)@, address, value),
    ;
}

} // verus!
