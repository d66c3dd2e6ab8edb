//! Cartridges: the header of an image, its banks, and the controller that
//! maps them into the address space.

pub mod banks;
pub mod header;
pub mod laws;
pub mod mbc;

use vstd::prelude::*;
use crate::cartridge::header::{image_fault, CartridgeError, CartridgeHeader};
use crate::cartridge::mbc::mbc3::{type_has_ram, MBC3};

verus! {

/// A cartridge: the header of its image, and the controller in front of
/// its banks.
#[derive(Debug)]
pub struct Cartridge {
    pub header: CartridgeHeader,
    pub mbc: MBC3,
}

/// Whether a cartridge type belongs to the one family of controllers that
/// is there. Cartridges of other types get the same controller.
pub open spec fn type_supported(cartridge_type: u8) -> bool {
    0x0F <= cartridge_type <= 0x13
}

/// Whether a controller can be made for an image: where the image is sound
/// and its cartridge type has RAM, the RAM size byte names a size.
pub open spec fn controller_fits(data: Seq<u8>) -> bool {
    image_fault(data).is_none() && type_has_ram(data[0x147]) ==> data[0x149] <= 5
}

impl Cartridge {
    /// Whether a cartridge type belongs to the family of controllers that
    /// is there.
    pub fn supports(cartridge_type: u8) -> (supported: bool)
        ensures
            supported == type_supported(cartridge_type),
    {
        0x0F <= cartridge_type && cartridge_type <= 0x13
    }

    /// Whether a controller can be made for an image, as the caller can
    /// test it.
    pub fn fits(data: &[u8]) -> (fits: bool)
        ensures
            fits == controller_fits(data@),
    {
        match CartridgeHeader::check(data) {
            None => {
                match data[0x147] {
                    0x10 | 0x12 | 0x13 => data[0x149] <= 5,
                    _ => true,
                }
            },
            Some(_) => true,
        }
    }

    /// The cartridge that an image holds, where the image is sound.
    /// Whatever its type, it gets the one controller that is there.
    pub fn new(data: &[u8]) -> (out: Result<Self, CartridgeError>)
        requires
            controller_fits(data@),
        ensures
            image_fault(data@) matches Some(fault) ==> out matches Err(e) && e == fault,
            image_fault(data@).is_none() ==> out.is_ok() && out.unwrap().header.describes(data@)
                && out.unwrap().mbc@ == MBC3::initial(out.unwrap().header, data@)
                && out.unwrap().mbc.wf(),
    {
        let header = match CartridgeHeader::new(data) {
            Ok(header) => header,
            Err(fault) => {
                return Err(fault);
            },
        };
        let mbc = MBC3::new(&header, data);
        Ok(Cartridge { header, mbc })
    }
}

/// Loads the cartridge that an image holds.
pub fn load_cartridge(data: &[u8]) -> (out: Result<Cartridge, CartridgeError>)
    requires
        controller_fits(data@),
    ensures
        image_fault(data@) matches Some(fault) ==> out matches Err(e) && e == fault,
        image_fault(data@).is_none() ==> out.is_ok() && out.unwrap().header.describes(data@)
            && out.unwrap().mbc@ == MBC3::initial(out.unwrap().header, data@)
            && out.unwrap().mbc.wf(),
{
    Cartridge::new(data)
}

} // verus!
