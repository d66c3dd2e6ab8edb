//! The header of a cartridge image: its fields, and the two checksums that
//! guard them.

use vstd::prelude::*;
use crate::cpu::alu::{low16, low8};
use vstd::slice::slice_to_vec;
use crate::memory::{join_word, word_of};

verus! {

/// The logo that every image carries at `0x0104`.
pub const NINTENDO_LOGO: [u8; 48] = [
    0xCE, 0xED, 0x66, 0x66, 0xCC, 0x0D, 0x00, 0x0B, 0x03, 0x73, 0x00, 0x83, 0x00, 0x0C, 0x00, 0x0D,
    0x00, 0x08, 0x11, 0x1F, 0x88, 0x89, 0x00, 0x0E, 0xDC, 0xCC, 0x6E, 0xE6, 0xDD, 0xDD, 0xD9, 0x99,
    0xBB, 0xBB, 0x67, 0x63, 0x6E, 0x0E, 0xEC, 0xCC, 0xDD, 0xDC, 0x99, 0x9F, 0xBB, 0xB9, 0x33, 0x3E,
];

/// The two checksums of an image.
#[derive(Clone, Copy, Debug, PartialEq, Eq, Structural)]
pub enum ChecksumType {
    Global,
    Header,
}

/// Why an image is no cartridge.
#[derive(Clone, Copy, Debug, PartialEq, Eq, Structural)]
#[allow(inconsistent_fields)]
pub enum CartridgeError {
    /// The image in memory has a length that no cartridge has.
    InvalidSize(usize),
    /// The header checksum of the image in memory is not the one it names.
    InvalidHeaderChecksum { expected: u8, actual: u8 },
    /// The global checksum of the image in memory is not the one it names.
    InvalidGlobalChecksum { expected: u16, actual: u16 },
    /// The file has a length that no cartridge has.
    InvalidLength,
    /// The file could not be opened or read.
    InvalidFile,
    /// The file does not carry the logo.
    InvalidNintendoLogo,
    /// A checksum of the file is not the one it names.
    BadChecksum(ChecksumType),
}

/// The fields of the header, as the image gives them, and the image that
/// they were cut out of.
#[derive(Clone, Debug, PartialEq, Eq)]
pub struct CartridgeHeader {
    pub entry: [u8; 4],
    pub title: [u8; 16],
    pub manufacturer_code: [u8; 4],
    pub cgb_flag: Option<u8>,
    pub new_licensee_code: [u8; 2],
    pub sgb_flag: u8,
    pub cartridge_type: u8,
    pub rom_size: u8,
    pub ram_size: u8,
    pub destination_code: u8,
    pub old_licensee_code: u8,
    pub mask_rom_version_number: u8,
    pub header_checksum: u8,
    pub global_checksum: u16,
    /// Every byte of the image, in order.
    pub data: Vec<u8>,
}

/// The sum of the bytes of `data` from `from` up to, not including, `to`.
pub open spec fn byte_sum(data: Seq<u8>, from: int, to: int) -> int
    decreases to - from,
{
    if to <= from {
        0
    } else {
        byte_sum(data, from, to - 1) + data[to - 1]
    }
}

/// A length that an image can have: at least 32,768 bytes, and whole banks.
pub open spec fn valid_length(len: nat) -> bool {
    len >= 0x8000 && len % 0x4000 == 0
}

/// The header checksum that the bytes of an image give: zero less each of
/// the 25 bytes from `0x0134` to `0x014C` and less one for each, taken as a
/// byte.
pub open spec fn header_checksum_of(data: Seq<u8>) -> u8 {
    low8(-(byte_sum(data, 0x134, 0x14D) + 25))
}

/// The header checksum that an image names, at `0x014D`.
pub open spec fn stored_header_checksum(data: Seq<u8>) -> u8 {
    data[0x14D]
}

/// The global checksum that the bytes of an image give: the sum of all of
/// them but the two at `0x014E` and `0x014F`, taken as a word.
pub open spec fn global_checksum_of(data: Seq<u8>) -> u16 {
    low16(byte_sum(data, 0, data.len() as int) - data[0x14E] - data[0x14F])
}

/// The global checksum that an image names, high byte first at `0x014E`.
pub open spec fn stored_global_checksum(data: Seq<u8>) -> u16 {
    word_of(data[0x14F], data[0x14E])
}

/// Whether an image carries the logo at `0x0104`.
pub open spec fn has_logo(data: Seq<u8>) -> bool {
    forall|i: int| 0 <= i < 48 ==> data[0x104 + i] == #[trigger] NINTENDO_LOGO@[i]
}

/// The colour flag that the byte at `0x0143` stands for: the byte itself
/// where it is `0x80` or `0xC0`, else none.
pub open spec fn cgb_flag_of(byte: u8) -> Option<u8> {
    if byte == 0x80 || byte == 0xC0 {
        Some(byte)
    } else {
        None
    }
}

/// What is wrong with an image held in memory, if anything: first its
/// length, then its header checksum, then its global checksum.
pub open spec fn image_fault(data: Seq<u8>) -> Option<CartridgeError> {
    if !valid_length(data.len()) {
        Some(CartridgeError::InvalidSize(data.len() as usize))
    } else if header_checksum_of(data) != stored_header_checksum(data) {
        Some(
            CartridgeError::InvalidHeaderChecksum {
                expected: stored_header_checksum(data),
                actual: header_checksum_of(data),
            },
        )
    } else if global_checksum_of(data) != stored_global_checksum(data) {
        Some(
            CartridgeError::InvalidGlobalChecksum {
                expected: stored_global_checksum(data),
                actual: global_checksum_of(data),
            },
        )
    } else {
        None
    }
}

/// What is wrong with the bytes of a file, if anything: first its length,
/// then the logo, then its header checksum, then its global checksum.
pub open spec fn file_fault(data: Seq<u8>) -> Option<CartridgeError> {
    if !valid_length(data.len()) {
        Some(CartridgeError::InvalidLength)
    } else if !has_logo(data) {
        Some(CartridgeError::InvalidNintendoLogo)
    } else if header_checksum_of(data) != stored_header_checksum(data) {
        Some(CartridgeError::BadChecksum(ChecksumType::Header))
    } else if global_checksum_of(data) != stored_global_checksum(data) {
        Some(CartridgeError::BadChecksum(ChecksumType::Global))
    } else {
        None
    }
}

impl CartridgeHeader {
    /// Every field holds what the image has at the field's place, and the
    /// header holds the whole image.
    pub open spec fn describes(self, data: Seq<u8>) -> bool {
        &&& self.entry@ == data.subrange(0x100, 0x104)
        &&& self.title@ == data.subrange(0x134, 0x144)
        &&& self.manufacturer_code@ == data.subrange(0x13F, 0x143)
        &&& self.cgb_flag == cgb_flag_of(data[0x143])
        &&& self.new_licensee_code@ == data.subrange(0x144, 0x146)
        &&& self.sgb_flag == data[0x146]
        &&& self.cartridge_type == data[0x147]
        &&& self.rom_size == data[0x148]
        &&& self.ram_size == data[0x149]
        &&& self.destination_code == data[0x14A]
        &&& self.old_licensee_code == data[0x14B]
        &&& self.mask_rom_version_number == data[0x14C]
        &&& self.header_checksum == stored_header_checksum(data)
        &&& self.global_checksum == stored_global_checksum(data)
        &&& self.data@ == data
    }

    /// What is wrong with an image held in memory, if anything.
    pub fn check(data: &[u8]) -> (out: Option<CartridgeError>)
        ensures
            out == image_fault(data@),
    {
        let size = data.len();
        if size < 0x8000 || size % 0x4000 != 0 {
            return Some(CartridgeError::InvalidSize(size));
        }
        let header_checksum = data[0x014D];
        let global_checksum = join_word(data[0x014F], data[0x014E]);
        match Self::header_checksum(data, header_checksum) {
            Err(fault) => {
                return Some(fault);
            },
            Ok(_) => {},
        }
        match Self::global_checksum(data, global_checksum) {
            Err(fault) => {
                return Some(fault);
            },
            Ok(_) => {},
        }
        None
    }

    /// The header of an image held in memory, where the image is sound. The
    /// header keeps a copy of the image.
    pub fn new(data: &[u8]) -> (out: Result<CartridgeHeader, CartridgeError>)
        ensures
            image_fault(data@) matches Some(fault) ==> out == Err::<
                CartridgeHeader,
                CartridgeError,
            >(fault),
            image_fault(data@).is_none() ==> out.is_ok() && out.unwrap().describes(data@)
                && out.unwrap().data@ == data@,
    {
        match Self::check(data) {
            Some(fault) => Err(fault),
            None => Ok(Self::extract(data)),
        }
    }

    /// The header of the bytes of a file, where they are a sound image. The
    /// header keeps the bytes that it was loaded from.
    pub fn load(data: &[u8]) -> (out: Result<CartridgeHeader, CartridgeError>)
        ensures
            file_fault(data@) matches Some(fault) ==> out == Err::<
                CartridgeHeader,
                CartridgeError,
            >(fault),
            file_fault(data@).is_none() ==> out.is_ok() && out.unwrap().describes(data@)
                && out.unwrap().data@ == data@,
    {
        let size = data.len();
        if size < 0x8000 || size % 0x4000 != 0 {
            return Err(CartridgeError::InvalidLength);
        }
        if !Self::logo_present(data) {
            return Err(CartridgeError::InvalidNintendoLogo);
        }
        if Self::computed_header_checksum(data) != data[0x14D] {
            return Err(CartridgeError::BadChecksum(ChecksumType::Header));
        }
        if Self::computed_global_checksum(data) != join_word(data[0x014F], data[0x014E]) {
            return Err(CartridgeError::BadChecksum(ChecksumType::Global));
        }
        Ok(Self::extract(data))
    }

    /// Whether the bytes carry the logo.
    pub fn logo_present(data: &[u8]) -> (present: bool)
        requires
            data@.len() >= 0x134,
        ensures
            present == has_logo(data@),
    {
        let mut i: usize = 0;
        while i < 48
            invariant
                i <= 48,
                data@.len() >= 0x134,
                forall|k: int| 0 <= k < i ==> data@[0x104 + k] == #[trigger] NINTENDO_LOGO@[k],
            decreases 48 - i,
        {
            if data[0x104 + i] != NINTENDO_LOGO[i] {
                return false;
            }
            i = i + 1;
        }
        true
    }

    /// Cuts the fields out of an image, and keeps a copy of the image with
    /// them.
    pub fn extract(data: &[u8]) -> (header: CartridgeHeader)
        requires
            data@.len() >= 0x150,
        ensures
            header.describes(data@),
            header.data@ == data@,
    {
        let entry = [data[0x0100], data[0x0101], data[0x0102], data[0x0103]];
        let title = [
            data[0x0134],
            data[0x0135],
            data[0x0136],
            data[0x0137],
            data[0x0138],
            data[0x0139],
            data[0x013A],
            data[0x013B],
            data[0x013C],
            data[0x013D],
            data[0x013E],
            data[0x013F],
            data[0x0140],
            data[0x0141],
            data[0x0142],
            data[0x0143],
        ];
        let manufacturer_code = [data[0x013F], data[0x0140], data[0x0141], data[0x0142]];
        let new_licensee_code = [data[0x0144], data[0x0145]];
        let flag = data[0x0143];
        let header = CartridgeHeader {
            entry,
            title,
            manufacturer_code,
            cgb_flag: if flag == 0x80 || flag == 0xC0 {
                Some(flag)
            } else {
                None
            },
            new_licensee_code,
            sgb_flag: data[0x0146],
            cartridge_type: data[0x0147],
            rom_size: data[0x0148],
            ram_size: data[0x0149],
            destination_code: data[0x014A],
            old_licensee_code: data[0x014B],
            mask_rom_version_number: data[0x014C],
            header_checksum: data[0x014D],
            global_checksum: join_word(data[0x014F], data[0x014E]),
            data: slice_to_vec(data),
        };
        assert(header.entry@ =~= data@.subrange(0x100, 0x104));
        assert(header.title@ =~= data@.subrange(0x134, 0x144));
        assert(header.manufacturer_code@ =~= data@.subrange(0x13F, 0x143));
        assert(header.new_licensee_code@ =~= data@.subrange(0x144, 0x146));
        header
    }

    /// Computes the header checksum of an image.
    pub fn computed_header_checksum(data: &[u8]) -> (sum: u8)
        requires
            data@.len() >= 0x14D,
        ensures
            sum == header_checksum_of(data@),
    {
        let mut sum: u8 = 0;
        let mut i: usize = 0x134;
        proof {
            reveal(low8);
        }
        while i < 0x14D
            invariant
                0x134 <= i <= 0x14D,
                data@.len() >= 0x14D,
                sum == low8(-(byte_sum(data@, 0x134, i as int) + (i - 0x134))),
            decreases 0x14D - i,
        {
            proof {
                reveal(low8);
                reveal_with_fuel(byte_sum, 2);
            }
            sum = sum.wrapping_sub(data[i]).wrapping_sub(1);
            i = i + 1;
        }
        sum
    }

    /// Computes the global checksum of an image.
    pub fn computed_global_checksum(data: &[u8]) -> (sum: u16)
        requires
            data@.len() >= 0x150,
        ensures
            sum == global_checksum_of(data@),
    {
        let mut sum: u16 = 0;
        let mut i: usize = 0;
        proof {
            reveal(low16);
        }
        while i < data.len()
            invariant
                i <= data@.len(),
                data@.len() >= 0x150,
                sum == low16(
                    byte_sum(data@, 0, i as int) - (if i > 0x14E {
                        data@[0x14E] as int
                    } else {
                        0
                    }) - (if i > 0x14F {
                        data@[0x14F] as int
                    } else {
                        0
                    }),
                ),
            decreases data@.len() - i,
        {
            proof {
                reveal(low16);
                reveal_with_fuel(byte_sum, 2);
            }
            if i == 0x14E || i == 0x14F {
                i = i + 1;
                continue ;
            }
            sum = sum.wrapping_add(data[i] as u16);
            i = i + 1;
        }
        sum
    }

    /// Holds the header checksum of an image against `checksum`.
    pub fn header_checksum(data: &[u8], checksum: u8) -> (out: Result<(), CartridgeError>)
        requires
            data@.len() >= 0x14D,
        ensures
            header_checksum_of(data@) == checksum ==> out == Ok::<(), CartridgeError>(()),
            header_checksum_of(data@) != checksum ==> out == Err::<(), CartridgeError>(
                CartridgeError::InvalidHeaderChecksum {
                    expected: checksum,
                    actual: header_checksum_of(data@),
                },
            ),
    {
        let sum = Self::computed_header_checksum(data);
        if sum != checksum {
            return Err(CartridgeError::InvalidHeaderChecksum { expected: checksum, actual: sum });
        }
        Ok(())
    }

    /// Holds the global checksum of an image against the one that the image
    /// names; `checksum` is what a failure reports as expected.
    pub fn global_checksum(data: &[u8], checksum: u16) -> (out: Result<(), CartridgeError>)
        requires
            data@.len() >= 0x150,
        ensures
            global_checksum_of(data@) == stored_global_checksum(data@) ==> out == Ok::<
                (),
                CartridgeError,
            >(()),
            global_checksum_of(data@) != stored_global_checksum(data@) ==> out == Err::<
                (),
                CartridgeError,
            >(
                CartridgeError::InvalidGlobalChecksum {
                    expected: checksum,
                    actual: global_checksum_of(data@),
                },
            ),
    {
        let sum = Self::computed_global_checksum(data);
        if sum != join_word(data[0x014F], data[0x014E]) {
            return Err(CartridgeError::InvalidGlobalChecksum { expected: checksum, actual: sum });
        }
        Ok(())
    }
}

/// The image that a header was cut out of.
impl From<CartridgeHeader> for Vec<u8> {
    fn from(header: CartridgeHeader) -> (bytes: Vec<u8>) {
        header.data
    }
}

impl vstd::std_specs::convert::FromSpecImpl<CartridgeHeader> for Vec<u8> {
    open spec fn obeys_from_spec() -> bool {
        true
    }

    open spec fn from_spec(header: CartridgeHeader) -> Vec<u8> {
        header.data
    }
}

} // verus!
