//! The three configuration dwords the scan reads, and how their fields sit
//! in them.
use vstd::prelude::*;

verus! {

/// Offset of the dword holding the device id (high half) and vendor id (low half).
pub const IDENTITY_OFFSET: u8 = 0x0;

/// Offset of the dword holding class, subclass, programming interface and revision.
pub const CLASS_CODE_OFFSET: u8 = 0x8;

/// Offset of the dword holding BIST, header type, latency timer and cache line size.
pub const HEADER_INFO_OFFSET: u8 = 0xC;

/// Vendor id read from an empty slot or function.
pub const NO_VENDOR: u16 = 0xFFFF;

/// Header-type bit telling that the device has functions besides function 0.
pub const MULTIFUNCTION_BIT: u8 = 0x80;

pub open spec fn word_vendor(w: u32) -> u16 {
    (w & 0xFFFFu32) as u16
}

pub open spec fn word_device(w: u32) -> u16 {
    (w >> 16u32) as u16
}

/// The most significant byte of a dword.
pub open spec fn byte3(w: u32) -> u8 {
    (w >> 24u32) as u8
}

pub open spec fn byte2(w: u32) -> u8 {
    ((w >> 16u32) & 0xFFu32) as u8
}

pub open spec fn byte1(w: u32) -> u8 {
    ((w >> 8u32) & 0xFFu32) as u8
}

/// The least significant byte of a dword.
pub open spec fn byte0(w: u32) -> u8 {
    (w & 0xFFu32) as u8
}

/// Four bytes packed most significant first.
pub open spec fn pack_bytes(b3: u8, b2: u8, b1: u8, b0: u8) -> u32 {
    ((b3 as u32) << 24u32) | ((b2 as u32) << 16u32) | ((b1 as u32) << 8u32) | (b0 as u32)
}

/// Vendor and device of the identity dword, or `None` when the vendor is the
/// no-device value.
pub open spec fn spec_identity(w: u32) -> Option<(u16, u16)> {
    if word_vendor(w) == NO_VENDOR {
        None
    } else {
        Some((word_vendor(w), word_device(w)))
    }
}

/// Decodes the identity dword (offset 0) into `(vendor, device)`; `None`
/// means that nothing answers at that address.
pub fn decode_identity(w: u32) -> (r: Option<(u16, u16)>)
    ensures
        r == spec_identity(w),
{
    let vendor = (w & 0xFFFFu32) as u16;
    let device = (w >> 16u32) as u16;
    if vendor == NO_VENDOR {
        None
    } else {
        Some((vendor, device))
    }
}

/// The class-code dword (offset 8).
#[derive(Clone, Copy, Debug, PartialEq, Eq, Structural)]
pub struct ClassCode {
    pub class: u8,
    pub subclass: u8,
    pub prog_if: u8,
    pub revision: u8,
}

impl ClassCode {
    pub open spec fn spec_from_word(w: u32) -> ClassCode {
        ClassCode { class: byte3(w), subclass: byte2(w), prog_if: byte1(w), revision: byte0(w) }
    }

    pub open spec fn spec_word(self) -> u32 {
        pack_bytes(self.class, self.subclass, self.prog_if, self.revision)
    }

    /// Splits the dword, most significant byte first.
    pub fn from_word(w: u32) -> (r: ClassCode)
        ensures
            r == ClassCode::spec_from_word(w),
    {
        ClassCode {
            class: (w >> 24u32) as u8,
            subclass: ((w >> 16u32) & 0xFFu32) as u8,
            prog_if: ((w >> 8u32) & 0xFFu32) as u8,
            revision: (w & 0xFFu32) as u8,
        }
    }

    /// Packs the four fields back into the dword layout.
    pub fn to_word(&self) -> (r: u32)
        ensures
            r == self.spec_word(),
    {
        ((self.class as u32) << 24u32) | ((self.subclass as u32) << 16u32) | ((
        self.prog_if as u32) << 8u32) | (self.revision as u32)
    }
}

/// The header-info dword (offset 0xC).
#[derive(Clone, Copy, Debug, PartialEq, Eq, Structural)]
pub struct HeaderInfo {
    pub bist: u8,
    pub header_type: u8,
    pub latency_timer: u8,
    pub cache_line_size: u8,
}

pub open spec fn header_type_multifunction(header_type: u8) -> bool {
    header_type & MULTIFUNCTION_BIT == MULTIFUNCTION_BIT
}

impl HeaderInfo {
    pub open spec fn spec_from_word(w: u32) -> HeaderInfo {
        HeaderInfo {
            bist: byte3(w),
            header_type: byte2(w),
            latency_timer: byte1(w),
            cache_line_size: byte0(w),
        }
    }

    /// Splits the dword, most significant byte first.
    pub fn from_word(w: u32) -> (r: HeaderInfo)
        ensures
            r == HeaderInfo::spec_from_word(w),
    {
        HeaderInfo {
            bist: (w >> 24u32) as u8,
            header_type: ((w >> 16u32) & 0xFFu32) as u8,
            latency_timer: ((w >> 8u32) & 0xFFu32) as u8,
            cache_line_size: (w & 0xFFu32) as u8,
        }
    }

    /// Whether functions 1 to 7 of the slot are to be probed.
    pub fn is_multifunction(&self) -> (r: bool)
        ensures
            r == header_type_multifunction(self.header_type),
    {
        self.header_type & MULTIFUNCTION_BIT == MULTIFUNCTION_BIT
    }
}

/// Packing the four class-code fields into a dword and splitting it again
/// gives the same four fields; splitting a dword and packing it again gives
/// the same dword.
pub proof fn lemma_class_code_round_trip(c: ClassCode, w: u32)
    ensures
        ClassCode::spec_from_word(c.spec_word()) == c,
        ClassCode::spec_from_word(w).spec_word() == w,
{
    let (a, b, p, r) = (c.class, c.subclass, c.prog_if, c.revision);
    let x = pack_bytes(a, b, p, r);
    assert(byte3(x) == a && byte2(x) == b && byte1(x) == p && byte0(x) == r) by (bit_vector)
        requires
            x == ((a as u32) << 24u32) | ((b as u32) << 16u32) | ((p as u32) << 8u32) | (r as u32),
    ;
    assert(pack_bytes(byte3(w), byte2(w), byte1(w), byte0(w)) == w) by (bit_vector);
}

} // verus!
