//! Addresses of the legacy configuration mechanism: a 32-bit word written to
//! the address port selects a 4-byte window of one function's 256-byte
//! configuration space.
use vstd::prelude::*;

verus! {

/// I/O port that takes the packed configuration address.
pub const CONFIG_ADDRESS_PORT: u16 = 0xCF8;

/// I/O port through which the selected configuration dword is read.
pub const CONFIG_DATA_PORT: u16 = 0xCFC;

/// The highest slot number on a bus.
pub const MAX_SLOT: u8 = 31;

/// The highest function number in a slot.
pub const MAX_FUNCTION: u8 = 7;

/// One dword of one function's configuration space.
#[derive(Clone, Copy, Debug, PartialEq, Eq, Structural)]
pub struct PciAddress {
    pub bus: u8,
    pub slot: u8,
    pub function: u8,
    pub offset: u8,
}

/// Slot and function in range, offset dword-aligned.
pub open spec fn valid_address(bus: u8, slot: u8, function: u8, offset: u8) -> bool {
    &&& slot <= MAX_SLOT
    &&& function <= MAX_FUNCTION
    &&& offset % 4 == 0
}

/// The address word: enable bit 31, bus in bits 23..16, slot in bits 15..11,
/// function in bits 10..8, offset in bits 7..0.
pub open spec fn address_word(bus: u8, slot: u8, function: u8, offset: u8) -> u32 {
    0x8000_0000u32 | ((bus as u32) << 16u32) | ((slot as u32) << 11u32) | ((function as u32) << 8u32)
        | (offset as u32)
}

pub open spec fn word_enabled(w: u32) -> bool {
    w & 0x8000_0000u32 != 0
}

pub open spec fn word_bus(w: u32) -> u8 {
    ((w >> 16u32) & 0xFFu32) as u8
}

pub open spec fn word_slot(w: u32) -> u8 {
    ((w >> 11u32) & 0x1Fu32) as u8
}

pub open spec fn word_function(w: u32) -> u8 {
    ((w >> 8u32) & 0x7u32) as u8
}

pub open spec fn word_offset(w: u32) -> u8 {
    (w & 0xFFu32) as u8
}

impl PciAddress {
    pub open spec fn valid(self) -> bool {
        valid_address(self.bus, self.slot, self.function, self.offset)
    }

    pub open spec fn spec_word(self) -> u32 {
        address_word(self.bus, self.slot, self.function, self.offset)
    }

    /// Packs the address into the word written to the address port.
    pub fn to_word(&self) -> (r: u32)
        requires
            self.valid(),
        ensures
            r == self.spec_word(),
    {
        0x8000_0000u32 | ((self.bus as u32) << 16u32) | ((self.slot as u32) << 11u32) | ((
        self.function as u32) << 8u32) | (self.offset as u32)
    }

    /// Reads the fields back out of an address word; the enable bit and the
    /// reserved bits 30..24 are ignored.
    pub fn from_word(w: u32) -> (r: PciAddress)
        ensures
            r.bus == word_bus(w),
            r.slot == word_slot(w),
            r.function == word_function(w),
            r.offset == word_offset(w),
    {
        PciAddress {
            bus: ((w >> 16u32) & 0xFFu32) as u8,
            slot: ((w >> 11u32) & 0x1Fu32) as u8,
            function: ((w >> 8u32) & 0x7u32) as u8,
            offset: (w & 0xFFu32) as u8,
        }
    }
}

/// Packs an address word for a configuration read.
pub fn config_address(bus: u8, slot: u8, function: u8, offset: u8) -> (r: u32)
    requires
        valid_address(bus, slot, function, offset),
    ensures
        r == address_word(bus, slot, function, offset),
{
    let a = PciAddress { bus, slot, function, offset };
    a.to_word()
}

/// Packing an address and decoding the word gives back every field, and the
/// word always carries the enable bit.
pub proof fn lemma_address_round_trip(bus: u8, slot: u8, function: u8, offset: u8)
    requires
        valid_address(bus, slot, function, offset),
    ensures
        word_enabled(address_word(bus, slot, function, offset)),
        word_bus(address_word(bus, slot, function, offset)) == bus,
        word_slot(address_word(bus, slot, function, offset)) == slot,
        word_function(address_word(bus, slot, function, offset)) == function,
        word_offset(address_word(bus, slot, function, offset)) == offset,
{
    let w = address_word(bus, slot, function, offset);
    assert(word_enabled(w) && word_bus(w) == bus && word_slot(w) == slot && word_function(w)
        == function && word_offset(w) == offset) by (bit_vector)
        requires
            w == 0x8000_0000u32 | ((bus as u32) << 16u32) | ((slot as u32) << 11u32) | ((
            function as u32) << 8u32) | (offset as u32),
            slot <= 31,
            function <= 7,
    ;
}

} // verus!
