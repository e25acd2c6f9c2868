//! Bus addresses and the fixed boot ROM window.
use vstd::prelude::*;

verus! {

/// First address of the boot ROM window.
pub const BOOT_ROM_START: u64 = 0x0000_0000_0000_0000;

/// Last address of the boot ROM window (the window is inclusive at both ends).
pub const BOOT_ROM_END: u64 = 0x0000_0000_0000_1000;

/// Distance from the start to the end of the boot ROM window.
pub const BOOT_ROM_SIZE: u64 = BOOT_ROM_END - BOOT_ROM_START;

#[derive(Debug, Copy, Clone, PartialEq, Eq, Structural)]
pub struct Address(u64);

impl View for Address {
    type V = u64;

    closed spec fn view(&self) -> u64 {
        self.0
    }
}

impl Address {
    pub fn new(address: u64) -> (r: Address)
        ensures
            r@ == address,
    {
        Address(address)
    }

    pub fn value(&self) -> (r: u64)
        ensures
            r == self@,
    {
        self.0
    }

    /// The address `offset` bytes into the boot ROM window.
    pub fn boot_rom(offset: u64) -> (r: Self)
        requires
            offset <= BOOT_ROM_SIZE,
        ensures
            r@ == BOOT_ROM_START + offset,
    {
        Self::new(BOOT_ROM_START + offset)
    }
}

} // verus!
