//! A cartridge plugged into the system, with its own bus pointing to ROM,
//! optional RAM, and other MMIO like a camera, accelerometer, or real time
//! clock. In the current scope it is raw ROM bytes, never mutated after
//! construction, shared read-only by whoever needs them.

use vstd::prelude::*;

verus! {

pub struct Cartridge {
    rom: Box<[u8]>,
}

impl View for Cartridge {
    type V = Seq<u8>;

    closed spec fn view(&self) -> Seq<u8> {
        self.rom@
    }
}

impl Cartridge {
    pub fn new(data: Box<[u8]>) -> (r: Self)
        ensures
            r@ == data@,
    {
        Cartridge { rom: data }
    }

    /// Read an 8-bit value from the specified address. Affected by cartridge
    /// state. An address beyond the end of the ROM is a caller error.
    pub fn read(&self, addr: u16) -> (r: u8)
        requires
            addr < self@.len(),
        ensures
            r == self@[addr as int],
    {
        self.rom[addr as usize]
    }
}

} // verus!
