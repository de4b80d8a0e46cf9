//! Cycle-accurate emulation core for the SM83-based DMG handheld: the packed
//! register file, the 64 KiB paged memory bus, the opcode decode table, and the
//! CPU execution engine that steps one machine cycle (m-cycle) at a time.

pub mod bus;
pub mod cartridge;
pub mod cpu;
pub mod mcode;
pub mod opcode;
pub mod registers;
pub mod text;

pub use bus::Bus;
pub use cartridge::Cartridge;
pub use cpu::Sm83;
pub use mcode::MCode;
pub use opcode::Opcode;
pub use registers::Sm83Registers;

use std::rc::Rc;

use vstd::prelude::*;

use crate::cpu::spec_instruction;

verus! {

/// The assembled console: one CPU driving one exclusively owned bus, plus the
/// optional cartridge whose ROM bytes are shared read-only.
pub struct DotMatrix {
    pub bus: Bus,
    pub cpu: Sm83,
    pub cartridge: Option<Rc<Cartridge>>,
}

impl DotMatrix {
    /// Create a new [`DotMatrix`] DMG.
    pub fn new_dmg() -> (r: DotMatrix)
        ensures
            r.bus.wf(),
            r.bus@.len() == 0x1_0000,
            forall|i: int| 0 <= i < 0x1_0000 ==> r.bus@[i] == 0xFF,
            r.cpu@.registers == 0x01_4D_00_D8_00_13_01_B0,
            r.cpu@.pc == 0x0100,
            r.cpu@.sp == 0xFFFE,
            r.cpu@.ir == 0x00,
            r.cpu@.queue == Seq::<MCode>::empty(),
            r.cartridge is None,
    {
        Self { bus: Bus::new_dmg(), cpu: Sm83::new_dmg(), cartridge: None }
    }

    /// Create a new [`DotMatrix`] DMG with a flat [`Bus`] for testing purposes.
    pub fn new_with_flat_bus() -> (r: DotMatrix)
        ensures
            r.bus.wf(),
            r.bus@.len() == 0x1_0000,
            forall|i: int| 0 <= i < 0x1_0000 ==> r.bus@[i] == 0xFF,
            r.cpu@.registers == 0x01_4D_00_D8_00_13_01_B0,
            r.cpu@.pc == 0x0100,
            r.cpu@.sp == 0xFFFE,
            r.cpu@.ir == 0x00,
            r.cpu@.queue == Seq::<MCode>::empty(),
            r.cartridge is None,
    {
        Self { bus: Bus::flat(), cpu: Sm83::new_dmg(), cartridge: None }
    }

    /// Plug in a cartridge, replacing whatever was loaded before.
    pub fn load(&mut self, rom: Box<[u8]>)
        ensures
            final(self).cartridge is Some,
            final(self).cartridge matches Some(c) ==> c@ == rom@,
            final(self).bus == old(self).bus,
            final(self).cpu == old(self).cpu,
    {
        self.cartridge = Some(Rc::new(Cartridge::new(rom)));
    }

    /// Execute until the end of the current CPU instruction. Fetches if queue
    /// is empty.
    ///
    /// For testing purposes, specifically single-instruction conformance
    /// vectors.
    pub fn exec_instruction(&mut self)
        requires
            old(self).bus.wf(),
            spec_instruction(old(self).cpu@, old(self).bus@) is Some,
        ensures
            spec_instruction(old(self).cpu@, old(self).bus@) == Some(final(self).cpu@),
            final(self).bus == old(self).bus,
            final(self).cartridge == old(self).cartridge,
    {
        self.cpu.exec_instruction(&mut self.bus);
    }
}

} // verus!
