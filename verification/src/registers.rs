//! The general purpose 8 and 16 bit registers of the SM83, including the flags,
//! packed into one 64-bit backing value with overlapping bit views.
//!
//! Names are not short for the purpose of saving characters, these are the names
//! the community and documentation have settled upon.

use vstd::prelude::*;

verus! {

// Layout of the backing value, low bits first. The 16-bit registers are the
// union of their two 8-bit fields' bit ranges, so writing one side of a pair is
// immediately visible through the other view: they are the same bits, not copies.
//
//   bits  0..=7   F  (flags z/n/h/c in bits 7/6/5/4; bits 0..=3 read back as 0)
//   bits  8..=15  A      AF = bits 0..=15
//   bits 16..=23  C
//   bits 24..=31  B      BC = bits 16..=31
//   bits 32..=39  E
//   bits 40..=47  D      DE = bits 32..=47
//   bits 48..=55  L
//   bits 56..=63  H      HL = bits 48..=63

/// The virtual `F` register: the flags in the form z/n/h/c/0/0/0/0. The low
/// four bits always read back as zero, whatever was stored there.
pub open spec fn spec_f(raw: u64) -> u8 {
    (raw & 0xF0) as u8
}

/// The `A` register (accumulator), the high byte of AF.
pub open spec fn spec_a(raw: u64) -> u8 {
    ((raw >> 8) & 0xFF) as u8
}

/// The `AF` register: A combined with the flags. Low 4 bits always read 0.
pub open spec fn spec_af(raw: u64) -> u16 {
    (raw & 0xFFF0) as u16
}

/// The `C` register, the low byte of BC.
pub open spec fn spec_c(raw: u64) -> u8 {
    ((raw >> 16) & 0xFF) as u8
}

/// The `B` register, the high byte of BC.
pub open spec fn spec_b(raw: u64) -> u8 {
    ((raw >> 24) & 0xFF) as u8
}

/// The `BC` register: B and C combined.
pub open spec fn spec_bc(raw: u64) -> u16 {
    ((raw >> 16) & 0xFFFF) as u16
}

/// The `E` register, the low byte of DE.
pub open spec fn spec_e(raw: u64) -> u8 {
    ((raw >> 32) & 0xFF) as u8
}

/// The `D` register, the high byte of DE.
pub open spec fn spec_d(raw: u64) -> u8 {
    ((raw >> 40) & 0xFF) as u8
}

/// The `DE` register: D and E combined.
pub open spec fn spec_de(raw: u64) -> u16 {
    ((raw >> 32) & 0xFFFF) as u16
}

/// The `L` register, the low byte of HL.
pub open spec fn spec_l(raw: u64) -> u8 {
    ((raw >> 48) & 0xFF) as u8
}

/// The `H` register, the high byte of HL.
pub open spec fn spec_h(raw: u64) -> u8 {
    ((raw >> 56) & 0xFF) as u8
}

/// The `HL` register: H and L combined.
pub open spec fn spec_hl(raw: u64) -> u16 {
    ((raw >> 48) & 0xFFFF) as u16
}

/// The `c` flag (carry), bit 4 of F.
pub open spec fn spec_c_flag(raw: u64) -> bool {
    (raw >> 4) & 1 == 1
}

/// The `h` flag (half-carry), bit 5 of F.
pub open spec fn spec_h_flag(raw: u64) -> bool {
    (raw >> 5) & 1 == 1
}

/// The `n` flag (subtraction), bit 6 of F.
pub open spec fn spec_n_flag(raw: u64) -> bool {
    (raw >> 6) & 1 == 1
}

/// The `z` flag (zero), bit 7 of F.
pub open spec fn spec_z_flag(raw: u64) -> bool {
    (raw >> 7) & 1 == 1
}

pub open spec fn spec_set_f(raw: u64, value: u8) -> u64 {
    (raw & 0xFFFF_FFFF_FFFF_FF00) | (value as u64)
}

pub open spec fn spec_set_a(raw: u64, value: u8) -> u64 {
    (raw & 0xFFFF_FFFF_FFFF_00FF) | ((value as u64) << 8)
}

pub open spec fn spec_set_af(raw: u64, value: u16) -> u64 {
    (raw & 0xFFFF_FFFF_FFFF_0000) | (value as u64)
}

pub open spec fn spec_set_c(raw: u64, value: u8) -> u64 {
    (raw & 0xFFFF_FFFF_FF00_FFFF) | ((value as u64) << 16)
}

pub open spec fn spec_set_b(raw: u64, value: u8) -> u64 {
    (raw & 0xFFFF_FFFF_00FF_FFFF) | ((value as u64) << 24)
}

pub open spec fn spec_set_bc(raw: u64, value: u16) -> u64 {
    (raw & 0xFFFF_FFFF_0000_FFFF) | ((value as u64) << 16)
}

pub open spec fn spec_set_e(raw: u64, value: u8) -> u64 {
    (raw & 0xFFFF_FF00_FFFF_FFFF) | ((value as u64) << 32)
}

pub open spec fn spec_set_d(raw: u64, value: u8) -> u64 {
    (raw & 0xFFFF_00FF_FFFF_FFFF) | ((value as u64) << 40)
}

pub open spec fn spec_set_de(raw: u64, value: u16) -> u64 {
    (raw & 0xFFFF_0000_FFFF_FFFF_u64) | ((value as u64) << 32)
}

pub open spec fn spec_set_l(raw: u64, value: u8) -> u64 {
    (raw & 0xFF00_FFFF_FFFF_FFFF) | ((value as u64) << 48)
}

pub open spec fn spec_set_h(raw: u64, value: u8) -> u64 {
    (raw & 0x00FF_FFFF_FFFF_FFFF) | ((value as u64) << 56)
}

pub open spec fn spec_set_hl(raw: u64, value: u16) -> u64 {
    (raw & 0x0000_FFFF_FFFF_FFFF) | ((value as u64) << 48)
}

pub open spec fn spec_set_c_flag(raw: u64, value: bool) -> u64 {
    if value {
        raw | 0x10
    } else {
        raw & 0xFFFF_FFFF_FFFF_FFEF
    }
}

pub open spec fn spec_set_h_flag(raw: u64, value: bool) -> u64 {
    if value {
        raw | 0x20
    } else {
        raw & 0xFFFF_FFFF_FFFF_FFDF
    }
}

pub open spec fn spec_set_n_flag(raw: u64, value: bool) -> u64 {
    if value {
        raw | 0x40
    } else {
        raw & 0xFFFF_FFFF_FFFF_FFBF
    }
}

pub open spec fn spec_set_z_flag(raw: u64, value: bool) -> u64 {
    if value {
        raw | 0x80
    } else {
        raw & 0xFFFF_FFFF_FFFF_FF7F
    }
}

/// Any masked value fits the narrower register width, so the narrowing casts in
/// the getters below never lose set bits.
proof fn lemma_mask_fits(x: u64)
    by (bit_vector)
    ensures
        x & 0xFF < 0x100,
        x & 0xF0 < 0x100,
        x & 0xFFFF < 0x10000,
        x & 0xFFF0 < 0x10000,
{
}

/// The general purpose 8 and 16 bit registers of the SM83, including the flags.
#[derive(Clone, Copy, PartialEq, Eq, Structural, Debug)]
pub struct Sm83Registers {
    raw: u64,
}

impl View for Sm83Registers {
    type V = u64;

    closed spec fn view(&self) -> u64 {
        self.raw
    }
}

impl Sm83Registers {
    /// Build a register file directly from its 64-bit backing value.
    pub fn from_raw(raw: u64) -> (r: Self)
        ensures
            r@ == raw,
    {
        Sm83Registers { raw }
    }

    pub fn f(&self) -> (r: u8)
        ensures
            r == spec_f(self@),
    {
        proof {
            lemma_mask_fits(self.raw);
        }
        (self.raw & 0xF0) as u8
    }

    pub fn a(&self) -> (r: u8)
        ensures
            r == spec_a(self@),
    {
        proof {
            lemma_mask_fits(self.raw >> 8);
        }
        ((self.raw >> 8) & 0xFF) as u8
    }

    pub fn af(&self) -> (r: u16)
        ensures
            r == spec_af(self@),
    {
        proof {
            lemma_mask_fits(self.raw);
        }
        (self.raw & 0xFFF0) as u16
    }

    pub fn c(&self) -> (r: u8)
        ensures
            r == spec_c(self@),
    {
        proof {
            lemma_mask_fits(self.raw >> 16);
        }
        ((self.raw >> 16) & 0xFF) as u8
    }

    pub fn b(&self) -> (r: u8)
        ensures
            r == spec_b(self@),
    {
        proof {
            lemma_mask_fits(self.raw >> 24);
        }
        ((self.raw >> 24) & 0xFF) as u8
    }

    pub fn bc(&self) -> (r: u16)
        ensures
            r == spec_bc(self@),
    {
        proof {
            lemma_mask_fits(self.raw >> 16);
        }
        ((self.raw >> 16) & 0xFFFF) as u16
    }

    pub fn e(&self) -> (r: u8)
        ensures
            r == spec_e(self@),
    {
        proof {
            lemma_mask_fits(self.raw >> 32);
        }
        ((self.raw >> 32) & 0xFF) as u8
    }

    pub fn d(&self) -> (r: u8)
        ensures
            r == spec_d(self@),
    {
        proof {
            lemma_mask_fits(self.raw >> 40);
        }
        ((self.raw >> 40) & 0xFF) as u8
    }

    pub fn de(&self) -> (r: u16)
        ensures
            r == spec_de(self@),
    {
        proof {
            lemma_mask_fits(self.raw >> 32);
        }
        ((self.raw >> 32) & 0xFFFF) as u16
    }

    pub fn l(&self) -> (r: u8)
        ensures
            r == spec_l(self@),
    {
        proof {
            lemma_mask_fits(self.raw >> 48);
        }
        ((self.raw >> 48) & 0xFF) as u8
    }

    pub fn h(&self) -> (r: u8)
        ensures
            r == spec_h(self@),
    {
        proof {
            lemma_mask_fits(self.raw >> 56);
        }
        ((self.raw >> 56) & 0xFF) as u8
    }

    pub fn hl(&self) -> (r: u16)
        ensures
            r == spec_hl(self@),
    {
        proof {
            lemma_mask_fits(self.raw >> 48);
        }
        ((self.raw >> 48) & 0xFFFF) as u16
    }

    pub fn c_flag(&self) -> (r: bool)
        ensures
            r == spec_c_flag(self@),
    {
        (self.raw >> 4) & 1 == 1
    }

    pub fn h_flag(&self) -> (r: bool)
        ensures
            r == spec_h_flag(self@),
    {
        (self.raw >> 5) & 1 == 1
    }

    pub fn n_flag(&self) -> (r: bool)
        ensures
            r == spec_n_flag(self@),
    {
        (self.raw >> 6) & 1 == 1
    }

    pub fn z_flag(&self) -> (r: bool)
        ensures
            r == spec_z_flag(self@),
    {
        (self.raw >> 7) & 1 == 1
    }

    pub fn set_f(&mut self, value: u8)
        ensures
            final(self)@ == spec_set_f(old(self)@, value),
    {
        self.raw = (self.raw & 0xFFFF_FFFF_FFFF_FF00) | (value as u64);
    }

    pub fn set_a(&mut self, value: u8)
        ensures
            final(self)@ == spec_set_a(old(self)@, value),
    {
        self.raw = (self.raw & 0xFFFF_FFFF_FFFF_00FF) | ((value as u64) << 8);
    }

    pub fn set_af(&mut self, value: u16)
        ensures
            final(self)@ == spec_set_af(old(self)@, value),
    {
        self.raw = (self.raw & 0xFFFF_FFFF_FFFF_0000) | (value as u64);
    }

    pub fn set_c(&mut self, value: u8)
        ensures
            final(self)@ == spec_set_c(old(self)@, value),
    {
        self.raw = (self.raw & 0xFFFF_FFFF_FF00_FFFF) | ((value as u64) << 16);
    }

    pub fn set_b(&mut self, value: u8)
        ensures
            final(self)@ == spec_set_b(old(self)@, value),
    {
        self.raw = (self.raw & 0xFFFF_FFFF_00FF_FFFF) | ((value as u64) << 24);
    }

    pub fn set_bc(&mut self, value: u16)
        ensures
            final(self)@ == spec_set_bc(old(self)@, value),
    {
        self.raw = (self.raw & 0xFFFF_FFFF_0000_FFFF) | ((value as u64) << 16);
    }

    pub fn set_e(&mut self, value: u8)
        ensures
            final(self)@ == spec_set_e(old(self)@, value),
    {
        self.raw = (self.raw & 0xFFFF_FF00_FFFF_FFFF) | ((value as u64) << 32);
    }

    pub fn set_d(&mut self, value: u8)
        ensures
            final(self)@ == spec_set_d(old(self)@, value),
    {
        self.raw = (self.raw & 0xFFFF_00FF_FFFF_FFFF) | ((value as u64) << 40);
    }

    pub fn set_de(&mut self, value: u16)
        ensures
            final(self)@ == spec_set_de(old(self)@, value),
    {
        self.raw = (self.raw & 0xFFFF_0000_FFFF_FFFF) | ((value as u64) << 32);
    }

    pub fn set_l(&mut self, value: u8)
        ensures
            final(self)@ == spec_set_l(old(self)@, value),
    {
        self.raw = (self.raw & 0xFF00_FFFF_FFFF_FFFF) | ((value as u64) << 48);
    }

    pub fn set_h(&mut self, value: u8)
        ensures
            final(self)@ == spec_set_h(old(self)@, value),
    {
        self.raw = (self.raw & 0x00FF_FFFF_FFFF_FFFF) | ((value as u64) << 56);
    }

    pub fn set_hl(&mut self, value: u16)
        ensures
            final(self)@ == spec_set_hl(old(self)@, value),
    {
        self.raw = (self.raw & 0x0000_FFFF_FFFF_FFFF) | ((value as u64) << 48);
    }

    pub fn set_c_flag(&mut self, value: bool)
        ensures
            final(self)@ == spec_set_c_flag(old(self)@, value),
    {
        if value {
            self.raw = self.raw | 0x10;
        } else {
            self.raw = self.raw & 0xFFFF_FFFF_FFFF_FFEF;
        }
    }

    pub fn set_h_flag(&mut self, value: bool)
        ensures
            final(self)@ == spec_set_h_flag(old(self)@, value),
    {
        if value {
            self.raw = self.raw | 0x20;
        } else {
            self.raw = self.raw & 0xFFFF_FFFF_FFFF_FFDF;
        }
    }

    pub fn set_n_flag(&mut self, value: bool)
        ensures
            final(self)@ == spec_set_n_flag(old(self)@, value),
    {
        if value {
            self.raw = self.raw | 0x40;
        } else {
            self.raw = self.raw & 0xFFFF_FFFF_FFFF_FFBF;
        }
    }

    pub fn set_z_flag(&mut self, value: bool)
        ensures
            final(self)@ == spec_set_z_flag(old(self)@, value),
    {
        if value {
            self.raw = self.raw | 0x80;
        } else {
            self.raw = self.raw & 0xFFFF_FFFF_FFFF_FF7F;
        }
    }
}

/// Each documented hardware revision's initial register pattern, evaluated
/// field by field from its 64-bit literal.
proof fn lemma_initial_patterns()
    by (bit_vector)
    ensures
        spec_h(0x01_4D_00_D8_00_13_01_B0) == 0x01,
        spec_l(0x01_4D_00_D8_00_13_01_B0) == 0x4D,
        spec_d(0x01_4D_00_D8_00_13_01_B0) == 0x00,
        spec_e(0x01_4D_00_D8_00_13_01_B0) == 0xD8,
        spec_b(0x01_4D_00_D8_00_13_01_B0) == 0x00,
        spec_c(0x01_4D_00_D8_00_13_01_B0) == 0x13,
        spec_a(0x01_4D_00_D8_00_13_01_B0) == 0x01,
        spec_f(0x01_4D_00_D8_00_13_01_B0) == 0xB0,
        spec_h(0x01_4D_00_D8_00_13_FF_B0) == 0x01,
        spec_l(0x01_4D_00_D8_00_13_FF_B0) == 0x4D,
        spec_d(0x01_4D_00_D8_00_13_FF_B0) == 0x00,
        spec_e(0x01_4D_00_D8_00_13_FF_B0) == 0xD8,
        spec_b(0x01_4D_00_D8_00_13_FF_B0) == 0x00,
        spec_c(0x01_4D_00_D8_00_13_FF_B0) == 0x13,
        spec_a(0x01_4D_00_D8_00_13_FF_B0) == 0xFF,
        spec_f(0x01_4D_00_D8_00_13_FF_B0) == 0xB0,
        spec_h(0xC0_60_00_00_00_14_01_00) == 0xC0,
        spec_l(0xC0_60_00_00_00_14_01_00) == 0x60,
        spec_d(0xC0_60_00_00_00_14_01_00) == 0x00,
        spec_e(0xC0_60_00_00_00_14_01_00) == 0x00,
        spec_b(0xC0_60_00_00_00_14_01_00) == 0x00,
        spec_c(0xC0_60_00_00_00_14_01_00) == 0x14,
        spec_a(0xC0_60_00_00_00_14_01_00) == 0x01,
        spec_f(0xC0_60_00_00_00_14_01_00) == 0x00,
        spec_set_a(0xC0_60_00_00_00_14_01_00, 0xFF) == 0xC0_60_00_00_00_14_FF_00,
        spec_h(0xC0_60_00_00_00_14_FF_00) == 0xC0,
        spec_l(0xC0_60_00_00_00_14_FF_00) == 0x60,
        spec_d(0xC0_60_00_00_00_14_FF_00) == 0x00,
        spec_e(0xC0_60_00_00_00_14_FF_00) == 0x00,
        spec_b(0xC0_60_00_00_00_14_FF_00) == 0x00,
        spec_c(0xC0_60_00_00_00_14_FF_00) == 0x14,
        spec_a(0xC0_60_00_00_00_14_FF_00) == 0xFF,
        spec_f(0xC0_60_00_00_00_14_FF_00) == 0x00,
        spec_h(0x00_7C_00_08_00_00_11_80) == 0x00,
        spec_l(0x00_7C_00_08_00_00_11_80) == 0x7C,
        spec_d(0x00_7C_00_08_00_00_11_80) == 0x00,
        spec_e(0x00_7C_00_08_00_00_11_80) == 0x08,
        spec_b(0x00_7C_00_08_00_00_11_80) == 0x00,
        spec_c(0x00_7C_00_08_00_00_11_80) == 0x00,
        spec_a(0x00_7C_00_08_00_00_11_80) == 0x11,
        spec_f(0x00_7C_00_08_00_00_11_80) == 0x80,
        spec_h(0x00_7C_00_08_01_00_11_00) == 0x00,
        spec_l(0x00_7C_00_08_01_00_11_00) == 0x7C,
        spec_d(0x00_7C_00_08_01_00_11_00) == 0x00,
        spec_e(0x00_7C_00_08_01_00_11_00) == 0x08,
        spec_b(0x00_7C_00_08_01_00_11_00) == 0x01,
        spec_c(0x00_7C_00_08_01_00_11_00) == 0x00,
        spec_a(0x00_7C_00_08_01_00_11_00) == 0x11,
        spec_f(0x00_7C_00_08_01_00_11_00) == 0x00,
{
}

impl Sm83Registers {
    /// The initial state of registers on DMG, via the Cycle Accurate GB Docs.
    pub fn initial_dmg() -> (r: Self)
        ensures
            r@ == 0x01_4D_00_D8_00_13_01_B0,
            spec_a(r@) == 0x01 && spec_f(r@) == 0xB0,
            spec_b(r@) == 0x00 && spec_c(r@) == 0x13,
            spec_d(r@) == 0x00 && spec_e(r@) == 0xD8,
            spec_h(r@) == 0x01 && spec_l(r@) == 0x4D,
    {
        proof {
            lemma_initial_patterns();
        }
        //                   0xHH_LL_DD_EE_BB_CC_AA_FF
        Sm83Registers { raw: 0x01_4D_00_D8_00_13_01_B0 }
    }

    /// The initial state of registers on MGB, via the Cycle Accurate GB Docs.
    pub fn initial_mgb() -> (r: Self)
        ensures
            r@ == 0x01_4D_00_D8_00_13_FF_B0,
            spec_a(r@) == 0xFF && spec_f(r@) == 0xB0,
            spec_b(r@) == 0x00 && spec_c(r@) == 0x13,
            spec_d(r@) == 0x00 && spec_e(r@) == 0xD8,
            spec_h(r@) == 0x01 && spec_l(r@) == 0x4D,
    {
        proof {
            lemma_initial_patterns();
        }
        //                   0xHH_LL_DD_EE_BB_CC_AA_FF
        Sm83Registers { raw: 0x01_4D_00_D8_00_13_FF_B0 }
    }

    /// The initial state of registers on SGB, via the Cycle Accurate GB Docs.
    ///
    /// Note: TCAGBD states these have not been verified on hardware.
    pub fn initial_sgb() -> (r: Self)
        ensures
            r@ == 0xC0_60_00_00_00_14_01_00,
            spec_a(r@) == 0x01 && spec_f(r@) == 0x00,
            spec_b(r@) == 0x00 && spec_c(r@) == 0x14,
            spec_d(r@) == 0x00 && spec_e(r@) == 0x00,
            spec_h(r@) == 0xC0 && spec_l(r@) == 0x60,
    {
        proof {
            lemma_initial_patterns();
        }
        //                   0xHH_LL_DD_EE_BB_CC_AA_FF
        Sm83Registers { raw: 0xC0_60_00_00_00_14_01_00 }
    }

    /// The initial state of registers on SGB2, via the Cycle Accurate GB Docs.
    ///
    /// Note: TCAGBD does not specify anything but the value of `A`, so the rest
    /// defaults to [`Sm83Registers::initial_sgb`] for now. See note there.
    pub fn initial_sgb2() -> (r: Self)
        ensures
            r@ == 0xC0_60_00_00_00_14_FF_00,
            spec_a(r@) == 0xFF && spec_f(r@) == 0x00,
            spec_b(r@) == 0x00 && spec_c(r@) == 0x14,
            spec_d(r@) == 0x00 && spec_e(r@) == 0x00,
            spec_h(r@) == 0xC0 && spec_l(r@) == 0x60,
    {
        proof {
            lemma_initial_patterns();
        }
        let mut registers = Self::initial_sgb();

        registers.set_a(0xFF);

        registers
    }

    /// The initial state of registers on CGB, via the Cycle Accurate GB Docs.
    pub fn initial_cgb() -> (r: Self)
        ensures
            r@ == 0x00_7C_00_08_00_00_11_80,
            spec_a(r@) == 0x11 && spec_f(r@) == 0x80,
            spec_b(r@) == 0x00 && spec_c(r@) == 0x00,
            spec_d(r@) == 0x00 && spec_e(r@) == 0x08,
            spec_h(r@) == 0x00 && spec_l(r@) == 0x7C,
    {
        proof {
            lemma_initial_patterns();
        }
        //                   0xHH_LL_DD_EE_BB_CC_AA_FF
        Sm83Registers { raw: 0x00_7C_00_08_00_00_11_80 }
    }

    /// The initial state of registers on AGB, via the Cycle Accurate GB Docs.
    pub fn initial_agb() -> (r: Self)
        ensures
            r@ == 0x00_7C_00_08_01_00_11_00,
            spec_a(r@) == 0x11 && spec_f(r@) == 0x00,
            spec_b(r@) == 0x01 && spec_c(r@) == 0x00,
            spec_d(r@) == 0x00 && spec_e(r@) == 0x08,
            spec_h(r@) == 0x00 && spec_l(r@) == 0x7C,
    {
        proof {
            lemma_initial_patterns();
        }
        //                   0xHH_LL_DD_EE_BB_CC_AA_FF
        Sm83Registers { raw: 0x00_7C_00_08_01_00_11_00 }
    }

    /// The initial state of registers on AGS, via the Cycle Accurate GB Docs.
    pub fn initial_ags() -> (r: Self)
        ensures
            r@ == 0x00_7C_00_08_01_00_11_00,
            spec_a(r@) == 0x11 && spec_f(r@) == 0x00,
            spec_b(r@) == 0x01 && spec_c(r@) == 0x00,
            spec_d(r@) == 0x00 && spec_e(r@) == 0x08,
            spec_h(r@) == 0x00 && spec_l(r@) == 0x7C,
    {
        proof {
            lemma_initial_patterns();
        }
        //                   0xHH_LL_DD_EE_BB_CC_AA_FF
        Sm83Registers { raw: 0x00_7C_00_08_01_00_11_00 }
    }
}

/// Register/flag aliasing law for the AF pair: A and F are views over the same
/// bits as AF, so writing either half is read back through AF in the right byte
/// position and vice versa, and the low nibble of F (and of AF) always reads
/// back as zero, regardless of the value written.
pub proof fn lemma_af_aliasing(raw: u64, v: u8, w: u16)
    by (bit_vector)
    ensures
        spec_a(spec_set_a(raw, v)) == v,
        spec_f(spec_set_f(raw, v)) == v & 0xF0,
        spec_f(spec_set_f(raw, v)) & 0x0F == 0,
        spec_af(spec_set_a(raw, v)) == ((v as u16) << 8) | (spec_f(raw) as u16),
        spec_af(spec_set_f(raw, v)) == ((spec_a(raw) as u16) << 8) | ((v & 0xF0) as u16),
        spec_a(spec_set_af(raw, w)) == (w >> 8) as u8,
        spec_f(spec_set_af(raw, w)) == (w as u8) & 0xF0,
        spec_f(spec_set_a(raw, v)) == spec_f(raw),
        spec_a(spec_set_f(raw, v)) == spec_a(raw),
        spec_af(raw) == ((spec_a(raw) as u16) << 8) | (spec_f(raw) as u16),
        spec_f(raw) & 0x0F == 0,
        spec_af(raw) & 0x0F == 0,
{
}

/// Register aliasing law for the BC pair: B and C are views over the same bits
/// as BC, so writing either half is read back through BC in the right byte
/// position and vice versa.
pub proof fn lemma_bc_aliasing(raw: u64, v: u8, w: u16)
    by (bit_vector)
    ensures
        spec_b(spec_set_b(raw, v)) == v,
        spec_c(spec_set_c(raw, v)) == v,
        spec_bc(spec_set_b(raw, v)) == ((v as u16) << 8) | (spec_c(raw) as u16),
        spec_bc(spec_set_c(raw, v)) == ((spec_b(raw) as u16) << 8) | (v as u16),
        spec_b(spec_set_bc(raw, w)) == (w >> 8) as u8,
        spec_c(spec_set_bc(raw, w)) == w as u8,
        spec_bc(spec_set_bc(raw, w)) == w,
        spec_c(spec_set_b(raw, v)) == spec_c(raw),
        spec_b(spec_set_c(raw, v)) == spec_b(raw),
        spec_bc(raw) == ((spec_b(raw) as u16) << 8) | (spec_c(raw) as u16),
{
}

/// Register aliasing law for the DE pair: D and E are views over the same bits
/// as DE, so writing either half is read back through DE in the right byte
/// position and vice versa.
pub proof fn lemma_de_aliasing(raw: u64, v: u8, w: u16)
    by (bit_vector)
    ensures
        spec_d(spec_set_d(raw, v)) == v,
        spec_e(spec_set_e(raw, v)) == v,
        spec_de(spec_set_d(raw, v)) == ((v as u16) << 8) | (spec_e(raw) as u16),
        spec_de(spec_set_e(raw, v)) == ((spec_d(raw) as u16) << 8) | (v as u16),
        spec_d(spec_set_de(raw, w)) == (w >> 8) as u8,
        spec_e(spec_set_de(raw, w)) == w as u8,
        spec_de(spec_set_de(raw, w)) == w,
        spec_e(spec_set_d(raw, v)) == spec_e(raw),
        spec_d(spec_set_e(raw, v)) == spec_d(raw),
        spec_de(raw) == ((spec_d(raw) as u16) << 8) | (spec_e(raw) as u16),
{
}

/// Register aliasing law for the HL pair: H and L are views over the same bits
/// as HL, so writing either half is read back through HL in the right byte
/// position and vice versa.
pub proof fn lemma_hl_aliasing(raw: u64, v: u8, w: u16)
    by (bit_vector)
    ensures
        spec_h(spec_set_h(raw, v)) == v,
        spec_l(spec_set_l(raw, v)) == v,
        spec_hl(spec_set_h(raw, v)) == ((v as u16) << 8) | (spec_l(raw) as u16),
        spec_hl(spec_set_l(raw, v)) == ((spec_h(raw) as u16) << 8) | (v as u16),
        spec_h(spec_set_hl(raw, w)) == (w >> 8) as u8,
        spec_l(spec_set_hl(raw, w)) == w as u8,
        spec_hl(spec_set_hl(raw, w)) == w,
        spec_l(spec_set_h(raw, v)) == spec_l(raw),
        spec_h(spec_set_l(raw, v)) == spec_h(raw),
        spec_hl(raw) == ((spec_h(raw) as u16) << 8) | (spec_l(raw) as u16),
{
}

/// Flag aliasing law: each flag is one bit of the virtual F register, so a flag
/// written individually is read back through F in its documented bit position,
/// and a value written to F sets every flag from the matching bit.
pub proof fn lemma_flag_aliasing(raw: u64, v: u8, b: bool)
    by (bit_vector)
    ensures
        spec_z_flag(raw) == (spec_f(raw) & 0x80 == 0x80),
        spec_n_flag(raw) == (spec_f(raw) & 0x40 == 0x40),
        spec_h_flag(raw) == (spec_f(raw) & 0x20 == 0x20),
        spec_c_flag(raw) == (spec_f(raw) & 0x10 == 0x10),
        spec_z_flag(spec_set_z_flag(raw, b)) == b,
        spec_n_flag(spec_set_n_flag(raw, b)) == b,
        spec_h_flag(spec_set_h_flag(raw, b)) == b,
        spec_c_flag(spec_set_c_flag(raw, b)) == b,
        spec_z_flag(spec_set_f(raw, v)) == (v & 0x80 == 0x80),
        spec_n_flag(spec_set_f(raw, v)) == (v & 0x40 == 0x40),
        spec_h_flag(spec_set_f(raw, v)) == (v & 0x20 == 0x20),
        spec_c_flag(spec_set_f(raw, v)) == (v & 0x10 == 0x10),
        spec_f(spec_set_z_flag(raw, b)) == (if b {
            spec_f(raw) | 0x80
        } else {
            spec_f(raw) & 0x7F
        }),
        spec_f(spec_set_n_flag(raw, b)) == (if b {
            spec_f(raw) | 0x40
        } else {
            spec_f(raw) & 0xBF
        }),
        spec_f(spec_set_h_flag(raw, b)) == (if b {
            spec_f(raw) | 0x20
        } else {
            spec_f(raw) & 0xDF
        }),
        spec_f(spec_set_c_flag(raw, b)) == (if b {
            spec_f(raw) | 0x10
        } else {
            spec_f(raw) & 0xEF
        }),
{
}

} // verus!
