//! The opcode decode table: an immutable mapping from an 8-bit opcode value to
//! its display mnemonic and its ordered sequence of m-codes. The opcode space
//! is closed and total (0-255), so decoding never fails: an opcode whose
//! behavior is not yet modeled decodes to the illegal marker, which fails
//! loudly when executed rather than silently emulating wrong behavior.

use vstd::prelude::*;

use crate::mcode::MCode;

verus! {

/// The ordered m-code sequence an opcode byte expands to, one entry per
/// m-cycle. Total over the full 0-255 domain, and never empty.
pub open spec fn spec_decode(op: u8) -> Seq<MCode> {
    if op == 0x00 {
        seq![MCode::Nop]
    } else {
        seq![MCode::Illegal]
    }
}

/// The canonical display mnemonic for an opcode byte.
pub open spec fn spec_mnemonic(op: u8) -> Seq<char> {
    if op == 0x00 {
        "NOP"@
    } else {
        "ILLEGAL"@
    }
}

/// An opcode identifier in the closed 0-255 opcode space, keyed by its byte
/// value as fetched from memory at the program counter.
#[derive(Clone, Copy, PartialEq, Eq, Structural, Debug)]
pub struct Opcode {
    byte: u8,
}

impl View for Opcode {
    type V = u8;

    closed spec fn view(&self) -> u8 {
        self.byte
    }
}

impl Opcode {
    /// Decode a fetched byte into its opcode identifier. Total: every byte
    /// value yields an opcode, with no fallible path.
    pub fn from_byte(byte: u8) -> (r: Self)
        ensures
            r@ == byte,
    {
        Opcode { byte }
    }

    /// The NOP opcode, the reset value of the instruction register.
    pub fn nop() -> (r: Self)
        ensures
            r@ == 0x00,
    {
        Opcode { byte: 0x00 }
    }

    /// The opcode's byte value.
    pub fn byte(&self) -> (r: u8)
        ensures
            r == self@,
    {
        self.byte
    }

    /// The ordered m-code sequence this opcode expands to, one per m-cycle.
    pub fn mcode(&self) -> (r: Vec<MCode>)
        ensures
            r@ == spec_decode(self@),
            r@.len() >= 1,
    {
        let mut r: Vec<MCode> = Vec::new();
        if self.byte == 0x00 {
            r.push(MCode::Nop);
        } else {
            r.push(MCode::Illegal);
        }
        proof {
            assert(r@ =~= spec_decode(self@));
        }
        r
    }

    /// The canonical display mnemonic, used in diagnostics.
    pub fn mnemonic(&self) -> (r: &'static str)
        ensures
            r@ == spec_mnemonic(self@),
    {
        if self.byte == 0x00 {
            "NOP"
        } else {
            "ILLEGAL"
        }
    }
}

/// Decode completeness law: for every possible opcode byte value, decoding
/// succeeds and yields a non-empty m-code sequence — the real sequence for an
/// implemented opcode, the well-defined illegal marker for the rest. Decoding
/// itself never fails.
pub proof fn lemma_decode_total(op: u8)
    ensures
        spec_decode(op).len() >= 1,
        op == 0x00 ==> spec_decode(op) == seq![MCode::Nop],
        op != 0x00 ==> spec_decode(op) == seq![MCode::Illegal],
{
}

} // verus!
