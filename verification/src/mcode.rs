//! Break each instruction on the SM83 down to the actions to perform each
//! machine cycle (m-cycle). This library calls that m-code, and it is not based
//! directly on any microcode the SM83 may or may not have: it is pulled from
//! the instruction diagrams in the Gameboy Complete Technical Reference.

use vstd::prelude::*;

use crate::bus::Bus;
use crate::cpu::Sm83;
use crate::text::str_eq;

verus! {

/// An atomic unit of instruction behavior, consuming exactly one m-cycle.
#[derive(Clone, Copy, PartialEq, Eq, Structural, Debug)]
pub enum MCode {
    /// Perform no action.
    Nop,
    /// An illegal instruction, halts execution immediately.
    Illegal,
}

impl MCode {
    /// Execute this m-code against the CPU and bus, consuming one m-cycle. An
    /// illegal m-code is a fatal condition and is ruled out up front: it must
    /// fail loudly at the caller, never be silently treated as a no-op.
    pub fn exec(&self, cpu: &mut Sm83, bus: &mut Bus)
        requires
            self is Nop,
        ensures
            *final(cpu) == *old(cpu),
            *final(bus) == *old(bus),
    {
        match self {
            MCode::Nop => (),
            MCode::Illegal => unreached(),
        }
    }

    /// Parse an m-code from its mnemonic.
    pub fn from_str(mcode: &str) -> (r: Result<MCode, ()>)
        ensures
            r == Ok::<MCode, ()>(MCode::Nop) <==> mcode@ == "NOP"@,
            r == Ok::<MCode, ()>(MCode::Illegal) <==> mcode@ == "ILLEGAL"@,
            r is Err <==> (mcode@ != "NOP"@ && mcode@ != "ILLEGAL"@),
    {
        proof {
            reveal_strlit("NOP");
            reveal_strlit("ILLEGAL");
            assert("NOP"@.len() == 3);
            assert("ILLEGAL"@.len() == 7);
        }
        if str_eq(mcode, "NOP") {
            Ok(MCode::Nop)
        } else if str_eq(mcode, "ILLEGAL") {
            Ok(MCode::Illegal)
        } else {
            Err(())
        }
    }
}

impl std::str::FromStr for MCode {
    type Err = ();

    fn from_str(mcode: &str) -> Result<Self, Self::Err> {
        MCode::from_str(mcode)
    }
}

} // verus!
