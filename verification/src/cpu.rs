//! The SM83 by Sharp is the CPU used in the DMG. It is distinct from a Zilog
//! Z80 despite several similarities.
//!
//! The execution engine is a state machine stepped one m-cycle at a time: each
//! step pops and executes one m-code from the pending queue, fetching (and
//! decoding) the next instruction during the current instruction's last cycle.

use std::collections::VecDeque;

use vstd::prelude::*;

use crate::bus::Bus;
use crate::bus::wrap_inc;
use crate::mcode::MCode;
use crate::opcode::Opcode;
use crate::opcode::spec_decode;
use crate::registers::Sm83Registers;
use crate::registers::spec_a;
use crate::registers::spec_bc;
use crate::registers::spec_c_flag;
use crate::registers::spec_de;
use crate::registers::spec_h_flag;
use crate::registers::spec_hl;
use crate::registers::spec_n_flag;
use crate::registers::spec_z_flag;
use crate::text::bit_str;
use crate::text::hex2;
use crate::text::hex4;
use crate::text::spec_bit_char;
use crate::text::spec_hex2;
use crate::text::spec_hex4;
use vstd::string::StringExecFns;

verus! {

/// The value of PC _after running the boot ROM_.
const AFTER_BOOT_PC: u16 = 0x0100;

/// The value of SP _after running the boot ROM_.
const AFTER_BOOT_SP: u16 = 0xFFFE;

/// The abstract state of the CPU: the packed register file as its raw backing
/// value, the two independent address registers, the instruction register's
/// byte, and the pending m-code queue.
pub ghost struct CpuState {
    pub registers: u64,
    pub pc: u16,
    pub sp: u16,
    pub ir: u8,
    pub queue: Seq<MCode>,
}

/// One fetch: read the opcode byte at PC, set IR, append the opcode's whole
/// m-code sequence to the back of the queue, and advance PC by one with 16-bit
/// wraparound.
pub open spec fn spec_fetch(s: CpuState, mem: Seq<u8>) -> CpuState {
    let op = mem[s.pc as int];
    CpuState { ir: op, queue: s.queue + spec_decode(op), pc: wrap_inc(s.pc), ..s }
}

/// The effect of executing one m-code, if it can execute at all: a no-op
/// changes nothing; the illegal marker has no successor state, because
/// executing it is a fatal condition, never a silent no-op.
pub open spec fn spec_exec_mcode(s: CpuState, mcode: MCode) -> Option<CpuState> {
    match mcode {
        MCode::Nop => Some(s),
        MCode::Illegal => None,
    }
}

/// One m-cycle: fetch when at most one m-code is pending — the real overlap,
/// where the next opcode's fetch happens during the current instruction's last
/// cycle — then pop the front m-code and execute it. The decode table never
/// yields an empty sequence, so the queue is never empty when popped.
pub open spec fn spec_m_cycle(s: CpuState, mem: Seq<u8>) -> Option<CpuState> {
    let t = if s.queue.len() <= 1 {
        spec_fetch(s, mem)
    } else {
        s
    };
    spec_exec_mcode(CpuState { queue: t.queue.drop_first(), ..t }, t.queue[0])
}

/// Run the pending queue to exhaustion, without any further fetch.
pub open spec fn spec_run_queue(s: CpuState) -> Option<CpuState>
    decreases s.queue.len(),
{
    if s.queue.len() == 0 {
        Some(s)
    } else {
        match spec_exec_mcode(CpuState { queue: s.queue.drop_first(), ..s }, s.queue[0]) {
            Some(t) => spec_run_queue(t),
            None => None,
        }
    }
}

/// A whole instruction, as the conformance harness drives it: fetch if the
/// queue is empty, then pop and execute m-codes until the queue is empty again.
pub open spec fn spec_instruction(s: CpuState, mem: Seq<u8>) -> Option<CpuState> {
    let t = if s.queue.len() == 0 {
        spec_fetch(s, mem)
    } else {
        s
    };
    spec_run_queue(t)
}

/// The SM83 execution engine's persistent state.
///
/// Names are not short for the purpose of saving characters, these are the
/// names the community and documentation have settled upon.
#[derive(Clone, PartialEq, Eq)]
pub struct Sm83 {
    /// The general purpose registers and flags of the [`Sm83`].
    pub registers: Sm83Registers,
    /// The program counter, points to the next instruction in memory.
    pub pc: u16,
    /// The stack pointer, points to the "top" stack frame in memory.
    /// _(The stack grows downward)_
    pub sp: u16,
    /// The instruction register holds the opcode of the currently executing
    /// instruction.
    pub ir: Opcode,
    /// A queue of m-codes to be executed over the next few cycles.
    pub mcode_queue: VecDeque<MCode>,
}

impl View for Sm83 {
    type V = CpuState;

    open spec fn view(&self) -> CpuState {
        CpuState {
            registers: self.registers@,
            pc: self.pc,
            sp: self.sp,
            ir: self.ir@,
            queue: self.mcode_queue@,
        }
    }
}

impl Sm83 {
    /// Create a new [`Sm83`] configured for use in a DMG.
    pub fn new_dmg() -> (r: Self)
        ensures
            r@.registers == 0x01_4D_00_D8_00_13_01_B0,
            r@.pc == 0x0100,
            r@.sp == 0xFFFE,
            r@.ir == 0x00,
            r@.queue == Seq::<MCode>::empty(),
    {
        let r = Sm83 {
            registers: Sm83Registers::initial_dmg(),
            pc: AFTER_BOOT_PC,
            sp: AFTER_BOOT_SP,
            ir: Opcode::nop(),
            mcode_queue: VecDeque::with_capacity(8),
        };
        proof {
            assert(r@.queue =~= Seq::<MCode>::empty());
        }
        r
    }

    /// Retrieve the next instruction and increment PC.
    pub fn fetch(&mut self, bus: &mut Bus)
        requires
            old(bus).wf(),
        ensures
            final(self)@ == spec_fetch(old(self)@, old(bus)@),
            *final(bus) == *old(bus),
    {
        let opcode_byte = bus.read(self.pc);
        self.ir = Opcode::from_byte(opcode_byte);
        let mcodes = self.ir.mcode();

        let mut i: usize = 0;
        while i < mcodes.len()
            invariant
                0 <= i <= mcodes@.len(),
                self.mcode_queue@ == old(self).mcode_queue@ + mcodes@.take(i as int),
                self.pc == old(self).pc,
                self.sp == old(self).sp,
                self.registers == old(self).registers,
                self.ir@ == opcode_byte,
            decreases mcodes@.len() - i,
        {
            self.mcode_queue.push_back(mcodes[i]);
            proof {
                assert(self.mcode_queue@ =~= old(self).mcode_queue@ + mcodes@.take(i + 1));
            }
            i = i + 1;
        }

        self.pc = self.pc.wrapping_add(1);

        proof {
            assert(self.mcode_queue@ =~= old(self).mcode_queue@ + mcodes@);
            assert(self.pc == wrap_inc(old(self).pc));
        }
    }

    /// Execute one m-cycle worth of code on the CPU.
    ///
    /// The fetch step guarantees the queue is never popped while empty, and the
    /// precondition rules out the one fatal outcome, an illegal m-code at the
    /// front of the queue.
    pub fn exec_m_cycle(&mut self, bus: &mut Bus)
        requires
            old(bus).wf(),
            spec_m_cycle(old(self)@, old(bus)@) is Some,
        ensures
            spec_m_cycle(old(self)@, old(bus)@) == Some(final(self)@),
            *final(bus) == *old(bus),
    {
        // Fetching the next instruction and executing the current overlap by one m-cycle.
        if self.mcode_queue.len() <= 1 {
            self.fetch(bus);
        }

        let mcode = self.mcode_queue.pop_front().expect("Attempted to pop from empty mcode_queue");

        self.exec_mcode(mcode, bus);

        proof {
            assert(self.mcode_queue@ =~= spec_m_cycle(old(self)@, old(bus)@).unwrap().queue);
        }
    }

    /// Execute until the end of the current instruction. Fetches an instruction
    /// if the queue is empty.
    ///
    /// For testing purposes, specifically single-instruction conformance
    /// vectors, where only the final state matters: this does not replicate the
    /// real fetch/execute overlap.
    pub fn exec_instruction(&mut self, bus: &mut Bus)
        requires
            old(bus).wf(),
            spec_instruction(old(self)@, old(bus)@) is Some,
        ensures
            spec_instruction(old(self)@, old(bus)@) == Some(final(self)@),
            *final(bus) == *old(bus),
    {
        if self.mcode_queue.len() == 0 {
            self.fetch(bus);
        }

        let ghost target = spec_instruction(old(self)@, old(bus)@);
        let ghost bus_entry = *bus;

        while self.mcode_queue.len() > 0
            invariant
                spec_run_queue(self@) == target,
                target is Some,
                *bus == bus_entry,
            decreases self.mcode_queue@.len(),
        {
            let ghost before = self@;
            let mcode = self.mcode_queue.pop_front().expect(
                "Attempted to pop from empty mcode_queue",
            );
            proof {
                assert(self.mcode_queue@ =~= before.queue.drop_first());
                // An illegal m-code at the front would make the whole run fail,
                // against the loop invariant.
                assert(mcode is Nop);
            }
            self.exec_mcode(mcode, bus);
        }
    }

    fn exec_mcode(&mut self, mcode: MCode, bus: &mut Bus)
        requires
            mcode is Nop,
        ensures
            *final(self) == *old(self),
            *final(bus) == *old(bus),
    {
        match mcode {
            MCode::Nop => (),
            MCode::Illegal => unreached(),
        }
    }

    /// Render the CPU state on one line for diagnostics: the accumulator, the
    /// four flags, the three register pairs, and the two address registers,
    /// each in upper-case hexadecimal.
    pub fn debug_string(&self) -> (r: String)
        ensures
            r@ == spec_debug_string(self@),
    {
        let mut r = String::new();
        r.append("Sm83 { A:");
        r.append(hex2(self.registers.a()).as_str());
        r.append(" c:");
        r.append(bit_str(self.registers.c_flag()));
        r.append(" h:");
        r.append(bit_str(self.registers.h_flag()));
        r.append(" n:");
        r.append(bit_str(self.registers.n_flag()));
        r.append(" z:");
        r.append(bit_str(self.registers.z_flag()));
        r.append(" BC:");
        r.append(hex4(self.registers.bc()).as_str());
        r.append(" DE:");
        r.append(hex4(self.registers.de()).as_str());
        r.append(" HL:");
        r.append(hex4(self.registers.hl()).as_str());
        r.append(" SP:");
        r.append(hex4(self.sp).as_str());
        r.append(" PC:");
        r.append(hex4(self.pc).as_str());
        r.append(" }");
        proof {
            assert(r@ =~= spec_debug_string(self@));
        }
        r
    }
}

/// The one-line diagnostic rendering of a CPU state.
pub open spec fn spec_debug_string(s: CpuState) -> Seq<char> {
    "Sm83 { A:"@ + spec_hex2(spec_a(s.registers)) + " c:"@ + seq![
        spec_bit_char(spec_c_flag(s.registers)),
    ] + " h:"@ + seq![spec_bit_char(spec_h_flag(s.registers))] + " n:"@ + seq![
        spec_bit_char(spec_n_flag(s.registers)),
    ] + " z:"@ + seq![spec_bit_char(spec_z_flag(s.registers))] + " BC:"@ + spec_hex4(
        spec_bc(s.registers),
    ) + " DE:"@ + spec_hex4(spec_de(s.registers)) + " HL:"@ + spec_hex4(spec_hl(s.registers))
        + " SP:"@ + spec_hex4(s.sp) + " PC:"@ + spec_hex4(s.pc) + " }"@
}

/// Every pending m-code is a no-op: exactly the queues that can run to
/// exhaustion without hitting the fatal illegal marker.
pub open spec fn all_nop(queue: Seq<MCode>) -> bool {
    forall|i: int| 0 <= i < queue.len() ==> queue[i] is Nop
}

/// When running the pending queue succeeds, and what it leaves behind: the run
/// reaches the end of the queue exactly when no illegal m-code is pending, and
/// a queue of no-ops leaves every register untouched.
pub proof fn lemma_run_queue(s: CpuState)
    ensures
        spec_run_queue(s) is Some <==> all_nop(s.queue),
        all_nop(s.queue) ==> spec_run_queue(s) == Some(
            CpuState { queue: Seq::<MCode>::empty(), ..s },
        ),
    decreases s.queue.len(),
{
    if s.queue.len() == 0 {
        assert(s.queue =~= Seq::<MCode>::empty());
    } else {
        let rest = CpuState { queue: s.queue.drop_first(), ..s };
        lemma_run_queue(rest);
        if s.queue[0] is Nop {
            if all_nop(rest.queue) {
                assert forall|i: int| 0 <= i < s.queue.len() implies s.queue[i] is Nop by {
                    if i > 0 {
                        assert(s.queue[i] == rest.queue[i - 1]);
                    }
                }
            }
            if all_nop(s.queue) {
                assert forall|i: int| 0 <= i < rest.queue.len() implies rest.queue[i] is Nop by {
                    assert(rest.queue[i] == s.queue[i + 1]);
                }
            }
        } else {
            assert(!all_nop(s.queue));
        }
    }
}

/// When a whole instruction can execute, and what it does: from a state between
/// instructions (empty queue), `spec_instruction` succeeds exactly when the
/// opcode at PC decodes to no illegal m-code, and then it sets IR to that
/// opcode, advances PC by one with wraparound, drains the queue, and touches
/// nothing else.
pub proof fn lemma_instruction_runs(s: CpuState, mem: Seq<u8>)
    requires
        s.queue.len() == 0,
    ensures
        spec_instruction(s, mem) is Some <==> all_nop(spec_decode(mem[s.pc as int])),
        all_nop(spec_decode(mem[s.pc as int])) ==> spec_instruction(s, mem) == Some(
            CpuState {
                ir: mem[s.pc as int],
                pc: wrap_inc(s.pc),
                queue: Seq::<MCode>::empty(),
                ..s
            },
        ),
{
    let t = spec_fetch(s, mem);
    assert(t.queue =~= spec_decode(mem[s.pc as int]));
    lemma_run_queue(t);
}

/// End-to-end no-op law: from any state between instructions, executing one
/// instruction whose opcode byte is 0x00 (NOP) advances PC by one and changes
/// nothing else — registers, SP and the queue's emptiness are all preserved,
/// and the bus is never written.
pub proof fn lemma_nop_instruction(s: CpuState, mem: Seq<u8>)
    requires
        s.queue.len() == 0,
        mem[s.pc as int] == 0x00,
    ensures
        spec_instruction(s, mem) == Some(
            CpuState { ir: 0x00, pc: wrap_inc(s.pc), queue: Seq::<MCode>::empty(), ..s },
        ),
{
    lemma_instruction_runs(s, mem);
}

/// Fetch/execute overlap law: between instructions the queue is empty, so each
/// m-cycle fetches before popping, and a single-m-code instruction (such as a
/// no-op) followed immediately by another occupies exactly two m-cycles in
/// total — one per instruction, with no extra cycle at the boundary. Registers,
/// SP and memory are untouched throughout.
pub proof fn lemma_fetch_execute_overlap(s: CpuState, mem: Seq<u8>)
    requires
        s.queue.len() == 0,
        mem[s.pc as int] == 0x00,
        mem[wrap_inc(s.pc) as int] == 0x00,
    ensures
        spec_m_cycle(s, mem) == Some(
            CpuState { ir: 0x00, pc: wrap_inc(s.pc), queue: Seq::<MCode>::empty(), ..s },
        ),
        spec_m_cycle(
            CpuState { ir: 0x00, pc: wrap_inc(s.pc), queue: Seq::<MCode>::empty(), ..s },
            mem,
        ) == Some(
            CpuState { ir: 0x00, pc: wrap_inc(wrap_inc(s.pc)), queue: Seq::<MCode>::empty(), ..s },
        ),
{
    let s1 = spec_fetch(s, mem);
    assert(s1.queue.drop_first() =~= Seq::<MCode>::empty());
    let t = CpuState { ir: 0x00, pc: wrap_inc(s.pc), queue: Seq::<MCode>::empty(), ..s };
    let t1 = spec_fetch(t, mem);
    assert(t1.queue.drop_first() =~= Seq::<MCode>::empty());
}

} // verus!
