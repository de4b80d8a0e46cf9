use std::collections::VecDeque;

use dotmatrix::Bus;
use dotmatrix::Opcode;
use dotmatrix::Sm83;
use dotmatrix::Sm83Registers;

#[test]
fn sm83_debug() {
    let expected = "Sm83 { A:CD c:1 h:0 n:1 z:0 BC:89AB DE:4567 HL:0123 SP:A801 PC:532D }";
    let registers = Sm83Registers::from_raw(0x01_23_45_67_89_AB_CD_50);
    let cpu = Sm83 {
        registers,
        pc: 0x532D,
        sp: 0xA801,
        ir: Opcode::nop(),
        mcode_queue: VecDeque::with_capacity(0),
    };

    assert_eq!(expected, cpu.debug_string().as_str());
}

#[test]
fn new_dmg_cpu_state() {
    let cpu = Sm83::new_dmg();
    assert_eq!(cpu.pc, 0x0100);
    assert_eq!(cpu.sp, 0xFFFE);
    assert_eq!(cpu.ir.byte(), 0x00);
    assert!(cpu.mcode_queue.is_empty());
    assert_eq!(cpu.registers.a(), 0x01);
    assert_eq!(cpu.registers.f(), 0xB0);
}

#[test]
fn fetch_decodes_and_advances_pc() {
    let mut bus = Bus::flat();
    bus.write(0x0100, 0x00);
    let mut cpu = Sm83::new_dmg();

    cpu.fetch(&mut bus);

    assert_eq!(cpu.ir.byte(), 0x00);
    assert_eq!(cpu.pc, 0x0101);
    assert_eq!(cpu.mcode_queue.len(), 1);
}

#[test]
fn two_nops_take_exactly_two_m_cycles() {
    let mut bus = Bus::flat();
    bus.write(0x0100, 0x00);
    bus.write(0x0101, 0x00);
    let mut cpu = Sm83::new_dmg();

    // First m-cycle: fetch overlaps with execution, completing the first NOP.
    cpu.exec_m_cycle(&mut bus);
    assert_eq!(cpu.pc, 0x0101);
    assert!(cpu.mcode_queue.is_empty());

    // Second m-cycle: same again; no extra cycle at the instruction boundary.
    cpu.exec_m_cycle(&mut bus);
    assert_eq!(cpu.pc, 0x0102);
    assert!(cpu.mcode_queue.is_empty());

    assert_eq!(cpu.registers.a(), 0x01);
    assert_eq!(cpu.sp, 0xFFFE);
}

#[test]
fn nop_end_to_end() {
    let mut bus = Bus::flat();
    bus.write(0x0000, 0x00);
    let mut cpu = Sm83 {
        registers: Sm83Registers::from_raw(0),
        pc: 0x0000,
        sp: 0xFFFE,
        ir: Opcode::nop(),
        mcode_queue: VecDeque::new(),
    };

    cpu.exec_instruction(&mut bus);

    assert_eq!(cpu.pc, 0x0001);
    assert_eq!(cpu.sp, 0xFFFE);
    assert!(cpu.mcode_queue.is_empty());
    assert_eq!(cpu.registers.a(), 0x00);
    assert_eq!(cpu.registers.f(), 0x00);
    assert_eq!(cpu.registers.bc(), 0x0000);
    assert_eq!(cpu.registers.de(), 0x0000);
    assert_eq!(cpu.registers.hl(), 0x0000);
    // No RAM side effects.
    assert_eq!(bus.read(0x0000), 0x00);
    assert_eq!(bus.read(0x0001), 0xFF);
    assert_eq!(bus.read(0xFFFE), 0xFF);
}

#[test]
fn pc_wraps_after_fetch_at_top_of_memory() {
    let mut bus = Bus::flat();
    bus.write(0xFFFF, 0x00);
    let mut cpu = Sm83::new_dmg();
    cpu.pc = 0xFFFF;

    cpu.exec_instruction(&mut bus);

    assert_eq!(cpu.pc, 0x0000);
    assert!(cpu.mcode_queue.is_empty());
}

#[test]
fn exec_instruction_runs_pending_queue_first() {
    let mut bus = Bus::flat();
    bus.write(0x0100, 0x00);
    let mut cpu = Sm83::new_dmg();

    cpu.fetch(&mut bus);
    assert_eq!(cpu.mcode_queue.len(), 1);

    // The queue is not empty, so this run only drains it, without fetching.
    cpu.exec_instruction(&mut bus);
    assert!(cpu.mcode_queue.is_empty());
    assert_eq!(cpu.pc, 0x0101);
}
