use std::collections::VecDeque;

use dotmatrix::Bus;
use dotmatrix::MCode;
use dotmatrix::Opcode;
use dotmatrix::Sm83;
use dotmatrix::Sm83Registers;
use dotmatrix::text::hex2;
use dotmatrix::text::hex4;
use dotmatrix::text::str_eq;

#[test]
fn every_opcode_byte_decodes() {
    let mut op: u32 = 0;
    while op <= 0xFF {
        let opcode = Opcode::from_byte(op as u8);
        assert_eq!(opcode.byte(), op as u8);
        let mcodes = opcode.mcode();
        assert!(!mcodes.is_empty());
        if op == 0x00 {
            assert_eq!(mcodes, vec![MCode::Nop]);
            assert_eq!(opcode.mnemonic(), "NOP");
        } else {
            assert_eq!(mcodes, vec![MCode::Illegal]);
            assert_eq!(opcode.mnemonic(), "ILLEGAL");
        }
        op += 1;
    }
}

#[test]
fn mcode_from_str_parses_known_mnemonics() {
    assert_eq!(MCode::from_str("NOP"), Ok(MCode::Nop));
    assert_eq!(MCode::from_str("ILLEGAL"), Ok(MCode::Illegal));
    assert_eq!(MCode::from_str("nop"), Err(()));
    assert_eq!(MCode::from_str(""), Err(()));
    assert_eq!(MCode::from_str("HALT"), Err(()));
    assert_eq!(MCode::from_str("NOPX"), Err(()));
}

#[test]
fn nop_mcode_exec_changes_nothing() {
    let mut bus = Bus::flat();
    let mut cpu = Sm83 {
        registers: Sm83Registers::from_raw(0x0102_0304_0506_0708),
        pc: 0x4321,
        sp: 0x8765,
        ir: Opcode::from_byte(0x00),
        mcode_queue: VecDeque::new(),
    };

    MCode::Nop.exec(&mut cpu, &mut bus);

    assert_eq!(cpu.pc, 0x4321);
    assert_eq!(cpu.sp, 0x8765);
    assert_eq!(cpu.registers, Sm83Registers::from_raw(0x0102_0304_0506_0708));
    assert!(cpu.mcode_queue.is_empty());
    assert_eq!(bus.read(0x0000), 0xFF);
}

#[test]
fn hex_rendering_exact_values() {
    assert_eq!(hex2(0x00).as_str(), "00");
    assert_eq!(hex2(0x0A).as_str(), "0A");
    assert_eq!(hex2(0xCD).as_str(), "CD");
    assert_eq!(hex2(0xFF).as_str(), "FF");
    assert_eq!(hex4(0x0000).as_str(), "0000");
    assert_eq!(hex4(0x0123).as_str(), "0123");
    assert_eq!(hex4(0xBEEF).as_str(), "BEEF");
}

#[test]
fn str_eq_compares_exactly() {
    assert!(str_eq("NOP", "NOP"));
    assert!(str_eq("", ""));
    assert!(!str_eq("NOP", "NO"));
    assert!(!str_eq("NOP", "NOQ"));
    assert!(!str_eq("", "A"));
}
