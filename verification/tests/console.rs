use dotmatrix::Cartridge;
use dotmatrix::DotMatrix;

#[test]
fn new_dmg_console_wiring() {
    let console = DotMatrix::new_dmg();
    assert_eq!(console.cpu.pc, 0x0100);
    assert_eq!(console.cpu.sp, 0xFFFE);
    assert_eq!(console.bus.read(0x0100), 0xFF);
    assert!(console.cartridge.is_none());
}

#[test]
fn console_runs_one_instruction() {
    let mut console = DotMatrix::new_with_flat_bus();
    console.bus.write(0x0100, 0x00);

    console.exec_instruction();

    assert_eq!(console.cpu.pc, 0x0101);
    assert_eq!(console.cpu.sp, 0xFFFE);
    assert!(console.cpu.mcode_queue.is_empty());
    assert_eq!(console.cpu.registers.a(), 0x01);
}

#[test]
fn load_shares_rom_read_only() {
    let mut console = DotMatrix::new_dmg();
    console.load(vec![0x00, 0x11, 0x22, 0x33].into_boxed_slice());

    let cartridge = console.cartridge.as_ref().expect("cartridge was loaded");
    assert_eq!(cartridge.read(0), 0x00);
    assert_eq!(cartridge.read(1), 0x11);
    assert_eq!(cartridge.read(3), 0x33);
}

#[test]
fn cartridge_reads_its_rom_bytes() {
    let cartridge = Cartridge::new(vec![0xDE, 0xAD, 0xBE, 0xEF].into_boxed_slice());
    assert_eq!(cartridge.read(0), 0xDE);
    assert_eq!(cartridge.read(1), 0xAD);
    assert_eq!(cartridge.read(2), 0xBE);
    assert_eq!(cartridge.read(3), 0xEF);
}
