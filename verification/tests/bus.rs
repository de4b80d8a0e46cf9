use dotmatrix::Bus;

#[test]
fn fresh_bus_reads_ff_everywhere() {
    let bus = Bus::new_dmg();
    assert_eq!(bus.read(0x0000), 0xFF);
    assert_eq!(bus.read(0x1234), 0xFF);
    assert_eq!(bus.read(0xFFFF), 0xFF);
}

#[test]
fn every_address_round_trips() {
    let mut bus = Bus::flat();
    let mut addr: u32 = 0;
    while addr <= 0xFFFF {
        let value = (addr ^ (addr >> 8)) as u8;
        bus.write(addr as u16, value);
        assert_eq!(bus.read(addr as u16), value);
        addr += 1;
    }
    // A second pass: the writes above landed in distinct cells.
    addr = 0;
    while addr <= 0xFFFF {
        let value = (addr ^ (addr >> 8)) as u8;
        assert_eq!(bus.read(addr as u16), value);
        addr += 1;
    }
}

#[test]
fn write_leaves_other_addresses_alone() {
    let mut bus = Bus::flat();
    bus.write(0x1234, 0x42);
    assert_eq!(bus.read(0x1234), 0x42);
    assert_eq!(bus.read(0x1233), 0xFF);
    assert_eq!(bus.read(0x1235), 0xFF);
    assert_eq!(bus.read(0x1334), 0xFF);
}

#[test]
fn read16_is_little_endian() {
    let mut bus = Bus::flat();
    bus.write(0x0200, 0x34);
    bus.write(0x0201, 0x12);
    assert_eq!(bus.read16(0x0200), 0x1234);
}

#[test]
fn write16_is_little_endian() {
    let mut bus = Bus::flat();
    bus.write16(0x0300, 0xBEEF);
    assert_eq!(bus.read(0x0300), 0xEF);
    assert_eq!(bus.read(0x0301), 0xBE);
    assert_eq!(bus.read16(0x0300), 0xBEEF);
}

#[test]
fn write16_crosses_page_boundary() {
    let mut bus = Bus::flat();
    bus.write16(0x02FF, 0xCAFE);
    assert_eq!(bus.read(0x02FF), 0xFE);
    assert_eq!(bus.read(0x0300), 0xCA);
    assert_eq!(bus.read16(0x02FF), 0xCAFE);
}

#[test]
fn sixteen_bit_access_wraps_around_address_space() {
    let mut bus = Bus::flat();
    bus.write16(0xFFFF, 0xABCD);
    assert_eq!(bus.read16(0xFFFF), 0xABCD);
    assert_eq!(bus.read(0xFFFF), 0xCD);
    // The high byte lands at 0x0000: address-space wrap, not an error.
    assert_eq!(bus.read(0x0000), 0xAB);
}
