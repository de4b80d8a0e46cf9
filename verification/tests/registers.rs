use dotmatrix::Sm83Registers;

#[test]
fn half_register_writes_show_through_pairs() {
    let mut r = Sm83Registers::from_raw(0);

    r.set_b(0xAB);
    r.set_c(0xCD);
    assert_eq!(r.bc(), 0xABCD);
    assert_eq!(r.b(), 0xAB);
    assert_eq!(r.c(), 0xCD);

    r.set_d(0x12);
    r.set_e(0x34);
    assert_eq!(r.de(), 0x1234);

    r.set_h(0x56);
    r.set_l(0x78);
    assert_eq!(r.hl(), 0x5678);

    r.set_a(0x9A);
    assert_eq!(r.af(), 0x9A00);
}

#[test]
fn pair_writes_show_through_halves() {
    let mut r = Sm83Registers::from_raw(0xFFFF_FFFF_FFFF_FFFF);

    r.set_bc(0x1122);
    assert_eq!(r.b(), 0x11);
    assert_eq!(r.c(), 0x22);

    r.set_de(0x3344);
    assert_eq!(r.d(), 0x33);
    assert_eq!(r.e(), 0x44);

    r.set_hl(0x5566);
    assert_eq!(r.h(), 0x55);
    assert_eq!(r.l(), 0x66);

    r.set_af(0x77EF);
    assert_eq!(r.a(), 0x77);
    assert_eq!(r.f(), 0xE0);
}

#[test]
fn f_low_nibble_always_reads_zero() {
    let mut r = Sm83Registers::from_raw(0);
    r.set_f(0xFF);
    assert_eq!(r.f(), 0xF0);
    r.set_f(0xB5);
    assert_eq!(r.f(), 0xB0);
    r.set_f(0x0F);
    assert_eq!(r.f(), 0x00);
    r.set_af(0xABCD);
    assert_eq!(r.af(), 0xABC0);
    assert_eq!(r.f(), 0xC0);
}

#[test]
fn flags_are_bits_of_f() {
    let mut r = Sm83Registers::from_raw(0);
    r.set_z_flag(true);
    r.set_h_flag(true);
    assert_eq!(r.f(), 0xA0);
    assert!(r.z_flag());
    assert!(!r.n_flag());
    assert!(r.h_flag());
    assert!(!r.c_flag());

    r.set_f(0x50);
    assert!(!r.z_flag());
    assert!(r.n_flag());
    assert!(!r.h_flag());
    assert!(r.c_flag());

    r.set_c_flag(true);
    assert_eq!(r.f(), 0x50);
    r.set_n_flag(false);
    assert_eq!(r.f(), 0x10);
}

#[test]
fn initial_dmg_pattern() {
    let r = Sm83Registers::initial_dmg();
    assert_eq!(r.a(), 0x01);
    assert_eq!(r.f(), 0xB0);
    assert_eq!(r.b(), 0x00);
    assert_eq!(r.c(), 0x13);
    assert_eq!(r.d(), 0x00);
    assert_eq!(r.e(), 0xD8);
    assert_eq!(r.h(), 0x01);
    assert_eq!(r.l(), 0x4D);
    assert!(r.z_flag());
    assert!(!r.n_flag());
    assert!(r.h_flag());
    assert!(r.c_flag());
}

#[test]
fn initial_mgb_pattern() {
    let r = Sm83Registers::initial_mgb();
    assert_eq!(r.a(), 0xFF);
    assert_eq!(r.f(), 0xB0);
    assert_eq!(r.b(), 0x00);
    assert_eq!(r.c(), 0x13);
    assert_eq!(r.d(), 0x00);
    assert_eq!(r.e(), 0xD8);
    assert_eq!(r.h(), 0x01);
    assert_eq!(r.l(), 0x4D);
}

#[test]
fn initial_sgb_pattern() {
    let r = Sm83Registers::initial_sgb();
    assert_eq!(r.a(), 0x01);
    assert_eq!(r.f(), 0x00);
    assert_eq!(r.b(), 0x00);
    assert_eq!(r.c(), 0x14);
    assert_eq!(r.d(), 0x00);
    assert_eq!(r.e(), 0x00);
    assert_eq!(r.h(), 0xC0);
    assert_eq!(r.l(), 0x60);
}

#[test]
fn initial_sgb2_pattern() {
    let r = Sm83Registers::initial_sgb2();
    assert_eq!(r.a(), 0xFF);
    assert_eq!(r.f(), 0x00);
    assert_eq!(r.b(), 0x00);
    assert_eq!(r.c(), 0x14);
    assert_eq!(r.d(), 0x00);
    assert_eq!(r.e(), 0x00);
    assert_eq!(r.h(), 0xC0);
    assert_eq!(r.l(), 0x60);
}

#[test]
fn initial_cgb_pattern() {
    let r = Sm83Registers::initial_cgb();
    assert_eq!(r.a(), 0x11);
    assert_eq!(r.f(), 0x80);
    assert_eq!(r.b(), 0x00);
    assert_eq!(r.c(), 0x00);
    assert_eq!(r.d(), 0x00);
    assert_eq!(r.e(), 0x08);
    assert_eq!(r.h(), 0x00);
    assert_eq!(r.l(), 0x7C);
}

#[test]
fn initial_agb_pattern() {
    let r = Sm83Registers::initial_agb();
    assert_eq!(r.a(), 0x11);
    assert_eq!(r.f(), 0x00);
    assert_eq!(r.b(), 0x01);
    assert_eq!(r.c(), 0x00);
    assert_eq!(r.d(), 0x00);
    assert_eq!(r.e(), 0x08);
    assert_eq!(r.h(), 0x00);
    assert_eq!(r.l(), 0x7C);
}

#[test]
fn initial_ags_pattern() {
    let r = Sm83Registers::initial_ags();
    assert_eq!(r.a(), 0x11);
    assert_eq!(r.f(), 0x00);
    assert_eq!(r.b(), 0x01);
    assert_eq!(r.c(), 0x00);
    assert_eq!(r.d(), 0x00);
    assert_eq!(r.e(), 0x08);
    assert_eq!(r.h(), 0x00);
    assert_eq!(r.l(), 0x7C);
}
