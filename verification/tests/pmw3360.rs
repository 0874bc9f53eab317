use rmk::pmw3360::{
    address_byte, angle_value, check_fw_signature, check_product_id, decode_burst, resolution_value, Pmw3360Config,
    Pmw3360Error, Register,
};

#[test]
fn pmw3360_default_config() {
    let c = Pmw3360Config::default();
    assert_eq!(c.res_cpi, 1600);
    assert_eq!(c.rot_trans_angle, 0);
    assert_eq!(c.liftoff_dist, 0x02);
    assert!(!c.invert_x && !c.invert_y && !c.swap_xy);
}

#[test]
fn pmw3360_register_values() {
    assert_eq!(resolution_value(1600), Ok(15));
    assert_eq!(resolution_value(100), Ok(0));
    assert_eq!(resolution_value(12000), Ok(119));
    assert_eq!(resolution_value(99), Err(Pmw3360Error::InvalidCpi));
    assert_eq!(resolution_value(12100), Err(Pmw3360Error::InvalidCpi));
    assert_eq!(angle_value(-1), 0xFF);
    assert_eq!(angle_value(30), 30);
    assert_eq!(address_byte(0x50, true), 0xD0);
    assert_eq!(address_byte(0x82, false), 0x02);
}

#[test]
fn pmw3360_identity_checks() {
    assert_eq!(check_product_id(0x42), Ok(()));
    assert_eq!(check_product_id(0x43), Err(Pmw3360Error::InvalidProductId(0x43)));
    assert_eq!(check_fw_signature(0x42, 0xBD), Ok(()));
    assert_eq!(check_fw_signature(0x42, 0xBC), Err(Pmw3360Error::InvalidFwSignature((0x42, 0xBC))));
}

#[test]
fn pmw3360_burst_decoding() {
    let c = Pmw3360Config::default();
    let (m, in_burst) = decode_burst(c, [0x80, 0, 0x10, 0x00, 0xFE, 0xFF]);
    assert_eq!((m.dx, m.dy), (16, -2));
    assert!(in_burst);

    let (m, _) = decode_burst(c, [0x00, 0, 0x10, 0x00, 0xFE, 0xFF]);
    assert_eq!((m.dx, m.dy), (0, 0));
    let (m, _) = decode_burst(c, [0x88, 0, 0x10, 0x00, 0xFE, 0xFF]);
    assert_eq!((m.dx, m.dy), (0, 0));
    let (_, in_burst) = decode_burst(c, [0x81, 0, 0, 0, 0, 0]);
    assert!(!in_burst);

    let turned = Pmw3360Config { invert_x: true, swap_xy: true, ..c };
    let (m, _) = decode_burst(turned, [0x80, 0, 0x10, 0x00, 0xFE, 0xFF]);
    assert_eq!((m.dx, m.dy), (-2, -16));
}

#[test]
fn pmw3360_register_addresses() {
    assert_eq!(Register::ProductId.value(), 0x00);
    assert_eq!(Register::Config1.value(), 0x0f);
    assert_eq!(Register::MotionBurst.value(), 0x50);
    assert_eq!(Register::SromLoadBurst.value(), 0x62);
    assert_eq!(Register::LiftCutoffTune2.value(), 0x65);
}
