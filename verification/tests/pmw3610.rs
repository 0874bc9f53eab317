use rmk::pmw3610::{
    check_cpi, check_observation, check_product_id, configured_cpi, performance_value, res_step_orientation,
    res_step_resolution, sign_extend, Pmw3610, Pmw3610Config, Pmw3610Error, SMART_MODE_DISABLE, SMART_MODE_ENABLE,
};
use rmk::pointing::PointingDriverError;

#[test]
fn pmw3610_default_config_keeps_sensor_resolution() {
    let c = Pmw3610Config::default();
    assert_eq!(c.res_cpi, -1);
    assert_eq!(configured_cpi(&c), None);
    assert_eq!(configured_cpi(&Pmw3610Config { res_cpi: 800, ..c }), Some(800));
}

#[test]
fn pmw3610_error_converts_to_driver_error() {
    assert_eq!(PointingDriverError::from(Pmw3610Error::Spi), PointingDriverError::Spi);
    assert_eq!(
        PointingDriverError::from(Pmw3610Error::InvalidProductId(7)),
        PointingDriverError::InvalidProductId(7)
    );
    assert_eq!(PointingDriverError::from(Pmw3610Error::InitFailed), PointingDriverError::InitFailed);
    assert_eq!(PointingDriverError::from(Pmw3610Error::InvalidCpi), PointingDriverError::InvalidCpi);
}

#[test]
fn pmw3610_checks_and_register_values() {
    assert_eq!(check_product_id(0x3e), Ok(()));
    assert_eq!(check_product_id(0x3f), Err(Pmw3610Error::InvalidProductId(0x3f)));
    assert_eq!(check_observation(0x1f), Ok(()));
    assert_eq!(check_observation(0x0e), Err(Pmw3610Error::InitFailed));

    let c = Pmw3610Config { swap_xy: true, invert_y: true, ..Pmw3610Config::default() };
    assert_eq!(res_step_orientation(0b0100_0101, &c), 0b1010_0101);
    assert_eq!(res_step_resolution(0b1110_0101, 800), 0b1110_0100);
    assert_eq!(check_cpi(3200), Ok(()));
    assert_eq!(check_cpi(3400), Err(PointingDriverError::InvalidCpi));
    assert_eq!(check_cpi(100), Err(PointingDriverError::InvalidCpi));
    assert_eq!(performance_value(0x0d, true), 0xfd);
    assert_eq!(performance_value(0xfd, false), 0x0d);
}

#[test]
fn pmw3610_sign_extension() {
    assert_eq!(sign_extend(0x7FF, 11), 2047);
    assert_eq!(sign_extend(0x800, 11), -2048);
    assert_eq!(sign_extend(0xFFF, 11), -1);
    assert_eq!(sign_extend(5, 11), 5);
}

#[test]
fn pmw3610_burst_and_smart_mode() {
    let mut s = Pmw3610::new(0, Pmw3610Config { smart_mode: true, ..Pmw3610Config::default() });
    assert_eq!(s.burst_len(), 7);
    let out = s.read_motion([0x80, 0x05, 0xFE, 0x0F, 0, 0, 100]);
    assert_eq!((out.motion.dx, out.motion.dy), (5, -2));
    assert_eq!(out.smart_write, Some(SMART_MODE_DISABLE));
    assert!(s.smart_flag);
    let out = s.read_motion([0x80, 0, 0, 0, 0, 0, 10]);
    assert_eq!(out.smart_write, Some(SMART_MODE_ENABLE));
    assert!(!s.smart_flag);
    let out = s.read_motion([0x00, 1, 1, 0, 0, 0, 100]);
    assert_eq!((out.motion.dx, out.motion.dy, out.smart_write), (0, 0, None));

    let mut plain = Pmw3610::new(1, Pmw3610Config::default());
    assert_eq!(plain.burst_len(), 4);
    let out = plain.read_motion([0x80, 0x00, 0x00, 0xF0, 0, 0, 100]);
    assert_eq!((out.motion.dx, out.motion.dy, out.smart_write), (-256, 0, None));
}
