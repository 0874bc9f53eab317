use rmk::event::{Axis, AxisValType};
use rmk::iqs5xx::{
    axis_resolution, end_session, has_motion, identify_product, init_writes, power_mode, Iqs5xx, Iqs5xxError,
    Iqs5xxProduct, MotionBlock, PowerMode, WindowDetection,
};

#[test]
fn iqs5xx_products_are_identified() {
    assert_eq!(identify_product([0, 40, 0, 15]), Ok(Iqs5xxProduct::Iqs550));
    assert_eq!(identify_product([0, 58, 0, 15]), Ok(Iqs5xxProduct::Iqs572));
    assert_eq!(identify_product([0, 52, 0, 15]), Ok(Iqs5xxProduct::Iqs525));
    assert_eq!(identify_product([0, 41, 0, 15]), Err(Iqs5xxError::InvalidProductInfo([0, 41, 0, 15])));
    assert_eq!(identify_product([1, 40, 0, 15]), Err(Iqs5xxError::InvalidProductInfo([1, 40, 0, 15])));
}

#[test]
fn iqs5xx_resolution_is_channels_minus_one_times_256() {
    assert_eq!(axis_resolution(0), 0);
    assert_eq!(axis_resolution(1), 0);
    assert_eq!(axis_resolution(15), 14 * 256);
    assert_eq!(axis_resolution(255), 254 * 256);
}

#[test]
fn iqs5xx_init_writes_with_rdy() {
    let w = init_writes(WindowDetection::Rdy, [15, 10]);
    assert_eq!(w.i2c_timeout, [0x05, 0x8A, 30]);
    assert_eq!(w.config, [0x05, 0x8E, 0b0110_0100, 0b0000_1111]);
    assert_eq!(w.report_rates, [0x05, 0x7A, 0, 9, 0, 9, 0, 25]);
    assert_eq!(w.ack_reset, [0x04, 0x31, 0x80]);
    assert_eq!(w.xy_config, [0x06, 0x69, 0b0001]);
    assert_eq!(w.gestures, [0x06, 0xB7, 0, 0]);
    assert_eq!(w.xy_resolution, [0x06, 0x6E, 14, 0, 9, 0]);
}

#[test]
fn iqs5xx_init_writes_when_polled() {
    let w = init_writes(WindowDetection::Poll { last_end: 0, interval_ms: 300 }, [1, 0]);
    assert_eq!(w.i2c_timeout, [0x05, 0x8A, 100]);
    assert_eq!(w.config, [0x05, 0x8E, 0b1110_0100, 0]);
    assert_eq!(w.report_rates, [0x05, 0x7A, 1, 44, 1, 44, 0, 25]);
    assert_eq!(w.xy_resolution, [0x06, 0x6E, 0, 0, 0, 0]);
    assert_eq!(end_session(), [0xEE, 0xEE]);
}

#[test]
fn iqs5xx_motion_block_is_big_endian() {
    let data = [12, 1, 2, 0x03, 4, 1, 0xFF, 0xFE, 0x01, 0x02];
    let b = MotionBlock::parse(&data);
    assert_eq!(b.prev_cycle_time_ms, 12);
    assert_eq!(b.number_of_fingers, 1);
    assert_eq!(b.dx, -2);
    assert_eq!(b.dy, 0x0102);
    assert_eq!(power_mode(b.system_info_0), PowerMode::Lp1);
    assert_eq!(power_mode(0x07), PowerMode::Invalid);
    assert_eq!(power_mode(0x10), PowerMode::Active);
}

#[test]
fn iqs5xx_session_reads_motion_and_detects_reset() {
    let mut dev = Iqs5xx::new(3, false, 100);
    assert!(!dev.initialized);
    assert_eq!(dev.next_window_at(), Some(115));
    dev.finish_init(200);
    assert!(dev.initialized);
    assert_eq!(dev.next_window_at(), Some(215));

    let e = dev.read_motion(&[0, 0, 0, 0, 0, 1, 0, 5, 0xFF, 0xFF], 230).unwrap();
    assert_eq!(e.device_id, 3);
    assert_eq!((e.axes[0].axis, e.axes[0].typ, e.axes[0].value), (Axis::X, AxisValType::Rel, 5));
    assert_eq!((e.axes[1].axis, e.axes[1].value), (Axis::Y, -1));
    assert_eq!((e.axes[2].axis, e.axes[2].value), (Axis::Z, 0));
    assert!(has_motion(&e));
    assert_eq!(dev.next_window_at(), Some(245));

    let still = dev.read_motion(&[0; 10], 250).unwrap();
    assert!(!has_motion(&still));

    assert_eq!(dev.read_motion(&[0, 0, 0, 0x80, 0, 0, 0, 5, 0, 0], 260), Err(Iqs5xxError::Reset));
    assert!(!dev.initialized);
}

#[test]
fn iqs5xx_rdy_session_has_no_poll_time() {
    let mut dev = Iqs5xx::new(0, true, 100);
    assert_eq!(dev.window_detection, WindowDetection::Rdy);
    assert_eq!(dev.next_window_at(), None);
    dev.finish_init(5);
    assert_eq!(dev.window_detection, WindowDetection::Rdy);
}
