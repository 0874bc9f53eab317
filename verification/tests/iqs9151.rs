use rmk::event::{Axis, AxisEvent, AxisValType};
use rmk::iqs9151::{
    check_product_number, event_config, frame_action, update_bits, CoordinateFrame, FrameAction, InitError,
    COORD_BLOCK_LENGTH, INFO_SHOW_RESET, PRODUCT_NUMBER, TP_MOVEMENT_DETECTED,
};

#[test]
fn coordinate_frame_parses_relative_xy_and_flags() {
    let mut block = [0u8; COORD_BLOCK_LENGTH];
    block[0x00..0x02].copy_from_slice(&(-12_i16).to_le_bytes());
    block[0x02..0x04].copy_from_slice(&34_i16.to_le_bytes());
    block[0x0c..0x0e].copy_from_slice(&INFO_SHOW_RESET.to_le_bytes());
    block[0x0e..0x10].copy_from_slice(&(TP_MOVEMENT_DETECTED | 2).to_le_bytes());

    let frame = CoordinateFrame::parse(&block);

    assert_eq!(frame.relative_x, -12);
    assert_eq!(frame.relative_y, 34);
    assert!(frame.show_reset());
    assert!(frame.movement_detected());
    assert_eq!(frame.finger_count(), 2);
}

#[test]
fn product_number_is_checked() {
    assert_eq!(check_product_number(PRODUCT_NUMBER), Ok(()));
    assert_eq!(check_product_number(0x1234), Err(InitError::InvalidProductNumber(0x1234)));
}

#[test]
fn update_bits_replaces_only_masked_bits() {
    assert_eq!(update_bits(0xFF00, 0x0F0F, 0x1234), 0xF204);
}

#[test]
fn event_config_depends_on_ready_pin() {
    assert_eq!(event_config(true), (0x2500, 0x2500));
    assert_eq!(event_config(false), (0x2500, 0x2400));
}

#[test]
fn frame_action_publishes_motion_and_reinitializes_on_reset() {
    let moving = CoordinateFrame { relative_x: 5, relative_y: -7, info_flags: 0, trackpad_flags: 0 };
    match frame_action(moving, 4) {
        FrameAction::Publish(e) => {
            assert_eq!(e.device_id, 4);
            assert_eq!(e.axes[0], AxisEvent { typ: AxisValType::Rel, axis: Axis::X, value: 5 });
            assert_eq!(e.axes[1], AxisEvent { typ: AxisValType::Rel, axis: Axis::Y, value: -7 });
            assert_eq!(e.axes[2].value, 0);
        }
        _ => panic!("motion must be published"),
    }
    let reset = CoordinateFrame { relative_x: 5, relative_y: 0, info_flags: INFO_SHOW_RESET, trackpad_flags: 0 };
    assert_eq!(frame_action(reset, 4), FrameAction::Reinitialize);
    let still = CoordinateFrame { relative_x: 0, relative_y: 0, info_flags: 0, trackpad_flags: 0 };
    assert_eq!(frame_action(still, 4), FrameAction::Wait);
}
