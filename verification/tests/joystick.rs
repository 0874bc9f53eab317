use rmk::event::{Axis, AxisEvent, AxisValType, MouseReport, PointingEvent};
use rmk::joystick::{get_adc, joystick_axes, JoystickProcessor};

fn event(x: i16, y: i16) -> PointingEvent {
    PointingEvent {
        device_id: 0,
        axes: [
            AxisEvent { typ: AxisValType::Rel, axis: Axis::X, value: x },
            AxisEvent { typ: AxisValType::Rel, axis: Axis::Y, value: y },
            AxisEvent { typ: AxisValType::Rel, axis: Axis::Z, value: 0 },
        ],
    }
}

#[test]
fn joystick_identity_transform_passes_axes_through() {
    let mut p = JoystickProcessor::new([[1, 0], [0, 1]], [0, 0], 1);
    let r = p.on_pointing_event(&event(10, -20), 3);
    assert_eq!(r, MouseReport { buttons: 3, x: 10, y: -20, wheel: 0, pan: 0 });
}

#[test]
fn joystick_bias_weight_and_resolution() {
    // x = (100 + 10) / 2 = 55, quantized to a multiple of 4: 52.
    // y = (-50 - 10) / -3 = 20, quantized: 20.
    let mut p = JoystickProcessor::new([[2, 0], [0, -3]], [10, -10], 4);
    let r = p.on_pointing_event(&event(100, -50), 0);
    assert_eq!((r.x, r.y), (52, 20));
    assert_eq!(p.record, [110, -60]);
}

#[test]
fn joystick_output_is_limited_to_i8() {
    let mut p = JoystickProcessor::new([[1, 1], [0, 1]], [0, 0], 1);
    let r = p.on_pointing_event(&event(300, -400), 0);
    assert_eq!((r.x, r.y), (-100, -128));
    let r = p.on_pointing_event(&event(1000, 0), 0);
    assert_eq!(r.x, 127);
}

#[test]
fn joystick_saturating_division() {
    let mut p = JoystickProcessor::new([[-1, 0], [0, 1]], [0, 0], 1);
    let r = p.on_pointing_event(&event(i16::MIN, 0), 0);
    // i16::MIN / -1 saturates to i16::MAX, then the report clamps it.
    assert_eq!(r.x, 127);
}

#[test]
fn adc_scaling() {
    assert_eq!(get_adc(0), 0);
    assert_eq!(get_adc(4095), 254);
    assert_eq!(get_adc(2048), 127);
    assert_eq!(get_adc(-16), 0);
}

#[test]
fn joystick_dead_zone_and_divider() {
    // Center readings give no movement.
    assert_eq!(joystick_axes([2008, 1815]), None);
    // 4000 scales to 249: (249 - 127) / 5 = 24; 0 scales to 0: (0 - 127) / 5 = -25.
    assert_eq!(joystick_axes([4000, 0]), Some((24, -25)));
}
