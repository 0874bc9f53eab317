use rmk::key_mouse::{curve_ok_exec, curve_ok_for_exec};
use rmk::key_mouse::{KeyboardMouse, MouseKeyStep};
use rmk::mouse::MouseKeyConfig;
use rmk_types::keycode::HidKeyCode;

fn code(k: HidKeyCode) -> u8 {
    k as u8
}

#[test]
fn key_mouse_first_press_moves_by_delta_and_asks_for_repeat() {
    let config = MouseKeyConfig::default();
    let mut m = KeyboardMouse::new();
    let step = m.process_action_mouse(code(HidKeyCode::MouseUp), true, &config);
    assert_eq!(m.mouse_report.y, -6);
    assert_eq!(m.mouse_report.x, 0);
    assert_eq!(m.mouse_repeat, 1);
    assert_eq!(step, MouseKeyStep { send_report: true, repeat_after_ms: Some(100) });
}

#[test]
fn key_mouse_diagonal_is_compensated_and_release_stops_axis() {
    let config = MouseKeyConfig::default();
    let mut m = KeyboardMouse::new();
    m.process_action_mouse(code(HidKeyCode::MouseUp), true, &config);
    let step = m.process_action_mouse(code(HidKeyCode::MouseRight), true, &config);
    assert_eq!((m.mouse_report.x, m.mouse_report.y), (4, -3));
    assert_eq!(m.mouse_repeat, 2);
    assert_eq!(step.repeat_after_ms, Some(20));

    let step = m.process_action_mouse(code(HidKeyCode::MouseUp), false, &config);
    assert_eq!((m.mouse_report.x, m.mouse_report.y), (4, 0));
    assert_eq!(m.mouse_repeat, 2);
    assert_eq!(step, MouseKeyStep { send_report: true, repeat_after_ms: None });

    m.process_action_mouse(code(HidKeyCode::MouseRight), false, &config);
    assert_eq!((m.mouse_report.x, m.mouse_report.y), (0, 0));
    assert_eq!(m.mouse_repeat, 0);
}

#[test]
fn key_mouse_accel_keys_send_nothing_and_fix_the_speed() {
    let config = MouseKeyConfig::default();
    let mut m = KeyboardMouse::new();
    let step = m.process_action_mouse(code(HidKeyCode::MouseAccel2), true, &config);
    assert_eq!(step, MouseKeyStep { send_report: false, repeat_after_ms: None });
    assert_eq!(m.mouse_accel, 4);
    m.process_action_mouse(code(HidKeyCode::MouseLeft), true, &config);
    assert_eq!(m.mouse_report.x, -20);
    m.process_action_mouse(code(HidKeyCode::MouseAccel2), false, &config);
    assert_eq!(m.mouse_accel, 0);
}

#[test]
fn key_mouse_reversing_restarts_the_counter() {
    let config = MouseKeyConfig::default();
    let mut m = KeyboardMouse::new();
    m.process_action_mouse(code(HidKeyCode::MouseRight), true, &config);
    m.process_action_mouse(code(HidKeyCode::MouseRight), true, &config);
    assert_eq!(m.mouse_repeat, 2);
    let step = m.process_action_mouse(code(HidKeyCode::MouseLeft), true, &config);
    assert_eq!(m.mouse_report.x, -6);
    assert_eq!(step.repeat_after_ms, Some(100));
    assert_eq!(m.mouse_repeat, 1);
}

#[test]
fn key_mouse_wheel_and_buttons() {
    let config = MouseKeyConfig::default();
    let mut m = KeyboardMouse::new();
    let step = m.process_action_mouse(code(HidKeyCode::MouseWheelUp), true, &config);
    assert_eq!(m.mouse_report.wheel, 1);
    assert_eq!(m.mouse_wheel_repeat, 1);
    assert_eq!(step.repeat_after_ms, Some(100));
    m.process_action_mouse(code(HidKeyCode::MouseWheelUp), false, &config);
    assert_eq!(m.mouse_report.wheel, 0);
    assert_eq!(m.mouse_wheel_repeat, 0);

    m.process_action_mouse(code(HidKeyCode::MouseBtn3), true, &config);
    assert_eq!(m.mouse_report.buttons, 0b100);
    let step = m.process_action_mouse(code(HidKeyCode::MouseBtn3), false, &config);
    assert_eq!(m.mouse_report.buttons, 0);
    assert_eq!(step, MouseKeyStep { send_report: true, repeat_after_ms: None });
}

#[test]
fn key_mouse_units_follow_the_curve_and_accel_keys() {
    let config = MouseKeyConfig::default();
    let mut m = KeyboardMouse::new();
    assert_eq!(m.calculate_mouse_move_unit(&config), 6);
    m.mouse_repeat = 25;
    // 6 + 12 * (2*25*50 - 25*25) / 2500 = 6 + 12 * 1875 / 2500 = 15
    assert_eq!(m.calculate_mouse_move_unit(&config), 15);
    m.mouse_repeat = 50;
    assert_eq!(m.calculate_mouse_move_unit(&config), 18);
    m.mouse_wheel_repeat = 50;
    assert_eq!(m.calculate_mouse_wheel_unit(&config), 3);
    m.mouse_accel = 1;
    assert_eq!(m.calculate_mouse_move_unit(&config), 4);
    assert_eq!(m.calculate_mouse_wheel_unit(&config), 1);
    m.mouse_accel = 2;
    assert_eq!(m.calculate_mouse_move_unit(&config), 12);
    assert_eq!(m.calculate_mouse_wheel_unit(&config), 2);
}

#[test]
fn key_mouse_diagonal_compensation_values() {
    let m = KeyboardMouse::new();
    assert_eq!(m.apply_diagonal_compensation(1, 1), (1, 1));
    assert_eq!(m.apply_diagonal_compensation(-1, -1), (-1, -1));
    assert_eq!(m.apply_diagonal_compensation(127, -128), (90, -90));
    assert_eq!(m.apply_diagonal_compensation(10, 0), (10, 0));
}

#[test]
fn key_mouse_curve_settings_check() {
    assert!(curve_ok_exec(&MouseKeyConfig::default()));
    let zero_speed = MouseKeyConfig { max_speed: 0, ..MouseKeyConfig::default() };
    assert!(!curve_ok_exec(&zero_speed));
    let no_delta = MouseKeyConfig { move_delta: 0, max_speed: 0, ..MouseKeyConfig::default() };
    assert!(curve_ok_exec(&no_delta));
}

#[test]
fn key_mouse_accel_keys_need_no_curve() {
    // a zero max speed breaks the movement curve, but accel keys never read it
    let config = MouseKeyConfig { max_speed: 0, ..MouseKeyConfig::default() };
    let accel = code(HidKeyCode::MouseAccel1);
    assert!(curve_ok_for_exec(accel, true, &config));
    assert!(!curve_ok_for_exec(code(HidKeyCode::MouseUp), true, &config));
    assert!(curve_ok_for_exec(code(HidKeyCode::MouseUp), false, &config));
    assert!(curve_ok_for_exec(code(HidKeyCode::MouseWheelUp), true, &config));
    let mut m = KeyboardMouse::new();
    let step = m.process_action_mouse(accel, true, &config);
    assert_eq!(step, MouseKeyStep { send_report: false, repeat_after_ms: None });
    assert_eq!(m.mouse_accel, 2);
    let step = m.process_action_mouse(accel, false, &config);
    assert!(!step.send_report);
    assert_eq!(m.mouse_accel, 0);
}
