//! Mouse keys as the keyboard's key handler runs them: one report that
//! movement, wheel, button and acceleration keys edit in place, with a
//! per-category repeat counter that speeds movement up while a key is held.
//!
//! A press of a movement or wheel key asks for a repeat after a delay; the
//! caller waits, and re-sends the press unless the key was released in the
//! meantime. Fixed speeds replace the acceleration curve while an
//! acceleration key is held (the highest one wins).

use vstd::prelude::*;

use crate::arith::tdiv;
use crate::event::MouseReport;
use crate::mouse::{mouse_category, spec_category, MouseCategory, MouseDirection, MouseKeyConfig};

verus! {

/// Largest value of Rust's saturating `u16` operations.
pub open spec fn sat16(v: int) -> int {
    if v > 0xFFFF {
        0xFFFF
    } else {
        v
    }
}

/// The curve's unit after `repeat` repeats: `delta` at first, the top
/// `delta * max_speed` from `time_to_max` on, and in between
/// `min + range * (2x - x²)` with `x = repeat / time_to_max`, computed
/// with saturating `u16` products.
pub open spec fn spec_curve_unit(repeat: u8, delta: u8, max_speed: u8, time_to_max: u8) -> int {
    let max_unit = delta * max_speed;
    if repeat == 0 {
        delta as int
    } else if repeat >= time_to_max {
        max_unit
    } else {
        let range = max_unit - delta;
        let linear = sat16(2 * repeat * time_to_max);
        let quadratic = repeat * repeat;
        let num = if linear >= quadratic {
            linear - quadratic
        } else {
            0
        };
        let den = time_to_max * time_to_max;
        delta + sat16(range * num) / (if den >= 1 {
            den
        } else {
            1
        })
    }
}

/// The unit limited to `[1, max]` (0 when the unit is positive and `max`
/// is 0) and to `i8::MAX`.
pub open spec fn spec_limit_unit(unit: int, max: u8) -> i8 {
    let u = if unit > max {
        max as int
    } else if unit == 0 {
        1
    } else {
        unit
    };
    if u > 127 {
        127i8
    } else {
        u as i8
    }
}

/// The movement unit: 20, 12 or 4 while Accel2, Accel1 or Accel0 is held,
/// else the curve's.
pub open spec fn spec_move_unit(accel: u8, repeat: u8, c: MouseKeyConfig) -> i8 {
    let unit = if accel & 4 != 0 {
        20
    } else if accel & 2 != 0 {
        12
    } else if accel & 1 != 0 {
        4
    } else {
        spec_curve_unit(repeat, c.move_delta, c.max_speed, c.ticks_to_max)
    };
    spec_limit_unit(unit, c.move_max)
}

/// The wheel unit: 4, 2 or 1 while Accel2, Accel1 or Accel0 is held, else
/// the curve's.
pub open spec fn spec_wheel_unit(accel: u8, repeat: u8, c: MouseKeyConfig) -> i8 {
    let unit = if accel & 4 != 0 {
        4
    } else if accel & 2 != 0 {
        2
    } else if accel & 1 != 0 {
        1
    } else {
        spec_curve_unit(repeat, c.wheel_delta, c.wheel_max_speed, c.wheel_ticks_to_max)
    };
    spec_limit_unit(unit, c.wheel_max)
}

/// Settings under which the movement curve's range is not negative.
pub open spec fn move_curve_ok(c: MouseKeyConfig) -> bool {
    c.move_delta * c.max_speed >= c.move_delta
}

/// Settings under which the wheel curve's range is not negative.
pub open spec fn wheel_curve_ok(c: MouseKeyConfig) -> bool {
    c.wheel_delta * c.wheel_max_speed >= c.wheel_delta
}

/// Settings under which both curves' ranges are not negative.
pub open spec fn curve_ok(c: MouseKeyConfig) -> bool {
    &&& move_curve_ok(c)
    &&& wheel_curve_ok(c)
}

/// The curve a key event reads is in range: a pressed movement key reads
/// the movement curve, a pressed wheel key the wheel curve; the other
/// events read none.
pub open spec fn curve_ok_for(key: u8, pressed: bool, c: MouseKeyConfig) -> bool {
    pressed ==> match spec_category(key) {
        Some(MouseCategory::Movement(_)) => move_curve_ok(c),
        Some(MouseCategory::Wheel(_)) => wheel_curve_ok(c),
        _ => true,
    }
}

/// Whether the curve's range is not negative for these settings.
pub fn curve_ok_exec(c: &MouseKeyConfig) -> (r: bool)
    ensures
        r == curve_ok(*c),
{
    proof {
        assert(c.move_delta * c.max_speed <= 65025) by (nonlinear_arith)
            requires
                c.move_delta <= 255,
                c.max_speed <= 255,
        ;
        assert(c.wheel_delta * c.wheel_max_speed <= 65025) by (nonlinear_arith)
            requires
                c.wheel_delta <= 255,
                c.wheel_max_speed <= 255,
        ;
    }
    let m: u16 = (c.move_delta as u16) * (c.max_speed as u16);
    let w: u16 = (c.wheel_delta as u16) * (c.wheel_max_speed as u16);
    m >= c.move_delta as u16 && w >= c.wheel_delta as u16
}

/// Whether the curve a key event reads is in range.
pub fn curve_ok_for_exec(key: u8, pressed: bool, c: &MouseKeyConfig) -> (r: bool)
    ensures
        r == curve_ok_for(key, pressed, *c),
{
    if !pressed {
        return true;
    }
    match mouse_category(key) {
        Some(MouseCategory::Movement(_)) => {
            proof {
                assert(c.move_delta * c.max_speed <= 65025) by (nonlinear_arith)
                    requires
                        c.move_delta <= 255,
                        c.max_speed <= 255,
                ;
            }
            let m: u16 = (c.move_delta as u16) * (c.max_speed as u16);
            m >= c.move_delta as u16
        },
        Some(MouseCategory::Wheel(_)) => {
            proof {
                assert(c.wheel_delta * c.wheel_max_speed <= 65025) by (nonlinear_arith)
                    requires
                        c.wheel_delta <= 255,
                        c.wheel_max_speed <= 255,
                ;
            }
            let w: u16 = (c.wheel_delta as u16) * (c.wheel_max_speed as u16);
            w >= c.wheel_delta as u16
        },
        _ => true,
    }
}

/// One axis scaled by 181/256 (about 1/sqrt(2)), plus 128 and truncated,
/// never reaching zero.
pub open spec fn spec_scale_axis(v: i8) -> i8 {
    let c = tdiv(v * 181 + 128, 256);
    if c == 0 && v != 0 {
        if v > 0 {
            1i8
        } else {
            -1i8
        }
    } else {
        c as i8
    }
}

/// Both axes scaled when both move.
pub open spec fn spec_compensated(x: i8, y: i8) -> (i8, i8) {
    if x != 0 && y != 0 {
        (spec_scale_axis(x), spec_scale_axis(y))
    } else {
        (x, y)
    }
}

/// What a mouse key event asks of the caller.
#[derive(Clone, Copy, Debug, PartialEq, Eq, Structural)]
pub struct MouseKeyStep {
    /// Send the report (any key but an acceleration key).
    pub send_report: bool,
    /// Re-send the press after this many ms unless it is released first.
    pub repeat_after_ms: Option<u16>,
}

/// The keyboard's mouse key state.
#[derive(Clone, Copy, Debug, PartialEq, Eq, Structural)]
pub struct KeyboardMouse {
    pub mouse_report: MouseReport,
    pub mouse_repeat: u8,
    pub mouse_wheel_repeat: u8,
    pub mouse_accel: u8,
}

/// The state after the press of a key of category `cat`, before the
/// diagonal compensation: a movement or wheel key sets its axis to the
/// unit in its direction, restarting its counter when it reverses the
/// axis; a button or acceleration key sets its bit.
pub open spec fn spec_pressed(s: KeyboardMouse, cat: MouseCategory, c: MouseKeyConfig) -> KeyboardMouse {
    let r = s.mouse_report;
    match cat {
        MouseCategory::Movement(d) => {
            let reversed = match d {
                MouseDirection::Up => r.y > 0,
                MouseDirection::Down => r.y < 0,
                MouseDirection::Left => r.x > 0,
                MouseDirection::Right => r.x < 0,
            };
            let repeat: u8 = if reversed {
                0
            } else {
                s.mouse_repeat
            };
            let u = spec_move_unit(s.mouse_accel, repeat, c);
            let report = match d {
                MouseDirection::Up => MouseReport { y: (-u) as i8, ..r },
                MouseDirection::Down => MouseReport { y: u, ..r },
                MouseDirection::Left => MouseReport { x: (-u) as i8, ..r },
                MouseDirection::Right => MouseReport { x: u, ..r },
            };
            KeyboardMouse { mouse_report: report, mouse_repeat: repeat, ..s }
        },
        MouseCategory::Wheel(d) => {
            let reversed = match d {
                MouseDirection::Up => r.wheel < 0,
                MouseDirection::Down => r.wheel > 0,
                MouseDirection::Left => r.pan > 0,
                MouseDirection::Right => r.pan < 0,
            };
            let repeat: u8 = if reversed {
                0
            } else {
                s.mouse_wheel_repeat
            };
            let u = spec_wheel_unit(s.mouse_accel, repeat, c);
            let report = match d {
                MouseDirection::Up => MouseReport { wheel: u, ..r },
                MouseDirection::Down => MouseReport { wheel: (-u) as i8, ..r },
                MouseDirection::Left => MouseReport { pan: (-u) as i8, ..r },
                MouseDirection::Right => MouseReport { pan: u, ..r },
            };
            KeyboardMouse { mouse_report: report, mouse_wheel_repeat: repeat, ..s }
        },
        MouseCategory::Button(i) => KeyboardMouse {
            mouse_report: MouseReport { buttons: r.buttons | ((1u8 << i) as u8), ..r },
            ..s
        },
        MouseCategory::Accel(bit) => KeyboardMouse { mouse_accel: s.mouse_accel | bit, ..s },
    }
}

/// The state after the release of a key of category `cat`, before the
/// diagonal compensation: a movement or wheel key stops its axis if the
/// axis still moves its way; a button or acceleration key clears its bit.
pub open spec fn spec_released(s: KeyboardMouse, cat: MouseCategory) -> KeyboardMouse {
    let r = s.mouse_report;
    match cat {
        MouseCategory::Movement(d) => {
            let report = match d {
                MouseDirection::Up => MouseReport { y: if r.y < 0 { 0 } else { r.y }, ..r },
                MouseDirection::Down => MouseReport { y: if r.y > 0 { 0 } else { r.y }, ..r },
                MouseDirection::Left => MouseReport { x: if r.x < 0 { 0 } else { r.x }, ..r },
                MouseDirection::Right => MouseReport { x: if r.x > 0 { 0 } else { r.x }, ..r },
            };
            KeyboardMouse { mouse_report: report, ..s }
        },
        MouseCategory::Wheel(d) => {
            let report = match d {
                MouseDirection::Up => MouseReport { wheel: if r.wheel > 0 { 0 } else { r.wheel }, ..r },
                MouseDirection::Down => MouseReport { wheel: if r.wheel < 0 { 0 } else { r.wheel }, ..r },
                MouseDirection::Left => MouseReport { pan: if r.pan < 0 { 0 } else { r.pan }, ..r },
                MouseDirection::Right => MouseReport { pan: if r.pan > 0 { 0 } else { r.pan }, ..r },
            };
            KeyboardMouse { mouse_report: report, ..s }
        },
        MouseCategory::Button(i) => KeyboardMouse {
            mouse_report: MouseReport { buttons: r.buttons & !((1u8 << i) as u8), ..r },
            ..s
        },
        MouseCategory::Accel(bit) => KeyboardMouse { mouse_accel: s.mouse_accel & !bit, ..s },
    }
}

/// After a release, a counter restarts when its axes both stand still.
pub open spec fn spec_stopped_counters(s: KeyboardMouse) -> KeyboardMouse {
    let r = s.mouse_report;
    KeyboardMouse {
        mouse_repeat: if r.x == 0 && r.y == 0 {
            0
        } else {
            s.mouse_repeat
        },
        mouse_wheel_repeat: if r.wheel == 0 && r.pan == 0 {
            0
        } else {
            s.mouse_wheel_repeat
        },
        ..s
    }
}

/// The diagonal compensation of both pairs of axes, kept in the report.
pub open spec fn spec_compensate_report(s: KeyboardMouse) -> KeyboardMouse {
    let r = s.mouse_report;
    let (x, y) = spec_compensated(r.x, r.y);
    let (wheel, pan) = spec_compensated(r.wheel, r.pan);
    KeyboardMouse { mouse_report: MouseReport { x, y, wheel, pan, ..r }, ..s }
}

/// State and step after a mouse key event with HID usage `key`.
pub open spec fn spec_process_action_mouse(s: KeyboardMouse, key: u8, pressed: bool, c: MouseKeyConfig) -> (
    KeyboardMouse,
    MouseKeyStep,
) {
    let edited = match spec_category(key) {
        Some(cat) => if pressed {
            spec_pressed(s, cat, c)
        } else {
            spec_stopped_counters(spec_released(s, cat))
        },
        None => if pressed {
            s
        } else {
            spec_stopped_counters(s)
        },
    };
    let comp = spec_compensate_report(edited);
    let send = !(spec_category(key) matches Some(MouseCategory::Accel(_)));
    match spec_category(key) {
        Some(MouseCategory::Movement(_)) if pressed => (
            KeyboardMouse {
                mouse_repeat: if comp.mouse_repeat < 255 {
                    (comp.mouse_repeat + 1) as u8
                } else {
                    comp.mouse_repeat
                },
                ..comp
            },
            MouseKeyStep { send_report: send, repeat_after_ms: Some(c.spec_movement_delay(comp.mouse_repeat)) },
        ),
        Some(MouseCategory::Wheel(_)) if pressed => (
            KeyboardMouse {
                mouse_wheel_repeat: if comp.mouse_wheel_repeat < 255 {
                    (comp.mouse_wheel_repeat + 1) as u8
                } else {
                    comp.mouse_wheel_repeat
                },
                ..comp
            },
            MouseKeyStep { send_report: send, repeat_after_ms: Some(c.spec_wheel_delay(comp.mouse_wheel_repeat)) },
        ),
        _ => (comp, MouseKeyStep { send_report: send, repeat_after_ms: None }),
    }
}

proof fn lemma_curve_fits(repeat: u8, delta: u8, max_speed: u8, time_to_max: u8)
    requires
        delta * max_speed >= delta,
    ensures
        0 <= spec_curve_unit(repeat, delta, max_speed, time_to_max) <= 65025,
{
    assert(0 <= delta * max_speed <= 65025) by (nonlinear_arith)
        requires
            0 <= delta <= 255,
            0 <= max_speed <= 255,
    ;
    if 0 < repeat < time_to_max {
        let r = repeat as int;
        let t = time_to_max as int;
        let range = delta * max_speed - delta;
        let linear = sat16(2 * r * t);
        let quadratic = r * r;
        let num = if linear >= quadratic {
            linear - quadratic
        } else {
            0
        };
        let den = t * t;
        assert(2 * r * t - r * r < t * t) by (nonlinear_arith)
            requires
                0 < r < t,
        ;
        assert(t * t > 0) by (nonlinear_arith)
            requires
                t > 0,
        ;
        assert(num < den);
        assert(range * num <= range * den) by (nonlinear_arith)
            requires
                0 <= range,
                0 <= num < den,
        ;
        assert(range * num >= 0) by (nonlinear_arith)
            requires
                0 <= range,
                0 <= num,
        ;
        assert(sat16(range * num) / den <= range) by {
            vstd::arithmetic::div_mod::lemma_div_is_ordered(sat16(range * num), range * den, den);
            vstd::arithmetic::div_mod::lemma_div_multiples_vanish(range, den);
            assert(range * den == den * range) by (nonlinear_arith);
        }
        assert(sat16(range * num) / den >= 0) by {
            vstd::arithmetic::div_mod::lemma_div_pos_is_pos(sat16(range * num), den);
        }
    }
}

/// Rust's `u16::saturating_mul`.
fn sat_mul16(a: u16, b: u16) -> (r: u16)
    ensures
        r == sat16(a * b),
{
    proof {
        assert(a * b <= 0xFFFF * 0xFFFF) by (nonlinear_arith)
            requires
                a <= 0xFFFF,
                b <= 0xFFFF,
        ;
    }
    let p: u32 = (a as u32) * (b as u32);
    if p > 0xFFFF {
        0xFFFF
    } else {
        p as u16
    }
}

fn curve_unit(repeat: u8, delta: u8, max_speed: u8, time_to_max: u8) -> (r: u16)
    requires
        delta * max_speed >= delta,
    ensures
        r == spec_curve_unit(repeat, delta, max_speed, time_to_max),
{
    proof {
        lemma_curve_fits(repeat, delta, max_speed, time_to_max);
        assert(0 <= delta * max_speed <= 65025) by (nonlinear_arith)
            requires
                0 <= delta <= 255,
                0 <= max_speed <= 255,
        ;
    }
    if repeat == 0 {
        delta as u16
    } else if repeat >= time_to_max {
        (delta as u16) * (max_speed as u16)
    } else {
        let repeat_count = repeat as u16;
        let ttm = time_to_max as u16;
        let min_unit = delta as u16;
        let max_unit = (delta as u16) * (max_speed as u16);
        let unit_range = max_unit - min_unit;
        proof {
            assert(ttm * ttm <= 65025) by (nonlinear_arith)
                requires
                    ttm <= 255,
            ;
            assert(repeat_count * repeat_count <= 65025) by (nonlinear_arith)
                requires
                    repeat_count <= 255,
            ;
        }
        let linear_term: u16 = sat_mul16(sat_mul16(2, repeat_count), ttm);
        let quadratic_term = repeat_count * repeat_count;
        let progress_numerator: u16 = if linear_term >= quadratic_term {
            linear_term - quadratic_term
        } else {
            0
        };
        let progress_denominator = ttm * ttm;
        let den = if progress_denominator >= 1 {
            progress_denominator
        } else {
            1
        };
        min_unit + (sat_mul16(unit_range, progress_numerator) / den)
    }
}

fn limit_unit(unit: u16, max: u8) -> (r: i8)
    ensures
        r == spec_limit_unit(unit as int, max),
        0 <= r <= 127,
{
    let u: u16 = if unit > max as u16 {
        max as u16
    } else if unit == 0 {
        1
    } else {
        unit
    };
    if u > 127 {
        127
    } else {
        u as i8
    }
}

fn scale_axis(v: i8) -> (r: i8)
    ensures
        r == spec_scale_axis(v),
{
    let c = (v as i16 * 181 + 128) / 256;
    proof {
        crate::arith::lemma_tdiv_bounds(v * 181 + 128, 256);
    }
    if c == 0 && v != 0 {
        if v > 0 {
            1
        } else {
            -1
        }
    } else {
        c as i8
    }
}

/// The axis of the report that a movement or wheel key drives.
pub open spec fn driven_axis(r: MouseReport, cat: MouseCategory) -> i8 {
    match cat {
        MouseCategory::Movement(MouseDirection::Up) | MouseCategory::Movement(MouseDirection::Down) => r.y,
        MouseCategory::Movement(_) => r.x,
        MouseCategory::Wheel(MouseDirection::Up) | MouseCategory::Wheel(MouseDirection::Down) => r.wheel,
        MouseCategory::Wheel(_) => r.pan,
        _ => 0,
    }
}

/// The sign a movement or wheel key gives its axis.
pub open spec fn driven_sign(cat: MouseCategory) -> int {
    match cat {
        MouseCategory::Movement(MouseDirection::Up) | MouseCategory::Movement(MouseDirection::Left) => -1,
        MouseCategory::Wheel(MouseDirection::Down) | MouseCategory::Wheel(MouseDirection::Left) => -1,
        _ => 1,
    }
}

proof fn lemma_scale_keeps_sign(v: i8)
    ensures
        v > 0 ==> spec_scale_axis(v) > 0,
        v < 0 ==> spec_scale_axis(v) < 0,
        v == 0 ==> spec_scale_axis(v) == 0,
{
    let a = v * 181 + 128;
    crate::arith::lemma_tdiv_bounds(a, 256);
    let c = tdiv(a, 256);
    assert(-23040 <= a <= 23115);
    assert(-91 < c < 91) by {
        if c >= 91 {
            assert(c * 256 >= 91 * 256) by (nonlinear_arith)
                requires
                    c >= 91,
            ;
        }
        if c <= -91 {
            assert(c * 256 <= -91 * 256) by (nonlinear_arith)
                requires
                    c <= -91,
            ;
        }
    }
    if v > 0 {
        assert(a > 0);
    }
    if v < 0 {
        assert(a < 0);
    }
    if v == 0 {
        assert(a == 128);
        assert(c == 0) by {
            assert(128int / 256 == 0);
        }
    }
}

/// Pressing a movement or wheel key and releasing it stops the axis it
/// drives, whatever the state before.
pub proof fn lemma_press_release_stops_axis(s: KeyboardMouse, key: u8, c: MouseKeyConfig)
    requires
        curve_ok(c),
        spec_category(key) matches Some(cat) && (cat is Movement || cat is Wheel),
    ensures
        ({
            let cat = spec_category(key)->0;
            let (s1, _) = spec_process_action_mouse(s, key, true, c);
            let (s2, _) = spec_process_action_mouse(s1, key, false, c);
            driven_axis(s2.mouse_report, cat) == 0
        }),
{
    let cat = spec_category(key)->0;
    let r = s.mouse_report;
    lemma_scale_keeps_sign(r.x);
    lemma_scale_keeps_sign(r.y);
    lemma_scale_keeps_sign(r.wheel);
    lemma_scale_keeps_sign(r.pan);
    let p = spec_pressed(s, cat, c);
    lemma_scale_keeps_sign(p.mouse_report.x);
    lemma_scale_keeps_sign(p.mouse_report.y);
    lemma_scale_keeps_sign(p.mouse_report.wheel);
    lemma_scale_keeps_sign(p.mouse_report.pan);
    let comp = spec_compensate_report(p);
    assert(driven_sign(cat) * driven_axis(comp.mouse_report, cat) >= 0);
    let (s1, _) = spec_process_action_mouse(s, key, true, c);
    assert(driven_axis(s1.mouse_report, cat) == driven_axis(comp.mouse_report, cat));
    let rel = spec_stopped_counters(spec_released(s1, cat));
    assert(driven_axis(rel.mouse_report, cat) == 0);
    lemma_scale_keeps_sign(rel.mouse_report.x);
    lemma_scale_keeps_sign(rel.mouse_report.y);
    lemma_scale_keeps_sign(rel.mouse_report.wheel);
    lemma_scale_keeps_sign(rel.mouse_report.pan);
}

/// Acceleration keys never ask for a report or a repeat; every other key
/// asks for a report, and only a pressed movement or wheel key for a
/// repeat.
pub proof fn lemma_report_and_repeat_requests(s: KeyboardMouse, key: u8, pressed: bool, c: MouseKeyConfig)
    ensures
        ({
            let (_, step) = spec_process_action_mouse(s, key, pressed, c);
            &&& step.send_report == !(spec_category(key) matches Some(MouseCategory::Accel(_)))
            &&& (step.repeat_after_ms is Some) == (pressed && (spec_category(key) matches Some(cat) && (
            cat is Movement || cat is Wheel)))
        }),
{
}

impl KeyboardMouse {
    /// No key held.
    pub fn new() -> (r: Self)
        ensures
            r == (KeyboardMouse {
                mouse_report: MouseReport { buttons: 0, x: 0, y: 0, wheel: 0, pan: 0 },
                mouse_repeat: 0,
                mouse_wheel_repeat: 0,
                mouse_accel: 0,
            }),
    {
        KeyboardMouse {
            mouse_report: MouseReport { buttons: 0, x: 0, y: 0, wheel: 0, pan: 0 },
            mouse_repeat: 0,
            mouse_wheel_repeat: 0,
            mouse_accel: 0,
        }
    }

    /// Mouse movement distance for the current repeat count and
    /// acceleration keys.
    pub fn calculate_mouse_move_unit(&self, config: &MouseKeyConfig) -> (r: i8)
        requires
            move_curve_ok(*config),
        ensures
            r == spec_move_unit(self.mouse_accel, self.mouse_repeat, *config),
            0 <= r <= 127,
    {
        let unit: u16 = if self.mouse_accel & 4 != 0 {
            20
        } else if self.mouse_accel & 2 != 0 {
            12
        } else if self.mouse_accel & 1 != 0 {
            4
        } else {
            curve_unit(self.mouse_repeat, config.move_delta, config.max_speed, config.ticks_to_max)
        };
        limit_unit(unit, config.move_max)
    }

    /// Mouse wheel distance for the current repeat count and acceleration
    /// keys.
    pub fn calculate_mouse_wheel_unit(&self, config: &MouseKeyConfig) -> (r: i8)
        requires
            wheel_curve_ok(*config),
        ensures
            r == spec_wheel_unit(self.mouse_accel, self.mouse_wheel_repeat, *config),
            0 <= r <= 127,
    {
        let unit: u16 = if self.mouse_accel & 4 != 0 {
            4
        } else if self.mouse_accel & 2 != 0 {
            2
        } else if self.mouse_accel & 1 != 0 {
            1
        } else {
            curve_unit(
                self.mouse_wheel_repeat,
                config.wheel_delta,
                config.wheel_max_speed,
                config.wheel_ticks_to_max,
            )
        };
        limit_unit(unit, config.wheel_max)
    }

    /// Diagonal movement compensation (about 1/sqrt(2)) of a pair of axes.
    pub fn apply_diagonal_compensation(&self, x: i8, y: i8) -> (r: (i8, i8))
        ensures
            r == spec_compensated(x, y),
    {
        if x != 0 && y != 0 {
            (scale_axis(x), scale_axis(y))
        } else {
            (x, y)
        }
    }
    /// A press: the axis or bit of the key's category.
    fn press(&mut self, cat: MouseCategory, config: &MouseKeyConfig)
        requires
            cat is Movement ==> move_curve_ok(*config),
            cat is Wheel ==> wheel_curve_ok(*config),
            cat matches MouseCategory::Button(i) ==> i < 8,
        ensures
            *final(self) == spec_pressed(*old(self), cat, *config),
    {
        match cat {
            MouseCategory::Movement(d) => {
                let reversed = match d {
                    MouseDirection::Up => self.mouse_report.y > 0,
                    MouseDirection::Down => self.mouse_report.y < 0,
                    MouseDirection::Left => self.mouse_report.x > 0,
                    MouseDirection::Right => self.mouse_report.x < 0,
                };
                if reversed {
                    self.mouse_repeat = 0;
                }
                let unit = self.calculate_mouse_move_unit(config);
                match d {
                    MouseDirection::Up => self.mouse_report.y = -unit,
                    MouseDirection::Down => self.mouse_report.y = unit,
                    MouseDirection::Left => self.mouse_report.x = -unit,
                    MouseDirection::Right => self.mouse_report.x = unit,
                }
            },
            MouseCategory::Wheel(d) => {
                let reversed = match d {
                    MouseDirection::Up => self.mouse_report.wheel < 0,
                    MouseDirection::Down => self.mouse_report.wheel > 0,
                    MouseDirection::Left => self.mouse_report.pan > 0,
                    MouseDirection::Right => self.mouse_report.pan < 0,
                };
                if reversed {
                    self.mouse_wheel_repeat = 0;
                }
                let unit = self.calculate_mouse_wheel_unit(config);
                match d {
                    MouseDirection::Up => self.mouse_report.wheel = unit,
                    MouseDirection::Down => self.mouse_report.wheel = -unit,
                    MouseDirection::Left => self.mouse_report.pan = -unit,
                    MouseDirection::Right => self.mouse_report.pan = unit,
                }
            },
            MouseCategory::Button(i) => {
                self.mouse_report.buttons = self.mouse_report.buttons | (1u8 << i);
            },
            MouseCategory::Accel(bit) => {
                self.mouse_accel = self.mouse_accel | bit;
            },
        }
    }

    /// A release: stops the key's axis if it still moves its way, or
    /// clears its bit.
    fn release(&mut self, cat: MouseCategory)
        requires
            cat matches MouseCategory::Button(i) ==> i < 8,
        ensures
            *final(self) == spec_released(*old(self), cat),
    {
        match cat {
            MouseCategory::Movement(d) => match d {
                MouseDirection::Up => if self.mouse_report.y < 0 {
                    self.mouse_report.y = 0;
                },
                MouseDirection::Down => if self.mouse_report.y > 0 {
                    self.mouse_report.y = 0;
                },
                MouseDirection::Left => if self.mouse_report.x < 0 {
                    self.mouse_report.x = 0;
                },
                MouseDirection::Right => if self.mouse_report.x > 0 {
                    self.mouse_report.x = 0;
                },
            },
            MouseCategory::Wheel(d) => match d {
                MouseDirection::Up => if self.mouse_report.wheel > 0 {
                    self.mouse_report.wheel = 0;
                },
                MouseDirection::Down => if self.mouse_report.wheel < 0 {
                    self.mouse_report.wheel = 0;
                },
                MouseDirection::Left => if self.mouse_report.pan < 0 {
                    self.mouse_report.pan = 0;
                },
                MouseDirection::Right => if self.mouse_report.pan > 0 {
                    self.mouse_report.pan = 0;
                },
            },
            MouseCategory::Button(i) => {
                self.mouse_report.buttons = self.mouse_report.buttons & !(1u8 << i);
            },
            MouseCategory::Accel(bit) => {
                self.mouse_accel = self.mouse_accel & !bit;
            },
        }
    }

    /// A mouse key event with HID usage `key`: edits the report, applies
    /// the diagonal compensation to it, and says whether to send it and
    /// when to repeat the press.
    pub fn process_action_mouse(&mut self, key: u8, pressed: bool, config: &MouseKeyConfig) -> (r: MouseKeyStep)
        requires
            curve_ok_for(key, pressed, *config),
        ensures
            (*final(self), r) == spec_process_action_mouse(*old(self), key, pressed, *config),
    {
        let cat = mouse_category(key);
        if pressed {
            if let Some(c) = cat {
                self.press(c, config);
            }
        } else {
            if let Some(c) = cat {
                self.release(c);
            }
            if self.mouse_report.x == 0 && self.mouse_report.y == 0 {
                self.mouse_repeat = 0;
            }
            if self.mouse_report.wheel == 0 && self.mouse_report.pan == 0 {
                self.mouse_wheel_repeat = 0;
            }
        }
        if self.mouse_report.x != 0 && self.mouse_report.y != 0 {
            let (x, y) = self.apply_diagonal_compensation(self.mouse_report.x, self.mouse_report.y);
            self.mouse_report.x = x;
            self.mouse_report.y = y;
        }
        if self.mouse_report.wheel != 0 && self.mouse_report.pan != 0 {
            let (wheel, pan) = self.apply_diagonal_compensation(self.mouse_report.wheel, self.mouse_report.pan);
            self.mouse_report.wheel = wheel;
            self.mouse_report.pan = pan;
        }
        let send_report = match cat {
            Some(MouseCategory::Accel(_)) => false,
            _ => true,
        };
        let mut repeat_after_ms: Option<u16> = None;
        if pressed {
            match cat {
                Some(MouseCategory::Movement(_)) => {
                    repeat_after_ms = Some(config.get_movement_delay(self.mouse_repeat));
                    if self.mouse_repeat < 255 {
                        self.mouse_repeat = self.mouse_repeat + 1;
                    }
                },
                Some(MouseCategory::Wheel(_)) => {
                    repeat_after_ms = Some(config.get_wheel_delay(self.mouse_wheel_repeat));
                    if self.mouse_wheel_repeat < 255 {
                        self.mouse_wheel_repeat = self.mouse_wheel_repeat + 1;
                    }
                },
                _ => {},
            }
        }
        MouseKeyStep { send_report, repeat_after_ms }
    }
}

/// Pressing the mouse button key `0xD1 + n` sets exactly bit `n` of the
/// report's buttons, and releasing it clears exactly that bit; the other
/// buttons stay.
pub proof fn lemma_button_key_sets_its_bit(s: KeyboardMouse, n: u8, c: MouseKeyConfig)
    requires
        n < 8,
    ensures
        spec_process_action_mouse(s, (0xD1 + n) as u8, true, c).0.mouse_report.buttons == s.mouse_report.buttons
            | (1u8 << n),
        spec_process_action_mouse(s, (0xD1 + n) as u8, false, c).0.mouse_report.buttons == s.mouse_report.buttons
            & !(1u8 << n),
{
    crate::mouse::lemma_button_keys(n);
}

} // verus!
