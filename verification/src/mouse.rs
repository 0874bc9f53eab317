//! Mouse key state machine and HID report generation.
//!
//! Tracks movement, wheel, acceleration and button keys, and derives the
//! mouse report from key presses and releases. Pressing a direction or
//! wheel key starts an automatic repeat: repeat ticks are scheduled per
//! category, and the speed grows with the repeat count. Opposite directions
//! cancel out; a category whose keys cancel or are all released stops
//! repeating. Times are milliseconds of a monotonic clock.

use vstd::prelude::*;

use crate::arith::tdiv;
use crate::event::MouseReport;

verus! {

/// Result of processing a mouse key event.
#[derive(Clone, Copy, Debug, PartialEq, Eq, Structural)]
pub enum MouseAction {
    /// Send report.
    SendReport,
    /// No report needed.
    NoReport,
}

/// A direction of a movement or wheel key.
#[derive(Clone, Copy, Debug, PartialEq, Eq, Structural)]
pub enum MouseDirection {
    Up,
    Down,
    Left,
    Right,
}

/// What a mouse key does.
#[derive(Clone, Copy, Debug, PartialEq, Eq, Structural)]
pub enum MouseCategory {
    /// Mouse movement
    Movement(MouseDirection),
    /// Mouse wheel movement
    Wheel(MouseDirection),
    /// Accel bit
    Accel(u8),
    /// Mouse button index
    Button(u8),
}

/// The category of the key with HID usage `key`: `MouseUp..=MouseRight`
/// (0xCD..=0xD0) move, `MouseBtn1..=MouseBtn8` (0xD1..=0xD8) are buttons,
/// `MouseWheelUp..=MouseWheelRight` (0xD9..=0xDC) scroll, and
/// `MouseAccel0..=MouseAccel2` (0xDD..=0xDF) set acceleration bits.
pub open spec fn spec_category(key: u8) -> Option<MouseCategory> {
    if key == 0xCD {
        Some(MouseCategory::Movement(MouseDirection::Up))
    } else if key == 0xCE {
        Some(MouseCategory::Movement(MouseDirection::Down))
    } else if key == 0xCF {
        Some(MouseCategory::Movement(MouseDirection::Left))
    } else if key == 0xD0 {
        Some(MouseCategory::Movement(MouseDirection::Right))
    } else if 0xD1 <= key <= 0xD8 {
        Some(MouseCategory::Button((key - 0xD1) as u8))
    } else if key == 0xD9 {
        Some(MouseCategory::Wheel(MouseDirection::Up))
    } else if key == 0xDA {
        Some(MouseCategory::Wheel(MouseDirection::Down))
    } else if key == 0xDB {
        Some(MouseCategory::Wheel(MouseDirection::Left))
    } else if key == 0xDC {
        Some(MouseCategory::Wheel(MouseDirection::Right))
    } else if key == 0xDD {
        Some(MouseCategory::Accel(1))
    } else if key == 0xDE {
        Some(MouseCategory::Accel(2))
    } else if key == 0xDF {
        Some(MouseCategory::Accel(4))
    } else {
        None
    }
}

/// The category of a mouse key; `None` for any other key.
pub fn mouse_category(key: u8) -> (r: Option<MouseCategory>)
    ensures
        r == spec_category(key),
{
    if key == 0xCD {
        Some(MouseCategory::Movement(MouseDirection::Up))
    } else if key == 0xCE {
        Some(MouseCategory::Movement(MouseDirection::Down))
    } else if key == 0xCF {
        Some(MouseCategory::Movement(MouseDirection::Left))
    } else if key == 0xD0 {
        Some(MouseCategory::Movement(MouseDirection::Right))
    } else if 0xD1 <= key && key <= 0xD8 {
        Some(MouseCategory::Button(key - 0xD1))
    } else if key == 0xD9 {
        Some(MouseCategory::Wheel(MouseDirection::Up))
    } else if key == 0xDA {
        Some(MouseCategory::Wheel(MouseDirection::Down))
    } else if key == 0xDB {
        Some(MouseCategory::Wheel(MouseDirection::Left))
    } else if key == 0xDC {
        Some(MouseCategory::Wheel(MouseDirection::Right))
    } else if key == 0xDD {
        Some(MouseCategory::Accel(1))
    } else if key == 0xDE {
        Some(MouseCategory::Accel(2))
    } else if key == 0xDF {
        Some(MouseCategory::Accel(4))
    } else {
        None
    }
}

/// Mouse key speeds and repeat timing.
#[derive(Clone, Copy, Debug, PartialEq, Eq, Structural)]
pub struct MouseKeyConfig {
    /// Movement per report at the first press.
    pub move_delta: u8,
    /// Top speed, as a multiple of `move_delta`.
    pub max_speed: u8,
    /// Repeat ticks to reach top speed.
    pub ticks_to_max: u8,
    /// Largest movement per report.
    pub move_max: u8,
    /// Wheel movement per report at the first press.
    pub wheel_delta: u8,
    /// Top wheel speed, as a multiple of `wheel_delta`.
    pub wheel_max_speed: u8,
    /// Repeat ticks to reach top wheel speed.
    pub wheel_ticks_to_max: u8,
    /// Largest wheel movement per report.
    pub wheel_max: u8,
    /// Delay before the first movement repeat, in ms.
    pub delay_ms: u16,
    /// Interval between later movement repeats, in ms.
    pub interval_ms: u16,
    /// Delay before the first wheel repeat, in ms.
    pub wheel_delay_ms: u16,
    /// Interval between later wheel repeats, in ms.
    pub wheel_interval_ms: u16,
}

impl MouseKeyConfig {
    /// Delay before the next movement repeat after `repeat` repeats.
    pub open spec fn spec_movement_delay(&self, repeat: u8) -> u16 {
        if repeat == 0 {
            self.delay_ms
        } else {
            self.interval_ms
        }
    }

    /// Delay before the next wheel repeat after `repeat` repeats.
    pub open spec fn spec_wheel_delay(&self, repeat: u8) -> u16 {
        if repeat == 0 {
            self.wheel_delay_ms
        } else {
            self.wheel_interval_ms
        }
    }

    /// Delay before the next movement repeat: the initial delay before the
    /// first repeat, the interval after that.
    pub fn get_movement_delay(&self, repeat: u8) -> (r: u16)
        ensures
            r == self.spec_movement_delay(repeat),
    {
        if repeat == 0 {
            self.delay_ms
        } else {
            self.interval_ms
        }
    }

    /// Delay before the next wheel repeat.
    pub fn get_wheel_delay(&self, repeat: u8) -> (r: u16)
        ensures
            r == self.spec_wheel_delay(repeat),
    {
        if repeat == 0 {
            self.wheel_delay_ms
        } else {
            self.wheel_interval_ms
        }
    }
}

impl Default for MouseKeyConfig {
    fn default() -> (r: Self)
        ensures
            r == (MouseKeyConfig {
                move_delta: 6,
                max_speed: 3,
                ticks_to_max: 50,
                move_max: 20,
                wheel_delta: 1,
                wheel_max_speed: 3,
                wheel_ticks_to_max: 50,
                wheel_max: 4,
                delay_ms: 100,
                interval_ms: 20,
                wheel_delay_ms: 100,
                wheel_interval_ms: 80,
            }),
    {
        MouseKeyConfig {
            move_delta: 6,
            max_speed: 3,
            ticks_to_max: 50,
            move_max: 20,
            wheel_delta: 1,
            wheel_max_speed: 3,
            wheel_ticks_to_max: 50,
            wheel_max: 4,
            delay_ms: 100,
            interval_ms: 20,
            wheel_delay_ms: 100,
            wheel_interval_ms: 80,
        }
    }
}

/// Largest time at which a repeat can still be scheduled without the
/// deadline overflowing.
pub const MAX_NOW_MS: u64 = 0xFFFF_FFFF_FFFF_0000;

/// Per-category (movement or wheel) axis state, repeat counter and deadline.
///
/// `x` and `y` track the net number of pressed keys per axis: Right and
/// WheelRight increment `x`, Left and WheelLeft decrement it; Down and
/// WheelDown increment `y`, Up and WheelUp decrement it. When opposite
/// directions cancel out the category becomes inactive and repeat stops.
#[derive(Clone, Copy, Debug, PartialEq, Eq, Structural, Default)]
pub struct DirectionState {
    pub x: i8,
    pub y: i8,
    pub repeat: u8,
    pub deadline: Option<u64>,
}

/// `v + d` saturated to the range of `i8`.
pub open spec fn sat_i8(v: int) -> i8 {
    if v > 127 {
        127
    } else if v < -128 {
        -128i8
    } else {
        v as i8
    }
}

/// Sign of an `i8`: -1, 0 or 1.
pub open spec fn signum(v: i8) -> int {
    if v > 0 {
        1
    } else if v < 0 {
        -1
    } else {
        0
    }
}

impl DirectionState {
    /// At least one direction has movement.
    pub open spec fn active(self) -> bool {
        self.x != 0 || self.y != 0
    }

    /// The axes after a key of `direction` is pressed (counts +1 in its
    /// direction) or released (counts back), saturating.
    pub open spec fn moved(self, direction: MouseDirection, pressed: bool) -> (i8, i8) {
        let delta: int = if pressed {
            1
        } else {
            -1
        };
        match direction {
            MouseDirection::Right => (sat_i8(self.x + delta), self.y),
            MouseDirection::Left => (sat_i8(self.x - delta), self.y),
            MouseDirection::Down => (self.x, sat_i8(self.y + delta)),
            MouseDirection::Up => (self.x, sat_i8(self.y - delta)),
        }
    }

    /// State after `update`: axes moved; on becoming active the repeat
    /// count starts at 1 and a repeat is scheduled `repeat_delay` from
    /// `now`; on becoming inactive repeat stops.
    pub open spec fn spec_update(self, direction: MouseDirection, pressed: bool, repeat_delay: u16, now: u64) -> Self {
        let (x, y) = self.moved(direction, pressed);
        let next = DirectionState { x, y, ..self };
        if !self.active() && next.active() {
            DirectionState { repeat: 1, deadline: Some((now + repeat_delay) as u64), ..next }
        } else if self.active() && !next.active() {
            DirectionState { repeat: 0, deadline: None, ..next }
        } else {
            next
        }
    }

    /// Update direction state and manage repeat scheduling.
    pub fn update(&mut self, direction: MouseDirection, pressed: bool, repeat_delay: u16, now: u64)
        requires
            now <= MAX_NOW_MS,
        ensures
            *final(self) == old(self).spec_update(direction, pressed, repeat_delay, now),
    {
        let was_active = self.has_active_direction();
        match direction {
            MouseDirection::Right => {
                self.x = if pressed {
                    crate::arith::sat_add_i8(self.x, 1)
                } else {
                    crate::arith::sat_add_i8(self.x, -1)
                };
            },
            MouseDirection::Left => {
                self.x = if pressed {
                    crate::arith::sat_sub_i8(self.x, 1)
                } else {
                    crate::arith::sat_sub_i8(self.x, -1)
                };
            },
            MouseDirection::Down => {
                self.y = if pressed {
                    crate::arith::sat_add_i8(self.y, 1)
                } else {
                    crate::arith::sat_add_i8(self.y, -1)
                };
            },
            MouseDirection::Up => {
                self.y = if pressed {
                    crate::arith::sat_sub_i8(self.y, 1)
                } else {
                    crate::arith::sat_sub_i8(self.y, -1)
                };
            },
        }
        let now_active = self.has_active_direction();
        if !was_active && now_active {
            // The initial press counts as the first occurrence.
            self.repeat = 1;
            self.deadline = Some(now + repeat_delay as u64);
        } else if was_active && !now_active {
            self.repeat = 0;
            self.deadline = None;
        }
    }

    /// Returns `true` if at least one direction has movement.
    pub fn has_active_direction(&self) -> (r: bool)
        ensures
            r == self.active(),
    {
        self.x != 0 || self.y != 0
    }

    /// Axis values with magnitude `unit` in the active directions.
    pub fn axis_values(&self, unit: i8) -> (r: (i8, i8))
        requires
            unit >= 0,
        ensures
            r.0 == signum(self.x) * unit,
            r.1 == signum(self.y) * unit,
    {
        let sx: i8 = if self.x > 0 {
            1
        } else if self.x < 0 {
            -1
        } else {
            0
        };
        let sy: i8 = if self.y > 0 {
            1
        } else if self.y < 0 {
            -1
        } else {
            0
        };
        (sx * unit, sy * unit)
    }

    /// Handle a repeat tick: count the repeat (up to `ticks_to_max`) and
    /// schedule the next one `repeat_delay` from `now`.
    pub fn on_repeat_tick(&mut self, ticks_to_max: u8, repeat_delay: u16, now: u64)
        requires
            now <= MAX_NOW_MS,
        ensures
            final(self).x == old(self).x,
            final(self).y == old(self).y,
            final(self).repeat == (if old(self).repeat < ticks_to_max {
                old(self).repeat + 1
            } else {
                old(self).repeat as int
            }),
            final(self).deadline == Some((now + repeat_delay) as u64),
    {
        if self.repeat < ticks_to_max {
            self.repeat = self.repeat + 1;
        }
        self.deadline = Some(now + repeat_delay as u64);
    }
}

/// Step 1 of the speed: base value of the acceleration curve after
/// `repeat` repeats: `delta` at first, the top `delta * max_speed` from
/// `ticks_to_max` on, and in between `min + range * (2x - x²)` with
/// `x = repeat / ticks_to_max` (in integer arithmetic).
pub open spec fn spec_base_unit(repeat: u8, delta: u8, max_speed: u8, ticks_to_max: u8) -> int {
    let max_unit = delta * max_speed;
    if repeat == 0 {
        delta as int
    } else if repeat >= ticks_to_max {
        max_unit
    } else {
        let unit_range = if max_unit >= delta {
            max_unit - delta
        } else {
            0
        };
        let num = 2 * repeat * ticks_to_max - repeat * repeat;
        delta + (unit_range * num) / (ticks_to_max * ticks_to_max)
    }
}

/// Step 2: the highest active acceleration key scales the base: Accel2
/// doubles it (saturating at `u16::MAX`), Accel1 halves it and Accel0
/// quarters it, rounding up.
pub open spec fn spec_accelerated(accel: u8, base: int) -> int {
    if accel & 4 != 0 {
        if base * 2 > 0xFFFF {
            0xFFFF
        } else {
            base * 2
        }
    } else if accel & 2 != 0 {
        (base + 1) / 2
    } else if accel & 1 != 0 {
        (base + 3) / 4
    } else {
        base
    }
}

/// Step 3: limited to `[1, max]` (1 when `max` is 0) and to `i8::MAX`.
pub open spec fn spec_clamped_unit(v: int, max: u8) -> i8 {
    let c = if max == 0 {
        1
    } else if v > max {
        max as int
    } else if v == 0 {
        1
    } else {
        v
    };
    if c > 127 {
        127
    } else {
        c as i8
    }
}

/// The movement unit for these settings.
pub open spec fn spec_calculate_unit(accel: u8, repeat: u8, delta: u8, max_speed: u8, ticks_to_max: u8, max: u8) -> i8 {
    spec_clamped_unit(spec_accelerated(accel, spec_base_unit(repeat, delta, max_speed, ticks_to_max)), max)
}

proof fn lemma_curve_bounds(repeat: u8, delta: u8, max_speed: u8, ticks_to_max: u8)
    requires
        0 < repeat < ticks_to_max,
    ensures
        0 <= 2 * repeat * ticks_to_max - repeat * repeat < ticks_to_max * ticks_to_max,
        ticks_to_max * ticks_to_max <= 65025,
        0 <= delta * max_speed <= 65025,
        2 * repeat * ticks_to_max <= 130050,
        spec_base_unit(repeat, delta, max_speed, ticks_to_max) <= 65025,
        spec_base_unit(repeat, delta, max_speed, ticks_to_max) >= 0,
        spec_base_unit(repeat, delta, max_speed, ticks_to_max) >= delta,
        spec_base_unit(repeat, delta, max_speed, ticks_to_max) - delta <= (if delta * max_speed >= delta {
            delta * max_speed - delta
        } else {
            0
        }),
{
    let r = repeat as int;
    let t = ticks_to_max as int;
    assert(t * t - (2 * r * t - r * r) == (t - r) * (t - r)) by (nonlinear_arith);
    assert((t - r) * (t - r) > 0) by (nonlinear_arith)
        requires
            t - r > 0,
    ;
    assert(t * t <= 255 * 255) by (nonlinear_arith)
        requires
            0 <= t <= 255,
    ;
    assert(2 * r * t - r * r >= 0) by (nonlinear_arith)
        requires
            0 < r < t,
    ;
    assert(2 * r * t <= 130050) by (nonlinear_arith)
        requires
            0 <= r <= 255,
            0 <= t <= 255,
    ;
    assert(0 <= delta * max_speed <= 65025) by (nonlinear_arith)
        requires
            0 <= delta <= 255,
            0 <= max_speed <= 255,
    ;
    let max_unit = delta * max_speed;
    let unit_range = if max_unit >= delta {
        max_unit - delta
    } else {
        0
    };
    let num = 2 * r * t - r * r;
    let den = t * t;
    assert(unit_range * num <= unit_range * den) by (nonlinear_arith)
        requires
            0 <= unit_range,
            0 <= num < den,
    ;
    assert((unit_range * num) / den <= unit_range) by {
        vstd::arithmetic::div_mod::lemma_div_is_ordered(unit_range * num, unit_range * den, den);
        vstd::arithmetic::div_mod::lemma_div_multiples_vanish(unit_range, den);
        assert(unit_range * den == den * unit_range) by (nonlinear_arith);
    }
    assert((unit_range * num) / den >= 0) by {
        assert(unit_range * num >= 0) by (nonlinear_arith)
            requires
                0 <= unit_range,
                0 <= num,
        ;
        vstd::arithmetic::div_mod::lemma_div_pos_is_pos(unit_range * num, den);
    }
}

/// Two-step speed calculation: the acceleration curve from the repeat
/// count, then the acceleration keys' multiplier (highest wins), limited to
/// `[1, max]` and `i8::MAX`.
pub fn calculate_unit(accel: u8, repeat: u8, delta: u8, max_speed: u8, ticks_to_max: u8, max: u8) -> (r: i8)
    ensures
        r == spec_calculate_unit(accel, repeat, delta, max_speed, ticks_to_max, max),
        1 <= r <= 127,
{
    proof {
        assert(0 <= delta * max_speed <= 65025) by (nonlinear_arith)
            requires
                0 <= delta <= 255,
                0 <= max_speed <= 255,
        ;
    }
    let max_unit: u16 = (delta as u16) * (max_speed as u16);
    let base: u16 = if repeat == 0 {
        delta as u16
    } else if repeat >= ticks_to_max {
        max_unit
    } else {
        proof {
            lemma_curve_bounds(repeat, delta, max_speed, ticks_to_max);
        }
        let repeat_count = repeat as u32;
        let ttm = ticks_to_max as u32;
        let min_unit = delta as u32;
        let unit_range: u32 = if (max_unit as u32) >= min_unit {
            (max_unit as u32) - min_unit
        } else {
            0
        };
        let linear_term = 2 * repeat_count * ttm;
        let quadratic_term = repeat_count * repeat_count;
        let progress_num = linear_term - quadratic_term;
        let progress_den = ttm * ttm;
        proof {
            assert(unit_range * progress_num <= 65025 * 65024) by (nonlinear_arith)
                requires
                    unit_range <= 65025,
                    progress_num <= 65024,
            ;
        }
        (min_unit + (unit_range * progress_num / progress_den)) as u16
    };
    let multiplied: u16 = if accel & 4 != 0 {
        if base > 0x7FFF {
            0xFFFF
        } else {
            base * 2
        }
    } else if accel & 2 != 0 {
        (base + 1) / 2
    } else if accel & 1 != 0 {
        (base + 3) / 4
    } else {
        base
    };
    let clamped: u16 = if max == 0 {
        1
    } else if multiplied > max as u16 {
        max as u16
    } else if multiplied == 0 {
        1
    } else {
        multiplied
    };
    if clamped > 127 {
        127
    } else {
        clamped as i8
    }
}

/// One axis of the diagonal compensation (181/256, about 1/sqrt(2)),
/// rounded half away from zero and never reaching zero.
pub open spec fn spec_compensate(v: i8) -> i8 {
    let bias: int = if v >= 0 {
        128
    } else {
        -128
    };
    let c = tdiv(v * 181 + bias, 256);
    if c == 0 && v != 0 {
        if v > 0 {
            1i8
        } else {
            -1i8
        }
    } else {
        c as i8
    }
}

/// The diagonal compensation of a pair of axes: both scaled when both move.
pub open spec fn spec_diagonal(x: i8, y: i8) -> (i8, i8) {
    if x != 0 && y != 0 {
        (spec_compensate(x), spec_compensate(y))
    } else {
        (x, y)
    }
}

fn compensate(v: i8) -> (r: i8)
    ensures
        r == spec_compensate(v),
{
    let v16 = v as i16;
    let bias: i16 = if v16 >= 0 {
        128
    } else {
        -128
    };
    let c = (v16 * 181 + bias) / 256;
    proof {
        crate::arith::lemma_tdiv_bounds(v16 * 181 + bias, 256);
    }
    if c == 0 && v != 0 {
        if v > 0 {
            1
        } else {
            -1
        }
    } else {
        c as i8
    }
}

/// Apply diagonal movement compensation (approximation of 1/sqrt(2)).
pub fn apply_diagonal_compensation(x: i8, y: i8) -> (r: (i8, i8))
    ensures
        r == spec_diagonal(x, y),
{
    if x != 0 && y != 0 {
        (compensate(x), compensate(y))
    } else {
        (x, y)
    }
}

/// Mouse key state: the raw report, the acceleration bits, and the
/// movement and wheel direction states.
#[derive(Clone, Copy, Debug, PartialEq, Eq, Structural)]
pub struct MouseState {
    /// Raw report: axes without diagonal compensation.
    pub report: MouseReport,
    /// Acceleration bits held (bit 0 Accel0, bit 1 Accel1, bit 2 Accel2).
    pub accel: u8,
    pub movement: DirectionState,
    pub wheel: DirectionState,
}

/// The movement unit of a state.
pub open spec fn spec_move_unit(s: MouseState, c: MouseKeyConfig) -> i8 {
    spec_calculate_unit(s.accel, s.movement.repeat, c.move_delta, c.max_speed, c.ticks_to_max, c.move_max)
}

/// The wheel unit of a state.
pub open spec fn spec_wheel_unit(s: MouseState, c: MouseKeyConfig) -> i8 {
    spec_calculate_unit(s.accel, s.wheel.repeat, c.wheel_delta, c.wheel_max_speed, c.wheel_ticks_to_max, c.wheel_max)
}

/// The raw report of a state: each active axis moves by its category's
/// unit in its direction (wheel `y` is the wheel, wheel `x` the pan);
/// buttons as they are.
pub open spec fn spec_recalculated(s: MouseState, c: MouseKeyConfig) -> MouseReport {
    let mu = spec_move_unit(s, c) as int;
    let wu = spec_wheel_unit(s, c) as int;
    MouseReport {
        buttons: s.report.buttons,
        x: if s.movement.active() { (signum(s.movement.x) * mu) as i8 } else { 0 },
        y: if s.movement.active() { (signum(s.movement.y) * mu) as i8 } else { 0 },
        wheel: if s.wheel.active() { (signum(s.wheel.y) * wu) as i8 } else { 0 },
        pan: if s.wheel.active() { (signum(s.wheel.x) * wu) as i8 } else { 0 },
    }
}

/// State and action after a mouse key event.
pub open spec fn spec_process(s: MouseState, key: u8, pressed: bool, c: MouseKeyConfig, now: u64) -> (
    MouseState,
    MouseAction,
) {
    match spec_category(key) {
        None => (s, MouseAction::NoReport),
        Some(MouseCategory::Accel(bit)) => (
            MouseState {
                accel: if pressed {
                    s.accel | bit
                } else {
                    s.accel & !bit
                },
                ..s
            },
            MouseAction::NoReport,
        ),
        Some(MouseCategory::Button(i)) => (
            MouseState {
                report: MouseReport {
                    buttons: if pressed {
                        s.report.buttons | ((1u8 << i) as u8)
                    } else {
                        s.report.buttons & !((1u8 << i) as u8)
                    },
                    ..s.report
                },
                ..s
            },
            MouseAction::SendReport,
        ),
        Some(MouseCategory::Movement(d)) => {
            let moved = MouseState {
                movement: s.movement.spec_update(d, pressed, c.spec_movement_delay(s.movement.repeat), now),
                ..s
            };
            let next = MouseState { report: spec_recalculated(moved, c), ..moved };
            (next, if next.report != s.report { MouseAction::SendReport } else { MouseAction::NoReport })
        },
        Some(MouseCategory::Wheel(d)) => {
            let moved = MouseState {
                wheel: s.wheel.spec_update(d, pressed, c.spec_wheel_delay(s.wheel.repeat), now),
                ..s
            };
            let next = MouseState { report: spec_recalculated(moved, c), ..moved };
            (next, if next.report != s.report { MouseAction::SendReport } else { MouseAction::NoReport })
        },
    }
}

/// The report sent to the host: the raw report with diagonal compensation
/// of the movement pair and of the wheel pair.
pub open spec fn spec_report(r: MouseReport) -> MouseReport {
    let (x, y) = spec_diagonal(r.x, r.y);
    let (wheel, pan) = spec_diagonal(r.wheel, r.pan);
    MouseReport { buttons: r.buttons, x, y, wheel, pan }
}

/// Whether a category's repeat is due at `now`.
pub open spec fn due(d: DirectionState, now: u64) -> bool {
    d.deadline matches Some(t) && now >= t && d.active()
}

impl MouseState {
    /// No key held: an empty report.
    pub fn new() -> (r: Self)
        ensures
            r.report == (MouseReport { buttons: 0, x: 0, y: 0, wheel: 0, pan: 0 }),
            r.accel == 0,
            r.movement == (DirectionState { x: 0, y: 0, repeat: 0, deadline: None }),
            r.wheel == (DirectionState { x: 0, y: 0, repeat: 0, deadline: None }),
    {
        MouseState {
            report: MouseReport { buttons: 0, x: 0, y: 0, wheel: 0, pan: 0 },
            accel: 0,
            movement: DirectionState { x: 0, y: 0, repeat: 0, deadline: None },
            wheel: DirectionState { x: 0, y: 0, repeat: 0, deadline: None },
        }
    }

    /// Process a mouse key event (press or release) at time `now`.
    pub fn process(&mut self, key: u8, pressed: bool, config: &MouseKeyConfig, now: u64) -> (r: MouseAction)
        requires
            now <= MAX_NOW_MS,
        ensures
            (*final(self), r) == spec_process(*old(self), key, pressed, *config, now),
    {
        match mouse_category(key) {
            None => MouseAction::NoReport,
            Some(MouseCategory::Accel(bit)) => {
                if pressed {
                    self.accel = self.accel | bit;
                } else {
                    self.accel = self.accel & !bit;
                }
                MouseAction::NoReport
            },
            Some(MouseCategory::Button(index)) => {
                if pressed {
                    self.report.buttons = self.report.buttons | (1u8 << index);
                } else {
                    self.report.buttons = self.report.buttons & !(1u8 << index);
                }
                MouseAction::SendReport
            },
            Some(MouseCategory::Movement(direction)) => {
                let delay = config.get_movement_delay(self.movement.repeat);
                self.movement.update(direction, pressed, delay, now);
                let old_report = self.report;
                self.recalculate_report(config);
                if old_report != self.report {
                    MouseAction::SendReport
                } else {
                    MouseAction::NoReport
                }
            },
            Some(MouseCategory::Wheel(direction)) => {
                let delay = config.get_wheel_delay(self.wheel.repeat);
                self.wheel.update(direction, pressed, delay, now);
                let old_report = self.report;
                self.recalculate_report(config);
                if old_report != self.report {
                    MouseAction::SendReport
                } else {
                    MouseAction::NoReport
                }
            },
        }
    }

    /// Recompute the report's axes from the direction states, repeat
    /// counts and acceleration bits. Buttons are not touched.
    pub fn recalculate_report(&mut self, config: &MouseKeyConfig)
        ensures
            final(self).report == spec_recalculated(*old(self), *config),
            final(self).accel == old(self).accel,
            final(self).movement == old(self).movement,
            final(self).wheel == old(self).wheel,
    {
        if self.movement.has_active_direction() {
            let unit = self.calculate_move_unit(config);
            let (x, y) = self.movement.axis_values(unit);
            self.report.x = x;
            self.report.y = y;
        } else {
            self.report.x = 0;
            self.report.y = 0;
        }
        if self.wheel.has_active_direction() {
            let unit = self.calculate_wheel_unit(config);
            let (pan, wheel) = self.wheel.axis_values(unit);
            self.report.wheel = wheel;
            self.report.pan = pan;
        } else {
            self.report.wheel = 0;
            self.report.pan = 0;
        }
    }

    /// Fire the categories whose repeat deadline has passed at `now`: each
    /// counts a repeat and schedules the next one. Returns the report with
    /// only the fired categories' axes, or `None` when nothing fired.
    pub fn fire_repeats(&mut self, config: &MouseKeyConfig, now: u64) -> (r: Option<MouseReport>)
        requires
            now <= MAX_NOW_MS,
        ensures
            ({
                let s = *old(self);
                let fm = due(s.movement, now);
                let fw = due(s.wheel, now);
                let mv = if fm {
                    DirectionState {
                        repeat: if s.movement.repeat < config.ticks_to_max {
                            (s.movement.repeat + 1) as u8
                        } else {
                            s.movement.repeat
                        },
                        deadline: Some((now + config.spec_movement_delay(s.movement.repeat)) as u64),
                        ..s.movement
                    }
                } else {
                    s.movement
                };
                let wh = if fw {
                    DirectionState {
                        repeat: if s.wheel.repeat < config.wheel_ticks_to_max {
                            (s.wheel.repeat + 1) as u8
                        } else {
                            s.wheel.repeat
                        },
                        deadline: Some((now + config.spec_wheel_delay(s.wheel.repeat)) as u64),
                        ..s.wheel
                    }
                } else {
                    s.wheel
                };
                let ticked = MouseState { movement: mv, wheel: wh, ..s };
                &&& !fm && !fw ==> r is None && *final(self) == s
                &&& (fm || fw) ==> {
                    let next = MouseState { report: spec_recalculated(ticked, *config), ..ticked };
                    let full = spec_report(next.report);
                    &&& *final(self) == next
                    &&& r == Some(
                        MouseReport {
                            buttons: full.buttons,
                            x: if fm { full.x } else { 0 },
                            y: if fm { full.y } else { 0 },
                            wheel: if fw { full.wheel } else { 0 },
                            pan: if fw { full.pan } else { 0 },
                        },
                    )
                }
            }),
    {
        let fire_movement = match self.movement.deadline {
            Some(d) => now >= d,
            None => false,
        } && self.movement.has_active_direction();
        let fire_wheel = match self.wheel.deadline {
            Some(d) => now >= d,
            None => false,
        } && self.wheel.has_active_direction();
        if fire_movement {
            let delay = config.get_movement_delay(self.movement.repeat);
            self.movement.on_repeat_tick(config.ticks_to_max, delay, now);
        }
        if fire_wheel {
            let delay = config.get_wheel_delay(self.wheel.repeat);
            self.wheel.on_repeat_tick(config.wheel_ticks_to_max, delay, now);
        }
        if !fire_movement && !fire_wheel {
            return None;
        }
        self.recalculate_report(config);
        let mut report = self.get_report();
        if !fire_movement {
            report.x = 0;
            report.y = 0;
        }
        if !fire_wheel {
            report.wheel = 0;
            report.pan = 0;
        }
        Some(report)
    }

    /// Returns the earliest pending repeat deadline, if any.
    pub fn next_deadline(&self) -> (r: Option<u64>)
        ensures
            r == (match (self.movement.deadline, self.wheel.deadline) {
                (Some(m), Some(w)) => Some(if m <= w { m } else { w }),
                (Some(m), None) => Some(m),
                (None, Some(w)) => Some(w),
                (None, None) => None,
            }),
    {
        match (self.movement.deadline, self.wheel.deadline) {
            (Some(m), Some(w)) => Some(if m <= w { m } else { w }),
            (Some(m), None) => Some(m),
            (None, Some(w)) => Some(w),
            (None, None) => None,
        }
    }

    /// A copy of the current report with diagonal compensation applied.
    /// The state keeps the raw values, so that repeated recalculations do
    /// not shrink the non-repeated axis over time.
    pub fn get_report(&self) -> (r: MouseReport)
        ensures
            r == spec_report(self.report),
    {
        let (x, y) = apply_diagonal_compensation(self.report.x, self.report.y);
        let (wheel, pan) = apply_diagonal_compensation(self.report.wheel, self.report.pan);
        MouseReport { buttons: self.report.buttons, x, y, wheel, pan }
    }

    /// The movement unit for the current repeat count and acceleration.
    pub fn calculate_move_unit(&self, config: &MouseKeyConfig) -> (r: i8)
        ensures
            r == spec_move_unit(*self, *config),
            1 <= r <= 127,
    {
        calculate_unit(
            self.accel,
            self.movement.repeat,
            config.move_delta,
            config.max_speed,
            config.ticks_to_max,
            config.move_max,
        )
    }

    /// The wheel unit for the current repeat count and acceleration.
    pub fn calculate_wheel_unit(&self, config: &MouseKeyConfig) -> (r: i8)
        ensures
            r == spec_wheel_unit(*self, *config),
            1 <= r <= 127,
    {
        calculate_unit(
            self.accel,
            self.wheel.repeat,
            config.wheel_delta,
            config.wheel_max_speed,
            config.wheel_ticks_to_max,
            config.wheel_max,
        )
    }
}

/// Pressing a direction key and releasing it again gives back the axes it
/// found (away from the saturation limits); a category that was idle is
/// idle again, with its repeat stopped.
pub proof fn lemma_press_release_restores(
    d: DirectionState,
    dir: MouseDirection,
    delay1: u16,
    now1: u64,
    delay2: u16,
    now2: u64,
)
    requires
        -127 < d.x < 127,
        -127 < d.y < 127,
    ensures
        ({
            let e = d.spec_update(dir, true, delay1, now1).spec_update(dir, false, delay2, now2);
            &&& e.x == d.x
            &&& e.y == d.y
            &&& !d.active() ==> e.repeat == 0 && e.deadline is None
        }),
{
}

/// Opposite directions cancel: with Right and Left both pressed on an idle
/// axis there is no movement and no repeat.
pub proof fn lemma_opposite_directions_cancel(d: DirectionState, delay1: u16, now1: u64, delay2: u16, now2: u64)
    requires
        d.x == 0,
        d.y == 0,
    ensures
        ({
            let e = d.spec_update(MouseDirection::Right, true, delay1, now1).spec_update(
                MouseDirection::Left,
                true,
                delay2,
                now2,
            );
            &&& e.x == 0
            &&& !e.active()
            &&& e.repeat == 0
            &&& e.deadline is None
        }),
{
}

/// Diagonal compensation keeps a moving axis moving in the same direction
/// and never makes it faster.
pub proof fn lemma_compensation_keeps_direction(v: i8)
    requires
        v != 0,
    ensures
        spec_compensate(v) != 0,
        v > 0 ==> 0 < spec_compensate(v) <= v,
        v < 0 ==> v <= spec_compensate(v) < 0,
{
    let bias: int = if v >= 0 {
        128
    } else {
        -128
    };
    crate::arith::lemma_tdiv_bounds(v * 181 + bias, 256);
    let c = tdiv(v * 181 + bias, 256);
    if v > 0 {
        assert(c * 256 <= v * 181 + 128);
        assert(c <= v);
    } else {
        assert(c * 256 >= v * 181 - 128);
        assert(c >= v);
    }
}

/// With no repeat and no acceleration key the speed is the configured
/// delta (within `[1, max]`), and at the end of the curve it is the top
/// speed `delta * max_speed` (within `[1, max]`).
pub proof fn lemma_unit_curve_ends(delta: u8, max_speed: u8, ticks_to_max: u8, max: u8, repeat: u8)
    requires
        max > 0,
        repeat >= ticks_to_max,
        repeat > 0,
    ensures
        spec_calculate_unit(0, 0, delta, max_speed, ticks_to_max, max) == spec_clamped_unit(delta as int, max),
        spec_calculate_unit(0, repeat, delta, max_speed, ticks_to_max, max) == spec_clamped_unit(
            delta * max_speed,
            max,
        ),
{
    assert(0u8 & 4 == 0 && 0u8 & 2 == 0 && 0u8 & 1 == 0) by (bit_vector);
}

proof fn lemma_base_unit_nonneg(repeat: u8, delta: u8, max_speed: u8, ticks_to_max: u8)
    ensures
        spec_base_unit(repeat, delta, max_speed, ticks_to_max) >= 0,
{
    if 0 < repeat < ticks_to_max {
        lemma_curve_bounds(repeat, delta, max_speed, ticks_to_max);
    } else {
        assert(delta * max_speed >= 0) by (nonlinear_arith)
            requires
                delta >= 0,
                max_speed >= 0,
        ;
    }
}

proof fn lemma_base_unit_grows(r1: u8, r2: u8, delta: u8, max_speed: u8, ticks_to_max: u8)
    requires
        max_speed >= 1,
        r1 <= r2,
    ensures
        spec_base_unit(r1, delta, max_speed, ticks_to_max) <= spec_base_unit(r2, delta, max_speed, ticks_to_max),
{
    let max_unit = delta * max_speed;
    assert(max_unit >= delta) by (nonlinear_arith)
        requires
            max_speed >= 1,
            delta >= 0,
            max_unit == delta * max_speed,
    ;
    let t = ticks_to_max as int;
    let range = max_unit - delta;
    if r1 == 0 {
        if 0 < r2 < ticks_to_max {
            lemma_curve_bounds(r2, delta, max_speed, ticks_to_max);
        }
    } else if r1 >= ticks_to_max {
    } else if r2 >= ticks_to_max {
        lemma_curve_bounds(r1, delta, max_speed, ticks_to_max);
    } else {
        lemma_curve_bounds(r1, delta, max_speed, ticks_to_max);
        lemma_curve_bounds(r2, delta, max_speed, ticks_to_max);
        let a = r1 as int;
        let b = r2 as int;
        let n1 = 2 * a * t - a * a;
        let n2 = 2 * b * t - b * b;
        assert(n2 - n1 == (b - a) * (2 * t - a - b)) by (nonlinear_arith)
            requires
                n1 == 2 * a * t - a * a,
                n2 == 2 * b * t - b * b,
        ;
        assert((b - a) * (2 * t - a - b) >= 0) by (nonlinear_arith)
            requires
                0 <= b - a,
                0 <= 2 * t - a - b,
        ;
        assert(range * n1 <= range * n2) by (nonlinear_arith)
            requires
                0 <= range,
                n1 <= n2,
        ;
        vstd::arithmetic::div_mod::lemma_div_is_ordered(range * n1, range * n2, t * t);
    }
}

proof fn lemma_accelerated_grows(accel: u8, b1: int, b2: int)
    requires
        0 <= b1 <= b2,
    ensures
        0 <= spec_accelerated(accel, b1) <= spec_accelerated(accel, b2),
{
    if accel & 4 == 0 && accel & 2 != 0 {
        vstd::arithmetic::div_mod::lemma_div_is_ordered(b1 + 1, b2 + 1, 2);
    } else if accel & 4 == 0 && accel & 2 == 0 && accel & 1 != 0 {
        vstd::arithmetic::div_mod::lemma_div_is_ordered(b1 + 3, b2 + 3, 4);
    }
}

/// The mouse key speed does not fall as the key repeats (with a top speed
/// of at least the base one), and it lies in `[1, min(max, 127)]`, or is 1
/// when `max` is 0.
pub proof fn lemma_unit_grows_with_repeat(
    accel: u8,
    r1: u8,
    r2: u8,
    delta: u8,
    max_speed: u8,
    ticks_to_max: u8,
    max: u8,
)
    requires
        max_speed >= 1,
        r1 <= r2,
    ensures
        spec_calculate_unit(accel, r1, delta, max_speed, ticks_to_max, max) <= spec_calculate_unit(
            accel,
            r2,
            delta,
            max_speed,
            ticks_to_max,
            max,
        ),
        max > 0 ==> 1 <= spec_calculate_unit(accel, r1, delta, max_speed, ticks_to_max, max) <= max
            && spec_calculate_unit(accel, r1, delta, max_speed, ticks_to_max, max) <= 127,
        max == 0 ==> spec_calculate_unit(accel, r1, delta, max_speed, ticks_to_max, max) == 1,
{
    lemma_base_unit_nonneg(r1, delta, max_speed, ticks_to_max);
    lemma_base_unit_nonneg(r2, delta, max_speed, ticks_to_max);
    lemma_base_unit_grows(r1, r2, delta, max_speed, ticks_to_max);
    lemma_accelerated_grows(
        accel,
        spec_base_unit(r1, delta, max_speed, ticks_to_max),
        spec_base_unit(r2, delta, max_speed, ticks_to_max),
    );
}

/// The mouse button keys `MouseBtn1..MouseBtn8` (usages 0xD1..0xD8) are the
/// buttons 0..7 in order: the key `0xD1 + n` is button `n`.
pub proof fn lemma_button_keys(n: u8)
    requires
        n < 8,
    ensures
        spec_category((0xD1 + n) as u8) == Some(MouseCategory::Button(n)),
{
}

} // verus!
