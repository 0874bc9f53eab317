//! Common functionality across pointing devices: the motion accumulator,
//! the pointing modes and their configurations, and the caret-mode tap
//! computation.

use vstd::prelude::*;

use crate::arith::{abs_int, clamp_i16_to_i8, clamp_int, lemma_tdiv_bounds, sat_add_i16, tdiv};
use crate::event::{Axis, AxisEvent, MouseReport, PointingEvent};

verus! {

/// Device id that makes a processor handle events from every pointing device.
pub const ALL_POINTING_DEVICES: u8 = 255;

/// HID usage of the Right arrow key.
pub const KC_RIGHT: u8 = 0x4F;

/// HID usage of the Left arrow key.
pub const KC_LEFT: u8 = 0x50;

/// HID usage of the Down arrow key.
pub const KC_DOWN: u8 = 0x51;

/// HID usage of the Up arrow key.
pub const KC_UP: u8 = 0x52;

/// Motion data from the sensor
#[derive(Debug, Clone, Copy)]
pub struct MotionData {
    pub dx: i16,
    pub dy: i16,
}

impl Default for MotionData {
    fn default() -> (r: Self)
        ensures
            r.dx == 0 && r.dy == 0,
    {
        MotionData { dx: 0, dy: 0 }
    }
}

/// Errors of pointing devices
#[derive(Debug, Clone, Copy, PartialEq, Eq)]
pub enum PointingDriverError {
    /// SPI communication error
    Spi,
    /// Invalid product ID detected
    InvalidProductId(u8),
    /// Initialization failed
    InitFailed,
    /// Invalid CPI value
    InvalidCpi,
    /// Invalid firmware signature detected
    InvalidFwSignature((u8, u8)),
    /// Invalid rotational transform angle
    InvalidRotTransAngle,
    /// Not implemented
    NotImplementedError,
}

/// Configuration for cursor mode
#[derive(Clone, Copy, Debug, PartialEq, Eq, Structural)]
pub struct CursorConfig {
    /// Multiplier for X axis. Higher = more output per unit of motion. 0 disables X.
    pub multiplier_x: u8,
    /// Multiplier for Y axis. Higher = more output per unit of motion. 0 disables Y.
    pub multiplier_y: u8,
    /// Invert X axis movement.
    pub invert_x: bool,
    /// Invert Y axis movement.
    pub invert_y: bool,
}

impl Default for CursorConfig {
    fn default() -> (r: Self)
        ensures
            r == (CursorConfig { multiplier_x: 1, multiplier_y: 1, invert_x: false, invert_y: false }),
    {
        Self { multiplier_x: 1, multiplier_y: 1, invert_x: false, invert_y: false }
    }
}

/// Configuration for caret mode. Keycodes are HID usage ids.
#[derive(Clone, Copy, Debug, PartialEq, Eq, Structural)]
pub struct CaretConfig {
    /// Disable X axis in caret mode.
    pub disable_x: bool,
    /// Disable y axis in caret mode.
    pub disable_y: bool,
    /// Invert X axis.
    pub invert_x: bool,
    /// Invert Y axis.
    pub invert_y: bool,
    /// Threshold for accumulated motion. Read this as sensitivity in caret mode.
    /// Higher values mean less sensitivity.
    pub threshold: i16,
    /// Keycode to emit for up motion. Default: Up arrow
    pub keycode_up: u8,
    /// Keycode to emit for down motion. Default: Down arrow
    pub keycode_down: u8,
    /// Keycode to emit for left motion. Default: Left arrow
    pub keycode_left: u8,
    /// Keycode to emit for right motion. Default: Right arrow
    pub keycode_right: u8,
}

impl Default for CaretConfig {
    fn default() -> (r: Self)
        ensures
            r == (CaretConfig {
                disable_x: false,
                disable_y: false,
                invert_x: false,
                invert_y: false,
                threshold: 100,
                keycode_up: KC_UP,
                keycode_down: KC_DOWN,
                keycode_left: KC_LEFT,
                keycode_right: KC_RIGHT,
            }),
    {
        Self {
            disable_x: false,
            disable_y: false,
            invert_x: false,
            invert_y: false,
            threshold: 100,
            keycode_up: KC_UP,
            keycode_down: KC_DOWN,
            keycode_left: KC_LEFT,
            keycode_right: KC_RIGHT,
        }
    }
}

/// Configuration for scroll mode
#[derive(Clone, Copy, Debug, PartialEq, Eq, Structural)]
pub struct ScrollConfig {
    /// Multiplier for X axis (-> pan). 0 disables horizontal pan.
    pub multiplier_x: u8,
    /// Divisor for X axis (-> pan). Higher = slower. 0 disables horizontal pan.
    pub divisor_x: u8,
    /// Multiplier for Y axis (-> wheel). 0 disables vertical scroll.
    pub multiplier_y: u8,
    /// Divisor for Y axis (-> wheel). Higher = slower. 0 disables vertical scroll.
    pub divisor_y: u8,
    /// Invert X axis. In scroll mode X maps to pan, so this reverses pan direction.
    pub invert_x: bool,
    /// Invert Y axis. In scroll mode Y maps to wheel, so this reverses scroll direction.
    pub invert_y: bool,
}

impl Default for ScrollConfig {
    fn default() -> (r: Self)
        ensures
            r == (ScrollConfig {
                multiplier_x: 1,
                divisor_x: 8,
                multiplier_y: 1,
                divisor_y: 8,
                invert_x: false,
                invert_y: false,
            }),
    {
        Self { multiplier_x: 1, multiplier_y: 1, divisor_x: 8, divisor_y: 8, invert_x: false, invert_y: false }
    }
}

/// Configuration for sniper (precision) mode
#[derive(Clone, Copy, Debug, PartialEq, Eq, Structural)]
pub struct SniperConfig {
    /// Multiplier for both axes.
    pub multiplier: u8,
    /// Divisor for both axes. Higher = slower, more precise movement.
    pub divisor: u8,
    /// Invert X axis movement.
    pub invert_x: bool,
    /// Invert Y axis movement.
    pub invert_y: bool,
}

impl Default for SniperConfig {
    fn default() -> (r: Self)
        ensures
            r == (SniperConfig { multiplier: 1, divisor: 4, invert_x: false, invert_y: false }),
    {
        Self { multiplier: 1, divisor: 4, invert_x: false, invert_y: false }
    }
}

/// Pointing mode determines how raw XY motion is interpreted
#[derive(Clone, Copy, Debug, PartialEq, Eq, Structural)]
pub enum PointingMode {
    /// Default cursor mode - XY maps to mouse XY movement
    Cursor(CursorConfig),
    /// Scroll mode - XY maps to wheel (vertical) and pan (horizontal)
    Scroll(ScrollConfig),
    /// Sniper mode - XY maps to cursor but at reduced sensitivity
    Sniper(SniperConfig),
    /// Caret mode, XY maps to vertical and horizontal caret movement
    Caret(CaretConfig),
}

impl Default for PointingMode {
    fn default() -> (r: Self)
        ensures
            r == PointingMode::Cursor(
                CursorConfig { multiplier_x: 1, multiplier_y: 1, invert_x: false, invert_y: false },
            ),
    {
        PointingMode::Cursor(CursorConfig::default())
    }
}

/// One axis of `MotionAccumulator::accumulate`: the output and the new
/// remainder. The scaled motion is added to the remainder (saturating at
/// the `i16` range), divided with truncation, and what the division did
/// not consume stays behind. A divisor of 0 disables the axis.
pub open spec fn accumulate_axis(rem: int, d: int, ratio: (u8, u8)) -> (int, int) {
    if ratio.1 == 0 {
        (0, 0)
    } else {
        let total = clamp_int(rem + d * ratio.0, i16::MIN as int, i16::MAX as int);
        let out = tdiv(total, ratio.1 as int);
        (out, total - out * ratio.1)
    }
}

/// One axis of `MotionAccumulator::accumulate_persistent`: like
/// `accumulate_axis`, except that the remainder keeps the whole running
/// total.
pub open spec fn accumulate_axis_persistent(rem: int, d: int, ratio: (u8, u8)) -> (int, int) {
    if ratio.1 == 0 {
        (0, 0)
    } else {
        let total = clamp_int(rem + d * ratio.0, i16::MIN as int, i16::MAX as int);
        (tdiv(total, ratio.1 as int), total)
    }
}

/// The scaling of one axis stays in the `i16` range (a wider product makes
/// the multiplication overflow).
pub open spec fn scale_fits(d: int, ratio: (u8, u8)) -> bool {
    ratio.1 != 0 ==> i16::MIN <= d * ratio.0 <= i16::MAX
}

/// Accumulator for sub-unit motion deltas (used in Scroll, Sniper and Caret modes)
///
/// When dividing motion by a divisor, small movements would be lost.
/// The accumulator keeps track of the remainder so sub-unit deltas
/// accumulate until they produce a non-zero output.
#[derive(Clone, Copy, Debug)]
pub struct MotionAccumulator {
    remainder_x: i16,
    remainder_y: i16,
}

impl View for MotionAccumulator {
    /// The remainders of the x and y axes.
    type V = (i16, i16);

    closed spec fn view(&self) -> (i16, i16) {
        (self.remainder_x, self.remainder_y)
    }
}

impl Default for MotionAccumulator {
    fn default() -> (r: Self)
        ensures
            r@ == (0i16, 0i16),
    {
        MotionAccumulator { remainder_x: 0, remainder_y: 0 }
    }
}

/// One axis step, shared by both accumulation flavours.
fn accumulate_one(rem: i16, d: i16, ratio: (u8, u8), persistent: bool) -> (r: (i16, i16))
    requires
        scale_fits(d as int, ratio),
    ensures
        !persistent ==> r.0 == accumulate_axis(rem as int, d as int, ratio).0 && r.1
            == accumulate_axis(rem as int, d as int, ratio).1,
        persistent ==> r.0 == accumulate_axis_persistent(rem as int, d as int, ratio).0 && r.1
            == accumulate_axis_persistent(rem as int, d as int, ratio).1,
{
    if ratio.1 == 0 {
        (0, 0)
    } else {
        let total = sat_add_i16(rem, d * ratio.0 as i16);
        let div = ratio.1 as i16;
        let out = total / div;
        proof {
            lemma_tdiv_bounds(total as int, div as int);
        }
        if persistent {
            (out, total)
        } else {
            (out, total - out * div)
        }
    }
}

impl MotionAccumulator {
    /// Reset accumulator (call when mode changes)
    pub fn reset(&mut self)
        ensures
            final(self)@ == (0i16, 0i16),
    {
        self.reset_x();
        self.reset_y();
    }

    /// Reset x axis remainder of accumulator
    pub fn reset_x(&mut self)
        ensures
            final(self)@ == (0i16, old(self)@.1),
    {
        self.remainder_x = 0;
    }

    /// Reset y axis remainder of accumulator
    pub fn reset_y(&mut self)
        ensures
            final(self)@ == (old(self)@.0, 0i16),
    {
        self.remainder_y = 0;
    }

    /// The remainder kept on the x axis.
    pub fn remainder_x(&self) -> (r: i16)
        ensures
            r == self@.0,
    {
        self.remainder_x
    }

    /// The remainder kept on the y axis.
    pub fn remainder_y(&self) -> (r: i16)
        ensures
            r == self@.1,
    {
        self.remainder_y
    }

    /// Accumulate motion and return the divided output, keeping remainder.
    /// A divisor of 0 disables that axis (always outputs 0).
    pub fn accumulate(&mut self, dx: i16, dy: i16, ratio_x: (u8, u8), ratio_y: (u8, u8)) -> (r: (
        i16,
        i16,
    ))
        requires
            scale_fits(dx as int, ratio_x),
            scale_fits(dy as int, ratio_y),
        ensures
            r.0 == accumulate_axis(old(self)@.0 as int, dx as int, ratio_x).0,
            final(self)@.0 == accumulate_axis(old(self)@.0 as int, dx as int, ratio_x).1,
            r.1 == accumulate_axis(old(self)@.1 as int, dy as int, ratio_y).0,
            final(self)@.1 == accumulate_axis(old(self)@.1 as int, dy as int, ratio_y).1,
    {
        let (out_x, rx) = accumulate_one(self.remainder_x, dx, ratio_x, false);
        self.remainder_x = rx;
        let (out_y, ry) = accumulate_one(self.remainder_y, dy, ratio_y, false);
        self.remainder_y = ry;
        (out_x, out_y)
    }

    /// Accumulate motion and return the divided output, keeping remainder.
    /// Do not subtract output from remainder.
    pub fn accumulate_persistent(
        &mut self,
        dx: i16,
        dy: i16,
        ratio_x: (u8, u8),
        ratio_y: (u8, u8),
    ) -> (r: (i16, i16))
        requires
            scale_fits(dx as int, ratio_x),
            scale_fits(dy as int, ratio_y),
        ensures
            r.0 == accumulate_axis_persistent(old(self)@.0 as int, dx as int, ratio_x).0,
            final(self)@.0 == accumulate_axis_persistent(old(self)@.0 as int, dx as int, ratio_x).1,
            r.1 == accumulate_axis_persistent(old(self)@.1 as int, dy as int, ratio_y).0,
            final(self)@.1 == accumulate_axis_persistent(old(self)@.1 as int, dy as int, ratio_y).1,
    {
        let (out_x, rx) = accumulate_one(self.remainder_x, dx, ratio_x, true);
        self.remainder_x = rx;
        let (out_y, ry) = accumulate_one(self.remainder_y, dy, ratio_y, true);
        self.remainder_y = ry;
        (out_x, out_y)
    }
}


/// One caret tap on the dominant axis: the running total moves one
/// threshold toward (and possibly past) zero.
pub open spec fn caret_step(d: int, t: int) -> int {
    if d > 0 {
        d - t
    } else {
        d + t
    }
}

/// Further caret taps after `count` taps have been emitted, with `d` the
/// running total on the dominant axis (the other axis is zero by then):
/// taps go on while the total exceeds the threshold, and never beyond 255
/// taps in one event. Gives the final total and the number of taps.
pub open spec fn caret_taps_from(d: int, t: int, count: nat) -> (int, nat)
    decreases 255 - count,
{
    if count >= 255 || abs_int(d) <= t {
        (d, count)
    } else {
        caret_taps_from(caret_step(d, t), t, count + 1)
    }
}

/// The running totals on which caret mode decides: the accumulated motion
/// per axis (saturated to `i16`), or 0 for a disabled axis.
pub open spec fn caret_totals(acc: (i16, i16), x: i16, y: i16, cfg: CaretConfig) -> (int, int) {
    (
        if cfg.disable_x {
            0
        } else {
            clamp_int(acc.0 + x, i16::MIN as int, i16::MAX as int)
        },
        if cfg.disable_y {
            0
        } else {
            clamp_int(acc.1 + y, i16::MIN as int, i16::MAX as int)
        },
    )
}

/// What caret mode does with a motion: the keycode and number of taps to
/// emit (if any), and the accumulator afterwards.
///
/// Nothing fires while the sum of the absolute totals stays within the
/// threshold; the totals are kept. Otherwise the axis with the larger
/// absolute total (x on a tie) fires toward the sign of its total (flipped by
/// the axis' invert flag; +y is down); each tap spends one threshold of that
/// axis' total, and the other axis' total is dropped.
pub open spec fn caret_outcome(acc: (i16, i16), x: i16, y: i16, cfg: CaretConfig) -> (
    Option<(u8, u8)>,
    (int, int),
) {
    let (dx, dy) = caret_totals(acc, x, y, cfg);
    let t = cfg.threshold as int;
    if abs_int(dx) + abs_int(dy) <= t {
        (None, (dx, dy))
    } else if abs_int(dx) >= abs_int(dy) {
        let (d, n) = caret_taps_from(caret_step(dx, t), t, 1);
        let key = if (dx > 0) != cfg.invert_x {
            cfg.keycode_right
        } else {
            cfg.keycode_left
        };
        (Some((key, n as u8)), (d, 0))
    } else {
        let (d, n) = caret_taps_from(caret_step(dy, t), t, 1);
        let key = if (dy > 0) != cfg.invert_y {
            cfg.keycode_down
        } else {
            cfg.keycode_up
        };
        (Some((key, n as u8)), (0, d))
    }
}

/// The inputs on which the caret computation stays within `i16`: a
/// non-negative threshold, and totals whose absolute values can be taken and
/// summed.
pub open spec fn caret_inputs_ok(acc: (i16, i16), x: i16, y: i16, cfg: CaretConfig) -> bool {
    let (dx, dy) = caret_totals(acc, x, y, cfg);
    &&& cfg.threshold >= 0
    &&& dx != i16::MIN as int
    &&& dy != i16::MIN as int
    &&& abs_int(dx) + abs_int(dy) <= i16::MAX as int
}

proof fn lemma_caret_taps_bounds(d: int, t: int, count: nat)
    requires
        0 <= t,
        abs_int(d) <= i16::MAX,
        1 <= count <= 255,
    ensures
        caret_taps_from(d, t, count).1 >= count,
        caret_taps_from(d, t, count).1 <= 255,
        abs_int(caret_taps_from(d, t, count).0) <= abs_int(d),
    decreases 255 - count,
{
    if count >= 255 || abs_int(d) <= t {
    } else {
        lemma_caret_taps_bounds(caret_step(d, t), t, count + 1);
    }
}

fn abs_i16(v: i16) -> (r: i16)
    requires
        v != i16::MIN,
    ensures
        r == abs_int(v as int),
{
    if v < 0 {
        -v
    } else {
        v
    }
}

/// Given a (x, y) motion delta, decide whether caret mode should fire key
/// taps. Updates the accumulator in place (threshold-aligned, non-dominant
/// axis reset). Returns `(keycode, count)` if a tap should fire, `None`
/// otherwise. The caller fires the taps.
pub fn compute_caret_taps(x: i16, y: i16, accumulator: &mut MotionAccumulator, cfg: &CaretConfig) -> (r:
    Option<(u8, u8)>)
    requires
        caret_inputs_ok(old(accumulator)@, x, y, *cfg),
    ensures
        r == caret_outcome(old(accumulator)@, x, y, *cfg).0,
        final(accumulator)@.0 == caret_outcome(old(accumulator)@, x, y, *cfg).1.0,
        final(accumulator)@.1 == caret_outcome(old(accumulator)@, x, y, *cfg).1.1,
{
    let ghost acc0 = accumulator@;
    let divisor_x: u8 = if cfg.disable_x { 0 } else { 1 };
    let divisor_y: u8 = if cfg.disable_y { 0 } else { 1 };
    let t = cfg.threshold;
    assert(x as int * 1 == x as int);
    assert(y as int * 1 == y as int);
    let (mut dx, mut dy) = accumulator.accumulate_persistent(x, y, (1, divisor_x), (1, divisor_y));
    let ghost dx0 = dx as int;
    let ghost dy0 = dy as int;
    assert(tdiv(dx as int, 1) == dx as int);
    assert(tdiv(dy as int, 1) == dy as int);
    assert((dx0, dy0) == caret_totals(acc0, x, y, *cfg));

    if abs_i16(dx) + abs_i16(dy) <= t {
        return None;
    }
    let axis_x = abs_i16(dx) >= abs_i16(dy);
    let keycode = if axis_x {
        if (dx > 0) != cfg.invert_x {
            cfg.keycode_right
        } else {
            cfg.keycode_left
        }
    } else {
        if (dy > 0) != cfg.invert_y {
            cfg.keycode_down
        } else {
            cfg.keycode_up
        }
    };
    let ghost first = if axis_x {
        caret_step(dx0, t as int)
    } else {
        caret_step(dy0, t as int)
    };
    proof {
        lemma_caret_taps_bounds(first, t as int, 1);
    }

    // Each tap reduces the running total on the dominant axis by `threshold`.
    let mut count: u8 = 0;
    while abs_i16(dx) + abs_i16(dy) > t
        invariant_except_break
            count < 255,
        invariant
            0 <= t,
            divisor_x == (if cfg.disable_x { 0u8 } else { 1u8 }),
            divisor_y == (if cfg.disable_y { 0u8 } else { 1u8 }),
            t == cfg.threshold,
            axis_x ==> !cfg.disable_x,
            !axis_x ==> !cfg.disable_y,
            count == 0 ==> dx == dx0 && dy == dy0 && accumulator@ == (dx, dy),
            count > 0 ==> caret_taps_from(first, t as int, 1) == caret_taps_from(
                if axis_x { dx as int } else { dy as int },
                t as int,
                count as nat,
            ),
            count > 0 && axis_x ==> dy == 0 && accumulator@ == (dx, 0i16),
            count > 0 && !axis_x ==> dx == 0 && accumulator@ == (0i16, dy),
            count > 0 ==> abs_int(if axis_x { dx as int } else { dy as int }) <= abs_int(first),
            abs_int(dx as int) + abs_int(dy as int) <= i16::MAX,
            dx != i16::MIN,
            dy != i16::MIN,
            axis_x ==> abs_int(first) <= i16::MAX && abs_int(dx0) >= abs_int(dy0),
            !axis_x ==> abs_int(first) <= i16::MAX,
            abs_int(dx0) + abs_int(dy0) > t,
            first == if axis_x {
                caret_step(dx0, t as int)
            } else {
                caret_step(dy0, t as int)
            },
        ensures
            1 <= count <= 255,
            caret_taps_from(first, t as int, 1) == (
                if axis_x { dx as int } else { dy as int },
                count as nat,
            ),
            axis_x ==> dy == 0 && accumulator@ == (dx, 0i16),
            !axis_x ==> dx == 0 && accumulator@ == (0i16, dy),
        decreases 255 - count,
    {
        let (reduce_x, reduce_y): (i16, i16) = if axis_x {
            let r = if dx > 0 { -t } else { t };
            accumulator.reset_y();
            (r, 0)
        } else {
            let r = if dy > 0 { -t } else { t };
            accumulator.reset_x();
            (0, r)
        };
        assert(reduce_x as int * 1 == reduce_x as int);
        assert(reduce_y as int * 1 == reduce_y as int);
        let ghost prev = if axis_x { dx as int } else { dy as int };
        let (nx, ny) = accumulator.accumulate_persistent(reduce_x, reduce_y, (1, divisor_x), (1, divisor_y));
        assert(tdiv(nx as int, 1) == nx as int);
        assert(tdiv(ny as int, 1) == ny as int);
        dx = nx;
        dy = ny;
        proof {
            let cur = if axis_x { dx as int } else { dy as int };
            assert(cur == caret_step(prev, t as int));
            if count > 0 {
                assert(abs_int(prev) > t);
                assert(caret_taps_from(prev, t as int, count as nat) == caret_taps_from(
                    cur,
                    t as int,
                    (count + 1) as nat,
                ));
            }
        }
        count = count + 1;
        if count == 255 {
            break;
        }
    }

    // Drop the non-dominant axis so stale samples cannot bleed in.
    if axis_x {
        accumulator.reset_y();
    } else {
        accumulator.reset_x();
    }
    Some((keycode, count))
}


/// Configuration of a pointing processor.
#[derive(Clone, Copy, Debug)]
pub struct PointingProcessorConfig {
    /// The id of the PointingDevice this processor handles.
    /// Use ALL_POINTING_DEVICES (255) to process events from all devices.
    pub device_id: u8,
    /// Invert X axis (applied to all modes before mode-specific processing)
    pub invert_x: bool,
    /// Invert Y axis (applied to all modes before mode-specific processing)
    pub invert_y: bool,
    /// Swap X and Y axes (applied to all modes before mode-specific processing)
    pub swap_xy: bool,
}

impl Default for PointingProcessorConfig {
    fn default() -> (r: Self)
        ensures
            r.device_id == ALL_POINTING_DEVICES && !r.invert_x && !r.invert_y && !r.swap_xy,
    {
        Self { device_id: ALL_POINTING_DEVICES, invert_x: false, invert_y: false, swap_xy: false }
    }
}

/// Request to change the mode of the processors of a pointing device.
#[derive(Clone, Copy, Debug, PartialEq, Eq)]
pub struct PointingProcessorEvent {
    pub device_id: u8,
    pub mode: PointingMode,
}

/// What a pointing processor emits for one pointing event.
#[derive(Clone, Copy, Debug, PartialEq, Eq, Structural)]
pub enum PointingOutput {
    /// Nothing is sent.
    Nothing,
    /// A mouse report is sent.
    Mouse(MouseReport),
    /// The keycode is tapped the given number of times.
    CaretTaps(u8, u8),
}

/// The value of the last axis event on `a`, or 0 when no event is on `a`.
pub open spec fn axis_value(axes: [AxisEvent; 3], a: Axis) -> int {
    if axes[2].axis == a {
        axes[2].value as int
    } else if axes[1].axis == a {
        axes[1].value as int
    } else if axes[0].axis == a {
        axes[0].value as int
    } else {
        0
    }
}

/// Whether the processor handles events of this device.
pub open spec fn handles_device(config: PointingProcessorConfig, device_id: u8) -> bool {
    config.device_id == ALL_POINTING_DEVICES || device_id == config.device_id
}

/// The motion after the global transforms, in this order: invert, then swap.
pub open spec fn transformed_xy(config: PointingProcessorConfig, event: PointingEvent) -> (int, int) {
    let x0 = axis_value(event.axes, Axis::X);
    let y0 = axis_value(event.axes, Axis::Y);
    let x1 = if config.invert_x {
        -x0
    } else {
        x0
    };
    let y1 = if config.invert_y {
        -y0
    } else {
        y0
    };
    if config.swap_xy {
        (y1, x1)
    } else {
        (x1, y1)
    }
}

/// `v` negated when `flip` holds.
pub open spec fn flip_if(flip: bool, v: int) -> int {
    if flip {
        -v
    } else {
        v
    }
}

/// `v` fits an `i16` and can be negated there when `flip` holds.
pub open spec fn flippable(flip: bool, v: int) -> bool {
    &&& i16::MIN <= v <= i16::MAX
    &&& (flip ==> v != i16::MIN)
}

/// An `int` clamped to the `i8` range.
pub open spec fn to_i8(v: int) -> i8 {
    clamp_int(v, i8::MIN as int, i8::MAX as int) as i8
}

/// The inputs on which processing an event stays within `i16` (the same
/// computation on other inputs overflows).
pub open spec fn pointing_event_ok(
    config: PointingProcessorConfig,
    mode: PointingMode,
    acc: (i16, i16),
    event: PointingEvent,
) -> bool {
    let (x, y) = transformed_xy(config, event);
    handles_device(config, event.device_id) ==> {
        &&& flippable(config.invert_x, axis_value(event.axes, Axis::X))
        &&& flippable(config.invert_y, axis_value(event.axes, Axis::Y))
        &&& match mode {
            PointingMode::Cursor(c) => {
                &&& flippable(c.invert_x, x * c.multiplier_x)
                &&& flippable(c.invert_y, y * c.multiplier_y)
            },
            PointingMode::Scroll(s) => {
                let ox = accumulate_axis(acc.0 as int, x, (s.multiplier_x, s.divisor_x)).0;
                let oy = accumulate_axis(acc.1 as int, y, (s.multiplier_y, s.divisor_y)).0;
                &&& scale_fits(x, (s.multiplier_x, s.divisor_x))
                &&& scale_fits(y, (s.multiplier_y, s.divisor_y))
                &&& flippable(s.invert_x, ox)
                &&& flippable(!s.invert_y, oy)
            },
            PointingMode::Sniper(s) => {
                let ox = accumulate_axis(acc.0 as int, x, (s.multiplier, s.divisor)).0;
                let oy = accumulate_axis(acc.1 as int, y, (s.multiplier, s.divisor)).0;
                &&& scale_fits(x, (s.multiplier, s.divisor))
                &&& scale_fits(y, (s.multiplier, s.divisor))
                &&& flippable(s.invert_x, ox)
                &&& flippable(s.invert_y, oy)
            },
            PointingMode::Caret(c) => caret_inputs_ok(acc, x as i16, y as i16, c),
        }
    }
}

/// What a processor in `mode` with accumulator `acc` emits for `event`, and
/// its accumulator afterwards.
///
/// Events of other devices are ignored. Cursor mode scales each axis by its
/// multiplier, flips it when configured and clamps it to the report range.
/// Scroll mode accumulates the motion (sensor X to pan, sensor Y to wheel,
/// +Y scrolling up unless inverted) and sends nothing while both outputs are
/// 0; sniper mode does the same on the cursor axes. Caret mode emits taps.
pub open spec fn pointing_outcome(
    config: PointingProcessorConfig,
    mode: PointingMode,
    acc: (i16, i16),
    event: PointingEvent,
    buttons: u8,
) -> (PointingOutput, (int, int)) {
    let (x, y) = transformed_xy(config, event);
    if !handles_device(config, event.device_id) {
        (PointingOutput::Nothing, (acc.0 as int, acc.1 as int))
    } else {
        match mode {
            PointingMode::Cursor(c) => (
                PointingOutput::Mouse(
                    MouseReport {
                        buttons,
                        x: to_i8(flip_if(c.invert_x, x * c.multiplier_x)),
                        y: to_i8(flip_if(c.invert_y, y * c.multiplier_y)),
                        wheel: 0,
                        pan: 0,
                    },
                ),
                (acc.0 as int, acc.1 as int),
            ),
            PointingMode::Scroll(s) => {
                let ax = accumulate_axis(acc.0 as int, x, (s.multiplier_x, s.divisor_x));
                let ay = accumulate_axis(acc.1 as int, y, (s.multiplier_y, s.divisor_y));
                if ax.0 == 0 && ay.0 == 0 {
                    (PointingOutput::Nothing, (ax.1, ay.1))
                } else {
                    (
                        PointingOutput::Mouse(
                            MouseReport {
                                buttons,
                                x: 0,
                                y: 0,
                                wheel: to_i8(flip_if(!s.invert_y, ay.0)),
                                pan: to_i8(flip_if(s.invert_x, ax.0)),
                            },
                        ),
                        (ax.1, ay.1),
                    )
                }
            },
            PointingMode::Sniper(s) => {
                let ax = accumulate_axis(acc.0 as int, x, (s.multiplier, s.divisor));
                let ay = accumulate_axis(acc.1 as int, y, (s.multiplier, s.divisor));
                if ax.0 == 0 && ay.0 == 0 {
                    (PointingOutput::Nothing, (ax.1, ay.1))
                } else {
                    (
                        PointingOutput::Mouse(
                            MouseReport {
                                buttons,
                                x: to_i8(flip_if(s.invert_x, ax.0)),
                                y: to_i8(flip_if(s.invert_y, ay.0)),
                                wheel: 0,
                                pan: 0,
                            },
                        ),
                        (ax.1, ay.1),
                    )
                }
            },
            PointingMode::Caret(c) => {
                let (taps, acc2) = caret_outcome(acc, x as i16, y as i16, c);
                (
                    match taps {
                        Some((k, n)) => PointingOutput::CaretTaps(k, n),
                        None => PointingOutput::Nothing,
                    },
                    acc2,
                )
            },
        }
    }
}

/// Negation of a value known not to be `i16::MIN`, or the value itself.
fn flip_i16(flip: bool, v: i16) -> (r: i16)
    requires
        flip ==> v != i16::MIN,
    ensures
        r == flip_if(flip, v as int),
{
    if flip {
        -v
    } else {
        v
    }
}

/// Whether `flip_i16` may be applied to `v` (as an `i32`).
fn flippable_i32(flip: bool, v: i32) -> (r: bool)
    ensures
        r == flippable(flip, v as int),
{
    -32768 <= v && v <= 32767 && (!flip || v != -32768)
}

/// `d * m` computed without overflow.
fn mul_i16_u8(d: i16, m: u8) -> (r: i32)
    ensures
        r == d * m,
{
    assert(-32768 * 255 <= d * m <= 32767 * 255) by (nonlinear_arith)
        requires
            -32768 <= d <= 32767,
            0 <= m <= 255,
    ;
    d as i32 * m as i32
}

/// Whether the accumulator's scaling of `d` stays in `i16`.
fn scale_fits_exec(d: i16, ratio: (u8, u8)) -> (r: bool)
    ensures
        r == scale_fits(d as int, ratio),
{
    let p: i32 = mul_i16_u8(d, ratio.0);
    ratio.1 == 0 || (-32768 <= p && p <= 32767)
}

/// The output of `accumulate_axis`, computed without touching an
/// accumulator (valid where the scaling fits).
fn accumulate_axis_out(rem: i16, d: i16, ratio: (u8, u8)) -> (r: i32)
    requires
        scale_fits(d as int, ratio),
    ensures
        r == accumulate_axis(rem as int, d as int, ratio).0,
{
    let (out, _) = accumulate_one(rem, d, ratio, false);
    out as i32
}

/// The value of the last axis event on `a`, or 0.
fn axis_value_exec(axes: &[AxisEvent; 3], a: Axis) -> (r: i16)
    ensures
        r == axis_value(*axes, a),
{
    let mut v: i16 = 0;
    let mut i: usize = 0;
    while i < 3
        invariant
            i <= 3,
            v == (if i >= 3 && axes[2].axis == a {
                axes[2].value as int
            } else if i >= 2 && axes[1].axis == a {
                axes[1].value as int
            } else if i >= 1 && axes[0].axis == a {
                axes[0].value as int
            } else {
                0
            }),
        decreases 3 - i,
    {
        if axes[i].axis == a {
            v = axes[i].value;
        }
        i = i + 1;
    }
    v
}

/// The processor state: its configuration, current mode and accumulator.
/// Converts motion events into mouse reports or caret taps.
pub struct PointingProcessor {
    config: PointingProcessorConfig,
    /// Motion accumulator for scroll/sniper/caret modes
    accumulator: MotionAccumulator,
    /// current active mode
    current_mode: PointingMode,
}

impl PointingProcessor {
    /// The configuration.
    pub closed spec fn config_spec(&self) -> PointingProcessorConfig {
        self.config
    }

    /// The current mode.
    pub closed spec fn mode_spec(&self) -> PointingMode {
        self.current_mode
    }

    /// The accumulator's remainders.
    pub closed spec fn acc_spec(&self) -> (i16, i16) {
        self.accumulator@
    }

    /// Create a new pointing processor with default settings
    pub fn new(config: PointingProcessorConfig) -> (r: Self)
        ensures
            r.config_spec() == config,
            r.mode_spec() == PointingMode::Cursor(
                CursorConfig { multiplier_x: 1, multiplier_y: 1, invert_x: false, invert_y: false },
            ),
            r.acc_spec() == (0i16, 0i16),
    {
        Self { config, accumulator: MotionAccumulator::default(), current_mode: PointingMode::default() }
    }

    /// The current mode.
    pub fn current_mode(&self) -> (r: PointingMode)
        ensures
            r == self.mode_spec(),
    {
        self.current_mode
    }

    /// The accumulator.
    pub fn accumulator(&self) -> (r: MotionAccumulator)
        ensures
            r@ == self.acc_spec(),
    {
        self.accumulator
    }

    /// Set the pointing mode
    pub fn set_pointing_mode(&mut self, mode: PointingMode)
        ensures
            final(self).mode_spec() == mode,
            final(self).config_spec() == old(self).config_spec(),
            final(self).acc_spec() == old(self).acc_spec(),
    {
        self.current_mode = mode;
    }

    /// A mode-change request takes effect when it is for this processor's
    /// device, or when this processor handles all devices.
    pub fn on_pointing_processor_event(&mut self, event: PointingProcessorEvent)
        ensures
            final(self).mode_spec() == (if old(self).config_spec().device_id == ALL_POINTING_DEVICES
                || old(self).config_spec().device_id == event.device_id {
                event.mode
            } else {
                old(self).mode_spec()
            }),
            final(self).config_spec() == old(self).config_spec(),
            final(self).acc_spec() == old(self).acc_spec(),
    {
        if self.config.device_id == ALL_POINTING_DEVICES || self.config.device_id == event.device_id {
            self.set_pointing_mode(event.mode);
        }
    }

    /// Whether processing `event` stays within `i16` in the current state.
    pub fn accepts(&self, event: &PointingEvent) -> (r: bool)
        ensures
            r == pointing_event_ok(self.config_spec(), self.mode_spec(), self.acc_spec(), *event),
    {
        let config = self.config;
        if !(config.device_id == ALL_POINTING_DEVICES || event.device_id == config.device_id) {
            return true;
        }
        let x0 = axis_value_exec(&event.axes, Axis::X);
        let y0 = axis_value_exec(&event.axes, Axis::Y);
        if !flippable_i32(config.invert_x, x0 as i32) || !flippable_i32(config.invert_y, y0 as i32) {
            return false;
        }
        let x1 = flip_i16(config.invert_x, x0);
        let y1 = flip_i16(config.invert_y, y0);
        let (x, y) = if config.swap_xy { (y1, x1) } else { (x1, y1) };
        let acc = self.accumulator;
        match self.current_mode {
            PointingMode::Cursor(c) => {
                flippable_i32(c.invert_x, mul_i16_u8(x, c.multiplier_x)) && flippable_i32(
                    c.invert_y,
                    mul_i16_u8(y, c.multiplier_y),
                )
            },
            PointingMode::Scroll(s) => {
                if !scale_fits_exec(x, (s.multiplier_x, s.divisor_x)) || !scale_fits_exec(
                    y,
                    (s.multiplier_y, s.divisor_y),
                ) {
                    return false;
                }
                let ox = accumulate_axis_out(acc.remainder_x(), x, (s.multiplier_x, s.divisor_x));
                let oy = accumulate_axis_out(acc.remainder_y(), y, (s.multiplier_y, s.divisor_y));
                flippable_i32(s.invert_x, ox) && flippable_i32(!s.invert_y, oy)
            },
            PointingMode::Sniper(s) => {
                if !scale_fits_exec(x, (s.multiplier, s.divisor)) || !scale_fits_exec(
                    y,
                    (s.multiplier, s.divisor),
                ) {
                    return false;
                }
                let ox = accumulate_axis_out(acc.remainder_x(), x, (s.multiplier, s.divisor));
                let oy = accumulate_axis_out(acc.remainder_y(), y, (s.multiplier, s.divisor));
                flippable_i32(s.invert_x, ox) && flippable_i32(s.invert_y, oy)
            },
            PointingMode::Caret(c) => {
                let tx: i32 = if c.disable_x {
                    0
                } else {
                    sat_add_i16(acc.remainder_x(), x) as i32
                };
                let ty: i32 = if c.disable_y {
                    0
                } else {
                    sat_add_i16(acc.remainder_y(), y) as i32
                };
                let ax: i32 = if tx < 0 { -tx } else { tx };
                let ay: i32 = if ty < 0 { -ty } else { ty };
                c.threshold >= 0 && tx != -32768 && ty != -32768 && ax + ay <= 32767
            },
        }
    }

    /// Process one pointing event: what to send, given the mouse buttons
    /// currently held.
    pub fn on_pointing_event(&mut self, event: &PointingEvent, buttons: u8) -> (r: PointingOutput)
        requires
            pointing_event_ok(
                old(self).config_spec(),
                old(self).mode_spec(),
                old(self).acc_spec(),
                *event,
            ),
        ensures
            r == pointing_outcome(
                old(self).config_spec(),
                old(self).mode_spec(),
                old(self).acc_spec(),
                *event,
                buttons,
            ).0,
            final(self).acc_spec().0 == pointing_outcome(
                old(self).config_spec(),
                old(self).mode_spec(),
                old(self).acc_spec(),
                *event,
                buttons,
            ).1.0,
            final(self).acc_spec().1 == pointing_outcome(
                old(self).config_spec(),
                old(self).mode_spec(),
                old(self).acc_spec(),
                *event,
                buttons,
            ).1.1,
            final(self).config_spec() == old(self).config_spec(),
            final(self).mode_spec() == old(self).mode_spec(),
    {
        // Filter: only process events from the configured device
        if self.config.device_id != ALL_POINTING_DEVICES && event.device_id != self.config.device_id {
            return PointingOutput::Nothing;
        }
        let mut x = axis_value_exec(&event.axes, Axis::X);
        let mut y = axis_value_exec(&event.axes, Axis::Y);

        // Global transforms, in order: invert, then swap. Mode-specific
        // inverts then operate on the post-swap logical axes.
        if self.config.invert_x {
            x = -x;
        }
        if self.config.invert_y {
            y = -y;
        }
        if self.config.swap_xy {
            let t = x;
            x = y;
            y = t;
        }
        match self.current_mode {
            PointingMode::Cursor(c) => {
                let out_x = x * c.multiplier_x as i16;
                let out_y = y * c.multiplier_y as i16;
                let out_x = flip_i16(c.invert_x, out_x);
                let out_y = flip_i16(c.invert_y, out_y);
                PointingOutput::Mouse(
                    MouseReport {
                        buttons,
                        x: clamp_i16_to_i8(out_x),
                        y: clamp_i16_to_i8(out_y),
                        wheel: 0,
                        pan: 0,
                    },
                )
            },
            PointingMode::Scroll(s) => {
                let (sx, sy) = self.accumulator.accumulate(
                    x,
                    y,
                    (s.multiplier_x, s.divisor_x),
                    (s.multiplier_y, s.divisor_y),
                );
                if sx == 0 && sy == 0 {
                    return PointingOutput::Nothing;
                }
                // Sensor X -> pan, sensor Y -> wheel; +Y scrolls up by default.
                let wheel = flip_i16(!s.invert_y, sy);
                let pan = flip_i16(s.invert_x, sx);
                PointingOutput::Mouse(
                    MouseReport {
                        buttons,
                        x: 0,
                        y: 0,
                        wheel: clamp_i16_to_i8(wheel),
                        pan: clamp_i16_to_i8(pan),
                    },
                )
            },
            PointingMode::Sniper(s) => {
                let (sx, sy) = self.accumulator.accumulate(
                    x,
                    y,
                    (s.multiplier, s.divisor),
                    (s.multiplier, s.divisor),
                );
                if sx == 0 && sy == 0 {
                    return PointingOutput::Nothing;
                }
                let out_x = flip_i16(s.invert_x, sx);
                let out_y = flip_i16(s.invert_y, sy);
                PointingOutput::Mouse(
                    MouseReport {
                        buttons,
                        x: clamp_i16_to_i8(out_x),
                        y: clamp_i16_to_i8(out_y),
                        wheel: 0,
                        pan: 0,
                    },
                )
            },
            PointingMode::Caret(c) => {
                match compute_caret_taps(x, y, &mut self.accumulator, &c) {
                    Some((keycode, count)) => PointingOutput::CaretTaps(keycode, count),
                    None => PointingOutput::Nothing,
                }
            },
        }
    }
}

/// The configuration with its swap set as given.
pub open spec fn with_swap(config: PointingProcessorConfig, swap: bool) -> PointingProcessorConfig {
    PointingProcessorConfig { swap_xy: swap, ..config }
}

/// The global transforms: with no inversion and no swap the motion is the
/// sensor's X and Y; inverting an axis negates it; swapping exchanges the
/// two axes (a permutation: the reported X is the sensor's Y, the reported
/// Y the sensor's X, each after its own inversion).
pub proof fn lemma_transform_axes(config: PointingProcessorConfig, event: PointingEvent)
    ensures
        ({
            let plain = PointingProcessorConfig { invert_x: false, invert_y: false, swap_xy: false, ..config };
            transformed_xy(plain, event) == (axis_value(event.axes, Axis::X), axis_value(event.axes, Axis::Y))
        }),
        transformed_xy(with_swap(config, true), event) == (
            transformed_xy(with_swap(config, false), event).1,
            transformed_xy(with_swap(config, false), event).0,
        ),
        transformed_xy(with_swap(config, false), event).0 == (if config.invert_x {
            -axis_value(event.axes, Axis::X)
        } else {
            axis_value(event.axes, Axis::X)
        }),
        transformed_xy(with_swap(config, false), event).1 == (if config.invert_y {
            -axis_value(event.axes, Axis::Y)
        } else {
            axis_value(event.axes, Axis::Y)
        }),
        transformed_xy(config, event) == (if config.swap_xy {
            transformed_xy(with_swap(config, true), event)
        } else {
            transformed_xy(with_swap(config, false), event)
        }),
{
    assert(with_swap(config, config.swap_xy) == config);
}

} // verus!
