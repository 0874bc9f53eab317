//! Analog joysticks: channel readings to mouse movement.
//!
//! `JoystickProcessor` maps the axes of a pointing event through a bias and
//! a linear transform (each output axis sums the inputs divided by their
//! weights, quantized to the resolution) and reports the first two outputs
//! as mouse movement. The sampling helpers turn raw ADC values of a
//! two-channel stick into movement with a dead zone around the center.

use vstd::prelude::*;

use crate::arith::{clamp_int, sat_add_i16};
use crate::event::{MouseReport, PointingEvent};

verus! {

/// `a + b` saturated to the range of `i16`.
pub open spec fn sat16(v: int) -> i16 {
    clamp_int(v, -0x8000, 0x7FFF) as i16
}

/// Rust's truncating quotient `a / b` (rounding toward zero), `b != 0`.
pub open spec fn trunc_div(a: int, b: int) -> int {
    if a >= 0 {
        a / b
    } else {
        -((-a) / b)
    }
}

/// `i16::saturating_div`: the truncating quotient, `i16::MAX` for
/// `i16::MIN / -1`.
pub open spec fn sat_div16(a: i16, b: i16) -> i16 {
    if a == -0x8000 && b == -1 {
        0x7FFF
    } else {
        trunc_div(a as int, b as int) as i16
    }
}

/// Rust's truncating remainder `a % b` (the sign of `a`), `b != 0`.
pub open spec fn trunc_rem(a: int, b: int) -> int {
    if a >= 0 {
        a % b
    } else {
        -((-a) % b)
    }
}

/// `a` rounded toward zero to a multiple of `r` (`a - a % r`).
pub open spec fn quantize(a: i16, r: i16) -> i16 {
    (a - trunc_rem(a as int, r as int)) as i16
}

/// One output axis after the first `k` input axes: each input with a
/// nonzero weight adds `value / weight` (saturating) and the sum is
/// quantized to the resolution after each addition.
pub open spec fn axis_output(row: Seq<i16>, vals: Seq<i16>, res: i16, k: int) -> i16
    decreases k,
{
    if k <= 0 {
        0
    } else {
        let acc = axis_output(row, vals, res, k - 1);
        if row[k - 1] == 0 {
            acc
        } else {
            quantize(sat16(acc + sat_div16(vals[k - 1], row[k - 1])), res)
        }
    }
}

/// The resolution as the signed divisor the quantization uses; it must be
/// neither 0 nor -1 (`u16::MAX`), on which the remainder panics.
pub open spec fn resolution_ok(resolution: u16) -> bool {
    resolution != 0 && resolution != 0xFFFF
}

/// The resolution as a signed divisor (`as i16`).
pub open spec fn signed_res(resolution: u16) -> i16 {
    if resolution <= 0x7FFF {
        resolution as i16
    } else {
        (resolution - 0x10000) as i16
    }
}

fn signed_resolution(resolution: u16) -> (r: i16)
    ensures
        r == signed_res(resolution),
{
    if resolution <= 0x7FFF {
        resolution as i16
    } else {
        (resolution as i32 - 0x10000) as i16
    }
}

fn sat_div_i16(a: i16, b: i16) -> (r: i16)
    requires
        b != 0,
    ensures
        r == sat_div16(a, b),
{
    if a == i16::MIN && b == -1 {
        i16::MAX
    } else {
        a / b
    }
}

/// Joystick processor: bias and transform of the axes, quantized to the
/// resolution, reported as mouse movement.
pub struct JoystickProcessor<const N: usize> {
    pub transform: [[i16; N]; N],
    pub bias: [i16; N],
    pub record: [i16; N],
    pub resolution: u16,
}


proof fn lemma_quantize_fits(a: i16, r: i16)
    requires
        r != 0,
    ensures
        a >= 0 ==> 0 <= a - trunc_rem(a as int, r as int) <= a,
        a < 0 ==> a <= a - trunc_rem(a as int, r as int) <= 0,
{
    let b = r as int;
    if a >= 0 {
        assert(0 <= (a as int) % b < crate::arith::abs_int(b)) by (nonlinear_arith)
            requires
                b != 0,
        ;
        assert((a as int) % b <= a) by (nonlinear_arith)
            requires
                b != 0,
                a >= 0,
        ;
    } else {
        let na = -(a as int);
        assert(0 <= na % b < crate::arith::abs_int(b)) by (nonlinear_arith)
            requires
                b != 0,
        ;
        assert(na % b <= na) by (nonlinear_arith)
            requires
                b != 0,
                na >= 0,
        ;
    }
}

fn quantize_exec(a: i16, r: i16) -> (q: i16)
    requires
        r != 0,
        r != -1,
    ensures
        q == quantize(a, r),
{
    proof {
        lemma_quantize_fits(a, r);
    }
    a - a % r
}

impl<const N: usize> JoystickProcessor<N> {
    /// A processor with this transform, bias and resolution, and no
    /// reading yet.
    pub fn new(transform: [[i16; N]; N], bias: [i16; N], resolution: u16) -> (r: Self)
        ensures
            r.transform == transform,
            r.bias == bias,
            r.resolution == resolution,
            forall|i: int| 0 <= i < N ==> r.record@[i] == 0,
    {
        JoystickProcessor { transform, bias, record: [0i16; N], resolution }
    }

    /// Records the axes of a pointing event (as many as both have) and
    /// generates the mouse report with button bits `buttons`.
    pub fn on_pointing_event(&mut self, event: &PointingEvent, buttons: u8) -> (r: MouseReport)
        requires
            N >= 2,
            resolution_ok(old(self).resolution),
        ensures
            ({
                let rec = Seq::new(
                    N as nat,
                    |i: int|
                        if i < 3 {
                            sat16(event.axes@[i].value + old(self).bias@[i])
                        } else {
                            sat16(old(self).record@[i] + old(self).bias@[i])
                        },
                );
                &&& final(self).record@ == rec
                &&& final(self).transform == old(self).transform
                &&& final(self).bias == old(self).bias
                &&& final(self).resolution == old(self).resolution
                &&& r == report_of(old(self).transform@, rec, old(self).resolution, buttons)
            }),
    {
        let mut i: usize = 0;
        while i < N && i < 3
            invariant
                i <= N,
                i <= 3,
                self.transform == old(self).transform,
                self.bias == old(self).bias,
                self.resolution == old(self).resolution,
                forall|j: int| 0 <= j < i ==> self.record@[j] == event.axes@[j].value,
                forall|j: int| i <= j < N ==> self.record@[j] == old(self).record@[j],
            decreases N - i,
        {
            self.record[i] = event.axes[i].value;
            i = i + 1;
        }
        self.generate_report(buttons)
    }

    /// Adds the bias to the recorded axes (saturating), transforms them and
    /// reports the first two outputs as mouse movement, limited to the
    /// range of `i8`.
    pub fn generate_report(&mut self, buttons: u8) -> (r: MouseReport)
        requires
            N >= 2,
            resolution_ok(old(self).resolution),
        ensures
            ({
                let rec = Seq::new(N as nat, |i: int| sat16(old(self).record@[i] + old(self).bias@[i]));
                &&& final(self).record@ == rec
                &&& final(self).transform == old(self).transform
                &&& final(self).bias == old(self).bias
                &&& final(self).resolution == old(self).resolution
                &&& r == report_of(old(self).transform@, rec, old(self).resolution, buttons)
            }),
    {
        let ghost rec0 = self.record@;
        let mut i: usize = 0;
        while i < N
            invariant
                i <= N,
                self.transform == old(self).transform,
                self.bias == old(self).bias,
                self.resolution == old(self).resolution,
                rec0 == old(self).record@,
                forall|j: int| 0 <= j < i ==> self.record@[j] == sat16(rec0[j] + self.bias@[j]),
                forall|j: int| i <= j < N ==> self.record@[j] == rec0[j],
            decreases N - i,
        {
            self.record[i] = sat_add_i16(self.record[i], self.bias[i]);
            i = i + 1;
        }
        let ghost rec = Seq::new(N as nat, |i: int| sat16(rec0[i] + self.bias@[i]));
        assert(self.record@ =~= rec);
        let res = signed_resolution(self.resolution);
        let x = self.axis(0, res);
        let y = self.axis(1, res);
        let xr: i8 = if x < -128 {
            -128
        } else if x > 127 {
            127
        } else {
            x as i8
        };
        let yr: i8 = if y < -128 {
            -128
        } else if y > 127 {
            127
        } else {
            y as i8
        };
        MouseReport { buttons, x: xr, y: yr, wheel: 0, pan: 0 }
    }

    fn axis(&self, j: usize, res: i16) -> (r: i16)
        requires
            j < N,
            res != 0,
            res != -1,
        ensures
            r == axis_output(self.transform@[j as int]@, self.record@, res, N as int),
    {
        let mut acc: i16 = 0;
        let mut i: usize = 0;
        while i < N
            invariant
                i <= N,
                j < N,
                res != 0,
                res != -1,
                acc == axis_output(self.transform@[j as int]@, self.record@, res, i as int),
            decreases N - i,
        {
            let w = self.transform[j][i];
            if w != 0 {
                let sum = sat_add_i16(acc, sat_div_i16(self.record[i], w));
                acc = quantize_exec(sum, res);
            }
            i = i + 1;
        }
        acc
    }
}

/// The mouse report of the transformed recorded axes `rec`.
pub open spec fn report_of<const N: usize>(transform: Seq<[i16; N]>, rec: Seq<i16>, resolution: u16, buttons: u8) -> MouseReport {
    MouseReport {
        buttons,
        x: clamp_int(axis_output(transform[0]@, rec, signed_res(resolution), rec.len() as int) as int, -128, 127) as i8,
        y: clamp_int(axis_output(transform[1]@, rec, signed_res(resolution), rec.len() as int) as int, -128, 127) as i8,
        wheel: 0,
        pan: 0,
    }
}


/// An ADC reading (12 bits over VDD at gain 1/4) scaled to a byte:
/// `val * 255 / 4096`, truncated.
pub open spec fn spec_adc(val: i16) -> int {
    trunc_div(val * 255, 4096)
}

/// Scales an ADC reading to a byte. The reading must scale into
/// `0..=255` (the conversion to `u8` panics otherwise).
pub fn get_adc(val: i16) -> (r: u8)
    requires
        0 <= spec_adc(val) <= 255,
    ensures
        r == spec_adc(val),
{
    let v = val as i32;
    ((v * 255) / 4096) as u8
}

/// Center reading of the first channel.
pub const JOYSTICK_CENTER_X: u8 = 125;
/// Center reading of the second channel.
pub const JOYSTICK_CENTER_Y: u8 = 113;
/// Half-width of the dead zone around the center.
pub const JOYSTICK_DEAD: u8 = 5;
/// Divider of the movement.
pub const JOYSTICK_DIVIDER: i8 = 5;

/// Movement of one channel: 0 inside the dead zone, else the reading's
/// distance from the middle of the byte range (127), divided by the
/// divider.
pub open spec fn spec_channel_move(ch: u8, center: u8) -> int {
    if center - 5 < ch < center + 5 {
        0
    } else {
        trunc_div(ch - 127, 5)
    }
}

fn channel_move(ch: u8, center: u8) -> (r: i8)
    requires
        ch != 255,
        5 <= center <= 250,
    ensures
        r == spec_channel_move(ch, center),
{
    if ch > center - JOYSTICK_DEAD && ch < center + JOYSTICK_DEAD {
        0
    } else {
        let d: i8 = (ch as i16 - 127) as i8;
        d / JOYSTICK_DIVIDER
    }
}

/// Mouse movement of a two-channel joystick sample, or `None` when both
/// axes rest (no report is sent then). Readings must scale into a byte
/// below 255.
pub fn joystick_axes(buf: [i16; 2]) -> (r: Option<(i8, i8)>)
    requires
        0 <= spec_adc(buf@[0]) < 255,
        0 <= spec_adc(buf@[1]) < 255,
    ensures
        ({
            let x = spec_channel_move(spec_adc(buf@[0]) as u8, 125);
            let y = spec_channel_move(spec_adc(buf@[1]) as u8, 113);
            &&& (x == 0 && y == 0) ==> r is None
            &&& !(x == 0 && y == 0) ==> r == Some((x as i8, y as i8))
        }),
{
    let ch1 = get_adc(buf[0]);
    let ch2 = get_adc(buf[1]);
    let x = channel_move(ch1, JOYSTICK_CENTER_X);
    let y = channel_move(ch2, JOYSTICK_CENTER_Y);
    if x == 0 && y == 0 {
        None
    } else {
        Some((x, y))
    }
}

} // verus!
