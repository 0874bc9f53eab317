//! Azoteq IQS5xx trackpad controller (IQS550, IQS572, IQS525): product
//! identification, the register blocks written at initialization, the
//! decoding of the motion block and the communication-window timing. The
//! I2C transfers, the `RDY` pin and the waiting are the caller's.
//!
//! The device opens a communication window once per report interval;
//! with a `RDY` pin the caller waits for it, else it polls every interval
//! after the end of the previous window.

use vstd::prelude::*;

use crate::event::{Axis, AxisEvent, AxisValType, PointingEvent};
use crate::iqs9151::le_i16;

verus! {

/// Default 7-bit I2C address of the IQS5xx.
pub const I2C_ADDR: u8 = 0x74;

/// Poll interval used without a `RDY` pin, in ms.
pub const DEFAULT_POLL_INTERVAL_MS: u16 = 15;

/// Bit of system info 0 that reports a device reset.
pub const SHOW_RESET: u8 = 0x80;

/// The "end session" write: address 0xEEEE with one dummy byte, since a
/// zero-data write does not end the window.
pub fn end_session() -> (r: [u8; 2])
    ensures
        r@ == seq![0xEEu8, 0xEE],
{
    [0xEE, 0xEE]
}

/// The controller model, from its product information.
#[derive(Clone, Copy, Debug, PartialEq, Eq, Structural)]
pub enum Iqs5xxProduct {
    Iqs550,
    Iqs572,
    Iqs525,
}

/// Why the driver stops a session (transfer errors are the caller's).
#[derive(Clone, Copy, Debug, PartialEq, Eq)]
pub enum Iqs5xxError {
    InvalidProductInfo([u8; 4]),
    Reset,
}

/// Product information `[0, 40, 0, 15]` is an IQS550, `[0, 58, 0, 15]` an
/// IQS572, `[0, 52, 0, 15]` an IQS525; anything else is refused.
pub open spec fn spec_product(info: [u8; 4]) -> Option<Iqs5xxProduct> {
    if info[0] == 0 && info[2] == 0 && info[3] == 15 {
        if info[1] == 40 {
            Some(Iqs5xxProduct::Iqs550)
        } else if info[1] == 58 {
            Some(Iqs5xxProduct::Iqs572)
        } else if info[1] == 52 {
            Some(Iqs5xxProduct::Iqs525)
        } else {
            None
        }
    } else {
        None
    }
}

/// The model named by the product information read at initialization.
pub fn identify_product(info: [u8; 4]) -> (r: Result<Iqs5xxProduct, Iqs5xxError>)
    ensures
        match spec_product(info) {
            Some(p) => r == Ok::<Iqs5xxProduct, Iqs5xxError>(p),
            None => r == Err::<Iqs5xxProduct, Iqs5xxError>(Iqs5xxError::InvalidProductInfo(info)),
        },
{
    if info[0] == 0 && info[2] == 0 && info[3] == 15 {
        if info[1] == 40 {
            return Ok(Iqs5xxProduct::Iqs550);
        } else if info[1] == 58 {
            return Ok(Iqs5xxProduct::Iqs572);
        } else if info[1] == 52 {
            return Ok(Iqs5xxProduct::Iqs525);
        }
    }
    Err(Iqs5xxError::InvalidProductInfo(info))
}

/// Largest useful resolution of an axis driven by `channels` channels:
/// `(channels - 1) * 256`, 0 without channels.
pub open spec fn spec_resolution(channels: u8) -> u16 {
    if channels >= 1 {
        ((channels - 1) * 256) as u16
    } else {
        0
    }
}

/// The axis resolution for a channel count.
pub fn axis_resolution(channels: u8) -> (r: u16)
    ensures
        r == spec_resolution(channels),
{
    let c: u16 = if channels >= 1 {
        (channels - 1) as u16
    } else {
        0
    };
    c * 256
}

/// How the caller finds a communication window.
#[derive(Clone, Copy, Debug, PartialEq, Eq, Structural)]
pub enum WindowDetection {
    /// Wait for the `RDY` pin to go high.
    Rdy,
    /// Open a window `interval_ms` after the end of the last one.
    Poll { last_end: u64, interval_ms: u16 },
}

/// The register blocks written at initialization, in order; each starts
/// with its 2-byte register address and goes in a transaction of its own.
#[derive(Clone, Copy, Debug, PartialEq, Eq)]
pub struct InitWrites {
    pub i2c_timeout: [u8; 3],
    pub config: [u8; 4],
    pub report_rates: [u8; 8],
    pub ack_reset: [u8; 3],
    pub xy_config: [u8; 3],
    pub gestures: [u8; 4],
    pub xy_resolution: [u8; 6],
}

/// High and low bytes of a big-endian `u16`.
pub open spec fn hi_byte(v: u16) -> u8 {
    (v / 256) as u8
}

pub open spec fn lo_byte(v: u16) -> u8 {
    (v % 256) as u8
}

/// The blocks for a window detection and the channel counts read from the
/// device. With `RDY`: event mode, a 30 ms window timeout and a 9 ms
/// report interval; when polled: manual control, no event mode, a 100 ms
/// timeout and the poll interval. Active and idle-touch rates are equal;
/// idle is 25 ms. X and Y get the resolutions of the Rx and Tx channel
/// counts; X is flipped; gestures are off.
pub open spec fn spec_init_writes(window: WindowDetection, channels: [u8; 2]) -> InitWrites {
    let (system_config_0, system_config_1, i2c_timeout_ms, active): (u8, u8, u8, u16) = match window {
        WindowDetection::Rdy => (0b01100100, 0b00001111, 30, 9),
        WindowDetection::Poll { interval_ms, .. } => (0b11100100, 0, 100, interval_ms),
    };
    let x = spec_resolution(channels[0]);
    let y = spec_resolution(channels[1]);
    InitWrites {
        i2c_timeout: [0x05, 0x8A, i2c_timeout_ms],
        config: [0x05, 0x8E, system_config_0, system_config_1],
        report_rates: [0x05, 0x7A, hi_byte(active), lo_byte(active), hi_byte(active), lo_byte(active), 0, 25],
        ack_reset: [0x04, 0x31, 0b1000_0000],
        xy_config: [0x06, 0x69, 0b0001],
        gestures: [0x06, 0xB7, 0, 0],
        xy_resolution: [0x06, 0x6E, hi_byte(x), lo_byte(x), hi_byte(y), lo_byte(y)],
    }
}

fn split_u16(v: u16) -> (r: (u8, u8))
    ensures
        r == (hi_byte(v), lo_byte(v)),
{
    ((v / 256) as u8, (v % 256) as u8)
}

/// Initialization blocks for a window detection and channel counts.
pub fn init_writes(window: WindowDetection, channels: [u8; 2]) -> (r: InitWrites)
    ensures
        r == spec_init_writes(window, channels),
{
    let (system_config_0, system_config_1, i2c_timeout_ms, active): (u8, u8, u8, u16) = match window {
        WindowDetection::Rdy => (0b01100100, 0b00001111, 30, 9),
        WindowDetection::Poll { interval_ms, .. } => (0b11100100, 0, 100, interval_ms),
    };
    let x = axis_resolution(channels[0]);
    let y = axis_resolution(channels[1]);
    let (ah, al) = split_u16(active);
    let (xh, xl) = split_u16(x);
    let (yh, yl) = split_u16(y);
    let r = InitWrites {
        i2c_timeout: [0x05, 0x8A, i2c_timeout_ms],
        config: [0x05, 0x8E, system_config_0, system_config_1],
        report_rates: [0x05, 0x7A, ah, al, ah, al, 0, 25],
        ack_reset: [0x04, 0x31, 0b1000_0000],
        xy_config: [0x06, 0x69, 0b0001],
        gestures: [0x06, 0xB7, 0, 0],
        xy_resolution: [0x06, 0x6E, xh, xl, yh, yl],
    };
    assert(r.i2c_timeout@ =~= spec_init_writes(window, channels).i2c_timeout@);
    assert(r.config@ =~= spec_init_writes(window, channels).config@);
    assert(r.report_rates@ =~= spec_init_writes(window, channels).report_rates@);
    assert(r.ack_reset@ =~= spec_init_writes(window, channels).ack_reset@);
    assert(r.xy_config@ =~= spec_init_writes(window, channels).xy_config@);
    assert(r.gestures@ =~= spec_init_writes(window, channels).gestures@);
    assert(r.xy_resolution@ =~= spec_init_writes(window, channels).xy_resolution@);
    r
}

/// The 10-byte motion block at 0x000C.
#[derive(Clone, Copy, Debug, PartialEq, Eq, Structural)]
pub struct MotionBlock {
    pub prev_cycle_time_ms: u8,
    pub gesture_events_0: u8,
    pub gesture_events_1: u8,
    pub system_info_0: u8,
    pub system_info_1: u8,
    pub number_of_fingers: u8,
    pub dx: i16,
    pub dy: i16,
}

fn i16_from_be(hi: u8, lo: u8) -> (r: i16)
    ensures
        r == le_i16(lo, hi),
{
    let v: i32 = lo as i32 + (hi as i32) * 256;
    if v >= 32768 {
        (v - 65536) as i16
    } else {
        v as i16
    }
}

impl MotionBlock {
    /// Decodes the block: bytes in order, relative X and Y big-endian.
    pub fn parse(data: &[u8; 10]) -> (r: Self)
        ensures
            r == (MotionBlock {
                prev_cycle_time_ms: data[0],
                gesture_events_0: data[1],
                gesture_events_1: data[2],
                system_info_0: data[3],
                system_info_1: data[4],
                number_of_fingers: data[5],
                dx: le_i16(data[7], data[6]),
                dy: le_i16(data[9], data[8]),
            }),
    {
        MotionBlock {
            prev_cycle_time_ms: data[0],
            gesture_events_0: data[1],
            gesture_events_1: data[2],
            system_info_0: data[3],
            system_info_1: data[4],
            number_of_fingers: data[5],
            dx: i16_from_be(data[6], data[7]),
            dy: i16_from_be(data[8], data[9]),
        }
    }
}

/// The power mode the device reports in system info 0.
#[derive(Clone, Copy, Debug, PartialEq, Eq, Structural)]
pub enum PowerMode {
    Active,
    IdleTouch,
    Idle,
    Lp1,
    Lp2,
    Invalid,
}

/// The power mode in the low three bits of system info 0.
pub fn power_mode(system_info_0: u8) -> (r: PowerMode)
    ensures
        r == (if system_info_0 % 8 == 0 {
            PowerMode::Active
        } else if system_info_0 % 8 == 1 {
            PowerMode::IdleTouch
        } else if system_info_0 % 8 == 2 {
            PowerMode::Idle
        } else if system_info_0 % 8 == 3 {
            PowerMode::Lp1
        } else if system_info_0 % 8 == 4 {
            PowerMode::Lp2
        } else {
            PowerMode::Invalid
        }),
{
    let m = system_info_0 % 8;
    if m == 0 {
        PowerMode::Active
    } else if m == 1 {
        PowerMode::IdleTouch
    } else if m == 2 {
        PowerMode::Idle
    } else if m == 3 {
        PowerMode::Lp1
    } else if m == 4 {
        PowerMode::Lp2
    } else {
        PowerMode::Invalid
    }
}

/// The pointing event of a motion block: relative X and Y, Z at 0.
pub open spec fn spec_motion_event(device_id: u8, b: MotionBlock) -> PointingEvent {
    PointingEvent {
        device_id,
        axes: [
            AxisEvent { typ: AxisValType::Rel, axis: Axis::X, value: b.dx },
            AxisEvent { typ: AxisValType::Rel, axis: Axis::Y, value: b.dy },
            AxisEvent { typ: AxisValType::Rel, axis: Axis::Z, value: 0 },
        ],
    }
}

/// A trackpad session: its pointing device id, how it finds windows, and
/// whether the device is initialized.
#[derive(Clone, Copy, Debug, PartialEq, Eq, Structural)]
pub struct Iqs5xx {
    pub pointing_device_id: u8,
    pub window_detection: WindowDetection,
    pub initialized: bool,
}

impl Iqs5xx {
    /// A session, uninitialized: with a `RDY` pin it waits for the pin,
    /// else it polls every 15 ms from `now`.
    pub fn new(rmk_id: u8, has_rdy: bool, now: u64) -> (r: Self)
        ensures
            r.pointing_device_id == rmk_id,
            !r.initialized,
            r.window_detection == (if has_rdy {
                WindowDetection::Rdy
            } else {
                WindowDetection::Poll { last_end: now, interval_ms: DEFAULT_POLL_INTERVAL_MS }
            }),
    {
        Iqs5xx {
            pointing_device_id: rmk_id,
            window_detection: if has_rdy {
                WindowDetection::Rdy
            } else {
                WindowDetection::Poll { last_end: now, interval_ms: DEFAULT_POLL_INTERVAL_MS }
            },
            initialized: false,
        }
    }

    /// The blocks to write once the product is identified and the channel
    /// counts are read.
    pub fn init_writes(&self, channels: [u8; 2]) -> (r: InitWrites)
        ensures
            r == spec_init_writes(self.window_detection, channels),
    {
        init_writes(self.window_detection, channels)
    }

    /// The session ended at `now` after the initialization blocks were
    /// written: the device is initialized and polling restarts.
    pub fn finish_init(&mut self, now: u64)
        ensures
            final(self).initialized,
            final(self).pointing_device_id == old(self).pointing_device_id,
            final(self).window_detection == (match old(self).window_detection {
                WindowDetection::Rdy => WindowDetection::Rdy,
                WindowDetection::Poll { interval_ms, .. } => WindowDetection::Poll { last_end: now, interval_ms },
            }),
    {
        if let WindowDetection::Poll { interval_ms, .. } = self.window_detection {
            self.window_detection = WindowDetection::Poll { last_end: now, interval_ms };
        }
        self.initialized = true;
    }

    /// When polled, the time to open the next window: the interval after
    /// the end of the last one (saturating); `None` with `RDY`.
    pub fn next_window_at(&self) -> (r: Option<u64>)
        ensures
            r == (match self.window_detection {
                WindowDetection::Rdy => None,
                WindowDetection::Poll { last_end, interval_ms } => Some(
                    if last_end + interval_ms > u64::MAX {
                        u64::MAX
                    } else {
                        (last_end + interval_ms) as u64
                    },
                ),
            }),
    {
        match self.window_detection {
            WindowDetection::Rdy => None,
            WindowDetection::Poll { last_end, interval_ms } => Some(last_end.saturating_add(interval_ms as u64)),
        }
    }

    /// The motion block read in a window that ended at `now`: a device
    /// reset ends the session (the device must be initialized again);
    /// otherwise the relative motion as a pointing event.
    pub fn read_motion(&mut self, data: &[u8; 10], now: u64) -> (r: Result<PointingEvent, Iqs5xxError>)
        ensures
            ({
                let b = MotionBlock {
                    prev_cycle_time_ms: data[0],
                    gesture_events_0: data[1],
                    gesture_events_1: data[2],
                    system_info_0: data[3],
                    system_info_1: data[4],
                    number_of_fingers: data[5],
                    dx: le_i16(data[7], data[6]),
                    dy: le_i16(data[9], data[8]),
                };
                &&& final(self).pointing_device_id == old(self).pointing_device_id
                &&& final(self).window_detection == (match old(self).window_detection {
                    WindowDetection::Rdy => WindowDetection::Rdy,
                    WindowDetection::Poll { interval_ms, .. } => WindowDetection::Poll { last_end: now, interval_ms },
                })
                &&& if data[3] & SHOW_RESET != 0 {
                    r == Err::<PointingEvent, Iqs5xxError>(Iqs5xxError::Reset) && !final(self).initialized
                } else {
                    r == Ok::<PointingEvent, Iqs5xxError>(spec_motion_event(old(self).pointing_device_id, b))
                        && final(self).initialized == old(self).initialized
                }
            }),
    {
        if let WindowDetection::Poll { interval_ms, .. } = self.window_detection {
            self.window_detection = WindowDetection::Poll { last_end: now, interval_ms };
        }
        let b = MotionBlock::parse(data);
        if b.system_info_0 & SHOW_RESET != 0 {
            self.initialized = false;
            return Err(Iqs5xxError::Reset);
        }
        Ok(
            PointingEvent {
                device_id: self.pointing_device_id,
                axes: [
                    AxisEvent { typ: AxisValType::Rel, axis: Axis::X, value: b.dx },
                    AxisEvent { typ: AxisValType::Rel, axis: Axis::Y, value: b.dy },
                    AxisEvent { typ: AxisValType::Rel, axis: Axis::Z, value: 0 },
                ],
            },
        )
    }
}

/// Whether a motion event is worth publishing: some axis moved.
pub fn has_motion(e: &PointingEvent) -> (r: bool)
    ensures
        r == (e.axes[0].value != 0 || e.axes[1].value != 0 || e.axes[2].value != 0),
{
    e.axes[0].value != 0 || e.axes[1].value != 0 || e.axes[2].value != 0
}

} // verus!
