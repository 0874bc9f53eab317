//! Azoteq IQS9151 trackpad controller: register map, coordinate-frame
//! decoding and the decisions of the driver (product check, reset
//! acknowledgement, event configuration, frame handling). The I2C transfers
//! and the waiting are the caller's.

use vstd::prelude::*;

use crate::event::{Axis, AxisEvent, AxisValType, PointingEvent};

verus! {

/// Default 7-bit I2C address used by IQS9151.
pub const I2C_ADDR: u8 = 0x56;

/// Expected IQS9151 product number.
pub const PRODUCT_NUMBER: u16 = 0x09bc;

pub const ADDR_PRODUCT_NUMBER: u16 = 0x1000;

pub const ADDR_RELATIVE_X: u16 = 0x1014;

pub const ADDR_INFO_FLAGS: u16 = 0x1020;

pub const ADDR_TRACKPAD_FLAGS: u16 = 0x1022;

pub const ADDR_SYSTEM_CONTROL: u16 = 0x11bc;

pub const ADDR_CONFIG_SETTINGS: u16 = 0x11be;

pub const COORD_BLOCK_START: u16 = 0x1014;

pub const COORD_BLOCK_LENGTH: usize = 0x1c;

pub const INFO_SHOW_RESET: u16 = 0x80;

pub const TP_FINGER_COUNT_MASK: u16 = 0x000f;

pub const TP_MOVEMENT_DETECTED: u16 = 0x10;

pub const SYS_CTRL_ACK_RESET: u16 = 0x80;

pub const CFG_TP_TOUCH_EVENT_EN: u16 = 0x2000;

pub const CFG_TP_EVENT_EN: u16 = 0x400;

pub const CFG_EVENT_MODE: u16 = 0x100;

/// Little-endian `u16` from two bytes.
pub open spec fn le_u16(lo: u8, hi: u8) -> u16 {
    (lo as int + 256 * (hi as int)) as u16
}

/// Little-endian `i16` from two bytes (two's complement).
pub open spec fn le_i16(lo: u8, hi: u8) -> i16 {
    let v = lo as int + 256 * (hi as int);
    (if v >= 32768 {
        v - 65536
    } else {
        v
    }) as i16
}

fn u16_from_le(lo: u8, hi: u8) -> (r: u16)
    ensures
        r == le_u16(lo, hi),
{
    lo as u16 + (hi as u16) * 256
}

fn i16_from_le(lo: u8, hi: u8) -> (r: i16)
    ensures
        r == le_i16(lo, hi),
{
    let v: i32 = lo as i32 + (hi as i32) * 256;
    if v >= 32768 {
        (v - 65536) as i16
    } else {
        v as i16
    }
}

/// The readings of one coordinate block.
#[derive(Clone, Copy, Debug, Eq, PartialEq, Structural)]
pub struct CoordinateFrame {
    pub relative_x: i16,
    pub relative_y: i16,
    pub info_flags: u16,
    pub trackpad_flags: u16,
}

impl CoordinateFrame {
    /// Decode a coordinate block read from `COORD_BLOCK_START`: relative X
    /// and Y at offsets 0 and 2, the info flags at `ADDR_INFO_FLAGS` and the
    /// trackpad flags at `ADDR_TRACKPAD_FLAGS`, all little-endian.
    pub fn parse(block: &[u8; 28]) -> (r: Self)
        ensures
            r.relative_x == le_i16(block[0], block[1]),
            r.relative_y == le_i16(block[2], block[3]),
            r.info_flags == le_u16(block[12], block[13]),
            r.trackpad_flags == le_u16(block[14], block[15]),
    {
        let info = (ADDR_INFO_FLAGS - COORD_BLOCK_START) as usize;
        let tp = (ADDR_TRACKPAD_FLAGS - COORD_BLOCK_START) as usize;
        Self {
            relative_x: i16_from_le(block[0], block[1]),
            relative_y: i16_from_le(block[2], block[3]),
            info_flags: u16_from_le(block[info], block[info + 1]),
            trackpad_flags: u16_from_le(block[tp], block[tp + 1]),
        }
    }

    /// Number of fingers on the pad.
    pub fn finger_count(self) -> (r: u8)
        ensures
            r == self.trackpad_flags & TP_FINGER_COUNT_MASK,
    {
        let f = self.trackpad_flags;
        let v = f & TP_FINGER_COUNT_MASK;
        assert(v <= 15) by (bit_vector)
            requires
                v == f & 0x000f,
        ;
        v as u8
    }

    /// Whether the pad reports movement.
    pub fn movement_detected(self) -> (r: bool)
        ensures
            r == (self.trackpad_flags & TP_MOVEMENT_DETECTED != 0),
    {
        (self.trackpad_flags & TP_MOVEMENT_DETECTED) != 0
    }

    /// Whether the controller reports a reset.
    pub fn show_reset(self) -> (r: bool)
        ensures
            r == (self.info_flags & INFO_SHOW_RESET != 0),
    {
        (self.info_flags & INFO_SHOW_RESET) != 0
    }
}

/// Why initialization stopped.
#[derive(Clone, Copy, Debug, Eq, PartialEq, Structural)]
pub enum InitError {
    InvalidProductNumber(u16),
}

/// The product number read at initialization must be the IQS9151's.
pub fn check_product_number(product_number: u16) -> (r: Result<(), InitError>)
    ensures
        product_number == PRODUCT_NUMBER ==> r == Ok::<(), InitError>(()),
        product_number != PRODUCT_NUMBER ==> r == Err::<(), InitError>(
            InitError::InvalidProductNumber(product_number),
        ),
{
    if product_number != PRODUCT_NUMBER {
        Err(InitError::InvalidProductNumber(product_number))
    } else {
        Ok(())
    }
}

/// Whether a pending reset has to be acknowledged, from the info flags.
pub fn needs_reset_ack(info_flags: u16) -> (r: bool)
    ensures
        r == (info_flags & INFO_SHOW_RESET != 0),
{
    (info_flags & INFO_SHOW_RESET) != 0
}

/// A register value with the bits of `mask` replaced by those of `value`.
pub fn update_bits(current: u16, mask: u16, value: u16) -> (r: u16)
    ensures
        r == (current & !mask) | (value & mask),
{
    (current & !mask) | (value & mask)
}

/// The event-configuration mask and value written at initialization: with
/// a ready pin the device runs in event mode; when polled it does not.
pub fn event_config(has_ready_pin: bool) -> (r: (u16, u16))
    ensures
        r.0 == CFG_TP_TOUCH_EVENT_EN | CFG_TP_EVENT_EN | CFG_EVENT_MODE,
        has_ready_pin ==> r.1 == r.0,
        !has_ready_pin ==> r.1 == CFG_TP_TOUCH_EVENT_EN | CFG_TP_EVENT_EN,
{
    let config_mask = CFG_TP_TOUCH_EVENT_EN | CFG_TP_EVENT_EN | CFG_EVENT_MODE;
    let config_value = if has_ready_pin {
        config_mask
    } else {
        CFG_TP_TOUCH_EVENT_EN | CFG_TP_EVENT_EN
    };
    (config_mask, config_value)
}

/// What the driver does with a frame.
#[derive(Clone, Copy, Debug, Eq, PartialEq)]
pub enum FrameAction {
    /// The controller was reset: initialize again.
    Reinitialize,
    /// Publish this motion.
    Publish(PointingEvent),
    /// No motion: read the next frame.
    Wait,
}

/// A reset frame asks for reinitialization; a frame with relative motion is
/// published on X and Y (Z is 0); a still frame is skipped.
pub fn frame_action(frame: CoordinateFrame, device_id: u8) -> (r: FrameAction)
    ensures
        (frame.info_flags & INFO_SHOW_RESET != 0) ==> r == FrameAction::Reinitialize,
        !(frame.info_flags & INFO_SHOW_RESET != 0) && (frame.relative_x != 0 || frame.relative_y
            != 0) ==> r == FrameAction::Publish(
            PointingEvent {
                device_id,
                axes: [
                    AxisEvent { typ: AxisValType::Rel, axis: Axis::X, value: frame.relative_x },
                    AxisEvent { typ: AxisValType::Rel, axis: Axis::Y, value: frame.relative_y },
                    AxisEvent { typ: AxisValType::Rel, axis: Axis::Z, value: 0 },
                ],
            },
        ),
        !(frame.info_flags & INFO_SHOW_RESET != 0) && frame.relative_x == 0 && frame.relative_y
            == 0 ==> r == FrameAction::Wait,
{
    if frame.show_reset() {
        return FrameAction::Reinitialize;
    }
    if frame.relative_x != 0 || frame.relative_y != 0 {
        FrameAction::Publish(
            PointingEvent {
                device_id,
                axes: [
                    AxisEvent { typ: AxisValType::Rel, axis: Axis::X, value: frame.relative_x },
                    AxisEvent { typ: AxisValType::Rel, axis: Axis::Y, value: frame.relative_y },
                    AxisEvent { typ: AxisValType::Rel, axis: Axis::Z, value: 0 },
                ],
            },
        )
    } else {
        FrameAction::Wait
    }
}

} // verus!
