//! Events exchanged between input devices and processors, and the HID
//! reports that processors produce.

use vstd::prelude::*;

use crate::rotary_encoder::Direction;

verus! {

/// The axis an axis event reports on.
#[derive(Clone, Copy, Debug, PartialEq, Eq, Structural)]
pub enum Axis {
    X,
    Y,
    Z,
    H,
    V,
}

/// Whether an axis value is a relative delta or an absolute position.
#[derive(Clone, Copy, Debug, PartialEq, Eq, Structural)]
pub enum AxisValType {
    Rel,
    Abs,
}

/// One axis reading of a pointing event.
#[derive(Clone, Copy, Debug, PartialEq, Eq, Structural)]
pub struct AxisEvent {
    pub typ: AxisValType,
    pub axis: Axis,
    pub value: i16,
}

/// Motion published by a pointing device.
#[derive(Clone, Copy, Debug, PartialEq, Eq)]
pub struct PointingEvent {
    /// The id of the pointing device that produced the event.
    pub device_id: u8,
    pub axes: [AxisEvent; 3],
}

/// Request to change the resolution of a pointing device.
#[derive(Clone, Copy, Debug, PartialEq, Eq, Structural)]
pub struct PointingSetCpiEvent {
    pub device_id: u8,
    pub cpi: u16,
}

/// HID mouse report.
#[derive(Clone, Copy, Debug, PartialEq, Eq, Structural)]
pub struct MouseReport {
    pub buttons: u8,
    pub x: i8,
    pub y: i8,
    pub wheel: i8,
    pub pan: i8,
}

/// Position of a key in the key matrix.
#[derive(Clone, Copy, Debug, PartialEq, Eq, Structural)]
pub struct KeyPos {
    pub row: u8,
    pub col: u8,
}

/// A rotary encoder and the direction it turned.
#[derive(Clone, Copy, Debug, PartialEq, Eq, Structural)]
pub struct RotaryEncoderPos {
    pub id: u8,
    pub direction: Direction,
}

/// Where a keyboard event comes from: a matrix key or an encoder turn.
#[derive(Clone, Copy, Debug, PartialEq, Eq, Structural)]
pub enum KeyboardEventPos {
    Key(KeyPos),
    RotaryEncoder(RotaryEncoderPos),
}

/// A press or release at a position.
#[derive(Clone, Copy, Debug, PartialEq, Eq, Structural)]
pub struct KeyboardEvent {
    pub pos: KeyboardEventPos,
    pub pressed: bool,
}

impl KeyboardEvent {
    /// An event of the matrix key at `row`, `col`.
    pub fn key(row: u8, col: u8, pressed: bool) -> (r: Self)
        ensures
            r == (KeyboardEvent {
                pos: KeyboardEventPos::Key(KeyPos { row, col }),
                pressed,
            }),
    {
        KeyboardEvent { pos: KeyboardEventPos::Key(KeyPos { row, col }), pressed }
    }

    /// An event of encoder `id` turning in `direction`.
    pub fn rotary_encoder(id: u8, direction: Direction, pressed: bool) -> (r: Self)
        ensures
            r == (KeyboardEvent {
                pos: KeyboardEventPos::RotaryEncoder(RotaryEncoderPos { id, direction }),
                pressed,
            }),
    {
        KeyboardEvent {
            pos: KeyboardEventPos::RotaryEncoder(RotaryEncoderPos { id, direction }),
            pressed,
        }
    }
}

} // verus!
