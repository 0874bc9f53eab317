//! Pin-level bookkeeping of the simple rotary encoder input device: a byte
//! holding the previous (bits 0 and 1) and current (bits 2 and 3) levels of
//! pins A and B, and the direction read from it.

use vstd::prelude::*;

verus! {

/// Previous and current levels of the two encoder pins, one bit each:
/// bit 0 previous A, bit 1 previous B, bit 2 current A, bit 3 current B.
#[derive(Clone, Copy, Debug, PartialEq, Eq, Structural)]
pub struct EncoderState(pub u8);

/// Direction of Rotary Encoder rotation
#[derive(Clone, Copy, Debug, Eq, PartialEq, Structural)]
pub enum Direction {
    /// No Direction is specified,
    NoChange,
    /// Clockwise direction
    Clockwise,
    /// Counter-clockwise direction
    CounterClockwise,
}

/// The direction of a state byte: codes 1, 7, 8 and 14 are clockwise,
/// codes 2, 4, 11 and 13 counterclockwise, anything else no turn.
pub open spec fn state_direction(s: u8) -> Direction {
    if s == 0b0001 || s == 0b0111 || s == 0b1000 || s == 0b1110 {
        Direction::Clockwise
    } else if s == 0b0010 || s == 0b0100 || s == 0b1011 || s == 0b1101 {
        Direction::CounterClockwise
    } else {
        Direction::NoChange
    }
}

/// Bit `i` of `s` set to `v`.
pub open spec fn with_bit(s: u8, i: u8, v: bool) -> u8 {
    if v {
        (s | (1u8 << i)) as u8
    } else {
        (s & !(1u8 << i)) as u8
    }
}

/// Whether bit `i` of `s` is set.
pub open spec fn bit(s: u8, i: u8) -> bool {
    (s >> i) & 1 == 1
}

impl EncoderState {
    fn get(&self, i: u8) -> (r: bool)
        requires
            i < 8,
        ensures
            r == bit(self.0, i),
    {
        (self.0 >> i) & 1 == 1
    }

    fn set(&mut self, i: u8, v: bool)
        requires
            i < 8,
        ensures
            final(self).0 == with_bit(old(self).0, i, v),
    {
        if v {
            self.0 = self.0 | (1u8 << i);
        } else {
            self.0 = self.0 & !(1u8 << i);
        }
    }

    /// Record the current level of pin A.
    pub fn set_pin_a(&mut self, v: bool)
        ensures
            final(self).0 == with_bit(old(self).0, 2, v),
    {
        self.set(2, v);
    }

    /// Record the current level of pin B.
    pub fn set_pin_b(&mut self, v: bool)
        ensures
            final(self).0 == with_bit(old(self).0, 3, v),
    {
        self.set(3, v);
    }

    /// Move the current levels into the previous ones and clear the current
    /// ones; the unused high bits are kept.
    pub fn update(&mut self)
        ensures
            final(self).0 & 0xF0 == old(self).0 & 0xF0,
            final(self).0 & 0x0F == (old(self).0 >> 2u8) & 0x03,
    {
        let s0 = self.0;
        let s1 = (s0 & 0xF0) | ((s0 >> 2) & 0x03);
        assert(s1 & 0xF0 == s0 & 0xF0 && s1 & 0x0F == (s0 >> 2u8) & 0x03) by (bit_vector)
            requires
                s1 == (s0 & 0xF0) | ((s0 >> 2u8) & 0x03),
        ;
        self.0 = s1;
    }
}

impl From<EncoderState> for Direction {
    fn from(s: EncoderState) -> (r: Self) {
        match s.0 {
            0b0001 | 0b0111 | 0b1000 | 0b1110 => Direction::Clockwise,
            0b0010 | 0b0100 | 0b1011 | 0b1101 => Direction::CounterClockwise,
            _ => Direction::NoChange,
        }
    }
}

impl vstd::std_specs::convert::FromSpecImpl<EncoderState> for Direction {
    open spec fn obeys_from_spec() -> bool {
        true
    }

    open spec fn from_spec(v: EncoderState) -> Direction {
        state_direction(v.0)
    }
}

/// One processing step of the encoder input device: the pins' levels are
/// recorded, the direction is read from the state, and the state then
/// moves the levels into the previous ones.
pub fn process_levels(state: &mut EncoderState, a_high: bool, b_high: bool) -> (r: Direction)
    ensures
        r == state_direction(with_bit(with_bit(old(state).0, 2, a_high), 3, b_high)),
        final(state).0 & 0x0F == (if a_high { 1u8 } else { 0u8 }) | (if b_high { 2u8 } else { 0u8 }),
        final(state).0 & 0xF0 == old(state).0 & 0xF0,
{
    let s0 = state.0;
    state.set_pin_a(a_high);
    state.set_pin_b(b_high);
    let s = *state;
    let sv = s.0;
    let dir = Direction::from(s);
    state.update();
    assert((sv >> 2u8) & 0x03 == (if a_high { 1u8 } else { 0u8 }) | (if b_high { 2u8 } else { 0u8 }) && sv & 0xF0 == s0 & 0xF0) by (bit_vector)
        requires
            sv == with_bit(with_bit(s0, 2, a_high), 3, b_high),
    ;
    dir
}

} // verus!
