//! Plover HID stenography live-state reporter.
//!
//! The Plover HID protocol sends the full bitmap of currently-held steno
//! keys on every state change (press or release). Chord detection happens
//! on the host side. Steno keys are identified by their index (0..=63) in
//! the Plover HID key chart: chart index 0 (`S1-`) is the most significant
//! bit of the report's first byte, index 63 (`X26`) the least significant
//! bit of its last byte.

use vstd::prelude::*;

verus! {

/// The bit of chart index `index` in the chord bitmap, or `None` past the
/// chart.
pub open spec fn spec_bit_mask(index: u8) -> Option<u64> {
    if index < 64 {
        Some((1u64 << ((63 - index) as u64)) as u64)
    } else {
        None
    }
}

/// The bit of a steno key in the chord bitmap (chart index 0 is the most
/// significant bit), or `None` for an index past the chart.
pub fn steno_bit_mask(index: u8) -> (r: Option<u64>)
    ensures
        r == spec_bit_mask(index),
{
    if index < 64 {
        Some(1u64 << ((63 - index) as u64))
    } else {
        None
    }
}

/// Live bitmap of currently-held steno keys.
#[derive(Clone, Copy, Debug, PartialEq, Eq, Structural, Default)]
pub struct StenoChord {
    /// Held keys: chart index `i` is bit `63 - i`.
    pub state: u64,
}

/// The big-endian bytes of `v`.
pub open spec fn be_bytes(v: u64) -> Seq<u8> {
    Seq::new(8, |i: int| ((v >> ((56 - 8 * i) as u64)) & 0xFF) as u8)
}

impl StenoChord {
    /// No key held.
    pub fn new() -> (r: Self)
        ensures
            r.state == 0,
    {
        StenoChord { state: 0 }
    }

    /// Update live state for a steno key event. Returns `true` only when the
    /// bitmap actually changed, so callers can skip the report dispatch on
    /// no-op edges (re-press of a held key, re-release of an
    /// already-released key, or out-of-range chart indices).
    pub fn update(&mut self, key: u8, pressed: bool) -> (r: bool)
        ensures
            match spec_bit_mask(key) {
                Some(mask) => {
                    &&& final(self).state == (if pressed {
                        old(self).state | mask
                    } else {
                        old(self).state & !mask
                    })
                    &&& r == (final(self).state != old(self).state)
                },
                None => *final(self) == *old(self) && !r,
            },
    {
        match steno_bit_mask(key) {
            None => false,
            Some(mask) => {
                let prev = self.state;
                if pressed {
                    self.state = self.state | mask;
                } else {
                    self.state = self.state & !mask;
                }
                prev != self.state
            },
        }
    }

    /// The report of the current bitmap of held steno keys: its eight
    /// big-endian bytes.
    pub fn current_report(&self) -> (r: [u8; 8])
        ensures
            r@ == be_bytes(self.state),
    {
        let s = self.state;
        let r: [u8; 8] = [
            ((s >> 56u64) & 0xFF) as u8,
            ((s >> 48u64) & 0xFF) as u8,
            ((s >> 40u64) & 0xFF) as u8,
            ((s >> 32u64) & 0xFF) as u8,
            ((s >> 24u64) & 0xFF) as u8,
            ((s >> 16u64) & 0xFF) as u8,
            ((s >> 8u64) & 0xFF) as u8,
            (s & 0xFF) as u8,
        ];
        assert(s >> 0u64 == s) by (bit_vector);
        assert(r@ =~= be_bytes(s));
        r
    }
}

/// A press reports a change exactly when the key was not held, a release
/// exactly when it was; releasing a key pressed on a chord without it
/// gives the chord back.
pub proof fn lemma_steno_edges(state: u64, key: u8)
    requires
        key < 64,
    ensures
        ({
            let mask = spec_bit_mask(key)->0;
            &&& ((state | mask) != state) == (state & mask == 0)
            &&& ((state & !mask) != state) == (state & mask != 0)
            &&& state & mask == 0 ==> (state | mask) & !mask == state
        }),
{
    let sh = (63 - key) as u64;
    assert(sh < 64 ==> ((state | (1u64 << sh)) != state) == (state & (1u64 << sh) == 0) && ((state & !(1u64
        << sh)) != state) == (state & (1u64 << sh) != 0) && (state & (1u64 << sh) == 0 ==> (state | (1u64
        << sh)) & !(1u64 << sh) == state)) by (bit_vector);
}

} // verus!
