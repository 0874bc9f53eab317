//! Keyboard macros in the binary form that Vial reads and writes.
//!
//! A macro space is a byte array holding macro sequences one after the
//! other, each ended by 0x00. In a sequence, `01 01 k` taps, `01 02 k`
//! presses and `01 03 k` releases HID key `k`; `01 04 lo hi` waits;
//! `01 05/06/07 lo hi` taps, presses or releases the binding of a 16-bit VIA
//! keycode (little-endian, a zero low byte escaped as `hi FF`); any other
//! byte is an ASCII character typed as its key (with shift when needed).

use vstd::prelude::*;
use vstd::string::StringSliceAdditionalSpecFns;

use crate::action::{BoundAction, KeyBinding};
use crate::keycode::{hid_key_code, spec_hid_key_code};
use crate::via_keycode::{
    from_via_keycode, lemma_via_encode_decode, spec_from_via, spec_to_via, to_via_keycode,
    via_expressible_action,
};

verus! {

/// Size of the macro space, in bytes.
pub const MACRO_SPACE_SIZE: usize = 256;

/// The key and shift state that type an ASCII character
/// (`rmk_types::keycode::from_ascii`, US layout).
pub uninterp spec fn ascii_key(ascii: u8) -> (u8, bool);

/// The ASCII character a key types, shifted or not
/// (`rmk_types::keycode::to_ascii`, US layout).
pub uninterp spec fn key_ascii(key: u8, shifted: bool) -> u8;

/// `rmk_types::keycode::from_ascii`: the HID key (as its usage) and shift
/// state that type `ascii`. What it returns is named, not stated: the US
/// layout table.
#[verifier::external_body]
fn from_ascii(ascii: u8) -> (r: (u8, bool))
    ensures
        r == ascii_key(ascii),
{
    let (key, shifted) = rmk_types::keycode::from_ascii(ascii);
    (key as u8, shifted)
}

/// `rmk_types::keycode::to_ascii` of the keycode with usage `key`
/// (`HidKeyCode::from`). What it returns is named, not stated.
#[verifier::external_body]
fn to_ascii(key: u8, shifted: bool) -> (r: u8)
    ensures
        r == key_ascii(key, shifted),
{
    rmk_types::keycode::to_ascii(rmk_types::keycode::HidKeyCode::from(key), shifted)
}

/// One macro operation.
#[derive(Clone, Copy, Debug, PartialEq, Eq, Structural)]
pub enum MacroOperation {
    /// Marks the end of a macro sequence (0x00). Added and removed by
    /// `define_macro_sequences`.
    End,
    /// `01 01` + HID usage
    Tap(u8),
    /// `01 02` + HID usage
    Press(u8),
    /// `01 03` + HID usage
    Release(u8),
    /// `01 04` + the delay in ms
    Delay(u16),
    /// Any other byte: an ASCII character, as its key and shift state.
    Text(u8, bool),
    /// `01 05` + 16-bit VIA keycode: tap an extended keycode.
    TapAction(BoundAction),
    /// `01 06` + 16-bit VIA keycode: press an extended keycode.
    PressAction(BoundAction),
    /// `01 07` + 16-bit VIA keycode: release an extended keycode.
    ReleaseAction(BoundAction),
}

/// The single action of a binding (`KeyAction::to_action`): that of a
/// single or tap binding, else `No`.
pub open spec fn binding_action(b: KeyBinding) -> BoundAction {
    match b {
        KeyBinding::Single(a) => a,
        KeyBinding::Tap(a) => a,
        _ => BoundAction::No,
    }
}

/// Undoes the zero-low-byte escape of an extended keycode.
pub open spec fn unescape_keycode(raw: u16) -> u16 {
    if raw & 0xFF00 == 0xFF00 {
        ((raw & 0x00FF) << 8u16) as u16
    } else {
        raw
    }
}

/// The delay of the bytes `lo`, `hi` of a delay operation: each byte
/// counts from 1 (a 0 counts as 1), `hi` in steps of 255 ms.
pub open spec fn spec_delay(lo: u8, hi: u8) -> u16 {
    let l: int = if lo == 0 {
        0
    } else {
        lo - 1
    };
    let h: int = if hi == 0 {
        0
    } else {
        hi - 1
    };
    (l + h * 255) as u16
}

/// The operation at `start + offset` of a macro space and the offset of the
/// next one. Reading past the space gives `End`.
pub open spec fn spec_next_operation(seq: Seq<u8>, start: int, offset: int) -> (MacroOperation, int) {
    let idx = start + offset;
    if idx >= seq.len() - 1 {
        (MacroOperation::End, offset)
    } else if seq[idx] == 0 {
        (MacroOperation::End, offset)
    } else if seq[idx] == 1 && 1 <= seq[idx + 1] <= 3 {
        if idx + 2 < seq.len() {
            let k = spec_hid_key_code(seq[idx + 2]);
            (
                if seq[idx + 1] == 1 {
                    MacroOperation::Tap(k)
                } else if seq[idx + 1] == 2 {
                    MacroOperation::Press(k)
                } else {
                    MacroOperation::Release(k)
                },
                offset + 3,
            )
        } else {
            (MacroOperation::End, offset + 3)
        }
    } else if seq[idx] == 1 && seq[idx + 1] == 4 {
        if idx + 3 < seq.len() {
            (MacroOperation::Delay(spec_delay(seq[idx + 2], seq[idx + 3])), offset + 4)
        } else {
            (MacroOperation::End, offset + 4)
        }
    } else if seq[idx] == 1 && 5 <= seq[idx + 1] <= 7 {
        if idx + 3 < seq.len() {
            let raw = (seq[idx + 2] as u16 | ((seq[idx + 3] as u16) << 8u16)) as u16;
            let action = binding_action(spec_from_via(unescape_keycode(raw)));
            (
                if seq[idx + 1] == 5 {
                    MacroOperation::TapAction(action)
                } else if seq[idx + 1] == 6 {
                    MacroOperation::PressAction(action)
                } else {
                    MacroOperation::ReleaseAction(action)
                },
                offset + 4,
            )
        } else {
            (MacroOperation::End, offset + 4)
        }
    } else {
        let (k, shifted) = ascii_key(seq[idx]);
        (MacroOperation::Text(k, shifted), offset + 1)
    }
}

impl MacroOperation {
    /// The operation at position `offset` of the macro starting at
    /// `macro_start_idx`, and the offset of the next operation.
    pub fn get_next_macro_operation(macro_sequences: &[u8], macro_start_idx: usize, offset: usize) -> (r: (
        MacroOperation,
        usize,
    ))
        requires
            macro_sequences@.len() >= 1,
            macro_sequences@.len() <= isize::MAX,
            macro_start_idx + offset + 3 <= usize::MAX,
        ensures
            r.0 == spec_next_operation(macro_sequences@, macro_start_idx as int, offset as int).0,
            r.1 == spec_next_operation(macro_sequences@, macro_start_idx as int, offset as int).1,
    {
        let idx = macro_start_idx + offset;
        let len = macro_sequences.len();
        if idx >= len - 1 {
            return (MacroOperation::End, offset);
        }
        let a = macro_sequences[idx];
        let b = macro_sequences[idx + 1];
        if a == 0 {
            (MacroOperation::End, offset)
        } else if a == 1 && 1 <= b && b <= 3 {
            if idx + 2 < len {
                let k = hid_key_code(macro_sequences[idx + 2]);
                let op = if b == 1 {
                    MacroOperation::Tap(k)
                } else if b == 2 {
                    MacroOperation::Press(k)
                } else {
                    MacroOperation::Release(k)
                };
                (op, offset + 3)
            } else {
                (MacroOperation::End, offset + 3)
            }
        } else if a == 1 && b == 4 {
            if idx + 3 < len {
                let lo = macro_sequences[idx + 2];
                let hi = macro_sequences[idx + 3];
                let l: u16 = if lo == 0 {
                    0
                } else {
                    lo as u16 - 1
                };
                let h: u16 = if hi == 0 {
                    0
                } else {
                    hi as u16 - 1
                };
                (MacroOperation::Delay(l + h * 255), offset + 4)
            } else {
                (MacroOperation::End, offset + 4)
            }
        } else if a == 1 && 5 <= b && b <= 7 {
            if idx + 3 < len {
                let raw: u16 = macro_sequences[idx + 2] as u16 | ((macro_sequences[idx + 3] as u16) << 8u16);
                let keycode = if raw & 0xFF00 == 0xFF00 {
                    (raw & 0x00FF) << 8u16
                } else {
                    raw
                };
                let action = match from_via_keycode(keycode) {
                    KeyBinding::Single(a) => a,
                    KeyBinding::Tap(a) => a,
                    _ => BoundAction::No,
                };
                let op = if b == 5 {
                    MacroOperation::TapAction(action)
                } else if b == 6 {
                    MacroOperation::PressAction(action)
                } else {
                    MacroOperation::ReleaseAction(action)
                };
                (op, offset + 4)
            } else {
                (MacroOperation::End, offset + 4)
            }
        } else {
            let (k, shifted) = from_ascii(a);
            (MacroOperation::Text(k, shifted), offset + 1)
        }
    }

    /// The start of macro number `guessed_macro_start_idx`: the position
    /// after that many end markers (0x00); `None` when the space holds
    /// fewer macros.
    pub fn get_macro_sequence_start(macro_sequences: &[u8], guessed_macro_start_idx: u8) -> (r: Option<usize>)
        ensures
            r == spec_sequence_start(macro_sequences@, guessed_macro_start_idx as int, 0),
    {
        let mut idx: usize = 0;
        let mut potential_start_idx = guessed_macro_start_idx;
        while potential_start_idx != 0 && idx < macro_sequences.len()
            invariant
                idx <= macro_sequences@.len(),
                spec_sequence_start(macro_sequences@, guessed_macro_start_idx as int, 0) == spec_sequence_start(
                    macro_sequences@,
                    potential_start_idx as int,
                    idx as int,
                ),
            decreases macro_sequences@.len() - idx,
        {
            if macro_sequences[idx] == 0 {
                potential_start_idx = potential_start_idx - 1;
            }
            idx = idx + 1;
        }
        if idx == macro_sequences.len() {
            None
        } else {
            Some(idx)
        }
    }
}

/// Scanning from `idx` with `remaining` end markers still to pass: the
/// position reached, or `None` at the end of the space.
pub open spec fn spec_sequence_start(seq: Seq<u8>, remaining: int, idx: int) -> Option<usize>
    decreases seq.len() - idx,
{
    if remaining == 0 || idx >= seq.len() {
        if idx == seq.len() {
            None
        } else {
            Some(idx as usize)
        }
    } else {
        spec_sequence_start(seq, if seq[idx] == 0 { remaining - 1 } else { remaining }, idx + 1)
    }
}

/// An extended keycode with its zero low byte escaped (`FF hi`), so that
/// the payload never contains 0x00.
pub open spec fn escape_keycode(k: u16) -> u16 {
    if k % 256 == 0 {
        (0xFF00u16 | (k >> 8u16)) as u16
    } else {
        k
    }
}

/// The bytes of an extended operation of kind `kind`.
pub open spec fn ext_bytes(kind: u8, a: BoundAction) -> Seq<u8> {
    let w = escape_keycode(spec_to_via(KeyBinding::Single(a)));
    seq![1u8, kind, (w & 0xFF) as u8, (w >> 8u16) as u8]
}

/// The bytes of one operation.
pub open spec fn spec_serialize(op: MacroOperation) -> Seq<u8> {
    match op {
        MacroOperation::End => seq![0u8],
        MacroOperation::Tap(k) => seq![1u8, 1u8, k],
        MacroOperation::Press(k) => seq![1u8, 2u8, k],
        MacroOperation::Release(k) => seq![1u8, 3u8, k],
        MacroOperation::Delay(d) => seq![1u8, 4u8, (d >> 8u16) as u8, (d & 0xFF) as u8],
        MacroOperation::Text(k, shifted) => seq![key_ascii(k, shifted)],
        MacroOperation::TapAction(a) => ext_bytes(5, a),
        MacroOperation::PressAction(a) => ext_bytes(6, a),
        MacroOperation::ReleaseAction(a) => ext_bytes(7, a),
    }
}

/// The bytes of a sequence's first `n` operations, end markers skipped.
pub open spec fn spec_sequence_bytes(ops: Seq<MacroOperation>, n: int) -> Seq<u8>
    decreases n,
{
    if n <= 0 {
        Seq::empty()
    } else {
        let prev = spec_sequence_bytes(ops, n - 1);
        if ops[n - 1] is End {
            prev
        } else {
            prev + spec_serialize(ops[n - 1])
        }
    }
}

/// The bytes of the first `n` sequences, each followed by an end marker.
pub open spec fn spec_fold(seqs: Seq<Vec<MacroOperation>>, n: int) -> Seq<u8>
    decreases n,
{
    if n <= 0 {
        Seq::empty()
    } else {
        spec_fold(seqs, n - 1) + spec_sequence_bytes(seqs[n - 1]@, seqs[n - 1]@.len() as int) + seq![0u8]
    }
}

fn serialize_into(out: &mut Vec<u8>, op: MacroOperation)
    requires
        !(op is End),
    ensures
        final(out)@ == old(out)@ + spec_serialize(op),
{
    match op {
        MacroOperation::End => {},
        MacroOperation::Tap(k) => {
            out.push(1);
            out.push(1);
            out.push(k);
        },
        MacroOperation::Press(k) => {
            out.push(1);
            out.push(2);
            out.push(k);
        },
        MacroOperation::Release(k) => {
            out.push(1);
            out.push(3);
            out.push(k);
        },
        MacroOperation::Delay(d) => {
            out.push(1);
            out.push(4);
            out.push((d >> 8u16) as u8);
            out.push((d & 0xFF) as u8);
        },
        MacroOperation::Text(k, shifted) => {
            out.push(to_ascii(k, shifted));
        },
        MacroOperation::TapAction(a) => serialize_extended_keycode(out, 5, a),
        MacroOperation::PressAction(a) => serialize_extended_keycode(out, 6, a),
        MacroOperation::ReleaseAction(a) => serialize_extended_keycode(out, 7, a),
    }
    assert(final(out)@ =~= old(out)@ + spec_serialize(op));
}

fn serialize_extended_keycode(out: &mut Vec<u8>, kind: u8, action: BoundAction)
    ensures
        final(out)@ == old(out)@ + ext_bytes(kind, action),
{
    let keycode = to_via_keycode(KeyBinding::Single(action));
    let word: u16 = if keycode % 256 == 0 {
        0xFF00u16 | (keycode >> 8u16)
    } else {
        keycode
    };
    out.push(1);
    out.push(kind);
    out.push((word & 0xFF) as u8);
    out.push((word >> 8u16) as u8);
    assert(final(out)@ =~= old(out)@ + ext_bytes(kind, action));
}

/// The bytes of the macro sequences with each sequence ended by 0x00 and
/// the end markers inside sequences dropped.
fn fold_to_binary(macro_sequences: &Vec<Vec<MacroOperation>>) -> (r: Vec<u8>)
    ensures
        r@ == spec_fold(macro_sequences@, macro_sequences@.len() as int),
{
    let mut out: Vec<u8> = Vec::new();
    let mut i: usize = 0;
    while i < macro_sequences.len()
        invariant
            i <= macro_sequences@.len(),
            out@ == spec_fold(macro_sequences@, i as int),
        decreases macro_sequences@.len() - i,
    {
        let ops = &macro_sequences[i];
        let ghost before = out@;
        let mut j: usize = 0;
        while j < ops.len()
            invariant
                j <= ops@.len(),
                ops@ == macro_sequences@[i as int]@,
                out@ == before + spec_sequence_bytes(ops@, j as int),
            decreases ops@.len() - j,
        {
            let op = ops[j];
            match op {
                MacroOperation::End => {},
                _ => {
                    serialize_into(&mut out, op);
                },
            }
            proof {
                assert((before + spec_sequence_bytes(ops@, j as int)) + spec_serialize(op) =~= before
                    + (spec_sequence_bytes(ops@, j as int) + spec_serialize(op)));
            }
            j = j + 1;
        }
        out.push(0);
        proof {
            assert(out@ =~= spec_fold(macro_sequences@, i as int) + spec_sequence_bytes(
                macro_sequences@[i as int]@,
                macro_sequences@[i as int]@.len() as int,
            ) + seq![0u8]);
        }
        i = i + 1;
    }
    out
}

/// Serializes macro sequences into the macro space, filled up with zeros.
/// The sequences must fit in the space (they panic otherwise).
pub fn define_macro_sequences(macro_sequences: &Vec<Vec<MacroOperation>>) -> (r: [u8; 256])
    requires
        spec_fold(macro_sequences@, macro_sequences@.len() as int).len() <= MACRO_SPACE_SIZE,
    ensures
        ({
            let bytes = spec_fold(macro_sequences@, macro_sequences@.len() as int);
            &&& forall|i: int| 0 <= i < bytes.len() ==> r@[i] == bytes[i]
            &&& forall|i: int| bytes.len() <= i < MACRO_SPACE_SIZE ==> r@[i] == 0
        }),
{
    let bytes = fold_to_binary(macro_sequences);
    let mut out = [0u8; 256];
    let mut i: usize = 0;
    while i < bytes.len()
        invariant
            i <= bytes@.len(),
            bytes@.len() <= 256,
            forall|k: int| 0 <= k < i ==> out@[k] == bytes@[k],
            forall|k: int| i <= k < 256 ==> out@[k] == 0,
        decreases bytes@.len() - i,
    {
        out[i] = bytes[i];
        i = i + 1;
    }
    out
}

/// Text as a macro sequence: each byte typed as its key.
pub fn to_macro_sequence(text: &str) -> (r: Vec<MacroOperation>)
    ensures
        r@.len() == text.spec_bytes().len(),
        forall|i: int|
            0 <= i < r@.len() ==> r@[i] == MacroOperation::Text(
                ascii_key(text.spec_bytes()[i]).0,
                ascii_key(text.spec_bytes()[i]).1,
            ),
{
    let bytes = <str as vstd::string::StrSliceExecFns>::as_bytes_vec(text);
    let mut out: Vec<MacroOperation> = Vec::new();
    let mut i: usize = 0;
    while i < bytes.len()
        invariant
            i <= bytes@.len(),
            bytes@ == text.spec_bytes(),
            out@.len() == i,
            forall|k: int|
                0 <= k < i ==> out@[k] == MacroOperation::Text(ascii_key(bytes@[k]).0, ascii_key(bytes@[k]).1),
        decreases bytes@.len() - i,
    {
        let (k, shifted) = from_ascii(bytes[i]);
        out.push(MacroOperation::Text(k, shifted));
        i = i + 1;
    }
    out
}


/// Operations whose bytes read back as the same operation: key operations
/// on defined HID keys and extended operations on actions VIA expresses.
/// (A delay is written in a different form than it is read, and a text
/// character goes through the ASCII tables.)
pub open spec fn round_trips(op: MacroOperation) -> bool {
    match op {
        MacroOperation::Tap(k) => spec_hid_key_code(k) == k,
        MacroOperation::Press(k) => spec_hid_key_code(k) == k,
        MacroOperation::Release(k) => spec_hid_key_code(k) == k,
        MacroOperation::TapAction(a) => via_expressible_action(a),
        MacroOperation::PressAction(a) => via_expressible_action(a),
        MacroOperation::ReleaseAction(a) => via_expressible_action(a),
        _ => false,
    }
}

proof fn lemma_escape_round_trip(k: u16)
    requires
        k < 0xFF00,
    ensures
        ({
            let w = escape_keycode(k);
            &&& (((w & 0xFF) as u8) as u16 | ((((w >> 8u16) as u8) as u16) << 8u16)) as u16 == w
            &&& unescape_keycode(w) == k
        }),
{
    assert(k < 0xFF00 ==> ({
        let w = if k % 256 == 0 {
            (0xFF00u16 | (k >> 8u16)) as u16
        } else {
            k
        };
        &&& (((w & 0xFF) as u8) as u16 | ((((w >> 8u16) as u8) as u16) << 8u16)) as u16 == w
        &&& (if w & 0xFF00 == 0xFF00 {
            ((w & 0x00FF) << 8u16) as u16
        } else {
            w
        }) == k
    })) by (bit_vector);
}

/// An operation written into the macro space reads back as itself, and
/// reading moves past exactly its bytes.
pub proof fn lemma_macro_operation_round_trip(seq: Seq<u8>, start: int, offset: int, op: MacroOperation)
    requires
        0 <= start,
        0 <= offset,
        round_trips(op),
        start + offset + spec_serialize(op).len() <= seq.len(),
        seq.subrange(start + offset, start + offset + spec_serialize(op).len()) == spec_serialize(op),
    ensures
        spec_next_operation(seq, start, offset) == (op, offset + spec_serialize(op).len()),
{
    let idx = start + offset;
    let bytes = spec_serialize(op);
    assert(forall|i: int| 0 <= i < bytes.len() ==> seq[idx + i] == bytes[i]) by {
        assert forall|i: int| 0 <= i < bytes.len() implies seq[idx + i] == bytes[i] by {
            assert(seq.subrange(idx, idx + bytes.len())[i] == seq[idx + i]);
        }
    }
    match op {
        MacroOperation::TapAction(a) | MacroOperation::PressAction(a) | MacroOperation::ReleaseAction(a) => {
            let k = spec_to_via(KeyBinding::Single(a));
            lemma_via_encode_decode(KeyBinding::Single(a));
            assert(k < 0xFF00);
            lemma_escape_round_trip(k);
            assert(seq[idx] == 1);
            assert(seq[idx + 2] == bytes[2]);
            assert(seq[idx + 3] == bytes[3]);
        },
        _ => {
            assert(seq[idx] == 1);
            assert(seq[idx + 1] == bytes[1]);
            assert(seq[idx + 2] == bytes[2]);
        },
    }
}

} // verus!
