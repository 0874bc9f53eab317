//! Running a keyboard macro: the steps the keyboard takes for each
//! operation of a macro sequence, in order, with the waits between them.
//! The keyboard performs the steps; the plan is computed here.

use vstd::prelude::*;

use crate::event::KeyboardEvent;
use crate::keyboard_macros::{spec_next_operation, spec_sequence_start, MacroOperation};

verus! {

/// A step of a running macro.
#[derive(Clone, Copy, Debug, PartialEq, Eq, Structural)]
pub enum MacroStep {
    /// Whether a text macro is typing (its reports carry only its own
    /// shift).
    Texting(bool),
    /// Whether the typed character is capital.
    Caps(bool),
    /// Register a key (a modifier or a keycode) for the macro's event.
    RegisterKey(u8),
    UnregisterKey(u8),
    /// Register a keycode for the macro's event.
    RegisterKeycode(u8),
    UnregisterKeycode(u8),
    /// Send a keyboard report, for a press or a release.
    Report(bool),
    /// Wait, in ms.
    Wait(u64),
}

/// The steps of an operation other than `End`: a press or release is
/// reported at once, a tap is held for 2 ms, a character is typed with
/// 12 ms between its reports (and its shift before and after it, for a
/// capital), a delay waits. Extended operations have no steps here.
pub open spec fn op_steps(op: MacroOperation) -> Seq<MacroStep> {
    match op {
        MacroOperation::Press(k) => seq![MacroStep::Texting(false), MacroStep::RegisterKey(k), MacroStep::Report(true)],
        MacroOperation::Release(k) => seq![
            MacroStep::Texting(false),
            MacroStep::UnregisterKey(k),
            MacroStep::Report(false),
        ],
        MacroOperation::Tap(k) => seq![
            MacroStep::Texting(false),
            MacroStep::RegisterKey(k),
            MacroStep::Report(true),
            MacroStep::Wait(2),
            MacroStep::UnregisterKey(k),
            MacroStep::Report(false),
        ],
        MacroOperation::Text(k, cap) => {
            let head: Seq<MacroStep> = if cap {
                seq![MacroStep::Texting(true), MacroStep::Caps(true), MacroStep::Report(true), MacroStep::Wait(12)]
            } else {
                seq![MacroStep::Texting(true), MacroStep::Caps(false)]
            };
            let body: Seq<MacroStep> = seq![
                MacroStep::RegisterKeycode(k),
                MacroStep::Report(true),
                MacroStep::Wait(12),
                MacroStep::UnregisterKeycode(k),
                MacroStep::Report(false),
            ];
            let tail: Seq<MacroStep> = if cap {
                seq![MacroStep::Caps(false), MacroStep::Wait(12), MacroStep::Report(false)]
            } else {
                seq![]
            };
            head + body + tail
        },
        MacroOperation::Delay(t) => seq![MacroStep::Wait(t as u64)],
        _ => seq![],
    }
}

/// Whether a text macro is typing after an operation.
pub open spec fn texting_after(op: MacroOperation, texting: bool) -> bool {
    match op {
        MacroOperation::Press(_) | MacroOperation::Release(_) | MacroOperation::Tap(_) => false,
        MacroOperation::Text(_, _) => true,
        _ => texting,
    }
}

/// The steps of the macro starting at `start` of the macro space `seq`,
/// from operation offset `offset` on: each operation's steps, then 1 ms
/// before the next one, until `End` (which restores the report after
/// typing) or until the offset passes the space.
pub open spec fn run_macro(seq: Seq<u8>, start: int, offset: int, texting: bool) -> Seq<MacroStep>
    decreases seq.len() + 1 - offset,
{
    let (op, next) = spec_next_operation(seq, start, offset);
    if op is End {
        if texting {
            seq![MacroStep::Report(false), MacroStep::Texting(false)]
        } else {
            seq![]
        }
    } else if next > seq.len() {
        op_steps(op)
    } else {
        op_steps(op) + seq![MacroStep::Wait(1)] + run_macro(seq, start, next, texting_after(op, texting))
    }
}

proof fn lemma_start_in_space(seq: Seq<u8>, remaining: int, idx: int)
    requires
        0 <= idx <= seq.len(),
        seq.len() <= usize::MAX,
    ensures
        spec_sequence_start(seq, remaining, idx) matches Some(s) ==> s < seq.len(),
    decreases seq.len() - idx,
{
    if !(remaining == 0 || idx >= seq.len()) {
        lemma_start_in_space(seq, if seq[idx] == 0 {
            remaining - 1
        } else {
            remaining
        }, idx + 1);
    }
}

fn steps_of(op: MacroOperation, out: &mut Vec<MacroStep>)
    ensures
        final(out)@ == old(out)@ + op_steps(op),
{
    let ghost start = out@;
    match op {
        MacroOperation::Press(k) => {
            out.push(MacroStep::Texting(false));
            out.push(MacroStep::RegisterKey(k));
            out.push(MacroStep::Report(true));
        },
        MacroOperation::Release(k) => {
            out.push(MacroStep::Texting(false));
            out.push(MacroStep::UnregisterKey(k));
            out.push(MacroStep::Report(false));
        },
        MacroOperation::Tap(k) => {
            out.push(MacroStep::Texting(false));
            out.push(MacroStep::RegisterKey(k));
            out.push(MacroStep::Report(true));
            out.push(MacroStep::Wait(2));
            out.push(MacroStep::UnregisterKey(k));
            out.push(MacroStep::Report(false));
        },
        MacroOperation::Text(k, cap) => {
            out.push(MacroStep::Texting(true));
            out.push(MacroStep::Caps(cap));
            if cap {
                out.push(MacroStep::Report(true));
                out.push(MacroStep::Wait(12));
            }
            out.push(MacroStep::RegisterKeycode(k));
            out.push(MacroStep::Report(true));
            out.push(MacroStep::Wait(12));
            out.push(MacroStep::UnregisterKeycode(k));
            out.push(MacroStep::Report(false));
            if cap {
                out.push(MacroStep::Caps(false));
                out.push(MacroStep::Wait(12));
                out.push(MacroStep::Report(false));
            }
        },
        MacroOperation::Delay(t) => {
            out.push(MacroStep::Wait(t as u64));
        },
        _ => {},
    }
    assert(out@ =~= start + op_steps(op));
}

/// The steps of macro `macro_idx` for a key event: a macro runs on the
/// release of its key, from its start in the macro space to its end.
/// `texting` says whether a text macro was typing before.
pub fn execute_macro(macro_sequences: &[u8], macro_idx: u8, event: KeyboardEvent, texting: bool) -> (r: Vec<MacroStep>)
    requires
        2 * macro_sequences@.len() + 4 <= usize::MAX,
    ensures
        r@ == (if event.pressed {
            Seq::<MacroStep>::empty()
        } else {
            match spec_sequence_start(macro_sequences@, macro_idx as int, 0) {
                Some(s) => run_macro(macro_sequences@, s as int, 0, texting),
                None => Seq::<MacroStep>::empty(),
            }
        }),
{
    let mut out: Vec<MacroStep> = Vec::new();
    if event.pressed {
        return out;
    }
    let start = match MacroOperation::get_macro_sequence_start(macro_sequences, macro_idx) {
        Some(s) => s,
        None => {
            return out;
        },
    };
    proof {
        lemma_start_in_space(macro_sequences@, macro_idx as int, 0);
    }
    let len = macro_sequences.len();
    let mut offset: usize = 0;
    let mut typing = texting;
    loop
        invariant_except_break
            out@ + run_macro(macro_sequences@, start as int, offset as int, typing) == run_macro(
                macro_sequences@,
                start as int,
                0,
                texting,
            ),
        invariant
            len == macro_sequences@.len(),
            2 * len + 4 <= usize::MAX,
            start < len,
            offset <= len,
        ensures
            out@ == run_macro(macro_sequences@, start as int, 0, texting),
        decreases len + 1 - offset,
    {
        let (op, next) = MacroOperation::get_next_macro_operation(macro_sequences, start, offset);
        let ghost before = out@;
        let ghost t0 = typing;
        let ghost off0 = offset as int;
        if let MacroOperation::End = op {
            if typing {
                out.push(MacroStep::Report(false));
                out.push(MacroStep::Texting(false));
            }
            assert(out@ =~= before + run_macro(macro_sequences@, start as int, off0, t0));
            break;
        }
        assert(next > offset);
        steps_of(op, &mut out);
        typing = match op {
            MacroOperation::Press(_) | MacroOperation::Release(_) | MacroOperation::Tap(_) => false,
            MacroOperation::Text(_, _) => true,
            _ => typing,
        };
        if next > len {
            assert(out@ =~= before + run_macro(macro_sequences@, start as int, off0, t0));
            break;
        }
        out.push(MacroStep::Wait(1));
        offset = next;
        assert(out@ + run_macro(macro_sequences@, start as int, offset as int, typing) =~= before + run_macro(
            macro_sequences@,
            start as int,
            off0,
            t0,
        ));
    }
    out
}

} // verus!
