use rmk::event::KeyboardEvent;
use rmk::macro_runner::{execute_macro, MacroStep};

fn release() -> KeyboardEvent {
    KeyboardEvent::key(1, 1, false)
}

#[test]
fn macro_runs_on_release_only() {
    let space = [1u8, 1, 0x04, 0, 0];
    assert!(execute_macro(&space, 0, KeyboardEvent::key(1, 1, true), false).is_empty());
    assert!(!execute_macro(&space, 0, release(), false).is_empty());
}

#[test]
fn macro_press_tap_release_steps() {
    // shift down, tap `a`, shift up
    let space = [1u8, 2, 0xE1, 1, 1, 0x04, 1, 3, 0xE1, 0, 0, 0];
    let steps = execute_macro(&space, 0, release(), false);
    assert_eq!(
        steps,
        vec![
            MacroStep::Texting(false),
            MacroStep::RegisterKey(0xE1),
            MacroStep::Report(true),
            MacroStep::Wait(1),
            MacroStep::Texting(false),
            MacroStep::RegisterKey(0x04),
            MacroStep::Report(true),
            MacroStep::Wait(2),
            MacroStep::UnregisterKey(0x04),
            MacroStep::Report(false),
            MacroStep::Wait(1),
            MacroStep::Texting(false),
            MacroStep::UnregisterKey(0xE1),
            MacroStep::Report(false),
            MacroStep::Wait(1),
        ]
    );
}

#[test]
fn macro_text_and_delay_steps() {
    // macro 1: "aB", then a 10 ms delay (bytes 11, 1)
    let space = [0u8, b'a', b'B', 1, 4, 11, 1, 0, 0];
    let steps = execute_macro(&space, 1, release(), false);
    assert_eq!(
        steps,
        vec![
            MacroStep::Texting(true),
            MacroStep::Caps(false),
            MacroStep::RegisterKeycode(0x04),
            MacroStep::Report(true),
            MacroStep::Wait(12),
            MacroStep::UnregisterKeycode(0x04),
            MacroStep::Report(false),
            MacroStep::Wait(1),
            MacroStep::Texting(true),
            MacroStep::Caps(true),
            MacroStep::Report(true),
            MacroStep::Wait(12),
            MacroStep::RegisterKeycode(0x05),
            MacroStep::Report(true),
            MacroStep::Wait(12),
            MacroStep::UnregisterKeycode(0x05),
            MacroStep::Report(false),
            MacroStep::Caps(false),
            MacroStep::Wait(12),
            MacroStep::Report(false),
            MacroStep::Wait(1),
            MacroStep::Wait(10),
            MacroStep::Wait(1),
            // typing ended: restore the report
            MacroStep::Report(false),
            MacroStep::Texting(false),
        ]
    );
}

#[test]
fn macro_missing_is_empty() {
    let space = [1u8, 1, 0x04, 0, 0];
    assert!(execute_macro(&space, 5, release(), false).is_empty());
}
