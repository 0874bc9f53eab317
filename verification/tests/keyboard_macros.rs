use rmk::action::BoundAction;
use rmk::keyboard_macros::{define_macro_sequences, to_macro_sequence, MacroOperation, MACRO_SPACE_SIZE};
use rmk_types::keycode::HidKeyCode;
#[test]
fn test_define_one_macro_sequence_manual() {
    let macro_sequences = &[Vec::from([
        MacroOperation::Press(HidKeyCode::LShift as u8),
        MacroOperation::Tap(HidKeyCode::P as u8),
        MacroOperation::Release(HidKeyCode::LShift as u8),
        MacroOperation::Tap(HidKeyCode::A as u8),
        MacroOperation::Tap(HidKeyCode::T as u8),
    ])
    ];
    let macro_sequences_binary = define_macro_sequences(&macro_sequences.to_vec());
    // let result = [0b 0000 0000 0100 1000]
    let result: [u8; 16] = [
        0x01, 0x02, 0xE1, 0x01, 0x01, 0x13, 0x01, 0x03, 0xE1, 0x01, 0x01, 0x4, 0x01, 0x01, 0x17, 0x00,
    ];
    let mut result_filled = [0; MACRO_SPACE_SIZE];
    for (i, element) in result.into_iter().enumerate() {
        result_filled[i] = element
    }
    assert_eq!(macro_sequences_binary, result_filled);
}
#[test]
fn test_define_two_macro_sequence_manual() {
    let macro_sequences_terminated_uneccessarily = [
        Vec::from([
            MacroOperation::Text(HidKeyCode::H as u8, true),
            MacroOperation::Text(HidKeyCode::I as u8, false),
        ])
        ,
        Vec::from([
            MacroOperation::Press(HidKeyCode::LShift as u8),
            MacroOperation::Tap(HidKeyCode::P as u8),
            MacroOperation::Release(HidKeyCode::LShift as u8),
            MacroOperation::Tap(HidKeyCode::A as u8),
            MacroOperation::Tap(HidKeyCode::T as u8),
        ])
        ,
    ];
    let macro_sequences_binary = define_macro_sequences(&macro_sequences_terminated_uneccessarily.to_vec());
    let result: [u8; 19] = [
        0x48, 0x69, 0x00, 0x01, 0x02, 0xE1, 0x01, 0x01, 0x13, 0x01, 0x03, 0xE1, 0x01, 0x01, 0x4, 0x01, 0x01, 0x17,
        0x00,
    ];
    let mut result_filled = [0; MACRO_SPACE_SIZE];
    for (i, element) in result.into_iter().enumerate() {
        result_filled[i] = element
    }
    assert_eq!(macro_sequences_binary, result_filled);
}

#[test]
fn test_define_macro_sequences_clean() {
    let macro_sequences_clean = [
        Vec::from([
            MacroOperation::Press(HidKeyCode::LShift as u8),
            MacroOperation::Tap(HidKeyCode::H as u8),
            MacroOperation::Release(HidKeyCode::LShift as u8),
            MacroOperation::Tap(HidKeyCode::E as u8),
            MacroOperation::Tap(HidKeyCode::L as u8),
            MacroOperation::Tap(HidKeyCode::L as u8),
            MacroOperation::Tap(HidKeyCode::O as u8),
        ])
        ,
        Vec::from([
            MacroOperation::Tap(HidKeyCode::W as u8),
            MacroOperation::Tap(HidKeyCode::O as u8),
            MacroOperation::Tap(HidKeyCode::R as u8),
            MacroOperation::Tap(HidKeyCode::L as u8),
            MacroOperation::Tap(HidKeyCode::D as u8),
        ])
        ,
        Vec::from([
            MacroOperation::Press(HidKeyCode::LShift as u8),
            MacroOperation::Tap(HidKeyCode::Kc2 as u8),
            MacroOperation::Release(HidKeyCode::LShift as u8),
        ])
        ,
    ];
    let macro_sequences_binary = define_macro_sequences(&macro_sequences_clean.to_vec());
    let result: [u8; 48] = [
        1, 2, 225, 1, 1, 11, 1, 3, 225, 1, 1, 8, 1, 1, 15, 1, 1, 15, 1, 1, 18, 0, 1, 1, 26, 1, 1, 18, 1, 1, 21, 1,
        1, 15, 1, 1, 7, 0, 1, 2, 225, 1, 1, 31, 1, 3, 225, 0,
    ];
    let mut result_filled = [0; MACRO_SPACE_SIZE];
    for (i, element) in result.into_iter().enumerate() {
        result_filled[i] = element
    }
    assert_eq!(macro_sequences_binary, result_filled);
}

#[test]
fn test_define_macro_sequences_uneccessarily_terminated() {
    let macro_sequences_terminated_uneccessarily = [
        Vec::from([
            MacroOperation::Press(HidKeyCode::LShift as u8),
            MacroOperation::Tap(HidKeyCode::H as u8),
            MacroOperation::Release(HidKeyCode::LShift as u8),
            MacroOperation::Tap(HidKeyCode::E as u8),
            MacroOperation::Tap(HidKeyCode::L as u8),
            MacroOperation::Tap(HidKeyCode::L as u8),
            MacroOperation::Tap(HidKeyCode::O as u8),
            MacroOperation::End,
        ])
        ,
        Vec::from([
            MacroOperation::Tap(HidKeyCode::W as u8),
            MacroOperation::Tap(HidKeyCode::O as u8),
            MacroOperation::Tap(HidKeyCode::R as u8),
            MacroOperation::Tap(HidKeyCode::L as u8),
            MacroOperation::End,
        ])
        ,
        Vec::from([
            MacroOperation::Press(HidKeyCode::LShift as u8),
            MacroOperation::Tap(HidKeyCode::Kc2 as u8),
            MacroOperation::Release(HidKeyCode::LShift as u8),
            MacroOperation::End,
        ])
        ,
    ];
    let macro_sequences_binary = define_macro_sequences(&macro_sequences_terminated_uneccessarily.to_vec());
    let result: [u8; 45] = [
        1, 2, 225, 1, 1, 11, 1, 3, 225, 1, 1, 8, 1, 1, 15, 1, 1, 15, 1, 1, 18, 0, 1, 1, 26, 1, 1, 18, 1, 1, 21, 1,
        1, 15, 0, 1, 2, 225, 1, 1, 31, 1, 3, 225, 0,
    ];
    let mut result_filled = [0; MACRO_SPACE_SIZE];
    for (i, element) in result.into_iter().enumerate() {
        result_filled[i] = element
    }
    assert_eq!(macro_sequences_binary, result_filled);
}

#[test]
fn test_define_macro_sequences_random_end_markers() {
    let macro_sequences_random_end_markers = [
        Vec::from([
            MacroOperation::Press(HidKeyCode::LShift as u8),
            MacroOperation::Tap(HidKeyCode::H as u8),
            MacroOperation::End,
            MacroOperation::Release(HidKeyCode::LShift as u8),
            MacroOperation::Tap(HidKeyCode::E as u8),
            MacroOperation::End,
            MacroOperation::End,
            MacroOperation::Tap(HidKeyCode::L as u8),
            MacroOperation::End,
            MacroOperation::Tap(HidKeyCode::L as u8),
            MacroOperation::Tap(HidKeyCode::O as u8),
            MacroOperation::End,
        ])
        ,
        Vec::from([
            MacroOperation::Tap(HidKeyCode::W as u8),
            MacroOperation::Tap(HidKeyCode::O as u8),
            MacroOperation::End,
            MacroOperation::End,
            MacroOperation::End,
            MacroOperation::End,
            MacroOperation::Tap(HidKeyCode::R as u8),
            MacroOperation::Tap(HidKeyCode::L as u8),
        ])
        ,
        Vec::from([
            MacroOperation::Press(HidKeyCode::LShift as u8),
            MacroOperation::Tap(HidKeyCode::Kc2 as u8),
            MacroOperation::Release(HidKeyCode::LShift as u8),
            MacroOperation::End,
            MacroOperation::End,
            MacroOperation::End,
            MacroOperation::End,
            MacroOperation::End,
        ])
        ,
    ];
    let macro_sequences_binary = define_macro_sequences(&macro_sequences_random_end_markers.to_vec());
    let result: [u8; 45] = [
        1, 2, 225, 1, 1, 11, 1, 3, 225, 1, 1, 8, 1, 1, 15, 1, 1, 15, 1, 1, 18, 0, 1, 1, 26, 1, 1, 18, 1, 1, 21, 1,
        1, 15, 0, 1, 2, 225, 1, 1, 31, 1, 3, 225, 0,
    ];
    let mut result_filled = [0; MACRO_SPACE_SIZE];
    for (i, element) in result.into_iter().enumerate() {
        result_filled[i] = element
    }
    assert_eq!(macro_sequences_binary, result_filled);
}

/// Build a macro buffer from raw Vial wire bytes.
fn wire(bytes: &[u8]) -> [u8; MACRO_SPACE_SIZE] {
    let mut seq = [0u8; MACRO_SPACE_SIZE];
    seq[..bytes.len()].copy_from_slice(bytes);
    seq
}

// M0: TAP(BT0) -> Delay(100ms) -> TAP(PDF0), using the reconstructed wire vectors.
#[test]
fn test_parse_extended_macro_m0() {
    let seq = wire(&[
        0x01, 0x05, 0x7E, 0xFF, // TAP(BT0): USER00 = 0x7E00, zero-byte escaped
        0x01, 0x04, 0x65, 0x01, // Delay 100ms
        0x01, 0x05, 0xE0, 0x52, // TAP(PDF0): 0x52E0
        0x00, // End
    ]);
    let start = MacroOperation::get_macro_sequence_start(&seq, 0).unwrap();

    let (op, off) = MacroOperation::get_next_macro_operation(&seq, start, 0);
    assert!(matches!(op, MacroOperation::TapAction(BoundAction::User(0))));
    let (op, off) = MacroOperation::get_next_macro_operation(&seq, start, off);
    assert!(matches!(op, MacroOperation::Delay(100)));
    let (op, off) = MacroOperation::get_next_macro_operation(&seq, start, off);
    assert!(matches!(
        op,
        MacroOperation::TapAction(BoundAction::PersistentDefaultLayer(0))
    ));
    let (op, _) = MacroOperation::get_next_macro_operation(&seq, start, off);
    assert!(matches!(op, MacroOperation::End));
}

// M1: TAP(BT1) -> Delay(100ms) -> TAP(PDF1); BT1 has a non-zero low byte (no escape).
#[test]
fn test_parse_extended_macro_m1() {
    let seq = wire(&[
        0x01, 0x05, 0x01, 0x7E, // TAP(BT1): USER01 = 0x7E01, little-endian
        0x01, 0x04, 0x65, 0x01, // Delay 100ms
        0x01, 0x05, 0xE1, 0x52, // TAP(PDF1): 0x52E1
        0x00,
    ]);
    let start = MacroOperation::get_macro_sequence_start(&seq, 0).unwrap();

    let (op, off) = MacroOperation::get_next_macro_operation(&seq, start, 0);
    assert!(matches!(op, MacroOperation::TapAction(BoundAction::User(1))));
    let (op, off) = MacroOperation::get_next_macro_operation(&seq, start, off);
    assert!(matches!(op, MacroOperation::Delay(100)));
    let (op, _) = MacroOperation::get_next_macro_operation(&seq, start, off);
    assert!(matches!(
        op,
        MacroOperation::TapAction(BoundAction::PersistentDefaultLayer(1))
    ));
}

// EXT KEY DOWN / UP (0x01 06 / 0x01 07) decode into Press/ReleaseAction.
#[test]
fn test_parse_extended_macro_down_up() {
    let seq = wire(&[0x01, 0x06, 0x7E, 0xFF, 0x01, 0x07, 0x7E, 0xFF, 0x00]);
    let start = MacroOperation::get_macro_sequence_start(&seq, 0).unwrap();

    let (op, off) = MacroOperation::get_next_macro_operation(&seq, start, 0);
    assert!(matches!(op, MacroOperation::PressAction(BoundAction::User(0))));
    let (op, _) = MacroOperation::get_next_macro_operation(&seq, start, off);
    assert!(matches!(op, MacroOperation::ReleaseAction(BoundAction::User(0))));
}

// Serializing the decoded actions reproduces the exact wire bytes, including the
// 0x7E00 -> `7E FF` zero-byte escape. (Delay is excluded here: its serializer uses a
// different, pre-existing encoding than the parser.)
#[test]
fn test_serialize_extended_macro_keycodes() {
    let sequences = [Vec::from([
        MacroOperation::TapAction(BoundAction::User(0)),
        MacroOperation::TapAction(BoundAction::PersistentDefaultLayer(0)),
    ])
    ];
    let binary = define_macro_sequences(&sequences.to_vec());
    let expected = [0x01, 0x05, 0x7E, 0xFF, 0x01, 0x05, 0xE0, 0x52, 0x00];
    assert_eq!(&binary[..expected.len()], &expected);
}

// A buffer that ends in the middle of an EXT command must terminate safely, without
// panicking or reading out of bounds.
#[test]
fn test_parse_extended_macro_truncated_is_safe() {
    let mut seq = [0u8; MACRO_SPACE_SIZE];
    // "01 05" right at the end: the two payload bytes are out of range.
    seq[MACRO_SPACE_SIZE - 2] = 0x01;
    seq[MACRO_SPACE_SIZE - 1] = 0x05;
    let (op, _) = MacroOperation::get_next_macro_operation(&seq, MACRO_SPACE_SIZE - 2, 0);
    assert!(matches!(op, MacroOperation::End));
}

#[test]
fn macro_text_sequence_from_str() {
    let seq = to_macro_sequence("Hi!");
    assert_eq!(
        seq,
        vec![
            MacroOperation::Text(HidKeyCode::H as u8, true),
            MacroOperation::Text(HidKeyCode::I as u8, false),
            MacroOperation::Text(HidKeyCode::Kc1 as u8, true),
        ]
    );
    let binary = define_macro_sequences(&vec![seq]);
    assert_eq!(&binary[..4], b"Hi!\0");
}

#[test]
fn macro_sequence_start_counts_end_markers() {
    let seq = [0x61, 0x00, 0x62, 0x63, 0x00, 0x64, 0x00, 0x00];
    assert_eq!(MacroOperation::get_macro_sequence_start(&seq, 0), Some(0));
    assert_eq!(MacroOperation::get_macro_sequence_start(&seq, 1), Some(2));
    assert_eq!(MacroOperation::get_macro_sequence_start(&seq, 2), Some(5));
    assert_eq!(MacroOperation::get_macro_sequence_start(&seq, 4), None);
}

#[test]
fn macro_written_operations_read_back() {
    let ops = vec![
        MacroOperation::Press(HidKeyCode::LShift as u8),
        MacroOperation::Tap(HidKeyCode::P as u8),
        MacroOperation::ReleaseAction(BoundAction::LayerOn(2)),
        MacroOperation::Release(HidKeyCode::LShift as u8),
    ];
    let binary = define_macro_sequences(&vec![ops.clone()]);
    let mut off = 0;
    for op in ops {
        let (read, next) = MacroOperation::get_next_macro_operation(&binary, 0, off);
        assert_eq!(read, op);
        off = next;
    }
    assert_eq!(MacroOperation::get_next_macro_operation(&binary, 0, off).0, MacroOperation::End);
}

#[test]
fn macro_delay_reads_from_one_based_bytes() {
    let seq = [0x01, 0x04, 0x01, 0x03, 0x00];
    assert_eq!(
        MacroOperation::get_next_macro_operation(&seq, 0, 0),
        (MacroOperation::Delay(510), 4)
    );
    // An operation cut off by the end of the space reads as the end.
    let seq = [0x01, 0x01];
    assert_eq!(MacroOperation::get_next_macro_operation(&seq, 0, 0), (MacroOperation::End, 3));
}
