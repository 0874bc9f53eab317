use rmk::action::{BoundAction, KeyBinding};
use rmk::keycode::KeyUsage;
use rmk::via::{reverse_matrix_rows, write_keycode, write_keymap_buffer, ViaReport, ViaRequest, VialService};

fn service() -> VialService {
    VialService::new(vec![(0, 0)])
}

fn report(output_data: [u8; 32]) -> ViaReport {
    // The caller seeds `input_data` with a copy of `output_data`.
    ViaReport { input_data: output_data, output_data }
}

/// A `DynamicKeymapMacroSetBuffer` (0x0F) report with `offset = 0` and the
/// given payload `size` byte.
fn macro_set_buffer_report(size: u8) -> ViaReport {
    let mut output_data = [0u8; 32];
    output_data[0] = 0x0F; // DynamicKeymapMacroSetBuffer
    output_data[3] = size;
    report(output_data)
}

// size == 28 is the largest payload that fits (writes output_data[4..32]).
#[test]
fn macro_set_buffer_max_size_ok() {
    let service = service();
    let mut report = macro_set_buffer_report(28);
    let request = service.process_via_packet(&mut report);
    assert!(matches!(request, ViaRequest::SetMacroBuffer(0, 28, true)));
    assert_eq!(report.input_data[0], 0x0F);
}

// size == 29 would read past the packet: rejected with 0xFF.
#[test]
fn macro_set_buffer_oversize_rejected() {
    let service = service();
    let mut report = macro_set_buffer_report(29);
    let request = service.process_via_packet(&mut report);
    assert!(matches!(request, ViaRequest::Done));
    assert_eq!(report.input_data[0], 0xFF);
}

#[test]
fn via_protocol_version_reply() {
    let mut out = [0u8; 32];
    out[0] = 0x01;
    let mut r = report(out);
    assert!(matches!(service().process_via_packet(&mut r), ViaRequest::Done));
    assert_eq!(&r.input_data[..3], &[0x01, 0x00, 0x09]);
}

#[test]
fn via_keyboard_values() {
    let mut out = [0u8; 32];
    out[0] = 0x02;
    out[1] = 0x04; // firmware version
    let mut r = report(out);
    service().process_via_packet(&mut r);
    assert_eq!(&r.input_data[2..6], &[0, 0, 0, 1]);

    out[1] = 0x01; // uptime: from the context
    let mut r = report(out);
    assert!(matches!(service().process_via_packet(&mut r), ViaRequest::Uptime));

    out[0] = 0x03;
    out[1] = 0x02; // set layout options
    out[2..6].copy_from_slice(&[0x12, 0x34, 0x56, 0x78]);
    let mut r = report(out);
    assert!(matches!(
        service().process_via_packet(&mut r),
        ViaRequest::SetLayoutOptions(0x1234_5678)
    ));
}

#[test]
fn via_set_and_get_keycode() {
    let mut out = [0u8; 32];
    out[..6].copy_from_slice(&[0x05, 1, 2, 3, 0x52, 0x23]);
    let mut r = report(out);
    match service().process_via_packet(&mut r) {
        ViaRequest::SetKeyCode(1, 2, 3, b) => {
            assert_eq!(b, KeyBinding::Single(BoundAction::LayerOn(3)));
            // Reading it back replies with the same keycode.
            let mut get = [0u8; 32];
            get[..4].copy_from_slice(&[0x04, 1, 2, 3]);
            let mut g = report(get);
            assert!(matches!(service().process_via_packet(&mut g), ViaRequest::GetKeyCode(1, 2, 3)));
            write_keycode(&mut g, b);
            assert_eq!(&g.input_data[4..6], &[0x52, 0x23]);
        }
        other => panic!("unexpected request {:?}", other),
    }
}

#[test]
fn via_keymap_buffers() {
    let mut out = [0u8; 32];
    out[..4].copy_from_slice(&[0x13, 0x00, 0x06, 2]);
    out[4..8].copy_from_slice(&[0x04, 0x00, 0x23, 0x52]); // little-endian keycodes
    let mut r = report(out);
    match service().process_via_packet(&mut r) {
        ViaRequest::SetKeymapBuffer(6, bindings) => assert_eq!(
            bindings,
            vec![
                KeyBinding::Single(BoundAction::Key(KeyUsage::Hid(4))),
                KeyBinding::Single(BoundAction::LayerOn(3)),
            ]
        ),
        other => panic!("unexpected request {:?}", other),
    }

    let mut get = [0u8; 32];
    get[..4].copy_from_slice(&[0x12, 0x00, 0x08, 4]);
    let mut g = report(get);
    assert!(matches!(service().process_via_packet(&mut g), ViaRequest::GetKeymapBuffer(4, 2)));
    write_keymap_buffer(
        &mut g,
        &vec![KeyBinding::Transparent, KeyBinding::Single(BoundAction::LayerOn(3))],
    );
    assert_eq!(&g.input_data[4..8], &[0x00, 0x01, 0x52, 0x23]);
}

#[test]
fn via_macro_buffer_size_and_unknown_command() {
    let mut out = [0u8; 32];
    out[0] = 0x0D;
    let mut r = report(out);
    service().process_via_packet(&mut r);
    assert_eq!(&r.input_data[1..3], &[0x01, 0x00]);

    out[0] = 0x42;
    let mut r = report(out);
    assert!(matches!(service().process_via_packet(&mut r), ViaRequest::Done));
    assert_eq!(r.input_data[0], 0xFF);
}

#[test]
fn matrix_rows_are_reversed_per_row() {
    // 3 rows of 12 columns: 2 bytes a row.
    let mut bitmap = [1, 2, 3, 4, 5, 6, 7, 8];
    reverse_matrix_rows(&mut bitmap, 3, 12);
    assert_eq!(bitmap, [2, 1, 4, 3, 6, 5, 7, 8]);
    // One byte a row: unchanged.
    let mut bitmap = [1, 2, 3];
    reverse_matrix_rows(&mut bitmap, 3, 8);
    assert_eq!(bitmap, [1, 2, 3]);
}
