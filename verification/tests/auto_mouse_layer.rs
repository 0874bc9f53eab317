use rmk::auto_mouse_layer::{
    assert_action_event_subscriber_available, classify_action, is_cursor_motion, keypress_step, layer_shared_with_other,
    layer_still_held, match_entry, pointing_step, timeout_step, ActionKind, AutoMouseLayerConfig, EntryState,
    PointingOutcome, ACTION_EVENT_SUB_SIZE,
};
use rmk::event::{Axis, AxisEvent, AxisValType, PointingEvent};
use rmk::keycode::{key_code, KeyUsage};
use rmk_types::action::Action as RAction;
use rmk_types::keycode::{ConsumerKey, HidKeyCode, KeyCode as RKeyCode, SpecialKey, SystemControlKey};
use rmk_types::modifier::ModifierCombination;


fn axis(axis: Axis, value: i16) -> AxisEvent {
    AxisEvent {
        typ: AxisValType::Rel,
        axis,
        value,
    }
}

fn abs_axis(axis: Axis, value: i16) -> AxisEvent {
    AxisEvent {
        typ: AxisValType::Abs,
        axis,
        value,
    }
}

fn event(axes: [AxisEvent; 3]) -> PointingEvent {
    event_for(0, axes)
}

fn event_for(device_id: u8, axes: [AxisEvent; 3]) -> PointingEvent {
    PointingEvent { device_id, axes }
}

fn entry(device_id: Option<u8>) -> EntryState {
    EntryState {
        config: AutoMouseLayerConfig {
            device_id,
            target_layer: 0,
            timeout_ms: 100,
            threshold: 1,
            deactivate_on_key: false,
            extra_mouse_keys: &[],
            reset_timeout_on_key: false,
        },
        self_activated: false,
        deadline: None,
        overlap_warned: false,
    }
}

#[test]
fn action_event_subs_is_zero_without_keyboard_toml() {
    // rmk's own test build has no keyboard.toml, so ActionEvent gets no
    // subscriber slot; the startup assert must catch configured opt-ins.
    assert_eq!(ACTION_EVENT_SUB_SIZE, 0);
}

#[test]
fn guard_allows_when_options_not_configured() {
    assert_action_event_subscriber_available(false);
}

#[test]
fn is_cursor_motion_detects_x_or_y() {
    let zero = axis(Axis::Z, 0);
    assert!(is_cursor_motion(&event([axis(Axis::X, 5), zero, zero]), 1u16));
    assert!(is_cursor_motion(&event([zero, axis(Axis::Y, -3), zero]), 1u16));
}

#[test]
fn is_cursor_motion_ignores_scroll_axes() {
    let zero = axis(Axis::X, 0);
    assert!(!is_cursor_motion(&event([zero, zero, axis(Axis::Z, 100)]), 1u16));
    assert!(!is_cursor_motion(&event([zero, zero, axis(Axis::V, 100)]), 1u16));
    assert!(!is_cursor_motion(&event([zero, zero, axis(Axis::H, 100)]), 1u16));
}

#[test]
fn is_cursor_motion_applies_threshold() {
    let zero = axis(Axis::Y, 0);
    assert!(!is_cursor_motion(&event([axis(Axis::X, 2), zero, zero]), 3u16));
    assert!(is_cursor_motion(&event([axis(Axis::X, 3), zero, zero]), 3u16));
}

#[test]
fn is_cursor_motion_detects_when_both_x_and_y_present() {
    // X and Y in the same event are checked independently; either one
    // crossing the threshold triggers motion.
    let zero_z = axis(Axis::Z, 0);
    assert!(is_cursor_motion(
        &event([axis(Axis::X, 4), axis(Axis::Y, 7), zero_z]),
        3u16
    ));
    // Sub-threshold X paired with above-threshold Y still triggers.
    assert!(is_cursor_motion(
        &event([axis(Axis::X, 1), axis(Axis::Y, 5), zero_z]),
        3u16
    ));
    // Both sub-threshold: deltas are NOT summed, so no motion.
    assert!(!is_cursor_motion(
        &event([axis(Axis::X, 2), axis(Axis::Y, 2), zero_z]),
        3u16
    ));
}

#[test]
fn is_cursor_motion_ignores_absolute_component_when_mixed_with_relative() {
    // Above-threshold Abs X must not trigger even when paired with a
    // sub-threshold Rel Y: only Rel deltas count.
    let zero_z = axis(Axis::Z, 0);
    assert!(!is_cursor_motion(
        &event([abs_axis(Axis::X, i16::MAX), axis(Axis::Y, 1), zero_z]),
        3u16
    ));
    // ... but an above-threshold Rel Y in the same event does trigger.
    assert!(is_cursor_motion(
        &event([abs_axis(Axis::X, i16::MAX), axis(Axis::Y, 5), zero_z]),
        3u16
    ));
}

#[test]
fn is_cursor_motion_ignores_absolute_axes() {
    // A joystick reporting an off-centre position via absolute X/Y must not
    // be treated as motion — otherwise the layer would stick on forever
    // while the stick is held.
    let zero = axis(Axis::Y, 0);
    assert!(!is_cursor_motion(
        &event([abs_axis(Axis::X, i16::MAX), zero, zero]),
        1u16
    ));
    assert!(!is_cursor_motion(&event([zero, abs_axis(Axis::Y, -32000), zero]), 1u16));
}

#[test]
fn match_entry_prefers_exact_device_id() {
    // Order intentionally puts the fallback first to confirm the exact
    // match wins regardless of position.
    let entries = vec![entry(None), entry(Some(1)), entry(Some(2))];
    assert_eq!(match_entry(&entries, 1), Some(1));
    assert_eq!(match_entry(&entries, 2), Some(2));
}

#[test]
fn match_entry_falls_back_to_no_device_id() {
    let entries = vec![entry(Some(1)), entry(None), entry(Some(2))];
    // device_id 7 is configured nowhere → fallback entry (index 1).
    assert_eq!(match_entry(&entries, 7), Some(1));
}

#[test]
fn match_entry_returns_none_when_no_match_and_no_fallback() {
    let entries = vec![entry(Some(1)), entry(Some(2))];
    assert_eq!(match_entry(&entries, 7), None);
}

fn active_entry(device_id: Option<u8>, target_layer: u8) -> EntryState {
    let mut e = entry(device_id);
    e.config.target_layer = target_layer;
    e.self_activated = true;
    e
}

#[test]
fn layer_still_held_true_when_any_entry_self_holds_the_layer() {
    let entries = vec![active_entry(Some(1), 3), entry(Some(2))];
    assert!(layer_still_held(&entries, 3));
}

#[test]
fn layer_still_held_false_when_no_entry_active_on_that_layer() {
    let entries = vec![entry(Some(1)), active_entry(Some(2), 5)];
    assert!(!layer_still_held(&entries, 3));
}

#[test]
fn layer_still_held_ignores_entries_not_self_activated() {
    let mut e = entry(Some(1));
    e.config.target_layer = 2;
    assert!(!layer_still_held(&vec![e], 2));
}

#[test]
fn layer_shared_with_other_true_when_another_self_activated_entry_holds_same_layer() {
    let entries = vec![active_entry(Some(1), 2), active_entry(Some(2), 2)];
    assert!(layer_shared_with_other(&entries, 0, 2));
}

#[test]
fn layer_shared_with_other_excludes_self_index() {
    let entries = vec![active_entry(Some(1), 2), entry(Some(2))];
    assert!(!layer_shared_with_other(&entries, 0, 2));
}

#[test]
fn layer_shared_with_other_ignores_other_layers() {
    let entries = vec![active_entry(Some(1), 2), active_entry(Some(2), 5)];
    assert!(!layer_shared_with_other(&entries, 0, 2));
}

#[test]
fn event_for_carries_device_id() {
    // Smoke test confirming the test helper does what later integration
    // tests would rely on.
    let zero = axis(Axis::Z, 0);
    let e = event_for(3, [axis(Axis::X, 5), axis(Axis::Y, 0), zero]);
    assert_eq!(e.device_id, 3);
    assert!(is_cursor_motion(&e, 1));
}

fn at(millis: u64) -> u64 {
    millis
}

fn entry_with_layer(device_id: Option<u8>, target_layer: u8) -> EntryState {
    let mut e = entry(device_id);
    e.config.target_layer = target_layer;
    e
}

#[test]
fn timeout_step_releases_layer_when_last_holder_expires() {
    let mut entries = vec![entry_with_layer(Some(1), 3)];
    entries[0].self_activated = true;
    entries[0].deadline = Some(at(100));

    let released = timeout_step(&mut entries, at(150));

    assert_eq!(released.to_vec().as_slice(), &[3]);
    assert!(!entries[0].self_activated);
    assert!(entries[0].deadline.is_none());
}

#[test]
fn timeout_step_keeps_shared_layer_alive_while_a_sibling_still_holds_it() {
    let mut entries = vec![entry_with_layer(Some(1), 2), entry_with_layer(Some(2), 2)];
    entries[0].self_activated = true;
    entries[0].deadline = Some(at(50));
    entries[1].self_activated = true;
    entries[1].deadline = Some(at(500));

    let released = timeout_step(&mut entries, at(100));

    assert!(released.to_vec().is_empty());
    assert!(!entries[0].self_activated);
    assert!(entries[0].deadline.is_none());
    assert!(entries[1].self_activated);
    assert_eq!(entries[1].deadline, Some(at(500)));
}

#[test]
fn timeout_step_releases_shared_layer_when_all_holders_expire_simultaneously() {
    let mut entries = vec![entry_with_layer(Some(1), 4), entry_with_layer(Some(2), 4)];
    entries[0].self_activated = true;
    entries[0].deadline = Some(at(50));
    entries[1].self_activated = true;
    entries[1].deadline = Some(at(80));

    let released = timeout_step(&mut entries, at(100));

    assert_eq!(released.to_vec().as_slice(), &[4]);
    assert!(!entries[0].self_activated);
    assert!(!entries[1].self_activated);
}

#[test]
fn timeout_step_ignores_entries_that_are_not_self_activated() {
    let mut entries = vec![entry_with_layer(Some(1), 1)];
    entries[0].self_activated = false;
    entries[0].deadline = Some(at(10));

    let released = timeout_step(&mut entries, at(500));

    assert!(released.to_vec().is_empty());
}

#[test]
fn pointing_step_holds_layer_when_activation_succeeds() {
    let mut entries = vec![entry_with_layer(Some(1), 2)];

    let outcome = pointing_step(&mut entries, 0, at(1000), true);

    assert_eq!(outcome, PointingOutcome::Holding);
    assert!(entries[0].self_activated);
    assert_eq!(entries[0].deadline, Some(at(1000) + entries[0].config.timeout_ms));
    assert!(!entries[0].overlap_warned);
}

#[test]
fn pointing_step_piggybacks_on_a_sibling_that_already_holds_the_shared_layer() {
    let mut entries = vec![entry_with_layer(Some(1), 2), entry_with_layer(Some(2), 2)];
    entries[0].self_activated = true;
    entries[0].deadline = Some(at(500));

    let outcome = pointing_step(&mut entries, 1, at(1000), false);

    assert_eq!(outcome, PointingOutcome::Holding);
    assert!(entries[1].self_activated);
    assert_eq!(entries[1].deadline, Some(at(1000) + entries[1].config.timeout_ms));
    assert!(entries[0].self_activated);
    assert_eq!(entries[0].deadline, Some(at(500)));
}

#[test]
fn pointing_step_warns_once_when_layer_is_externally_active() {
    let mut entries = vec![entry_with_layer(Some(1), 2)];

    let first = pointing_step(&mut entries, 0, at(1000), false);
    assert_eq!(first, PointingOutcome::OverlapFirstSeen);
    assert!(!entries[0].self_activated);
    assert!(entries[0].deadline.is_none());
    assert!(entries[0].overlap_warned);

    let second = pointing_step(&mut entries, 0, at(1100), false);
    assert_eq!(second, PointingOutcome::Idle);
}

#[test]
fn pointing_step_extends_deadline_on_repeated_motion_from_holding_entry() {
    let mut entries = vec![entry_with_layer(Some(1), 3)];
    entries[0].self_activated = true;
    entries[0].deadline = Some(at(200));

    let outcome = pointing_step(&mut entries, 0, at(1000), false);

    assert_eq!(outcome, PointingOutcome::Idle);
    assert!(entries[0].self_activated);
    assert_eq!(entries[0].deadline, Some(at(1000) + entries[0].config.timeout_ms));
}

#[test]
fn pointing_step_resets_overlap_warned_when_we_regain_hold() {
    let mut entries = vec![entry_with_layer(Some(1), 2)];

    let first = pointing_step(&mut entries, 0, at(1000), false);
    assert_eq!(first, PointingOutcome::OverlapFirstSeen);
    assert!(entries[0].overlap_warned);

    let second = pointing_step(&mut entries, 0, at(1100), true);
    assert_eq!(second, PointingOutcome::Holding);
    assert!(entries[0].self_activated);
    assert!(!entries[0].overlap_warned);
    assert_eq!(entries[0].deadline, Some(at(1100) + entries[0].config.timeout_ms));
}

#[test]
fn timeout_step_releases_multiple_distinct_layers_that_expire_together() {
    let mut entries = vec![entry_with_layer(Some(1), 3), entry_with_layer(Some(2), 5)];
    entries[0].self_activated = true;
    entries[0].deadline = Some(at(100));
    entries[1].self_activated = true;
    entries[1].deadline = Some(at(150));

    let released = timeout_step(&mut entries, at(200));

    assert_eq!(released.to_vec().len(), 2);
    assert!(released.to_vec().contains(&3));
    assert!(released.to_vec().contains(&5));
    assert!(!entries[0].self_activated);
    assert!(!entries[1].self_activated);
}

#[test]
fn timeout_step_expires_entry_when_deadline_equals_now() {
    let mut entries = vec![entry_with_layer(Some(1), 3)];
    entries[0].self_activated = true;
    entries[0].deadline = Some(at(100));

    let released = timeout_step(&mut entries, at(100));

    assert_eq!(released.to_vec().as_slice(), &[3]);
    assert!(!entries[0].self_activated);
}

// ── deactivate_on_key ────────────────────────────────────────

fn holding_entry_with_deactivate(target_layer: u8, exceptions: &'static [KeyUsage]) -> EntryState {
    let mut e = entry_with_layer(Some(1), target_layer);
    e.config.deactivate_on_key = true;
    e.config.extra_mouse_keys = exceptions;
    e.self_activated = true;
    e.deadline = Some(at(1000));
    e
}

#[test]
fn keypress_step_releases_layer_when_non_mouse_non_exception_key_pressed() {
    // Sample across the non-mouse HID range (letter, digit, whitespace, control, punctuation)
    // to guard against `is_mouse_key()` accidentally classifying non-mouse keys as mouse.
    let non_mouse_keys = [
        HidKeyCode::A,
        HidKeyCode::Z,
        HidKeyCode::Kc0,
        HidKeyCode::Space,
        HidKeyCode::Enter,
        HidKeyCode::Escape,
        HidKeyCode::Semicolon,
    ];
    for hid in non_mouse_keys {
        let mut entries = vec![holding_entry_with_deactivate(3, &[])];

        let released = keypress_step(&mut entries, ActionKind::Key(KeyUsage::Hid(hid as u8)), at(2000));

        assert_eq!(released.to_vec().as_slice(), &[3], "key {:?} should release layer", hid);
        assert!(!entries[0].self_activated, "key {:?} should clear self_activated", hid);
        assert!(entries[0].deadline.is_none(), "key {:?} should clear deadline", hid);
    }
}

#[test]
fn keypress_step_keeps_layer_active_for_mouse_key() {
    let mut entries = vec![holding_entry_with_deactivate(3, &[])];

    let released = keypress_step(&mut entries, ActionKind::Key(KeyUsage::Hid(HidKeyCode::MouseBtn1 as u8)), at(2000));

    assert!(released.to_vec().is_empty());
    assert!(entries[0].self_activated);
    assert_eq!(entries[0].deadline, Some(at(1000)));
}

#[test]
fn keypress_step_keeps_layer_active_for_all_mouse_key_variants() {
    // Guards against silent divergence if HidKeyCode's mouse range (MouseUp..=MouseAccel2) is extended.
    let mouse_keys = [
        HidKeyCode::MouseUp,
        HidKeyCode::MouseDown,
        HidKeyCode::MouseLeft,
        HidKeyCode::MouseRight,
        HidKeyCode::MouseBtn1,
        HidKeyCode::MouseBtn2,
        HidKeyCode::MouseBtn3,
        HidKeyCode::MouseBtn4,
        HidKeyCode::MouseBtn5,
        HidKeyCode::MouseBtn6,
        HidKeyCode::MouseBtn7,
        HidKeyCode::MouseBtn8,
        HidKeyCode::MouseWheelUp,
        HidKeyCode::MouseWheelDown,
        HidKeyCode::MouseWheelLeft,
        HidKeyCode::MouseWheelRight,
        HidKeyCode::MouseAccel0,
        HidKeyCode::MouseAccel1,
        HidKeyCode::MouseAccel2,
    ];
    for hid in mouse_keys {
        assert!(
            hid.is_mouse_key(),
            "HidKeyCode::{:?} must be classified as a mouse key",
            hid
        );
        let mut entries = vec![holding_entry_with_deactivate(3, &[])];

        let released = keypress_step(&mut entries, ActionKind::Key(KeyUsage::Hid(hid as u8)), at(2000));

        assert!(
            released.to_vec().is_empty(),
            "mouse key {:?} unexpectedly released the layer",
            hid
        );
        assert!(
            entries[0].self_activated,
            "mouse key {:?} unexpectedly deactivated the entry",
            hid
        );
    }
}

#[test]
fn keypress_step_keeps_layer_active_for_exception_key() {
    let mut entries = vec![holding_entry_with_deactivate(3, &[KeyUsage::Hid(HidKeyCode::LCtrl as u8)])];

    let released = keypress_step(&mut entries, ActionKind::Key(KeyUsage::Hid(HidKeyCode::LCtrl as u8)), at(2000));

    assert!(released.to_vec().is_empty());
    assert!(entries[0].self_activated);
    // Exception keys do NOT extend the deadline; timeout still applies.
    assert_eq!(entries[0].deadline, Some(at(1000)));
}

#[test]
fn keypress_step_releases_layer_for_consumer_and_system_control_keys() {
    // Non-Hid KeyCode variants are not mouse keys and (unless explicitly listed in
    // extra_mouse_keys) should trigger deactivation just like other non-mouse keys.
    let non_hid_keys = [
        key_code(RKeyCode::Consumer(ConsumerKey::VolumeIncrement)).unwrap(),
        key_code(RKeyCode::Consumer(ConsumerKey::PlayPause)).unwrap(),
        key_code(RKeyCode::SystemControl(SystemControlKey::Sleep)).unwrap(),
    ];
    for kc in non_hid_keys {
        let mut entries = vec![holding_entry_with_deactivate(3, &[])];

        let released = keypress_step(&mut entries, ActionKind::Key(kc), at(2000));

        assert_eq!(released.to_vec().as_slice(), &[3], "{:?} should release layer", kc);
        assert!(!entries[0].self_activated, "{:?} should clear self_activated", kc);
    }
}

#[test]
fn keypress_step_keeps_layer_active_for_unresolvable_action() {
    // Unclassifiable actions (layer switches, macros, Again/Repeat) never
    // deactivate; the timeout path handles clearing.
    let mut entries = vec![holding_entry_with_deactivate(3, &[])];

    let released = keypress_step(&mut entries, classify_action(RAction::LayerOn(0)), at(2000));

    assert!(released.to_vec().is_empty());
    assert!(entries[0].self_activated);
    assert_eq!(entries[0].deadline, Some(at(1000)));
}

#[test]
fn keypress_step_ignores_entries_that_did_not_opt_in() {
    let mut entries = vec![entry_with_layer(Some(1), 3)];
    entries[0].self_activated = true;
    entries[0].deadline = Some(at(1000));
    // deactivate_on_key stays false, even a non-mouse key press
    // must NOT release the layer for this entry.

    let released = keypress_step(&mut entries, ActionKind::Key(KeyUsage::Hid(HidKeyCode::A as u8)), at(2000));

    assert!(released.to_vec().is_empty());
    assert!(entries[0].self_activated);
}

#[test]
fn keypress_step_keeps_shared_layer_alive_when_sibling_still_holds_it() {
    let mut entries = vec![holding_entry_with_deactivate(4, &[]), entry_with_layer(Some(2), 4)];
    // Sibling is a plain (non-opt-in) auto-mouse entry that also self-holds
    // layer 4; releasing the opt-in entry must leave the physical layer on.
    entries[1].self_activated = true;
    entries[1].deadline = Some(at(2000));

    let released = keypress_step(&mut entries, ActionKind::Key(KeyUsage::Hid(HidKeyCode::A as u8)), at(2000));

    assert!(released.to_vec().is_empty());
    assert!(!entries[0].self_activated);
    assert!(entries[1].self_activated);
}

#[test]
fn keypress_step_releases_both_opt_in_entries_sharing_a_layer() {
    // Two opt-in entries hold the same physical layer. A non-mouse keypress
    // must release both, and the layer only ends up in `released` once.
    let mut entries = vec![
        holding_entry_with_deactivate(4, &[]),
        holding_entry_with_deactivate(4, &[]),
    ];
    entries[1].config.device_id = Some(2);

    let released = keypress_step(&mut entries, ActionKind::Key(KeyUsage::Hid(HidKeyCode::A as u8)), at(2000));

    assert_eq!(released.to_vec().as_slice(), &[4]);
    assert!(!entries[0].self_activated);
    assert!(!entries[1].self_activated);
}

#[test]
fn keypress_step_holds_shared_layer_when_a_sibling_opt_in_entry_still_holds_it() {
    // Two opt-in entries share layer 4 but only one gets triggered.
    // The second is bound to a different device_id and matches a different key.
    // We simulate this by leaving the second one active and pressing a key that
    // is in its exceptions but not the first one's.
    const CTRL: KeyUsage = KeyUsage::Hid(HidKeyCode::LCtrl as u8);
    let mut entries = vec![
        holding_entry_with_deactivate(4, &[]),
        holding_entry_with_deactivate(4, &[CTRL]),
    ];
    entries[1].config.device_id = Some(2);

    let released = keypress_step(&mut entries, ActionKind::Key(CTRL), at(2000));

    // First entry deactivates (LCtrl not in its exceptions), but layer 4
    // must not be released because the second entry (with LCtrl in exceptions) still holds it.
    assert!(released.to_vec().is_empty());
    assert!(!entries[0].self_activated);
    assert!(entries[1].self_activated);
}

#[test]
fn keypress_step_does_nothing_when_no_entry_is_self_activated() {
    // Opt-in entries exist but none are currently holding the layer.
    let mut entries = vec![holding_entry_with_deactivate(3, &[])];
    entries[0].self_activated = false;
    entries[0].deadline = None;

    let released = keypress_step(&mut entries, ActionKind::Key(KeyUsage::Hid(HidKeyCode::A as u8)), at(2000));

    assert!(released.to_vec().is_empty());
    assert!(!entries[0].self_activated);
}

#[test]
fn keypress_step_handles_mixed_opt_in_and_non_opt_in_across_layers() {
    // 4-entry mix: two opt-in on layer 5, one non-opt-in on layer 5, one non-opt-in on layer 6.
    let mut entries: Vec<EntryState> = vec![
        holding_entry_with_deactivate(5, &[]),
        holding_entry_with_deactivate(5, &[]),
        entry_with_layer(Some(3), 5),
        entry_with_layer(Some(4), 6),
    ];
    entries[1].config.device_id = Some(2);
    entries[2].self_activated = true;
    entries[2].deadline = Some(at(3000));
    entries[3].self_activated = true;
    entries[3].deadline = Some(at(4000));

    let released = keypress_step(&mut entries, ActionKind::Key(KeyUsage::Hid(HidKeyCode::A as u8)), at(2000));

    // Layer 5 stays because the non-opt-in entry still holds it; layer 6 is untouched.
    assert!(released.to_vec().is_empty());
    assert!(!entries[0].self_activated);
    assert!(!entries[1].self_activated);
    assert!(entries[2].self_activated);
    assert!(entries[3].self_activated);
}

#[test]
fn keypress_step_honours_full_exceptions_list() {
    // Verify contains() walks the whole slice, not just the prefix: place the
    // matching key at the very end of a long list.
    const EXCEPTIONS: &[KeyUsage] = &[
        KeyUsage::Hid(HidKeyCode::A as u8),
        KeyUsage::Hid(HidKeyCode::B as u8),
        KeyUsage::Hid(HidKeyCode::C as u8),
        KeyUsage::Hid(HidKeyCode::D as u8),
        KeyUsage::Hid(HidKeyCode::E as u8),
        KeyUsage::Hid(HidKeyCode::F as u8),
        KeyUsage::Hid(HidKeyCode::G as u8),
        KeyUsage::Hid(HidKeyCode::LCtrl as u8),
    ];
    let last = *EXCEPTIONS.last().unwrap();
    let mut entries = vec![holding_entry_with_deactivate(3, EXCEPTIONS)];

    let released = keypress_step(&mut entries, ActionKind::Key(last), at(2000));

    assert!(released.to_vec().is_empty());
    assert!(entries[0].self_activated);
}

// ── unclassifiable actions ─────────────────────────────────────────────

#[test]
fn keypress_step_keeps_layer_active_for_non_key_actions() {
    // Layer switches, macros, and one-shot modifiers emit no keycode and
    // must never deactivate; the timeout path handles clearing.
    for action in [
        RAction::LayerOn(2),
        RAction::TriggerMacro(0),
        RAction::OneShotModifier(ModifierCombination::LCTRL),
    ] {
        let mut entries = vec![holding_entry_with_deactivate(3, &[])];
        let released = keypress_step(&mut entries, classify_action(action), at(2000));
        assert!(released.to_vec().is_empty(), "{:?} should not release layer", action);
        assert!(
            entries[0].self_activated,
            "{:?} should not clear self_activated",
            action
        );
    }
}

#[test]
fn keypress_step_treats_repeat_style_keys_as_unclassifiable() {
    // The repeated keycode is unknown here; `Again` especially must not be
    // misclassified as a non-mouse key.
    for action in [
        RAction::Key(RKeyCode::Hid(HidKeyCode::Again)),
        RAction::Special(SpecialKey::Repeat),
        RAction::Special(SpecialKey::GraveEscape),
    ] {
        let mut entries = vec![holding_entry_with_deactivate(3, &[])];
        let released = keypress_step(&mut entries, classify_action(action), at(2000));
        assert!(released.to_vec().is_empty(), "{:?} should not release layer", action);
        assert!(
            entries[0].self_activated,
            "{:?} should not clear self_activated",
            action
        );
    }
}

// ── modifier-only actions (e.g. MT hold) ─────────────────────────────

#[test]
fn keypress_step_releases_layer_for_modifier_action_not_in_exceptions() {
    let mut entries = vec![holding_entry_with_deactivate(3, &[])];

    let released = keypress_step(&mut entries, classify_action(RAction::Modifier(ModifierCombination::LSHIFT)), at(2000));

    assert_eq!(released.to_vec().as_slice(), &[3]);
    assert!(!entries[0].self_activated);
}

#[test]
fn keypress_step_keeps_layer_active_for_modifier_action_fully_covered_by_exceptions() {
    let mut entries = vec![holding_entry_with_deactivate(
        3,
        &[KeyUsage::Hid(HidKeyCode::LCtrl as u8), KeyUsage::Hid(HidKeyCode::LShift as u8)],
    )];

    let released = keypress_step(
        &mut entries,
        classify_action(RAction::Modifier(ModifierCombination::LCTRL | ModifierCombination::LSHIFT)),
        at(2000),
    );

    assert!(released.to_vec().is_empty());
    assert!(entries[0].self_activated);
    // Like exception keys, covered modifiers do NOT extend the deadline.
    assert_eq!(entries[0].deadline, Some(at(1000)));
}

#[test]
fn keypress_step_releases_layer_for_modifier_action_partially_covered_by_exceptions() {
    // LCtrl is excepted but the action also contains LShift — deactivate.
    let mut entries = vec![holding_entry_with_deactivate(3, &[KeyUsage::Hid(HidKeyCode::LCtrl as u8)])];

    let released = keypress_step(
        &mut entries,
        classify_action(RAction::Modifier(ModifierCombination::LCTRL | ModifierCombination::LSHIFT)),
        at(2000),
    );

    assert_eq!(released.to_vec().as_slice(), &[3]);
    assert!(!entries[0].self_activated);
}

#[test]
fn keypress_step_ignores_side_mismatch_between_modifier_action_and_exceptions() {
    // Left/right variants are distinct: RCtrl is not covered by LCtrl.
    let mut entries = vec![holding_entry_with_deactivate(3, &[KeyUsage::Hid(HidKeyCode::LCtrl as u8)])];

    let released = keypress_step(&mut entries, classify_action(RAction::Modifier(ModifierCombination::RCTRL)), at(2000));

    assert_eq!(released.to_vec().as_slice(), &[3]);
    assert!(!entries[0].self_activated);
}

#[test]
fn keypress_step_keeps_layer_active_for_empty_modifier_action() {
    let mut entries = vec![holding_entry_with_deactivate(3, &[])];

    let released = keypress_step(&mut entries, classify_action(RAction::Modifier(ModifierCombination::new())), at(2000));

    assert!(released.to_vec().is_empty());
    assert!(entries[0].self_activated);
}

#[test]
fn keypress_step_extends_deadline_on_covered_modifier_action_when_both_opt_in() {
    let mut e = holding_entry_with_deactivate(3, &[KeyUsage::Hid(HidKeyCode::LCtrl as u8)]);
    e.config.reset_timeout_on_key = true;
    e.config.timeout_ms = 500;
    let mut entries = vec![e];

    let released = keypress_step(&mut entries, classify_action(RAction::Modifier(ModifierCombination::LCTRL)), at(2000));

    assert!(released.to_vec().is_empty());
    assert!(entries[0].self_activated);
    assert_eq!(
        entries[0].deadline,
        Some(at(2000) + 500)
    );
}

// ── reset_timeout_on_key ─────────────────────────────────────────────

fn holding_entry_with_extend(target_layer: u8, timeout_ms: u64) -> EntryState {
    let mut e = entry_with_layer(Some(1), target_layer);
    e.config.reset_timeout_on_key = true;
    e.config.timeout_ms = timeout_ms;
    e.self_activated = true;
    e.deadline = Some(at(1000));
    e
}

#[test]
fn keypress_step_extends_deadline_on_any_key_when_extend_opt_in_alone() {
    // No `deactivate_on_key`: every key press must extend the deadline.
    let mut entries = vec![holding_entry_with_extend(3, 500)];

    let released = keypress_step(&mut entries, ActionKind::Key(KeyUsage::Hid(HidKeyCode::A as u8)), at(2000));

    assert!(released.to_vec().is_empty());
    assert!(entries[0].self_activated);
    assert_eq!(
        entries[0].deadline,
        Some(at(2000) + 500)
    );
}

#[test]
fn keypress_step_extends_deadline_on_mouse_key_when_extend_opt_in() {
    let mut entries = vec![holding_entry_with_extend(3, 500)];

    let released = keypress_step(&mut entries, ActionKind::Key(KeyUsage::Hid(HidKeyCode::MouseBtn1 as u8)), at(2000));

    assert!(released.to_vec().is_empty());
    assert!(entries[0].self_activated);
    assert_eq!(
        entries[0].deadline,
        Some(at(2000) + 500)
    );
}

#[test]
fn keypress_step_extends_deadline_on_composite_action_when_extend_opt_in() {
    // Unclassifiable actions leave the layer intact; extend still applies.
    let mut entries = vec![holding_entry_with_extend(3, 500)];

    let released = keypress_step(&mut entries, classify_action(RAction::LayerOn(0)), at(2000));

    assert!(released.to_vec().is_empty());
    assert!(entries[0].self_activated);
    assert_eq!(
        entries[0].deadline,
        Some(at(2000) + 500)
    );
}

#[test]
fn keypress_step_extends_deadline_on_exception_key_when_both_opt_in() {
    // deactivate_on_key=true, reset_timeout_on_key=true, LCtrl in exceptions:
    // LCtrl does NOT deactivate; deadline is extended.
    let mut e = holding_entry_with_deactivate(3, &[KeyUsage::Hid(HidKeyCode::LCtrl as u8)]);
    e.config.reset_timeout_on_key = true;
    e.config.timeout_ms = 500;
    let mut entries = vec![e];

    let released = keypress_step(&mut entries, ActionKind::Key(KeyUsage::Hid(HidKeyCode::LCtrl as u8)), at(2000));

    assert!(released.to_vec().is_empty());
    assert!(entries[0].self_activated);
    assert_eq!(
        entries[0].deadline,
        Some(at(2000) + 500)
    );
}

#[test]
fn keypress_step_does_not_extend_deadline_on_deactivating_key() {
    // Both flags on: a non-mouse, non-exception key deactivates. No extension should occur
    // because the entry is torn down.
    let mut e = holding_entry_with_deactivate(3, &[]);
    e.config.reset_timeout_on_key = true;
    e.config.timeout_ms = 500;
    let mut entries = vec![e];

    let released = keypress_step(&mut entries, ActionKind::Key(KeyUsage::Hid(HidKeyCode::A as u8)), at(2000));

    assert_eq!(released.to_vec().as_slice(), &[3]);
    assert!(!entries[0].self_activated);
    assert!(entries[0].deadline.is_none());
}

#[test]
fn keypress_step_does_not_shorten_deadline_when_extending() {
    // Extending must never shorten a further-out deadline that motion set.
    let mut entries = vec![holding_entry_with_extend(3, 100)];
    // A pointing event pushed the deadline much further out than key-press would.
    entries[0].deadline = Some(at(10_000));

    let released = keypress_step(&mut entries, ActionKind::Key(KeyUsage::Hid(HidKeyCode::A as u8)), at(2000));

    assert!(released.to_vec().is_empty());
    assert!(entries[0].self_activated);
    assert_eq!(entries[0].deadline, Some(at(10_000)));
}

#[test]
fn keypress_step_ignores_extend_for_entries_not_self_activated() {
    let mut entries = vec![holding_entry_with_extend(3, 500)];
    entries[0].self_activated = false;
    entries[0].deadline = None;

    let released = keypress_step(&mut entries, ActionKind::Key(KeyUsage::Hid(HidKeyCode::A as u8)), at(2000));

    assert!(released.to_vec().is_empty());
    assert!(entries[0].deadline.is_none());
}
