use rmk::caps_word::CapsWordState;
use rmk::modifiers::ModifierSources;
use rmk::oneshot::OneShotState;

fn sources() -> ModifierSources {
    ModifierSources {
        macro_texting: false,
        macro_caps: false,
        held_modifiers: 0x01,
        osm_state: OneShotState::Inactive,
        fork_suppressions: vec![],
        fork_keep_mask: 0,
        with_modifiers: 0,
        caps_word: CapsWordState::Deactivated,
    }
}

#[test]
fn modifiers_one_shot_decorates_presses_and_held_releases() {
    let mut s = sources();
    s.osm_state = OneShotState::Single(0x04);
    assert_eq!(s.resolve_explicit_modifiers(true), 0x05);
    assert_eq!(s.resolve_explicit_modifiers(false), 0x01);
    s.osm_state = OneShotState::Held(0x04);
    assert_eq!(s.resolve_explicit_modifiers(false), 0x05);
}

#[test]
fn modifiers_forks_suppress_unless_kept() {
    let mut s = sources();
    s.held_modifiers = 0x03;
    s.fork_suppressions = vec![0x01, 0x02];
    assert_eq!(s.resolve_modifiers(true, 0), 0x00);
    s.fork_keep_mask = 0x02;
    assert_eq!(s.resolve_modifiers(true, 0), 0x02);
    s.with_modifiers = 0x01;
    assert_eq!(s.resolve_modifiers(true, 0), 0x03);
}

#[test]
fn modifiers_text_macro_and_caps_word() {
    let mut s = sources();
    s.macro_texting = true;
    assert_eq!(s.resolve_modifiers(true, 0), 0);
    s.macro_caps = true;
    assert_eq!(s.resolve_modifiers(true, 0), 0x02);

    let mut s = sources();
    s.caps_word = CapsWordState::Activated { timer: 100, shift_current: true };
    assert_eq!(s.resolve_modifiers(true, 200), 0x03);
    assert_eq!(s.resolve_modifiers(false, 200), 0x01);
    assert_eq!(s.resolve_modifiers(true, 5100), 0x01);
}
