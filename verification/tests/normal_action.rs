use rmk::action::BoundAction;
use rmk::keycode::KeyUsage;
use rmk::normal_action::{normal_action_steps, tap_action_steps, ActionStep};

#[test]
fn normal_layer_toggle_only_keeps_default_layer() {
    let steps = normal_action_steps(BoundAction::LayerToggleOnly(3), true, 1, 4);
    assert_eq!(
        steps,
        vec![
            ActionStep::DeactivateLayer(0),
            ActionStep::DeactivateLayer(2),
            ActionStep::DeactivateLayer(3),
            ActionStep::ActivateLayer(3),
        ]
    );
    assert!(normal_action_steps(BoundAction::LayerToggleOnly(3), false, 1, 4).is_empty());
}

#[test]
fn normal_layer_keys() {
    assert_eq!(normal_action_steps(BoundAction::LayerOn(2), true, 0, 4), vec![ActionStep::ActivateLayer(2)]);
    assert_eq!(normal_action_steps(BoundAction::LayerOn(2), false, 0, 4), vec![ActionStep::DeactivateLayer(2)]);
    assert_eq!(normal_action_steps(BoundAction::LayerOff(2), true, 0, 4), vec![ActionStep::DeactivateLayer(2)]);
    assert!(normal_action_steps(BoundAction::LayerOff(2), false, 0, 4).is_empty());
    assert!(normal_action_steps(BoundAction::LayerToggle(2), true, 0, 4).is_empty());
    assert_eq!(normal_action_steps(BoundAction::LayerToggle(2), false, 0, 4), vec![ActionStep::ToggleLayer(2)]);
    assert_eq!(
        normal_action_steps(BoundAction::TriLayerUpper, true, 0, 4),
        vec![ActionStep::ActivateLayer(2), ActionStep::UpdateTriLayer]
    );
}

#[test]
fn normal_modifier_and_key_with_modifier() {
    assert_eq!(
        normal_action_steps(BoundAction::Modifier(0x02), true, 0, 4),
        vec![ActionStep::RegisterModifiers(0x02), ActionStep::Report(true), ActionStep::UpdateOneShotLayer]
    );
    assert_eq!(
        normal_action_steps(BoundAction::KeyWithModifier(0x04, 0x01), false, 0, 4),
        vec![ActionStep::RemoveWithModifiers(0x01), ActionStep::Key(KeyUsage::Hid(0x04))]
    );
    assert_eq!(
        normal_action_steps(BoundAction::LayerOnWithModifier(1, 0x01), true, 0, 4),
        vec![ActionStep::AddHeldModifiers(0x01), ActionStep::ActivateLayer(1), ActionStep::Report(true)]
    );
}

#[test]
fn normal_tap_presses_waits_releases() {
    let k = BoundAction::Key(KeyUsage::Hid(0x04));
    assert_eq!(
        tap_action_steps(k, true, 0, 4),
        vec![ActionStep::Key(KeyUsage::Hid(0x04)), ActionStep::Wait(10), ActionStep::Key(KeyUsage::Hid(0x04))]
    );
    assert!(tap_action_steps(k, false, 0, 4).is_empty());
    assert!(normal_action_steps(BoundAction::No, true, 0, 4).is_empty());
}
