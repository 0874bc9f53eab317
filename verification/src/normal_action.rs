//! What the keyboard does for an action of a key event, step by step: the
//! layer changes, the modifier bookkeeping, the reports, and the handlers
//! that take over (plain keys, one-shot keys, macros, keyboard control,
//! special and user keys). A tap is the action's press, 10 ms, then its
//! release.

use vstd::prelude::*;

use crate::action::{BoundAction, ControlAction, SpecialAction};
use crate::keycode::KeyUsage;

verus! {

/// A step of processing an action.
#[derive(Clone, Copy, Debug, PartialEq, Eq, Structural)]
pub enum ActionStep {
    /// Process a key (`process_action_key`).
    Key(KeyUsage),
    ActivateLayer(u8),
    DeactivateLayer(u8),
    ToggleLayer(u8),
    SetDefaultLayer(u8),
    /// Update the tri-layer state after a change of layers 1 or 2.
    UpdateTriLayer,
    RegisterModifiers(u8),
    UnregisterModifiers(u8),
    /// Add or remove modifiers that go with a key.
    AddWithModifiers(u8),
    RemoveWithModifiers(u8),
    /// Add or remove held modifiers.
    AddHeldModifiers(u8),
    RemoveHeldModifiers(u8),
    /// Send a keyboard report, for a press or a release.
    Report(bool),
    UpdateOneShotLayer,
    UpdateOneShotModifier,
    OneShotLayer(u8),
    OneShotModifier(u8),
    Macro(u8),
    KeyboardControl(ControlAction),
    Special(SpecialAction),
    User(u8),
    /// Wait, in ms.
    Wait(u64),
}

/// A layer key: the layer is on while the key is held.
pub open spec fn layer_switch(layer: u8, pressed: bool) -> Seq<ActionStep> {
    if pressed {
        seq![ActionStep::ActivateLayer(layer)]
    } else {
        seq![ActionStep::DeactivateLayer(layer)]
    }
}

/// Deactivating layers `0..n`, but the default one.
pub open spec fn deactivate_others(n: nat, default_layer: u8) -> Seq<ActionStep>
    decreases n,
{
    if n == 0 {
        seq![]
    } else {
        deactivate_others((n - 1) as nat, default_layer) + if n - 1 == default_layer {
            seq![]
        } else {
            seq![ActionStep::DeactivateLayer((n - 1) as u8)]
        }
    }
}

/// The steps of an action for a press or a release (`num_layers` layers,
/// `default_layer` the default one).
pub open spec fn spec_normal_steps(action: BoundAction, pressed: bool, default_layer: u8, num_layers: u8) -> Seq<
    ActionStep,
> {
    match action {
        BoundAction::Key(k) => seq![ActionStep::Key(k)],
        BoundAction::LayerOn(l) => layer_switch(l, pressed),
        BoundAction::LayerOff(l) => if pressed {
            seq![ActionStep::DeactivateLayer(l)]
        } else {
            seq![]
        },
        BoundAction::LayerToggle(l) => if pressed {
            seq![]
        } else {
            seq![ActionStep::ToggleLayer(l)]
        },
        BoundAction::LayerToggleOnly(l) => if pressed {
            deactivate_others(num_layers as nat, default_layer).push(ActionStep::ActivateLayer(l))
        } else {
            seq![]
        },
        BoundAction::DefaultLayer(l) => seq![ActionStep::SetDefaultLayer(l)],
        BoundAction::Modifier(m) => seq![
            if pressed {
                ActionStep::RegisterModifiers(m)
            } else {
                ActionStep::UnregisterModifiers(m)
            },
            ActionStep::Report(pressed),
            ActionStep::UpdateOneShotLayer,
        ],
        BoundAction::TriggerMacro(i) => seq![ActionStep::Macro(i)],
        BoundAction::KeyWithModifier(k, m) => seq![
            if pressed {
                ActionStep::AddWithModifiers(m)
            } else {
                ActionStep::RemoveWithModifiers(m)
            },
            ActionStep::Key(KeyUsage::Hid(k)),
        ],
        BoundAction::LayerOnWithModifier(l, m) => seq![
            if pressed {
                ActionStep::AddHeldModifiers(m)
            } else {
                ActionStep::RemoveHeldModifiers(m)
            },
        ] + layer_switch(l, pressed) + seq![ActionStep::Report(pressed)],
        BoundAction::OneShotLayer(l) => seq![ActionStep::OneShotLayer(l), ActionStep::UpdateOneShotModifier],
        BoundAction::OneShotModifier(m) => seq![ActionStep::OneShotModifier(m), ActionStep::UpdateOneShotLayer],
        BoundAction::KeyboardControl(c) => seq![ActionStep::KeyboardControl(c)],
        BoundAction::Special(s) => seq![ActionStep::Special(s)],
        BoundAction::User(id) => seq![ActionStep::User(id)],
        BoundAction::TriLayerLower => layer_switch(1, pressed).push(ActionStep::UpdateTriLayer),
        BoundAction::TriLayerUpper => layer_switch(2, pressed).push(ActionStep::UpdateTriLayer),
        _ => seq![],
    }
}

fn push_layer_switch(out: &mut Vec<ActionStep>, layer: u8, pressed: bool)
    ensures
        final(out)@ == old(out)@ + layer_switch(layer, pressed),
{
    if pressed {
        out.push(ActionStep::ActivateLayer(layer));
    } else {
        out.push(ActionStep::DeactivateLayer(layer));
    }
    assert(out@ =~= old(out)@ + layer_switch(layer, pressed));
}

/// The steps of an action for a press or a release.
pub fn normal_action_steps(action: BoundAction, pressed: bool, default_layer: u8, num_layers: u8) -> (r: Vec<
    ActionStep,
>)
    ensures
        r@ == spec_normal_steps(action, pressed, default_layer, num_layers),
{
    let mut out: Vec<ActionStep> = Vec::new();
    match action {
        BoundAction::Key(k) => {
            out.push(ActionStep::Key(k));
        },
        BoundAction::LayerOn(l) => {
            push_layer_switch(&mut out, l, pressed);
        },
        BoundAction::LayerOff(l) => {
            if pressed {
                out.push(ActionStep::DeactivateLayer(l));
            }
        },
        BoundAction::LayerToggle(l) => {
            if !pressed {
                out.push(ActionStep::ToggleLayer(l));
            }
        },
        BoundAction::LayerToggleOnly(l) => {
            if pressed {
                let mut i: u8 = 0;
                while i < num_layers
                    invariant
                        i <= num_layers,
                        out@ == deactivate_others(i as nat, default_layer),
                    decreases num_layers - i,
                {
                    if i != default_layer {
                        out.push(ActionStep::DeactivateLayer(i));
                    }
                    i = i + 1;
                    assert(out@ =~= deactivate_others(i as nat, default_layer));
                }
                out.push(ActionStep::ActivateLayer(l));
            }
        },
        BoundAction::DefaultLayer(l) => {
            out.push(ActionStep::SetDefaultLayer(l));
        },
        BoundAction::Modifier(m) => {
            out.push(
                if pressed {
                    ActionStep::RegisterModifiers(m)
                } else {
                    ActionStep::UnregisterModifiers(m)
                },
            );
            out.push(ActionStep::Report(pressed));
            out.push(ActionStep::UpdateOneShotLayer);
        },
        BoundAction::TriggerMacro(i) => {
            out.push(ActionStep::Macro(i));
        },
        BoundAction::KeyWithModifier(k, m) => {
            out.push(
                if pressed {
                    ActionStep::AddWithModifiers(m)
                } else {
                    ActionStep::RemoveWithModifiers(m)
                },
            );
            out.push(ActionStep::Key(KeyUsage::Hid(k)));
        },
        BoundAction::LayerOnWithModifier(l, m) => {
            out.push(
                if pressed {
                    ActionStep::AddHeldModifiers(m)
                } else {
                    ActionStep::RemoveHeldModifiers(m)
                },
            );
            push_layer_switch(&mut out, l, pressed);
            out.push(ActionStep::Report(pressed));
        },
        BoundAction::OneShotLayer(l) => {
            out.push(ActionStep::OneShotLayer(l));
            out.push(ActionStep::UpdateOneShotModifier);
        },
        BoundAction::OneShotModifier(m) => {
            out.push(ActionStep::OneShotModifier(m));
            out.push(ActionStep::UpdateOneShotLayer);
        },
        BoundAction::KeyboardControl(c) => {
            out.push(ActionStep::KeyboardControl(c));
        },
        BoundAction::Special(s) => {
            out.push(ActionStep::Special(s));
        },
        BoundAction::User(id) => {
            out.push(ActionStep::User(id));
        },
        BoundAction::TriLayerLower => {
            push_layer_switch(&mut out, 1, pressed);
            out.push(ActionStep::UpdateTriLayer);
        },
        BoundAction::TriLayerUpper => {
            push_layer_switch(&mut out, 2, pressed);
            out.push(ActionStep::UpdateTriLayer);
        },
        _ => {},
    }
    assert(out@ =~= spec_normal_steps(action, pressed, default_layer, num_layers));
    out
}

/// The steps of tapping an action: on a press, the action's press, 10 ms,
/// then its release; nothing on a release.
pub fn tap_action_steps(action: BoundAction, pressed: bool, default_layer: u8, num_layers: u8) -> (r: Vec<ActionStep>)
    ensures
        r@ == (if pressed {
            spec_normal_steps(action, true, default_layer, num_layers) + seq![ActionStep::Wait(10)]
                + spec_normal_steps(action, false, default_layer, num_layers)
        } else {
            Seq::<ActionStep>::empty()
        }),
{
    if !pressed {
        return Vec::new();
    }
    let mut out = normal_action_steps(action, true, default_layer, num_layers);
    out.push(ActionStep::Wait(10));
    let mut release = normal_action_steps(action, false, default_layer, num_layers);
    out.append(&mut release);
    out
}

} // verus!
