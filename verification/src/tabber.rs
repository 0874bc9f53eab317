//! Tabber: Alt+Tab-like window switching.
//!
//! The modifier of a Tabber key is held across repeated taps of Tab until
//! the layer changes. The first press sends modifier + Tab; later presses
//! send Tab only, the modifier staying held; a layer change releases it.
//! Tabber cannot be used on the base layer (layer 0), which has no layer
//! change to release it.

use vstd::prelude::*;

verus! {

/// State for Tabber action.
#[derive(Clone, Copy, Debug, PartialEq, Eq, Structural, Default)]
pub enum TabberState<T> {
    /// Tabber is active and holding modifiers
    Active(T),
    /// Tabber is inactive
    #[default]
    Inactive,
}

impl<T> TabberState<T> {
    /// The held modifiers of an active Tabber.
    pub open spec fn spec_value(self) -> Option<T> {
        match self {
            TabberState::Active(m) => Some(m),
            TabberState::Inactive => None,
        }
    }

    /// Get the held modifiers if Tabber is active
    pub fn value(&self) -> (r: Option<&T>)
        ensures
            r is Some <==> self.spec_value() is Some,
            r is Some ==> *r->0 == self.spec_value()->0,
    {
        match self {
            TabberState::Active(m) => Some(m),
            TabberState::Inactive => None,
        }
    }
}

/// What a Tabber key event does to the report.
#[derive(Clone, Copy, Debug, PartialEq, Eq, Structural)]
pub enum TabberAction {
    /// Nothing (base layer, or a release while inactive).
    Ignore,
    /// Register Tab and send the report with the held modifiers.
    PressTab,
    /// Unregister Tab and send the report; the modifiers stay held.
    ReleaseTab,
}

/// Tabber state and action on an event of a Tabber key with modifiers
/// `mods`, pressed or released, while `current_layer` is the active layer.
pub open spec fn spec_tabber_step(state: TabberState<u8>, current_layer: u8, mods: u8, pressed: bool) -> (
    TabberState<u8>,
    TabberAction,
) {
    if current_layer == 0 {
        (state, TabberAction::Ignore)
    } else if pressed {
        (
            match state {
                TabberState::Inactive => TabberState::Active(mods),
                TabberState::Active(m) => TabberState::Active(m),
            },
            TabberAction::PressTab,
        )
    } else {
        match state {
            TabberState::Active(_) => (state, TabberAction::ReleaseTab),
            TabberState::Inactive => (state, TabberAction::Ignore),
        }
    }
}

/// Processes an event of a Tabber key.
pub fn tabber_step(state: TabberState<u8>, current_layer: u8, mods: u8, pressed: bool) -> (r: (
    TabberState<u8>,
    TabberAction,
))
    ensures
        r == spec_tabber_step(state, current_layer, mods, pressed),
{
    if current_layer == 0 {
        return (state, TabberAction::Ignore);
    }
    if pressed {
        let next = match state {
            TabberState::Inactive => TabberState::Active(mods),
            TabberState::Active(m) => TabberState::Active(m),
        };
        (next, TabberAction::PressTab)
    } else {
        match state {
            TabberState::Active(_) => (state, TabberAction::ReleaseTab),
            TabberState::Inactive => (state, TabberAction::Ignore),
        }
    }
}

/// Releases the Tabber on a layer change. Returns the new state and
/// whether a report must be sent to release the held modifiers.
pub fn tabber_cleanup(state: TabberState<u8>) -> (r: (TabberState<u8>, bool))
    ensures
        r.0 == TabberState::<u8>::Inactive,
        r.1 == (state is Active),
{
    match state {
        TabberState::Active(_) => (TabberState::Inactive, true),
        TabberState::Inactive => (TabberState::Inactive, false),
    }
}

/// The modifiers a Tabber key first pressed stay held over any number of
/// later presses and releases of Tabber keys until a cleanup.
pub proof fn lemma_tabber_keeps_first_modifiers(
    mods: u8,
    layer: u8,
    other_mods: u8,
    pressed: bool,
)
    requires
        layer != 0,
    ensures
        spec_tabber_step(spec_tabber_step(TabberState::Inactive, layer, mods, true).0, layer, other_mods, pressed).0
            == TabberState::Active(mods),
{
}

/// Every Tab a Tabber key presses is released by its key's release: off
/// the base layer a press presses Tab and activates the Tabber, and a
/// release while it is active releases Tab and keeps the state (the
/// modifiers stay held); on the base layer nothing happens.
pub proof fn lemma_tabber_press_then_release(
    state: TabberState<u8>,
    layer: u8,
    press_mods: u8,
    release_mods: u8,
)
    ensures
        layer != 0 ==> spec_tabber_step(state, layer, press_mods, true).1 == TabberAction::PressTab,
        layer != 0 ==> spec_tabber_step(state, layer, press_mods, true).0 is Active,
        layer != 0 ==> spec_tabber_step(
            spec_tabber_step(state, layer, press_mods, true).0,
            layer,
            release_mods,
            false,
        ) == (spec_tabber_step(state, layer, press_mods, true).0, TabberAction::ReleaseTab),
        (layer != 0 && state is Active) ==> spec_tabber_step(state, layer, release_mods, false) == (
            state,
            TabberAction::ReleaseTab,
        ),
        (layer != 0 && state is Inactive) ==> spec_tabber_step(state, layer, release_mods, false) == (
            state,
            TabberAction::Ignore,
        ),
        spec_tabber_step(state, 0, press_mods, true) == (state, TabberAction::Ignore),
        spec_tabber_step(state, 0, release_mods, false) == (state, TabberAction::Ignore),
{
}

} // verus!
