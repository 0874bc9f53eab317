//! One-shot modifiers and one-shot layers.
//!
//! A one-shot key applies its modifiers (or layer) to the next key only. Its
//! state machine: the first press makes it `Initial`; releasing it before
//! any other key makes it `Single` (waiting for the key it applies to);
//! another key arriving while it is still held makes it `Held` (it then acts
//! as a plain modifier or layer key until released).

use vstd::prelude::*;

verus! {

/// State machine for one shot keys.
#[derive(Clone, Copy, Debug, PartialEq, Eq, Structural, Default)]
pub enum OneShotState<T> {
    /// First one shot key press
    Initial(T),
    /// One shot key was released before any other key, normal one shot behavior
    Single(T),
    /// Another key was pressed before one shot key was released, treat as a normal modifier/layer
    Held(T),
    /// One shot inactive
    #[default]
    Inactive,
}

impl<T> OneShotState<T> {
    /// The value carried by an active state.
    pub open spec fn spec_value(self) -> Option<T> {
        match self {
            OneShotState::Initial(v) => Some(v),
            OneShotState::Single(v) => Some(v),
            OneShotState::Held(v) => Some(v),
            OneShotState::Inactive => None,
        }
    }

    /// Get the current one shot value if any
    pub fn value(&self) -> (r: Option<&T>)
        ensures
            r is Some <==> self.spec_value() is Some,
            r is Some ==> *r->0 == self.spec_value()->0,
    {
        match self {
            OneShotState::Initial(v) => Some(v),
            OneShotState::Single(v) => Some(v),
            OneShotState::Held(v) => Some(v),
            OneShotState::Inactive => None,
        }
    }
}

/// Whether `event_pressed` consumes a one-shot modifier waiting in `Single`:
/// with quick release the next press does, otherwise the next release.
pub open spec fn spec_consumes(quick_release: bool, event_pressed: bool) -> bool {
    (quick_release && event_pressed) || (!quick_release && !event_pressed)
}

/// Whether an event consumes a waiting one-shot modifier.
pub fn consumes(quick_release: bool, event_pressed: bool) -> (r: bool)
    ensures
        r == spec_consumes(quick_release, event_pressed),
{
    (quick_release && event_pressed) || (!quick_release && !event_pressed)
}

/// The one-shot modifier state after a press of a one-shot modifier key
/// with modifier bits `new_mods`, and whether the press found those
/// modifiers already waiting (it then takes them back).
pub open spec fn spec_osm_press(state: OneShotState<u8>, new_mods: u8) -> (OneShotState<u8>, bool) {
    match state {
        OneShotState::Inactive => (OneShotState::Initial(new_mods), false),
        OneShotState::Initial(cur) => (OneShotState::Initial(cur | new_mods), false),
        OneShotState::Single(cur) => {
            if cur & new_mods == new_mods {
                let rest = cur & !new_mods;
                if rest == 0 {
                    (OneShotState::Inactive, true)
                } else {
                    (OneShotState::Single(rest), true)
                }
            } else {
                (OneShotState::Single(cur | new_mods), false)
            }
        },
        OneShotState::Held(cur) => (OneShotState::Held(cur | new_mods), false),
    }
}

/// Press of a one-shot modifier key: adds its modifiers to the one-shot
/// state, or, when all of them are already waiting in `Single`, takes them
/// back out. Returns the new state and whether they were taken back.
pub fn osm_press(state: OneShotState<u8>, new_mods: u8) -> (r: (OneShotState<u8>, bool))
    ensures
        r == spec_osm_press(state, new_mods),
{
    match state {
        OneShotState::Inactive => (OneShotState::Initial(new_mods), false),
        OneShotState::Initial(cur) => (OneShotState::Initial(cur | new_mods), false),
        OneShotState::Single(cur) => {
            if cur & new_mods == new_mods {
                let rest = cur & !new_mods;
                if rest == 0 {
                    (OneShotState::Inactive, true)
                } else {
                    (OneShotState::Single(rest), true)
                }
            } else {
                (OneShotState::Single(cur | new_mods), false)
            }
        },
        OneShotState::Held(cur) => (OneShotState::Held(cur | new_mods), false),
    }
}

/// What the release of a one-shot key leads to.
#[derive(Clone, Copy, Debug, PartialEq, Eq, Structural)]
pub enum OneShotRelease {
    /// The one-shot now waits in `Single` with this value for the key it
    /// applies to (or for its timeout).
    Wait(u8),
    /// The one-shot was held as a plain modifier or layer: release it now.
    Release,
    /// Nothing to do.
    Ignore,
}

/// Release of a one-shot modifier key with modifier bits `new_mods`.
pub open spec fn spec_osm_release(state: OneShotState<u8>, new_mods: u8) -> OneShotRelease {
    match state {
        OneShotState::Initial(cur) => OneShotRelease::Wait(cur),
        OneShotState::Single(cur) => OneShotRelease::Wait(cur),
        OneShotState::Held(cur) => {
            if cur & new_mods == new_mods {
                OneShotRelease::Release
            } else {
                OneShotRelease::Ignore
            }
        },
        OneShotState::Inactive => OneShotRelease::Ignore,
    }
}

/// Decision on the release of a one-shot modifier key.
pub fn osm_release(state: OneShotState<u8>, new_mods: u8) -> (r: OneShotRelease)
    ensures
        r == spec_osm_release(state, new_mods),
{
    match state {
        OneShotState::Initial(cur) => OneShotRelease::Wait(cur),
        OneShotState::Single(cur) => OneShotRelease::Wait(cur),
        OneShotState::Held(cur) => {
            if cur & new_mods == new_mods {
                OneShotRelease::Release
            } else {
                OneShotRelease::Ignore
            }
        },
        OneShotState::Inactive => OneShotRelease::Ignore,
    }
}

/// One-shot modifier state after another key's event.
pub open spec fn spec_osm_update(state: OneShotState<u8>, quick_release: bool, event_pressed: bool) -> (
    OneShotState<u8>,
    bool,
) {
    match state {
        OneShotState::Initial(m) => (OneShotState::Held(m), false),
        OneShotState::Single(m) => {
            if spec_consumes(quick_release, event_pressed) {
                (OneShotState::Inactive, true)
            } else {
                (state, false)
            }
        },
        _ => (state, false),
    }
}

/// Updates the one-shot modifier state on another key's event. Returns the
/// new state and whether the waiting modifiers were consumed (`Single` to
/// inactive).
pub fn osm_update(state: OneShotState<u8>, quick_release: bool, event_pressed: bool) -> (r: (
    OneShotState<u8>,
    bool,
))
    ensures
        r == spec_osm_update(state, quick_release, event_pressed),
{
    match state {
        OneShotState::Initial(m) => (OneShotState::Held(m), false),
        OneShotState::Single(m) => {
            if consumes(quick_release, event_pressed) {
                (OneShotState::Inactive, true)
            } else {
                (state, false)
            }
        },
        _ => (state, false),
    }
}

/// One-shot layer state after a press of a one-shot layer key for `layer`,
/// and the layer to deactivate first (the previous one-shot layer).
pub open spec fn spec_osl_press(state: OneShotState<u8>, layer: u8) -> (OneShotState<u8>, Option<u8>) {
    match state {
        OneShotState::Inactive => (OneShotState::Initial(layer), None),
        OneShotState::Initial(l) => (OneShotState::Initial(layer), Some(l)),
        OneShotState::Single(l) => (OneShotState::Single(layer), Some(l)),
        OneShotState::Held(l) => (OneShotState::Held(layer), Some(l)),
    }
}

/// Press of a one-shot layer key: the previous one-shot layer, if any, is
/// deactivated and `layer` takes its place in the same state.
pub fn osl_press(state: OneShotState<u8>, layer: u8) -> (r: (OneShotState<u8>, Option<u8>))
    ensures
        r == spec_osl_press(state, layer),
{
    match state {
        OneShotState::Inactive => (OneShotState::Initial(layer), None),
        OneShotState::Initial(l) => (OneShotState::Initial(layer), Some(l)),
        OneShotState::Single(l) => (OneShotState::Single(layer), Some(l)),
        OneShotState::Held(l) => (OneShotState::Held(layer), Some(l)),
    }
}

/// Release of a one-shot layer key.
pub open spec fn spec_osl_release(state: OneShotState<u8>) -> OneShotRelease {
    match state {
        OneShotState::Initial(l) => OneShotRelease::Wait(l),
        OneShotState::Single(l) => OneShotRelease::Wait(l),
        OneShotState::Held(_) => OneShotRelease::Release,
        OneShotState::Inactive => OneShotRelease::Ignore,
    }
}

/// Decision on the release of a one-shot layer key.
pub fn osl_release(state: OneShotState<u8>) -> (r: OneShotRelease)
    ensures
        r == spec_osl_release(state),
{
    match state {
        OneShotState::Initial(l) => OneShotRelease::Wait(l),
        OneShotState::Single(l) => OneShotRelease::Wait(l),
        OneShotState::Held(_) => OneShotRelease::Release,
        OneShotState::Inactive => OneShotRelease::Ignore,
    }
}

/// One-shot layer state after another key's event, and the layer to
/// deactivate.
pub open spec fn spec_osl_update(state: OneShotState<u8>, event_pressed: bool) -> (
    OneShotState<u8>,
    Option<u8>,
) {
    match state {
        OneShotState::Initial(l) => (OneShotState::Held(l), None),
        OneShotState::Single(l) => {
            if !event_pressed {
                (OneShotState::Inactive, Some(l))
            } else {
                (state, None)
            }
        },
        _ => (state, None),
    }
}

/// Updates the one-shot layer state on another key's event: a held
/// one-shot layer becomes a plain held layer; a waiting one is used up by
/// the next release, which deactivates it.
pub fn osl_update(state: OneShotState<u8>, event_pressed: bool) -> (r: (OneShotState<u8>, Option<u8>))
    ensures
        r == spec_osl_update(state, event_pressed),
{
    match state {
        OneShotState::Initial(l) => (OneShotState::Held(l), None),
        OneShotState::Single(l) => {
            if !event_pressed {
                (OneShotState::Inactive, Some(l))
            } else {
                (state, None)
            }
        },
        _ => (state, None),
    }
}

/// Pressing a one-shot modifier key again while its modifiers wait in
/// `Single` takes them back: a second press of the same key cancels the
/// one-shot.
pub proof fn lemma_osm_double_press_cancels(mods: u8)
    requires
        mods != 0,
    ensures
        spec_osm_press(OneShotState::Single(mods), mods) == (OneShotState::<u8>::Inactive, true),
{
    assert(mods & mods == mods) by (bit_vector);
    assert(mods & !mods == 0) by (bit_vector);
}

/// A one-shot modifier waiting in `Single` is used up by exactly one
/// consuming event, after which the state is inactive; an event that does
/// not consume it leaves it waiting.
pub proof fn lemma_osm_consumed_once(mods: u8, quick_release: bool, event_pressed: bool)
    ensures
        spec_consumes(quick_release, event_pressed) ==> spec_osm_update(
            OneShotState::Single(mods),
            quick_release,
            event_pressed,
        ) == (OneShotState::<u8>::Inactive, true),
        !spec_consumes(quick_release, event_pressed) ==> spec_osm_update(
            OneShotState::Single(mods),
            quick_release,
            event_pressed,
        ) == (OneShotState::Single(mods), false),
        spec_osm_update(OneShotState::<u8>::Inactive, quick_release, event_pressed) == (
            OneShotState::<u8>::Inactive,
            false,
        ),
{
}

/// A one-shot layer never goes out without its layer being handed back:
/// when another key's event ends an active one-shot layer, the layer to
/// deactivate is the one it held; a layer is handed back only when the
/// state ends; a state that stays active keeps its layer; and the release
/// of the next key after a one-shot tap ends it.
pub proof fn lemma_osl_update_hands_back_layer(state: OneShotState<u8>, event_pressed: bool)
    ensures
        ({
            let (next, deactivate) = spec_osl_update(state, event_pressed);
            &&& (state.spec_value() is Some && next is Inactive) ==> deactivate == state.spec_value()
            &&& deactivate is Some ==> next is Inactive && deactivate == state.spec_value()
            &&& next.spec_value() is Some ==> next.spec_value() == state.spec_value()
            &&& state is Inactive ==> next is Inactive && deactivate is None
            &&& (state is Single && !event_pressed) ==> next is Inactive
            &&& (state is Initial) ==> next is Held
        }),
{
}

/// A one-shot layer key pressed while another one-shot layer is active
/// hands the previous layer back and keeps the state's phase with the new
/// layer.
pub proof fn lemma_osl_press_replaces_layer(state: OneShotState<u8>, layer: u8)
    ensures
        ({
            let (next, deactivate) = spec_osl_press(state, layer);
            &&& deactivate == state.spec_value()
            &&& next.spec_value() == Some(layer)
        }),
{
}

} // verus!
