//! Keyboard modes: how key presses reach the HID report.
//!
//! In normal mode a key press takes a slot of the six-key report (the slot
//! already registered for its position, else the first free one) and a
//! modifier key sets its modifier bit. In passkey entry mode nothing is
//! registered and nothing is sent to the host.

use vstd::prelude::*;

use crate::event::{KeyboardEvent, KeyboardEventPos};
use crate::keycode::{hid_modifiers, is_modifier, spec_hid_modifiers, spec_is_modifier};

verus! {

/// Number of key slots in the keyboard report.
pub const REPORT_SLOTS: usize = 6;

/// The HID usage of "no key".
pub const NO_KEY: u8 = 0;

/// Keyboard state needed for normal key registration operations.
#[derive(Clone, Copy, Debug, PartialEq, Eq)]
pub struct KeyReportState {
    /// HID usages in the report's key slots (`NO_KEY` when free).
    pub held_keycodes: [u8; 6],
    /// The event that registered each slot.
    pub registered_keys: [Option<KeyboardEvent>; 6],
    /// Modifier bits held by modifier keys.
    pub held_modifiers: u8,
    /// Modifier bits that an active fork keeps.
    pub fork_keep_mask: u8,
}

impl KeyReportState {
    /// An empty report: no key, no modifier.
    pub fn new() -> (r: Self)
        ensures
            forall|i: int| 0 <= i < 6 ==> r.held_keycodes@[i] == NO_KEY,
            forall|i: int| 0 <= i < 6 ==> r.registered_keys@[i] is None,
            r.held_modifiers == 0,
            r.fork_keep_mask == 0,
    {
        KeyReportState {
            held_keycodes: [0u8; 6],
            registered_keys: [None, None, None, None, None, None],
            held_modifiers: 0,
            fork_keep_mask: 0,
        }
    }
}

/// The first slot, from `i` on, registered by an event at `pos`.
pub open spec fn slot_of_pos(regs: Seq<Option<KeyboardEvent>>, pos: KeyboardEventPos, i: int) -> Option<int>
    decreases regs.len() - i,
{
    if i < 0 || i >= regs.len() {
        None
    } else if regs[i] matches Some(e) && e.pos == pos {
        Some(i)
    } else {
        slot_of_pos(regs, pos, i + 1)
    }
}

/// The first slot, from `i` on, holding usage `key`.
pub open spec fn slot_of_key(held: Seq<u8>, key: u8, i: int) -> Option<int>
    decreases held.len() - i,
{
    if i < 0 || i >= held.len() {
        None
    } else if held[i] == key {
        Some(i)
    } else {
        slot_of_key(held, key, i + 1)
    }
}

fn find_pos_slot(regs: &[Option<KeyboardEvent>; 6], pos: KeyboardEventPos) -> (r: Option<usize>)
    ensures
        r matches Some(i) ==> i < 6 && slot_of_pos(regs@, pos, 0) == Some(i as int),
        r is None ==> slot_of_pos(regs@, pos, 0) is None,
{
    let mut i: usize = 0;
    while i < 6
        invariant
            i <= 6,
            regs@.len() == 6,
            slot_of_pos(regs@, pos, 0) == slot_of_pos(regs@, pos, i as int),
        decreases 6 - i,
    {
        if let Some(e) = regs[i] {
            if e.pos == pos {
                return Some(i);
            }
        }
        i = i + 1;
    }
    None
}

fn find_key_slot(held: &[u8; 6], key: u8) -> (r: Option<usize>)
    ensures
        r matches Some(i) ==> i < 6 && slot_of_key(held@, key, 0) == Some(i as int),
        r is None ==> slot_of_key(held@, key, 0) is None,
{
    let mut i: usize = 0;
    while i < 6
        invariant
            i <= 6,
            held@.len() == 6,
            slot_of_key(held@, key, 0) == slot_of_key(held@, key, i as int),
        decreases 6 - i,
    {
        if held[i] == key {
            return Some(i);
        }
        i = i + 1;
    }
    None
}

/// The slot a registration of `event` takes: the one its position already
/// holds, else the first free one.
pub open spec fn register_slot(s: KeyReportState, event: KeyboardEvent) -> Option<int> {
    match slot_of_pos(s.registered_keys@, event.pos, 0) {
        Some(i) => Some(i),
        None => slot_of_key(s.held_keycodes@, NO_KEY, 0),
    }
}

/// The slot an unregistration of `key` by `event` clears: the one its
/// position holds, else the first one holding `key`.
pub open spec fn unregister_slot(s: KeyReportState, key: u8, event: KeyboardEvent) -> Option<int> {
    match slot_of_pos(s.registered_keys@, event.pos, 0) {
        Some(i) => Some(i),
        None => slot_of_key(s.held_keycodes@, key, 0),
    }
}

/// `t` is the report state after normal-mode registration of `key` by
/// `event` in `s`: a modifier key adds its bit to the held modifiers (and to
/// the fork keep mask); another key takes its slot, or changes nothing when
/// all slots are taken by other positions.
pub open spec fn registered(s: KeyReportState, t: KeyReportState, key: u8, event: KeyboardEvent) -> bool {
    if spec_is_modifier(key) {
        &&& t.held_modifiers == s.held_modifiers | spec_hid_modifiers(key)
        &&& t.fork_keep_mask == s.fork_keep_mask | spec_hid_modifiers(key)
        &&& t.held_keycodes == s.held_keycodes
        &&& t.registered_keys == s.registered_keys
    } else {
        &&& t.held_modifiers == s.held_modifiers
        &&& t.fork_keep_mask == s.fork_keep_mask
        &&& match register_slot(s, event) {
            Some(i) => {
                &&& t.held_keycodes@ == s.held_keycodes@.update(i, key)
                &&& t.registered_keys@ == s.registered_keys@.update(i, Some(event))
            },
            None => t.held_keycodes == s.held_keycodes && t.registered_keys == s.registered_keys,
        }
    }
}

/// `t` is the report state after normal-mode unregistration of `key` by
/// `event` in `s`: a modifier key clears its bit; another key frees its slot.
pub open spec fn unregistered(s: KeyReportState, t: KeyReportState, key: u8, event: KeyboardEvent) -> bool {
    if spec_is_modifier(key) {
        &&& t.held_modifiers == s.held_modifiers & !spec_hid_modifiers(key)
        &&& t.fork_keep_mask == s.fork_keep_mask
        &&& t.held_keycodes == s.held_keycodes
        &&& t.registered_keys == s.registered_keys
    } else {
        &&& t.held_modifiers == s.held_modifiers
        &&& t.fork_keep_mask == s.fork_keep_mask
        &&& match unregister_slot(s, key, event) {
            Some(i) => {
                &&& t.held_keycodes@ == s.held_keycodes@.update(i, NO_KEY)
                &&& t.registered_keys@ == s.registered_keys@.update(i, None)
            },
            None => t.held_keycodes == s.held_keycodes && t.registered_keys == s.registered_keys,
        }
    }
}

/// Normal keyboard mode: registers keys into the HID report.
#[derive(Clone, Copy, Debug, PartialEq, Eq, Structural)]
pub struct NormalHandler;

impl NormalHandler {
    /// Registers `key`, pressed by `event`, in the report.
    pub fn register_key(&self, key: u8, event: KeyboardEvent, state: &mut KeyReportState)
        ensures
            registered(*old(state), *final(state), key, event),
    {
        if is_modifier(key) {
            let m = hid_modifiers(key);
            state.held_modifiers = state.held_modifiers | m;
            state.fork_keep_mask = state.fork_keep_mask | m;
        } else {
            match find_pos_slot(&state.registered_keys, event.pos) {
                Some(i) => {
                    state.held_keycodes.set(i, key);
                    state.registered_keys.set(i, Some(event));
                },
                None => {
                    match find_key_slot(&state.held_keycodes, NO_KEY) {
                        Some(i) => {
                            state.held_keycodes.set(i, key);
                            state.registered_keys.set(i, Some(event));
                        },
                        None => {},
                    }
                },
            }
        }
    }

    /// Unregisters `key`, released by `event`, from the report.
    pub fn unregister_key(&self, key: u8, event: KeyboardEvent, state: &mut KeyReportState)
        ensures
            unregistered(*old(state), *final(state), key, event),
    {
        if is_modifier(key) {
            let m = hid_modifiers(key);
            state.held_modifiers = state.held_modifiers & !m;
        } else {
            match find_pos_slot(&state.registered_keys, event.pos) {
                Some(i) => {
                    state.held_keycodes.set(i, NO_KEY);
                    state.registered_keys.set(i, None);
                },
                None => {
                    match find_key_slot(&state.held_keycodes, key) {
                        Some(i) => {
                            state.held_keycodes.set(i, NO_KEY);
                            state.registered_keys.set(i, None);
                        },
                        None => {},
                    }
                },
            }
        }
    }

    /// Normal mode forwards reports to the host.
    pub fn should_send_report(&self) -> (r: bool)
        ensures
            r,
    {
        true
    }
}

/// Passkey entry mode: key presses are collected as passkey input, never
/// registered, and no report reaches the host.
#[derive(Clone, Copy, Debug, PartialEq, Eq, Structural)]
pub struct PasskeyHandler;

impl PasskeyHandler {
    /// Passkey mode keeps reports from the host.
    pub fn should_send_report(&self) -> (r: bool)
        ensures
            !r,
    {
        false
    }
}

/// Active keyboard mode: delegates to the appropriate handler.
#[derive(Clone, Copy, Debug, PartialEq, Eq, Structural)]
pub enum KeyboardMode {
    Normal(NormalHandler),
    Passkey(PasskeyHandler),
}

impl KeyboardMode {
    /// Check if currently in passkey entry mode.
    pub fn is_passkey(&self) -> (r: bool)
        ensures
            r == (*self is Passkey),
    {
        match self {
            KeyboardMode::Normal(_) => false,
            KeyboardMode::Passkey(_) => true,
        }
    }

    /// Switch to passkey entry mode.
    pub fn enter_passkey_mode(&mut self)
        ensures
            *final(self) == KeyboardMode::Passkey(PasskeyHandler),
    {
        *self = KeyboardMode::Passkey(PasskeyHandler);
    }

    /// Switch to normal mode.
    pub fn enter_normal_mode(&mut self)
        ensures
            *final(self) == KeyboardMode::Normal(NormalHandler),
    {
        *self = KeyboardMode::Normal(NormalHandler);
    }

    /// Registers a key press: normal mode registers it, passkey mode leaves
    /// the report untouched.
    pub fn register_key(&self, key: u8, event: KeyboardEvent, state: &mut KeyReportState)
        ensures
            *self is Normal ==> registered(*old(state), *final(state), key, event),
            *self is Passkey ==> *final(state) == *old(state),
    {
        match self {
            KeyboardMode::Normal(h) => h.register_key(key, event, state),
            KeyboardMode::Passkey(_) => {},
        }
    }

    /// Unregisters a key release: normal mode unregisters it, passkey mode
    /// leaves the report untouched.
    pub fn unregister_key(&self, key: u8, event: KeyboardEvent, state: &mut KeyReportState)
        ensures
            *self is Normal ==> unregistered(*old(state), *final(state), key, event),
            *self is Passkey ==> *final(state) == *old(state),
    {
        match self {
            KeyboardMode::Normal(h) => h.unregister_key(key, event, state),
            KeyboardMode::Passkey(_) => {},
        }
    }

    /// Whether reports are forwarded to the host in this mode.
    pub fn should_send_report(&self) -> (r: bool)
        ensures
            r == (*self is Normal),
    {
        match self {
            KeyboardMode::Normal(h) => h.should_send_report(),
            KeyboardMode::Passkey(h) => h.should_send_report(),
        }
    }
}

/// Releasing a key right after pressing it at the same position, with no
/// other report change in between, frees the slot it took: the report's
/// key slots come back as they were whenever the press found a free slot.
pub proof fn lemma_press_release_restores_slots(
    s: KeyReportState,
    t: KeyReportState,
    u: KeyReportState,
    key: u8,
    press: KeyboardEvent,
    release: KeyboardEvent,
)
    requires
        !spec_is_modifier(key),
        key != NO_KEY,
        release.pos == press.pos,
        slot_of_pos(s.registered_keys@, press.pos, 0) is None,
        register_slot(s, press) is Some,
        registered(s, t, key, press),
        unregistered(t, u, key, release),
    ensures
        u.held_keycodes@ == s.held_keycodes@,
        u.registered_keys@ =~= s.registered_keys@.update(register_slot(s, press)->0, None),
{
    let i = register_slot(s, press)->0;
    lemma_slot_of_key_found(s.held_keycodes@, NO_KEY, 0);
    lemma_slot_of_pos_after_set(s.registered_keys@, press, i, 0);
    assert(u.held_keycodes@ =~= s.held_keycodes@);
}

proof fn lemma_slot_of_key_found(held: Seq<u8>, key: u8, j: int)
    requires
        0 <= j,
    ensures
        slot_of_key(held, key, j) matches Some(i) ==> j <= i < held.len() && held[i] == key,
    decreases held.len() - j,
{
    if j < held.len() && held[j] != key {
        lemma_slot_of_key_found(held, key, j + 1);
    }
}

proof fn lemma_slot_of_pos_after_set(regs: Seq<Option<KeyboardEvent>>, e: KeyboardEvent, i: int, j: int)
    requires
        0 <= j <= i < regs.len(),
        slot_of_pos(regs, e.pos, j) is None,
    ensures
        slot_of_pos(regs.update(i, Some(e)), e.pos, j) == Some(i),
    decreases i - j,
{
    if j < i {
        lemma_slot_of_pos_after_set(regs, e, i, j + 1);
    }
}

} // verus!
