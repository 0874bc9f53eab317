//! Sticky modifier, layer, and tap-key behavior.
//!
//! The three effects share one latch lifecycle, but modifier and layer state
//! remain independent. Tap keys are deliberately exclusive because they keep
//! both a HID key and modifiers live between repetitions.
//!
//! A latch starts `Pressed` (or without a press deadline); releasing its
//! key latches it until the next key (or its timeout); a foreign key
//! pressed while it is held makes it a plain held modifier or layer; a
//! press held past the configured hold threshold releases on key-up.
//! Times and durations are milliseconds; `NEVER` is an infinite duration.

use vstd::prelude::*;

use crate::event::{KeyboardEvent, KeyboardEventPos};

verus! {

/// An infinite duration: no deadline.
pub const NEVER: u64 = 0xFFFF_FFFF_FFFF_FFFF;
/// Largest time the latches accept, in ms.
pub const MAX_TIME_MS: u64 = 0x3FFF_FFFF_FFFF_FFFF;
/// Largest finite duration the policies accept, in ms.
pub const MAX_SPAN_MS: u64 = 0x3FFF_FFFF_FFFF_FFFF;

/// Release mode bit: another key's press releases the latch.
pub const OTHER_KEY_PRESS: u8 = 0x01;
/// Release mode bit: another key's release releases the latch.
pub const OTHER_KEY_RELEASE: u8 = 0x02;
/// Release mode bit: tapping the sticky key again releases the latch.
pub const DOUBLE_TAP: u8 = 0x04;
/// Release mode bit: a layer change releases the latch.
pub const LAYER_CHANGE: u8 = 0x08;

/// How a sticky key behaves.
#[derive(Clone, Copy, Debug, PartialEq, Eq, Structural)]
pub struct StickyKeyPolicy {
    /// How long a latch waits for the next key (`NEVER`: forever).
    pub timeout: u64,
    /// Send the modifiers as soon as the key is pressed.
    pub activate_on_keypress: bool,
    /// Hold threshold after which releasing the key releases the effect
    /// (`None`: disabled; `Some(NEVER)`: never reached).
    pub release_on_keyup_after: Option<u64>,
    /// Largest number of repeated taps of a tap key (0: unlimited).
    pub max_repeat: u16,
    /// Release mode bits.
    pub release_mode: u8,
}

/// Durations the latches can add to a time without overflow.
pub open spec fn policy_ok(p: StickyKeyPolicy) -> bool {
    &&& p.timeout == NEVER || p.timeout <= MAX_SPAN_MS
    &&& p.release_on_keyup_after matches Some(h) ==> h == NEVER || h <= MAX_SPAN_MS
}

/// The deadline `duration` after `start`; none for an infinite duration.
pub open spec fn deadline_from(start: u64, duration: u64) -> Option<u64> {
    if duration == NEVER {
        None
    } else {
        Some((start + duration) as u64)
    }
}

fn deadline_from_exec(start: u64, duration: u64) -> (r: Option<u64>)
    requires
        start <= MAX_TIME_MS,
        duration == NEVER || duration <= MAX_SPAN_MS,
    ensures
        r == deadline_from(start, duration),
{
    if duration == NEVER {
        None
    } else {
        Some(start + duration)
    }
}

/// The phase of a latch.
#[derive(Clone, Copy, Debug, PartialEq, Eq, Structural)]
pub enum LatchPhase {
    /// One or more physical producers are still down.
    Pressed,
    /// A producer remains down, but its press deadline is absent or
    /// consumed; the timing marker holds the chord's start.
    PressDeadlineInactive,
    /// Every producer is up and the effect is armed.
    Latched,
    /// A foreign key was pressed while a producer remained down.
    Held,
    /// The configured key-up release threshold elapsed while a producer
    /// remained down.
    HoldQualified,
}

/// What a physical release did to a latch.
#[derive(Clone, Copy, Debug, PartialEq, Eq, Structural)]
pub enum PhysicalRelease {
    Ignored,
    Latched,
    Released,
}

/// What a passed deadline does to a latch.
#[derive(Clone, Copy, Debug, PartialEq, Eq, Structural)]
pub enum DeadlineDisposition {
    /// The deadline has not passed.
    Pending,
    /// The press deadline passed while the key is down: release on key-up.
    Deferred,
    /// The latch timed out: release it.
    Release,
}

/// A sticky effect's lifecycle.
#[derive(Clone, Copy, Debug)]
pub struct Latch<T> {
    pub value: T,
    pub source: KeyboardEventPos,
    pub policy: StickyKeyPolicy,
    pub phase: LatchPhase,
    pub repeat_count: u16,
    /// Active deadline in `Pressed`/`Latched`, or the chord start while a
    /// physical producer is down and no wakeup is needed.
    pub timing_marker: Option<u64>,
    pub buffered_claim: bool,
}

/// Phase and timing marker of a press of a chord started at
/// `chord_started_at`, at `now`.
pub open spec fn spec_press_state(policy: StickyKeyPolicy, chord_started_at: u64, now: u64) -> (
    LatchPhase,
    Option<u64>,
) {
    match policy.release_on_keyup_after {
        None => (LatchPhase::PressDeadlineInactive, Some(chord_started_at)),
        Some(h) => match deadline_from(chord_started_at, h) {
            Some(d) => if d > now {
                (LatchPhase::Pressed, Some(d))
            } else {
                (LatchPhase::HoldQualified, Some(chord_started_at))
            },
            None => (LatchPhase::PressDeadlineInactive, Some(chord_started_at)),
        },
    }
}

fn press_state(policy: StickyKeyPolicy, chord_started_at: u64, now: u64) -> (r: (LatchPhase, Option<u64>))
    requires
        policy_ok(policy),
        chord_started_at <= MAX_TIME_MS,
    ensures
        r == spec_press_state(policy, chord_started_at, now),
{
    match policy.release_on_keyup_after {
        None => (LatchPhase::PressDeadlineInactive, Some(chord_started_at)),
        Some(h) => match deadline_from_exec(chord_started_at, h) {
            Some(d) => {
                if d > now {
                    (LatchPhase::Pressed, Some(d))
                } else {
                    (LatchPhase::HoldQualified, Some(chord_started_at))
                }
            },
            None => (LatchPhase::PressDeadlineInactive, Some(chord_started_at)),
        },
    }
}

/// A latch whose timing can be computed without overflow: a `Pressed`
/// latch holds a finite press deadline of a chord started in range, and a
/// chord start held otherwise is in range. Only a latched effect can be
/// claimed by a buffered press.
pub open spec fn latch_wf<T>(l: Latch<T>) -> bool {
    &&& policy_ok(l.policy)
    &&& l.buffered_claim ==> l.phase == LatchPhase::Latched
    &&& l.phase == LatchPhase::Pressed ==> (l.policy.release_on_keyup_after matches Some(h) && h != NEVER
        && (l.timing_marker matches Some(d) && h <= d && d - h <= MAX_TIME_MS))
    &&& (l.phase == LatchPhase::PressDeadlineInactive || l.phase == LatchPhase::HoldQualified) ==> (
    l.timing_marker matches Some(c) ==> c <= MAX_TIME_MS)
}

/// The chord start a press of a modifier keeps: that of the chord being
/// held, else the press itself.
pub open spec fn chord_start<T>(l: Latch<T>, pressed_at: u64) -> u64 {
    match l.phase {
        LatchPhase::Pressed => match (l.timing_marker, l.policy.release_on_keyup_after) {
            (Some(d), Some(h)) => (d - h) as u64,
            _ => pressed_at,
        },
        LatchPhase::PressDeadlineInactive | LatchPhase::HoldQualified => match l.timing_marker {
            Some(c) => c,
            None => pressed_at,
        },
        _ => pressed_at,
    }
}

/// A physical release of a latch's key (`owner`: its position, or `None`
/// for modifiers): a release from another position is ignored; a pressed
/// latch released at or after its press deadline is released, before it
/// latched with its timeout from `now`; a latch without a press deadline
/// latches; a held or hold-qualified latch is released; a latched one
/// ignores it.
pub open spec fn spec_physical_release<T>(l: Latch<T>, owner: Option<KeyboardEventPos>, now: u64) -> (
    Latch<T>,
    PhysicalRelease,
) {
    if owner matches Some(o) && o != l.source {
        (l, PhysicalRelease::Ignored)
    } else {
        match l.phase {
            LatchPhase::Pressed => if l.timing_marker matches Some(d) && d <= now {
                (Latch { phase: LatchPhase::HoldQualified, timing_marker: None, ..l }, PhysicalRelease::Released)
            } else {
                (
                    Latch {
                        phase: LatchPhase::Latched,
                        timing_marker: deadline_from(now, l.policy.timeout),
                        ..l
                    },
                    PhysicalRelease::Latched,
                )
            },
            LatchPhase::PressDeadlineInactive => (
                Latch { phase: LatchPhase::Latched, timing_marker: deadline_from(now, l.policy.timeout), ..l },
                PhysicalRelease::Latched,
            ),
            LatchPhase::Held | LatchPhase::HoldQualified => (
                Latch { timing_marker: None, ..l },
                PhysicalRelease::Released,
            ),
            LatchPhase::Latched => (l, PhysicalRelease::Ignored),
        }
    }
}

/// What a deadline passed at `now` does: nothing before the deadline; a
/// passed press deadline defers the release to key-up, keeping the chord's
/// start; a passed latch timeout releases.
pub open spec fn spec_deadline_disposition<T>(l: Latch<T>, now: u64) -> (Latch<T>, DeadlineDisposition) {
    if !(l.spec_deadline() matches Some(d) && d <= now) {
        (l, DeadlineDisposition::Pending)
    } else if l.phase == LatchPhase::Pressed {
        (
            Latch { phase: LatchPhase::HoldQualified, timing_marker: Some(chord_start(l, now)), ..l },
            DeadlineDisposition::Deferred,
        )
    } else {
        (l, DeadlineDisposition::Release)
    }
}

/// A latch after a foreign press at `source` went into the held buffer:
/// a latched effect that the press will consume stops its timeout.
pub open spec fn claimed<T>(l: Latch<T>, source: KeyboardEventPos) -> Latch<T> {
    if l.phase == LatchPhase::Latched && l.source != source && l.policy.release_mode & OTHER_KEY_PRESS != 0 {
        Latch { buffered_claim: true, timing_marker: None, ..l }
    } else {
        l
    }
}

/// A latch after the buffered press was resolved at `now`: a claimed
/// latch's timeout starts again.
pub open spec fn claim_finished<T>(l: Latch<T>, now: u64) -> Latch<T> {
    if l.buffered_claim {
        Latch { buffered_claim: false, timing_marker: deadline_from(now, l.policy.timeout), ..l }
    } else {
        l
    }
}

/// An optional latch after a foreign press at `source` was buffered.
pub open spec fn claimed_opt<T>(o: Option<Latch<T>>, source: KeyboardEventPos) -> Option<Latch<T>> {
    match o {
        Some(l) => Some(claimed(l, source)),
        None => None,
    }
}

/// An optional latch after the buffered press was resolved at `now`.
pub open spec fn claim_finished_opt<T>(o: Option<Latch<T>>, now: u64) -> Option<Latch<T>> {
    match o {
        Some(l) => Some(claim_finished(l, now)),
        None => None,
    }
}

impl<T> Latch<T> {
    /// A latch of a key pressed at `pressed_at`.
    pub fn new(value: T, source: KeyboardEventPos, policy: StickyKeyPolicy, pressed_at: u64) -> (r: Self)
        requires
            policy_ok(policy),
            pressed_at <= MAX_TIME_MS,
        ensures
            latch_wf(r),
            r.value == value,
            r.source == source,
            r.policy == policy,
            (r.phase, r.timing_marker) == spec_press_state(policy, pressed_at, pressed_at),
            r.repeat_count == 1,
            !r.buffered_claim,
    {
        let (phase, timing_marker) = press_state(policy, pressed_at, pressed_at);
        Latch { value, source, policy, phase, repeat_count: 1, timing_marker, buffered_claim: false }
    }

    /// The deadline to wake up for: the press deadline or the latch
    /// timeout.
    pub open spec fn spec_deadline(&self) -> Option<u64> {
        if self.phase == LatchPhase::Pressed || self.phase == LatchPhase::Latched {
            self.timing_marker
        } else {
            None
        }
    }

    /// The deadline to wake up for.
    pub fn deadline(&self) -> (r: Option<u64>)
        ensures
            r == self.spec_deadline(),
    {
        match self.phase {
            LatchPhase::Pressed | LatchPhase::Latched => self.timing_marker,
            _ => None,
        }
    }

    /// A new press of the latch's key (or of a key taking it over).
    pub fn begin_press(&mut self, source: KeyboardEventPos, policy: StickyKeyPolicy, pressed_at: u64)
        requires
            policy_ok(policy),
            pressed_at <= MAX_TIME_MS,
        ensures
            latch_wf(*final(self)),
            final(self).value == old(self).value,
            final(self).source == source,
            final(self).policy == policy,
            (final(self).phase, final(self).timing_marker) == spec_press_state(policy, pressed_at, pressed_at),
            final(self).repeat_count == old(self).repeat_count,
            !final(self).buffered_claim,
    {
        self.source = source;
        self.policy = policy;
        let (phase, marker) = press_state(policy, pressed_at, pressed_at);
        self.phase = phase;
        self.timing_marker = marker;
        self.buffered_claim = false;
    }

    /// Adds a producer to the current modifier chord without forgetting how
    /// long the chord has already been held. The latest producer selects the
    /// policy, but its threshold is measured from the chord's first press.
    pub fn begin_modifier_press(&mut self, source: KeyboardEventPos, policy: StickyKeyPolicy, pressed_at: u64)
        requires
            latch_wf(*old(self)),
            policy_ok(policy),
            pressed_at <= MAX_TIME_MS,
        ensures
            latch_wf(*final(self)),
            final(self).value == old(self).value,
            final(self).source == source,
            final(self).policy == policy,
            (final(self).phase, final(self).timing_marker) == spec_press_state(
                policy,
                chord_start(*old(self), pressed_at),
                pressed_at,
            ),
            final(self).repeat_count == old(self).repeat_count,
            !final(self).buffered_claim,
    {
        let chord_started_at = match self.phase {
            LatchPhase::Pressed => match (self.timing_marker, self.policy.release_on_keyup_after) {
                (Some(d), Some(h)) => d - h,
                _ => pressed_at,
            },
            LatchPhase::PressDeadlineInactive | LatchPhase::HoldQualified => match self.timing_marker {
                Some(c) => c,
                None => pressed_at,
            },
            _ => pressed_at,
        };
        self.source = source;
        self.policy = policy;
        let (phase, marker) = press_state(policy, chord_started_at, pressed_at);
        self.phase = phase;
        self.timing_marker = marker;
        self.buffered_claim = false;
    }

    /// A physical release of the latch's key (`owner`: its position, or
    /// `None` for modifiers, whose producers are tracked by the effect).
    pub fn on_physical_release(&mut self, owner: Option<KeyboardEventPos>, now: u64) -> (r: PhysicalRelease)
        requires
            latch_wf(*old(self)),
            now <= MAX_TIME_MS,
        ensures
            latch_wf(*final(self)),
            final(self).value == old(self).value,
            final(self).source == old(self).source,
            final(self).policy == old(self).policy,
            final(self).repeat_count == old(self).repeat_count,
            final(self).buffered_claim == old(self).buffered_claim,
            (*final(self), r) == spec_physical_release(*old(self), owner, now),
    {
        if let Some(o) = owner {
            if o != self.source {
                return PhysicalRelease::Ignored;
            }
        }
        match self.phase {
            LatchPhase::Pressed => {
                let passed = match self.timing_marker {
                    Some(d) => d <= now,
                    None => false,
                };
                if self.policy.release_on_keyup_after.is_some() && passed {
                    self.phase = LatchPhase::HoldQualified;
                    self.timing_marker = None;
                    return PhysicalRelease::Released;
                }
                self.phase = LatchPhase::Latched;
                self.timing_marker = deadline_from_exec(now, self.policy.timeout);
                PhysicalRelease::Latched
            },
            LatchPhase::PressDeadlineInactive => {
                self.phase = LatchPhase::Latched;
                self.timing_marker = deadline_from_exec(now, self.policy.timeout);
                PhysicalRelease::Latched
            },
            LatchPhase::Held | LatchPhase::HoldQualified => {
                self.timing_marker = None;
                PhysicalRelease::Released
            },
            LatchPhase::Latched => PhysicalRelease::Ignored,
        }
    }

    /// A foreign key was pressed while the latch's key is down: it becomes a
    /// plain held effect.
    pub fn mark_foreign_key(&mut self)
        requires
            latch_wf(*old(self)),
        ensures
            latch_wf(*final(self)),
            ({
                let l = *old(self);
                if l.phase == LatchPhase::Pressed || l.phase == LatchPhase::PressDeadlineInactive || l.phase
                    == LatchPhase::HoldQualified {
                    *final(self) == (Latch { phase: LatchPhase::Held, timing_marker: None, ..l })
                } else {
                    *final(self) == l
                }
            }),
    {
        match self.phase {
            LatchPhase::Pressed | LatchPhase::PressDeadlineInactive | LatchPhase::HoldQualified => {
                self.phase = LatchPhase::Held;
                self.timing_marker = None;
            },
            _ => {},
        }
    }

    /// Whether another key's press (or release) releases the latch.
    pub fn trigger_for_key(&self, pressed: bool) -> (r: bool)
        ensures
            r == (self.policy.release_mode & (if pressed {
                OTHER_KEY_PRESS
            } else {
                OTHER_KEY_RELEASE
            }) != 0),
    {
        let trigger = if pressed {
            OTHER_KEY_PRESS
        } else {
            OTHER_KEY_RELEASE
        };
        self.policy.release_mode & trigger != 0
    }

    /// A foreign press went into the held buffer: a latch it will consume
    /// stops its timeout until the press is resolved.
    pub fn claim_buffered_press(&mut self, source: KeyboardEventPos)
        requires
            latch_wf(*old(self)),
        ensures
            latch_wf(*final(self)),
            ({
                let l = *old(self);
                if l.phase == LatchPhase::Latched && l.source != source && l.policy.release_mode
                    & OTHER_KEY_PRESS != 0 {
                    *final(self) == (Latch { buffered_claim: true, timing_marker: None, ..l })
                } else {
                    *final(self) == l
                }
            }),
    {
        if self.phase == LatchPhase::Latched && self.source != source && self.trigger_for_key(true) {
            self.buffered_claim = true;
            self.timing_marker = None;
        }
    }

    /// The buffered press was resolved: the timeout starts again at `now`.
    pub fn finish_buffered_claim(&mut self, now: u64)
        requires
            latch_wf(*old(self)),
            now <= MAX_TIME_MS,
        ensures
            latch_wf(*final(self)),
            old(self).buffered_claim ==> *final(self) == (Latch {
                buffered_claim: false,
                timing_marker: deadline_from(now, old(self).policy.timeout),
                ..*old(self)
            }),
            !old(self).buffered_claim ==> *final(self) == *old(self),
    {
        if self.buffered_claim {
            self.buffered_claim = false;
            self.timing_marker = deadline_from_exec(now, self.policy.timeout);
        }
    }

    /// A press of the latch's own key while latched, with double tap
    /// enabled, releases it.
    pub fn is_double_tap(&self, source: KeyboardEventPos, policy: StickyKeyPolicy) -> (r: bool)
        ensures
            r == (self.phase == LatchPhase::Latched && self.source == source && policy.release_mode & DOUBLE_TAP
                != 0),
    {
        self.phase == LatchPhase::Latched && self.source == source && policy.release_mode & DOUBLE_TAP != 0
    }

    /// What a deadline passed at `now` does. A timeout cannot erase a latch
    /// whose physical producer is still down: its later release must still
    /// complete the lifecycle.
    pub fn deadline_disposition(&mut self, now: u64) -> (r: DeadlineDisposition)
        requires
            latch_wf(*old(self)),
        ensures
            latch_wf(*final(self)),
            (*final(self), r) == spec_deadline_disposition(*old(self), now),
    {
        let d = match self.deadline() {
            Some(d) => d,
            None => {
                return DeadlineDisposition::Pending;
            },
        };
        if d > now {
            return DeadlineDisposition::Pending;
        }
        if self.phase == LatchPhase::Pressed {
            let start = match self.policy.release_on_keyup_after {
                Some(h) => d - h,
                None => d,
            };
            self.timing_marker = Some(start);
            self.phase = LatchPhase::HoldQualified;
            DeadlineDisposition::Deferred
        } else {
            DeadlineDisposition::Release
        }
    }
}

/// Number of simultaneous producers a sticky modifier tracks.
pub const MAX_STICKY_MODIFIER_PRODUCERS: usize = 8;

/// A key holding sticky modifiers: its position and modifiers.
#[derive(Clone, Copy, Debug, PartialEq, Eq, Structural)]
pub struct ModifierProducer {
    pub source: KeyboardEventPos,
    pub modifiers: u8,
}

/// The first free slot of `slots` from `i` on.
pub open spec fn free_slot(slots: Seq<Option<ModifierProducer>>, i: int) -> Option<int>
    decreases slots.len() - i,
{
    if i < 0 || i >= slots.len() {
        None
    } else if slots[i] is None {
        Some(i)
    } else {
        free_slot(slots, i + 1)
    }
}

/// The first slot of `slots` from `i` on holding exactly `p`.
pub open spec fn exact_slot(slots: Seq<Option<ModifierProducer>>, p: ModifierProducer, i: int) -> Option<int>
    decreases slots.len() - i,
{
    if i < 0 || i >= slots.len() {
        None
    } else if slots[i] == Some(p) {
        Some(i)
    } else {
        exact_slot(slots, p, i + 1)
    }
}

/// The first slot of `slots` from `i` on holding a producer of modifiers
/// `m`.
pub open spec fn modifier_slot(slots: Seq<Option<ModifierProducer>>, m: u8, i: int) -> Option<int>
    decreases slots.len() - i,
{
    if i < 0 || i >= slots.len() {
        None
    } else if slots[i] matches Some(p) && p.modifiers == m {
        Some(i)
    } else {
        modifier_slot(slots, m, i + 1)
    }
}

fn find_free_slot(slots: &[Option<ModifierProducer>; 8]) -> (r: Option<usize>)
    ensures
        r matches Some(i) ==> i < 8 && free_slot(slots@, 0) == Some(i as int),
        r is None ==> free_slot(slots@, 0) is None,
{
    let mut i: usize = 0;
    while i < 8
        invariant
            i <= 8,
            slots@.len() == 8,
            free_slot(slots@, 0) == free_slot(slots@, i as int),
        decreases 8 - i,
    {
        if slots[i].is_none() {
            return Some(i);
        }
        i = i + 1;
    }
    None
}

fn find_exact_slot(slots: &[Option<ModifierProducer>; 8], p: ModifierProducer) -> (r: Option<usize>)
    ensures
        r matches Some(i) ==> i < 8 && exact_slot(slots@, p, 0) == Some(i as int),
        r is None ==> exact_slot(slots@, p, 0) is None,
{
    let mut i: usize = 0;
    while i < 8
        invariant
            i <= 8,
            slots@.len() == 8,
            exact_slot(slots@, p, 0) == exact_slot(slots@, p, i as int),
        decreases 8 - i,
    {
        if slots[i] == Some(p) {
            return Some(i);
        }
        i = i + 1;
    }
    None
}

fn find_modifier_slot(slots: &[Option<ModifierProducer>; 8], m: u8) -> (r: Option<usize>)
    ensures
        r matches Some(i) ==> i < 8 && modifier_slot(slots@, m, 0) == Some(i as int),
        r is None ==> modifier_slot(slots@, m, 0) is None,
{
    let mut i: usize = 0;
    while i < 8
        invariant
            i <= 8,
            slots@.len() == 8,
            modifier_slot(slots@, m, 0) == modifier_slot(slots@, m, i as int),
        decreases 8 - i,
    {
        if let Some(p) = slots[i] {
            if p.modifiers == m {
                return Some(i);
            }
        }
        i = i + 1;
    }
    None
}

/// `slots` with `p` in its first free slot (unchanged when full).
pub open spec fn with_producer(slots: Seq<Option<ModifierProducer>>, p: ModifierProducer) -> Seq<
    Option<ModifierProducer>,
> {
    match free_slot(slots, 0) {
        Some(i) => slots.update(i, Some(p)),
        None => slots,
    }
}

/// Physical ownership and host-report state of accumulated sticky
/// modifiers. Positions tell a canceled producer's late release from a
/// newer latch; the modifier fallback serves combo outputs, whose release
/// can come from another position than their press.
#[derive(Clone, Copy, Debug)]
pub struct StickyModifierEffect {
    pub modifiers: u8,
    pub producers: [Option<ModifierProducer>; 8],
    pub host_visible: bool,
}

impl StickyModifierEffect {
    /// The effect of a first modifier key.
    pub fn new(modifiers: u8, source: KeyboardEventPos) -> (r: Self)
        ensures
            r.modifiers == modifiers,
            r.producers@ == seq![Some(ModifierProducer { source, modifiers })].add(
                Seq::new(7, |i: int| None::<ModifierProducer>),
            ),
            !r.host_visible,
    {
        let mut effect = StickyModifierEffect { modifiers: 0, producers: [None; 8], host_visible: false };
        effect.begin_press(modifiers, source);
        assert(0u8 | modifiers == modifiers) by (bit_vector);
        proof {
            assert(free_slot(seq![None::<ModifierProducer>, None, None, None, None, None, None, None], 0) == Some(0int));
        }
        assert(effect.producers@ =~= seq![Some(ModifierProducer { source, modifiers })].add(
            Seq::new(7, |i: int| None::<ModifierProducer>),
        ));
        effect
    }

    /// Another modifier key joins the effect.
    pub fn begin_press(&mut self, modifiers: u8, source: KeyboardEventPos)
        ensures
            final(self).modifiers == old(self).modifiers | modifiers,
            final(self).producers@ == with_producer(old(self).producers@, ModifierProducer { source, modifiers }),
            final(self).host_visible == old(self).host_visible,
    {
        self.modifiers = self.modifiers | modifiers;
        let producer = ModifierProducer { source, modifiers };
        match find_free_slot(&self.producers) {
            Some(i) => {
                self.producers.set(i, Some(producer));
            },
            None => {},
        }
    }

    /// Frees producer slot `index`; returns whether no producer is left.
    pub fn release_at(&mut self, index: usize) -> (r: bool)
        requires
            index < 8,
        ensures
            final(self).producers@ == old(self).producers@.update(index as int, None),
            final(self).modifiers == old(self).modifiers,
            final(self).host_visible == old(self).host_visible,
            r == (forall|i: int| 0 <= i < 8 ==> #[trigger] final(self).producers@[i] is None),
    {
        self.producers.set(index, None);
        let mut i: usize = 0;
        while i < 8
            invariant
                i <= 8,
                self.producers@.len() == 8,
                self.producers@ == old(self).producers@.update(index as int, None),
                self.modifiers == old(self).modifiers,
                self.host_visible == old(self).host_visible,
                forall|k: int| 0 <= k < i ==> #[trigger] self.producers@[k] is None,
            decreases 8 - i,
        {
            if self.producers[i].is_some() {
                return false;
            }
            i = i + 1;
        }
        true
    }

    /// The release of exactly the producer (`modifiers`, `source`): `None`
    /// when there is no such producer, else whether it was the last.
    pub fn on_exact_release(&mut self, modifiers: u8, source: KeyboardEventPos) -> (r: Option<bool>)
        ensures
            final(self).modifiers == old(self).modifiers,
            final(self).host_visible == old(self).host_visible,
            match exact_slot(old(self).producers@, ModifierProducer { source, modifiers }, 0) {
                Some(i) => final(self).producers@ == old(self).producers@.update(i, None) && r == Some(
                    forall|k: int| 0 <= k < 8 ==> #[trigger] final(self).producers@[k] is None,
                ),
                None => r is None && final(self).producers == old(self).producers,
            },
    {
        let exact = ModifierProducer { source, modifiers };
        match find_exact_slot(&self.producers, exact) {
            Some(i) => Some(self.release_at(i)),
            None => None,
        }
    }

    /// The release of a combo output with these modifiers (whose position
    /// may differ from its press): frees the first producer of these
    /// modifiers.
    pub fn on_combo_release(&mut self, modifiers: u8) -> (r: Option<bool>)
        ensures
            final(self).modifiers == old(self).modifiers,
            final(self).host_visible == old(self).host_visible,
            match modifier_slot(old(self).producers@, modifiers, 0) {
                Some(i) => final(self).producers@ == old(self).producers@.update(i, None) && r == Some(
                    forall|k: int| 0 <= k < 8 ==> #[trigger] final(self).producers@[k] is None,
                ),
                None => r is None && final(self).producers == old(self).producers,
            },
    {
        match find_modifier_slot(&self.producers, modifiers) {
            Some(i) => Some(self.release_at(i)),
            None => None,
        }
    }
}

/// Layer held by a sticky key.
#[derive(Clone, Copy, Debug, PartialEq, Eq, Structural)]
pub struct StickyLayerEffect {
    pub layer: u8,
}

/// Key and modifiers of a sticky tap key.
#[derive(Clone, Copy, Debug, PartialEq, Eq, Structural)]
pub struct TapKeyEffect {
    pub key: u8,
    pub modifiers: u8,
}

/// What a foreign key event did to the sticky modifier.
#[derive(Clone, Copy, Debug, PartialEq, Eq, Structural, Default)]
pub struct StickyKeyUpdate {
    pub modifier_consumed: bool,
    pub modifier_was_host_visible: bool,
}

/// Sticky effects: modifier and layer can coexist with their own
/// policies, phases, sources and deadlines; a tap key is exclusive with
/// both.
#[derive(Clone, Copy, Debug)]
pub struct StickyKeyState {
    pub modifier: Option<Latch<StickyModifierEffect>>,
    pub canceled_modifier_releases: [Option<ModifierProducer>; 8],
    pub layer: Option<Latch<StickyLayerEffect>>,
    pub tap_key: Option<Latch<TapKeyEffect>>,
}

/// The latches of a state are well formed.
pub open spec fn state_wf(s: StickyKeyState) -> bool {
    &&& s.modifier matches Some(l) ==> latch_wf(l)
    &&& s.layer matches Some(l) ==> latch_wf(l)
    &&& s.tap_key matches Some(l) ==> latch_wf(l)
}

/// The earlier of two optional deadlines.
pub open spec fn earliest(a: Option<u64>, b: Option<u64>) -> Option<u64> {
    match (a, b) {
        (Some(x), Some(y)) => Some(if x <= y { x } else { y }),
        (Some(x), None) => Some(x),
        (None, y) => y,
    }
}

fn earliest_exec(a: Option<u64>, b: Option<u64>) -> (r: Option<u64>)
    ensures
        r == earliest(a, b),
{
    match (a, b) {
        (Some(x), Some(y)) => Some(if x <= y { x } else { y }),
        (Some(x), None) => Some(x),
        (None, y) => y,
    }
}

impl Default for StickyKeyState {
    fn default() -> (r: Self)
        ensures
            r.modifier is None,
            r.layer is None,
            r.tap_key is None,
            forall|i: int| 0 <= i < 8 ==> #[trigger] r.canceled_modifier_releases@[i] is None,
    {
        StickyKeyState { modifier: None, canceled_modifier_releases: [None; 8], layer: None, tap_key: None }
    }
}

impl StickyKeyState {
    /// Remembers the producer of a canceled latch, so that its late
    /// release is swallowed (dropped when all slots are taken).
    pub fn remember_canceled_modifier_release(&mut self, producer: ModifierProducer)
        ensures
            final(self).canceled_modifier_releases@ == with_producer(old(self).canceled_modifier_releases@, producer),
            final(self).modifier == old(self).modifier,
            final(self).layer == old(self).layer,
            final(self).tap_key == old(self).tap_key,
    {
        match find_free_slot(&self.canceled_modifier_releases) {
            Some(i) => {
                self.canceled_modifier_releases.set(i, Some(producer));
            },
            None => {},
        }
    }

    /// Swallows the release of a canceled producer, by exact position and
    /// modifiers; returns whether there was one.
    pub fn consume_exact_canceled_modifier_release(&mut self, modifiers: u8, source: KeyboardEventPos) -> (r: bool)
        ensures
            final(self).modifier == old(self).modifier,
            final(self).layer == old(self).layer,
            final(self).tap_key == old(self).tap_key,
            match exact_slot(old(self).canceled_modifier_releases@, ModifierProducer { source, modifiers }, 0) {
                Some(i) => r && final(self).canceled_modifier_releases@ == old(
                    self,
                ).canceled_modifier_releases@.update(i, None),
                None => !r && final(self).canceled_modifier_releases == old(self).canceled_modifier_releases,
            },
    {
        let exact = ModifierProducer { source, modifiers };
        match find_exact_slot(&self.canceled_modifier_releases, exact) {
            Some(i) => {
                self.canceled_modifier_releases.set(i, None);
                true
            },
            None => false,
        }
    }

    /// Swallows the release of a canceled combo producer of these
    /// modifiers; returns whether there was one.
    pub fn consume_canceled_combo_release(&mut self, modifiers: u8) -> (r: bool)
        ensures
            final(self).modifier == old(self).modifier,
            final(self).layer == old(self).layer,
            final(self).tap_key == old(self).tap_key,
            match modifier_slot(old(self).canceled_modifier_releases@, modifiers, 0) {
                Some(i) => r && final(self).canceled_modifier_releases@ == old(
                    self,
                ).canceled_modifier_releases@.update(i, None),
                None => !r && final(self).canceled_modifier_releases == old(self).canceled_modifier_releases,
            },
    {
        match find_modifier_slot(&self.canceled_modifier_releases, modifiers) {
            Some(i) => {
                self.canceled_modifier_releases.set(i, None);
                true
            },
            None => false,
        }
    }

    /// The earliest deadline of the sticky effects.
    pub fn deadline(&self) -> (r: Option<u64>)
        ensures
            r == earliest(
                earliest(
                    match self.modifier {
                        Some(l) => l.spec_deadline(),
                        None => None,
                    },
                    match self.layer {
                        Some(l) => l.spec_deadline(),
                        None => None,
                    },
                ),
                match self.tap_key {
                    Some(l) => l.spec_deadline(),
                    None => None,
                },
            ),
    {
        let m = match &self.modifier {
            Some(l) => l.deadline(),
            None => None,
        };
        let l = match &self.layer {
            Some(l) => l.deadline(),
            None => None,
        };
        let t = match &self.tap_key {
            Some(l) => l.deadline(),
            None => None,
        };
        earliest_exec(earliest_exec(m, l), t)
    }

    /// Whether a sticky tap key is active.
    pub fn has_tap_key(&self) -> (r: bool)
        ensures
            r == (self.tap_key is Some),
    {
        self.tap_key.is_some()
    }

    /// Whether another key's press (or release) releases the tap key.
    pub fn tap_key_releases_on(&self, pressed: bool) -> (r: bool)
        ensures
            r == (self.tap_key matches Some(l) && l.policy.release_mode & (if pressed {
                OTHER_KEY_PRESS
            } else {
                OTHER_KEY_RELEASE
            }) != 0),
    {
        match &self.tap_key {
            Some(l) => l.trigger_for_key(pressed),
            None => false,
        }
    }

    /// Whether another key's press releases the sticky modifier.
    pub fn modifier_releases_on_press(&self) -> (r: bool)
        ensures
            r == (self.modifier matches Some(l) && l.policy.release_mode & OTHER_KEY_PRESS != 0),
    {
        match &self.modifier {
            Some(l) => l.trigger_for_key(true),
            None => false,
        }
    }

    /// The sticky modifiers in effect for a report of a press (or a
    /// release): the sticky modifier's own on a press or while held as a
    /// plain modifier, and the tap key's.
    pub fn modifiers(&self, pressed: bool) -> (r: u8)
        ensures
            r == ((match self.modifier {
                Some(l) => if pressed || l.phase == LatchPhase::Held {
                    l.value.modifiers
                } else {
                    0u8
                },
                None => 0u8,
            }) | (match self.tap_key {
                Some(l) => l.value.modifiers,
                None => 0u8,
            })),
    {
        let m: u8 = match &self.modifier {
            Some(l) => {
                if pressed || l.phase == LatchPhase::Held {
                    l.value.modifiers
                } else {
                    0
                }
            },
            None => 0,
        };
        let t: u8 = match &self.tap_key {
            Some(l) => l.value.modifiers,
            None => 0,
        };
        m | t
    }

    /// The sticky modifier has been sent to the host.
    pub fn mark_modifier_host_visible(&mut self)
        ensures
            final(self).layer == old(self).layer,
            final(self).tap_key == old(self).tap_key,
            final(self).canceled_modifier_releases == old(self).canceled_modifier_releases,
            match old(self).modifier {
                Some(l) => final(self).modifier == Some(
                    Latch { value: StickyModifierEffect { host_visible: true, ..l.value }, ..l },
                ),
                None => final(self).modifier is None,
            },
    {
        if let Some(l) = self.modifier {
            let mut l2 = l;
            l2.value.host_visible = true;
            self.modifier = Some(l2);
        }
    }

    /// A foreign press went into the held buffer: latches it will consume
    /// stop their timeouts until it is resolved.
    pub fn claim_buffered_press(&mut self, event: KeyboardEvent)
        requires
            state_wf(*old(self)),
        ensures
            state_wf(*final(self)),
            final(self).canceled_modifier_releases == old(self).canceled_modifier_releases,
            (final(self).modifier is Some) == (old(self).modifier is Some),
            (final(self).layer is Some) == (old(self).layer is Some),
            (final(self).tap_key is Some) == (old(self).tap_key is Some),
            final(self).modifier == (if event.pressed {
                claimed_opt(old(self).modifier, event.pos)
            } else {
                old(self).modifier
            }),
            final(self).layer == (if event.pressed {
                claimed_opt(old(self).layer, event.pos)
            } else {
                old(self).layer
            }),
            final(self).tap_key == (if event.pressed {
                claimed_opt(old(self).tap_key, event.pos)
            } else {
                old(self).tap_key
            }),
    {
        if !event.pressed {
            return;
        }
        if let Some(l) = self.modifier {
            let mut l2 = l;
            l2.claim_buffered_press(event.pos);
            self.modifier = Some(l2);
        }
        if let Some(l) = self.layer {
            let mut l2 = l;
            l2.claim_buffered_press(event.pos);
            self.layer = Some(l2);
        }
        if let Some(l) = self.tap_key {
            let mut l2 = l;
            l2.claim_buffered_press(event.pos);
            self.tap_key = Some(l2);
        }
    }

    /// The buffered press was resolved at `now`.
    pub fn finish_buffered_claim(&mut self, now: u64)
        requires
            state_wf(*old(self)),
            now <= MAX_TIME_MS,
        ensures
            state_wf(*final(self)),
            final(self).canceled_modifier_releases == old(self).canceled_modifier_releases,
            (final(self).modifier is Some) == (old(self).modifier is Some),
            (final(self).layer is Some) == (old(self).layer is Some),
            (final(self).tap_key is Some) == (old(self).tap_key is Some),
            final(self).modifier == claim_finished_opt(old(self).modifier, now),
            final(self).layer == claim_finished_opt(old(self).layer, now),
            final(self).tap_key == claim_finished_opt(old(self).tap_key, now),
    {
        if let Some(l) = self.modifier {
            let mut l2 = l;
            l2.finish_buffered_claim(now);
            self.modifier = Some(l2);
        }
        if let Some(l) = self.layer {
            let mut l2 = l;
            l2.finish_buffered_claim(now);
            self.layer = Some(l2);
        }
        if let Some(l) = self.tap_key {
            let mut l2 = l;
            l2.finish_buffered_claim(now);
            self.tap_key = Some(l2);
        }
    }

    /// Applies a foreign key event to the modifier and layer latches: a
    /// latch whose key is still down becomes held; a latched one that the
    /// event releases is removed. Returns the update and the layer to
    /// deactivate, if any.
    pub fn update_sticky_key(&mut self, event: KeyboardEvent) -> (r: (StickyKeyUpdate, Option<u8>))
        requires
            state_wf(*old(self)),
        ensures
            state_wf(*final(self)),
            final(self).canceled_modifier_releases == old(self).canceled_modifier_releases,
            final(self).tap_key == old(self).tap_key,
            match old(self).modifier {
                Some(l) => if l.phase == LatchPhase::Latched && l.policy.release_mode & (if event.pressed {
                    OTHER_KEY_PRESS
                } else {
                    OTHER_KEY_RELEASE
                }) != 0 {
                    final(self).modifier is None && r.0.modifier_consumed && r.0.modifier_was_host_visible
                        == l.value.host_visible
                } else {
                    !r.0.modifier_consumed && !r.0.modifier_was_host_visible && (final(self).modifier matches Some(
                        l2,
                    ) && l2.value == l.value && l2.source == l.source && ((l.phase == LatchPhase::Pressed
                        || l.phase == LatchPhase::PressDeadlineInactive || l.phase == LatchPhase::HoldQualified)
                        ==> l2.phase == LatchPhase::Held))
                },
                None => final(self).modifier is None && r.0 == StickyKeyUpdate {
                    modifier_consumed: false,
                    modifier_was_host_visible: false,
                },
            },
            match old(self).layer {
                Some(l) => if l.phase == LatchPhase::Latched && l.policy.release_mode & (if event.pressed {
                    OTHER_KEY_PRESS
                } else {
                    OTHER_KEY_RELEASE
                }) != 0 {
                    final(self).layer is None && r.1 == Some(l.value.layer)
                } else {
                    r.1 is None && (final(self).layer matches Some(l2) && l2.value == l.value && l2.source
                        == l.source && ((l.phase == LatchPhase::Pressed || l.phase
                        == LatchPhase::PressDeadlineInactive || l.phase == LatchPhase::HoldQualified) ==> l2.phase
                        == LatchPhase::Held))
                },
                None => final(self).layer is None && r.1 is None,
            },
    {
        let mut update = StickyKeyUpdate { modifier_consumed: false, modifier_was_host_visible: false };
        if let Some(l) = self.modifier {
            let mut l2 = l;
            match l2.phase {
                LatchPhase::Pressed | LatchPhase::PressDeadlineInactive | LatchPhase::HoldQualified => {
                    l2.mark_foreign_key();
                    self.modifier = Some(l2);
                },
                LatchPhase::Latched => {
                    if l2.trigger_for_key(event.pressed) {
                        update.modifier_was_host_visible = l2.value.host_visible;
                        self.modifier = None;
                        update.modifier_consumed = true;
                    }
                },
                LatchPhase::Held => {},
            }
        }
        let mut released_layer: Option<u8> = None;
        if let Some(l) = self.layer {
            let mut l2 = l;
            match l2.phase {
                LatchPhase::Pressed | LatchPhase::PressDeadlineInactive | LatchPhase::HoldQualified => {
                    l2.mark_foreign_key();
                    self.layer = Some(l2);
                },
                LatchPhase::Latched => {
                    if l2.trigger_for_key(event.pressed) {
                        released_layer = Some(l2.value.layer);
                        self.layer = None;
                    }
                },
                LatchPhase::Held => {},
            }
        }
        (update, released_layer)
    }
}

/// The hold threshold is inclusive and does not depend on whether the
/// press deadline was polled: a release at or after the deadline releases
/// the effect, directly or after the deadline deferred it; a release
/// before the deadline latches the effect with its timeout.
pub proof fn lemma_hold_threshold_is_inclusive<T>(l: Latch<T>, polled_at: u64, now: u64)
    requires
        latch_wf(l),
        l.phase == LatchPhase::Pressed,
    ensures
        ({
            let d = l.timing_marker->0;
            &&& d <= now ==> spec_physical_release(l, None, now).1 == PhysicalRelease::Released
            &&& d <= polled_at <= now ==> {
                &&& spec_deadline_disposition(l, polled_at).1 == DeadlineDisposition::Deferred
                &&& spec_physical_release(spec_deadline_disposition(l, polled_at).0, None, now).1
                    == PhysicalRelease::Released
            }
            &&& now < d ==> spec_physical_release(l, None, now) == (
                Latch { phase: LatchPhase::Latched, timing_marker: deadline_from(now, l.policy.timeout), ..l },
                PhysicalRelease::Latched,
            )
        }),
{
}

} // verus!
