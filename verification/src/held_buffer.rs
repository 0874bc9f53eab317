//! The buffer of held keys: keys whose press is not resolved yet (morse
//! keys waiting for their pattern, combo components waiting for the rest
//! of the combo, and plain keys pressed meanwhile). It is kept sorted by
//! timeout so that the next key to time out comes first; removing a key
//! by position keeps the order of the others.
//!
//! Morse patterns are `u16` values: `0b1` is the empty pattern, and each
//! step shifts in a 0 (tap) or a 1 (hold).

use vstd::prelude::*;

use crate::action::{BoundAction, KeyBinding};
use crate::combo::{bindings_match, index_of, same_binding};
use crate::decision::HOLD_BUFFER_SIZE;
use crate::event::{KeyboardEvent, KeyboardEventPos};

verus! {

/// The empty morse pattern.
pub const EMPTY_PATTERN: u16 = 0b1;

/// A pattern followed by a tap.
pub open spec fn spec_followed_by_tap(p: u16) -> u16 {
    ((p as int * 2) % 0x10000) as u16
}

/// A pattern followed by a hold.
pub open spec fn spec_followed_by_hold(p: u16) -> u16 {
    ((p as int * 2) % 0x10000 + 1) as u16
}

/// The pattern with a tap appended (the top step falls off a full one).
pub fn followed_by_tap(p: u16) -> (r: u16)
    ensures
        r == spec_followed_by_tap(p),
{
    let r: u16 = p << 1;
    assert(r == ((p as int * 2) % 0x10000) as u16) by (bit_vector)
        requires
            r == p << 1,
    ;
    r
}

/// The pattern with a hold appended.
pub fn followed_by_hold(p: u16) -> (r: u16)
    ensures
        r == spec_followed_by_hold(p),
{
    let r: u16 = (p << 1) | 0b1;
    assert(r == ((p as int * 2) % 0x10000 + 1) as u16) by (bit_vector)
        requires
            r == (p << 1) | 0b1,
    ;
    r
}

/// Whether a binding is a morse binding (tap-hold or morse).
pub open spec fn spec_is_morse(b: KeyBinding) -> bool {
    b is TapHold || b is Morse
}

/// Whether a binding is a morse binding.
pub fn is_morse(b: &KeyBinding) -> (r: bool)
    ensures
        r == spec_is_morse(*b),
{
    match b {
        KeyBinding::TapHold(..) | KeyBinding::Morse(_) => true,
        _ => false,
    }
}

/// The state of a held key.
#[derive(Clone, Copy, Debug, PartialEq, Eq, Structural)]
pub enum KeyState {
    /// A combo component waiting for the other components.
    WaitingCombo,
    /// Pressed; the pattern completed before this press.
    Pressed(u16),
    /// Held past its timeout; the pattern including this hold.
    Holding(u16),
    /// Released while the pattern may continue; the completed pattern.
    Released(u16),
    /// A tap fired early; the key stays for a hold after the tap.
    EarlyFired(u16),
    /// Its action is pressed; the release is not reported yet.
    ProcessedButReleaseNotReportedYet(BoundAction),
}

/// A held key: its event, binding, state and times (ms).
#[derive(Clone, Copy, Debug, PartialEq, Eq, Structural)]
pub struct HeldKey {
    pub event: KeyboardEvent,
    pub action: KeyBinding,
    pub state: KeyState,
    pub press_time: u64,
    pub timeout_time: u64,
}

impl HeldKey {
    pub fn new(event: KeyboardEvent, action: KeyBinding, state: KeyState, press_time: u64, timeout_time: u64) -> (r:
        Self)
        ensures
            r == (HeldKey { event, action, state, press_time, timeout_time }),
    {
        HeldKey { event, action, state, press_time, timeout_time }
    }
}

/// At most `HOLD_BUFFER_SIZE` held keys, kept in a `heapless::Vec`.
#[verifier::external_body]
pub struct HeldKeyList {
    inner: heapless::Vec<HeldKey, HOLD_BUFFER_SIZE>,
}

/// The keys of a `HeldKeyList`, in order.
pub uninterp spec fn held_key_items(v: HeldKeyList) -> Seq<HeldKey>;

/// Keys in non-decreasing order of timeout.
pub open spec fn sorted_by_timeout(s: Seq<HeldKey>) -> bool {
    forall|i: int, j: int| 0 <= i < j < s.len() ==> s[i].timeout_time <= s[j].timeout_time
}

/// Keys in non-decreasing order of press time.
pub open spec fn sorted_by_press_time(s: Seq<HeldKey>) -> bool {
    forall|i: int, j: int| 0 <= i < j < s.len() ==> s[i].press_time <= s[j].press_time
}

impl HeldKeyList {
    /// `heapless::Vec::new`: an empty list.
    #[verifier::external_body]
    fn new() -> (r: Self)
        ensures
            held_key_items(r).len() == 0,
    {
        HeldKeyList { inner: heapless::Vec::new() }
    }

    /// `heapless::Vec::push`: appends below the capacity, else hands the
    /// key back and leaves the list unchanged.
    #[verifier::external_body]
    fn push(&mut self, item: HeldKey) -> (r: Result<(), HeldKey>)
        ensures
            held_key_items(*old(self)).len() < HOLD_BUFFER_SIZE ==> r is Ok && held_key_items(*final(self))
                == held_key_items(*old(self)).push(item),
            held_key_items(*old(self)).len() >= HOLD_BUFFER_SIZE ==> (r matches Err(e) && e == item)
                && held_key_items(*final(self)) == held_key_items(*old(self)),
    {
        self.inner.push(item)
    }

    /// `heapless::Vec::len`: the number of keys, at most the capacity.
    #[verifier::external_body]
    fn len(&self) -> (r: usize)
        ensures
            r == held_key_items(*self).len(),
            r <= HOLD_BUFFER_SIZE,
    {
        self.inner.len()
    }

    /// Indexing: the key at position `i`.
    #[verifier::external_body]
    fn get(&self, i: usize) -> (r: HeldKey)
        requires
            i < held_key_items(*self).len(),
        ensures
            r == held_key_items(*self)[i as int],
    {
        self.inner[i]
    }

    /// Assignment through indexing: replaces the key at position `i`.
    #[verifier::external_body]
    fn set(&mut self, i: usize, item: HeldKey)
        requires
            i < held_key_items(*old(self)).len(),
        ensures
            held_key_items(*final(self)) == held_key_items(*old(self)).update(i as int, item),
    {
        self.inner[i] = item;
    }

    /// `heapless::Vec::remove`: takes out the key at `i`, shifting the
    /// later ones down.
    #[verifier::external_body]
    fn remove(&mut self, i: usize) -> (r: HeldKey)
        requires
            i < held_key_items(*old(self)).len(),
        ensures
            r == held_key_items(*old(self))[i as int],
            held_key_items(*final(self)) == held_key_items(*old(self)).remove(i as int),
    {
        self.inner.remove(i)
    }

    /// `heapless::Vec::swap_remove`: takes out the key at `i`, moving the
    /// last key into its place.
    #[verifier::external_body]
    fn swap_remove(&mut self, i: usize) -> (r: HeldKey)
        requires
            i < held_key_items(*old(self)).len(),
        ensures
            r == held_key_items(*old(self))[i as int],
            held_key_items(*final(self)) == held_key_items(*old(self)).update(
                i as int,
                held_key_items(*old(self)).last(),
            ).drop_last(),
    {
        self.inner.swap_remove(i)
    }

    /// `sort_unstable_by_key` on the timeout: the same keys, by timeout.
    #[verifier::external_body]
    fn sort_by_timeout(&mut self)
        ensures
            held_key_items(*final(self)).to_multiset() == held_key_items(*old(self)).to_multiset(),
            held_key_items(*final(self)).len() == held_key_items(*old(self)).len(),
            sorted_by_timeout(held_key_items(*final(self))),
    {
        self.inner.sort_unstable_by_key(|k| k.timeout_time)
    }

    /// `sort_unstable_by_key` on the press time: the same keys, by press
    /// time.
    #[verifier::external_body]
    fn sort_by_press_time(&mut self)
        ensures
            held_key_items(*final(self)).to_multiset() == held_key_items(*old(self)).to_multiset(),
            held_key_items(*final(self)).len() == held_key_items(*old(self)).len(),
            sorted_by_press_time(held_key_items(*final(self))),
    {
        self.inner.sort_unstable_by_key(|k| k.press_time)
    }
}

/// What a search of the buffer looks for.
#[derive(Clone, Copy, Debug, PartialEq, Eq, Structural)]
pub enum KeyFilter {
    /// The key at a position.
    Pos(KeyboardEventPos),
    /// A key with the same binding (tap-hold profiles aside).
    Action(KeyBinding),
    /// A key whose binding is not a morse binding.
    NotMorse,
    /// A key that waits for a timeout: released, waiting for a combo, or a
    /// pressed morse key.
    AwaitsTimeout,
}

/// Whether a key passes a filter.
pub open spec fn passes(f: KeyFilter, k: HeldKey) -> bool {
    match f {
        KeyFilter::Pos(pos) => k.event.pos == pos,
        KeyFilter::Action(a) => same_binding(k.action, a),
        KeyFilter::NotMorse => !spec_is_morse(k.action),
        KeyFilter::AwaitsTimeout => k.state is Released || k.state is WaitingCombo || (k.state is Pressed
            && spec_is_morse(k.action)),
    }
}

fn passes_exec(f: &KeyFilter, k: &HeldKey) -> (r: bool)
    ensures
        r == passes(*f, *k),
{
    match f {
        KeyFilter::Pos(pos) => k.event.pos == *pos,
        KeyFilter::Action(a) => bindings_match(&k.action, a),
        KeyFilter::NotMorse => !is_morse(&k.action),
        KeyFilter::AwaitsTimeout => match k.state {
            KeyState::Released(_) | KeyState::WaitingCombo => true,
            KeyState::Pressed(_) => is_morse(&k.action),
            _ => false,
        },
    }
}

/// The first position, from `i` on, of a key that passes `f`.
pub open spec fn first_passing(s: Seq<HeldKey>, f: KeyFilter, i: int) -> Option<int>
    decreases s.len() - i,
{
    if i < 0 || i >= s.len() {
        None
    } else if passes(f, s[i]) {
        Some(i)
    } else {
        first_passing(s, f, i + 1)
    }
}

/// The first passing key passes, and none before it does.
pub proof fn lemma_first_passing_bounds(s: Seq<HeldKey>, f: KeyFilter, i: int)
    requires
        0 <= i,
    ensures
        first_passing(s, f, i) matches Some(j) ==> i <= j < s.len() && passes(f, s[j]) && forall|k: int|
            i <= k < j ==> !passes(f, #[trigger] s[k]),
        first_passing(s, f, i) is None ==> forall|k: int| i <= k < s.len() ==> !passes(f, #[trigger] s[k]),
    decreases s.len() - i,
{
    if i < s.len() && !passes(f, s[i]) {
        lemma_first_passing_bounds(s, f, i + 1);
    }
}

/// Whether a key may stay in the buffer when processed plain keys are
/// cleaned: morse keys stay, plain keys only when their action has not
/// been pressed already.
pub open spec fn keeps_after_clean(k: HeldKey) -> bool {
    spec_is_morse(k.action) || !(k.state is ProcessedButReleaseNotReportedYet)
}

/// The buffer of held keys.
pub struct HeldBuffer {
    keys: HeldKeyList,
}

impl View for HeldBuffer {
    type V = Seq<HeldKey>;

    closed spec fn view(&self) -> Seq<HeldKey> {
        held_key_items(self.keys)
    }
}

impl HeldBuffer {
    /// An empty buffer.
    pub fn new() -> (r: Self)
        ensures
            r@.len() == 0,
    {
        HeldBuffer { keys: HeldKeyList::new() }
    }

    /// The number of held keys, at most `HOLD_BUFFER_SIZE`.
    pub fn len(&self) -> (r: usize)
        ensures
            r == self@.len(),
            r <= HOLD_BUFFER_SIZE,
    {
        self.keys.len()
    }

    /// Whether the buffer is empty.
    pub fn is_empty(&self) -> (r: bool)
        ensures
            r == (self@.len() == 0),
    {
        self.keys.len() == 0
    }

    /// The key at position `i` of the buffer.
    pub fn get(&self, i: usize) -> (r: HeldKey)
        requires
            i < self@.len(),
        ensures
            r == self@[i as int],
    {
        self.keys.get(i)
    }

    /// Adds a key and sorts the buffer by timeout. A full buffer drops the
    /// key.
    pub fn push(&mut self, key: HeldKey)
        ensures
            final(self)@.to_multiset() == (if old(self)@.len() < HOLD_BUFFER_SIZE {
                old(self)@.to_multiset().insert(key)
            } else {
                old(self)@.to_multiset()
            }),
            final(self)@.len() == (if old(self)@.len() < HOLD_BUFFER_SIZE {
                old(self)@.len() + 1int
            } else {
                old(self)@.len() as int
            }),
            sorted_by_timeout(final(self)@),
    {
        let _ = self.keys.push(key);
        proof {
            broadcast use vstd::seq_lib::group_to_multiset_ensures;
        }
        self.keys.sort_by_timeout();
    }

    /// Adds a key at the end, without sorting. A full buffer drops the key.
    pub fn push_without_sort(&mut self, key: HeldKey)
        ensures
            final(self)@ == (if old(self)@.len() < HOLD_BUFFER_SIZE {
                old(self)@.push(key)
            } else {
                old(self)@
            }),
    {
        let _ = self.keys.push(key);
    }

    /// Position of the first key that passes a filter.
    pub fn find_index(&self, f: KeyFilter) -> (r: Option<usize>)
        ensures
            r matches Some(i) ==> first_passing(self@, f, 0) == Some(i as int) && i < self@.len(),
            r is None ==> first_passing(self@, f, 0) is None,
    {
        let n = self.keys.len();
        let mut i: usize = 0;
        while i < n
            invariant
                n == self@.len(),
                i <= n,
                first_passing(self@, f, 0) == first_passing(self@, f, i as int),
            decreases n - i,
        {
            let k = self.keys.get(i);
            if passes_exec(&f, &k) {
                return Some(i);
            }
            i = i + 1;
        }
        None
    }

    /// The first key with the same binding.
    pub fn find_action(&self, action: &KeyBinding) -> (r: Option<HeldKey>)
        ensures
            match first_passing(self@, KeyFilter::Action(*action), 0) {
                Some(i) => r == Some(self@[i]),
                None => r is None,
            },
    {
        proof {
            lemma_first_passing_bounds(self@, KeyFilter::Action(*action), 0);
        }
        match self.find_index(KeyFilter::Action(*action)) {
            Some(i) => Some(self.keys.get(i)),
            None => None,
        }
    }

    /// The first key at a position.
    pub fn find_pos(&self, pos: KeyboardEventPos) -> (r: Option<HeldKey>)
        ensures
            match first_passing(self@, KeyFilter::Pos(pos), 0) {
                Some(i) => r == Some(self@[i]),
                None => r is None,
            },
    {
        proof {
            lemma_first_passing_bounds(self@, KeyFilter::Pos(pos), 0);
        }
        match self.find_index(KeyFilter::Pos(pos)) {
            Some(i) => Some(self.keys.get(i)),
            None => None,
        }
    }

    /// Replaces the key at position `i` (an in-place update of a found
    /// key).
    pub fn replace(&mut self, i: usize, key: HeldKey)
        requires
            i < old(self)@.len(),
        ensures
            final(self)@ == old(self)@.update(i as int, key),
    {
        self.keys.set(i, key);
    }

    /// Takes out the first key that passes a filter, keeping the order of
    /// the others.
    pub fn remove_if(&mut self, f: KeyFilter) -> (r: Option<HeldKey>)
        ensures
            match first_passing(old(self)@, f, 0) {
                Some(i) => r == Some(old(self)@[i]) && final(self)@ == old(self)@.remove(i),
                None => r is None && final(self)@ == old(self)@,
            },
    {
        proof {
            lemma_first_passing_bounds(self@, f, 0);
        }
        match self.find_index(f) {
            Some(i) => Some(self.keys.remove(i)),
            None => None,
        }
    }

    /// Takes out the key at a position and sorts the rest by timeout.
    pub fn remove(&mut self, pos: KeyboardEventPos) -> (r: Option<HeldKey>)
        ensures
            match first_passing(old(self)@, KeyFilter::Pos(pos), 0) {
                Some(i) => r == Some(old(self)@[i]) && final(self)@.to_multiset() == old(self)@.remove(
                    i,
                ).to_multiset() && final(self)@.len() == old(self)@.len() - 1,
                None => r is None && final(self)@.to_multiset() == old(self)@.to_multiset() && final(self)@.len()
                    == old(self)@.len(),
            },
            sorted_by_timeout(final(self)@),
    {
        proof {
            lemma_first_passing_bounds(self@, KeyFilter::Pos(pos), 0);
        }
        let k = self.remove_if(KeyFilter::Pos(pos));
        self.keys.sort_by_timeout();
        k
    }

    /// The first key, in timeout order, that passes a filter.
    pub fn next_timeout(&self, f: KeyFilter) -> (r: Option<HeldKey>)
        ensures
            match first_passing(self@, f, 0) {
                Some(i) => r == Some(self@[i]),
                None => r is None,
            },
    {
        proof {
            lemma_first_passing_bounds(self@, f, 0);
        }
        match self.find_index(f) {
            Some(i) => Some(self.keys.get(i)),
            None => None,
        }
    }

    /// The next buffered key to time out: released, waiting for a combo,
    /// or a pressed morse key.
    pub fn next_buffered_key(&self) -> (r: Option<HeldKey>)
        ensures
            match first_passing(self@, KeyFilter::AwaitsTimeout, 0) {
                Some(i) => r == Some(self@[i]),
                None => r is None,
            },
    {
        self.next_timeout(KeyFilter::AwaitsTimeout)
    }

    /// Sorts the keys by timeout.
    pub fn sort_by_timeout(&mut self)
        ensures
            final(self)@.to_multiset() == old(self)@.to_multiset(),
            final(self)@.len() == old(self)@.len(),
            sorted_by_timeout(final(self)@),
    {
        self.keys.sort_by_timeout();
    }

    /// Sorts the keys by press time.
    pub fn sort_by_press_time(&mut self)
        ensures
            final(self)@.to_multiset() == old(self)@.to_multiset(),
            final(self)@.len() == old(self)@.len(),
            sorted_by_press_time(final(self)@),
    {
        self.keys.sort_by_press_time();
    }

    /// Removes the plain keys whose action is already pressed, keeping the
    /// order of the rest.
    pub fn clean_buffered_processed_keys(&mut self)
        ensures
            final(self)@ == old(self)@.filter(|k: HeldKey| keeps_after_clean(k)),
    {
        let ghost before = self@;
        let n = self.keys.len();
        let mut kept = HeldKeyList::new();
        let mut i: usize = 0;
        while i < n
            invariant
                n == before.len(),
                n <= HOLD_BUFFER_SIZE,
                self@ == before,
                i <= n,
                held_key_items(kept) == before.subrange(0, i as int).filter(|k: HeldKey| keeps_after_clean(k)),
                held_key_items(kept).len() <= i,
            decreases n - i,
        {
            let k = self.keys.get(i);
            proof {
                assert(before.subrange(0, i as int + 1) =~= before.subrange(0, i as int).push(k));
                before.subrange(0, i as int).lemma_filter_push(k, |k: HeldKey| keeps_after_clean(k));
            }
            let keep = is_morse(&k.action) || !matches!(k.state, KeyState::ProcessedButReleaseNotReportedYet(_));
            if keep {
                let _ = kept.push(k);
            }
            i = i + 1;
        }
        proof {
            assert(before.subrange(0, n as int) =~= before);
        }
        self.keys = kept;
    }

    /// Takes out every key waiting for a combo, in the order in which
    /// `swap_remove` leaves them; the other keys stay.
    pub fn take_waiting_combo_keys(&mut self) -> (r: Vec<HeldKey>)
        ensures
            r@.to_multiset().add(final(self)@.to_multiset()) == old(self)@.to_multiset(),
            forall|i: int| 0 <= i < r@.len() ==> (#[trigger] r@[i]).state is WaitingCombo,
            forall|i: int| 0 <= i < final(self)@.len() ==> !((#[trigger] final(self)@[i]).state is WaitingCombo),
    {
        let ghost before = self@;
        let mut taken: Vec<HeldKey> = Vec::new();
        let mut i: usize = 0;
        proof {
            broadcast use vstd::seq_lib::group_to_multiset_ensures;
        }
        while i < self.keys.len()
            invariant
                i <= self@.len(),
                taken@.to_multiset().add(self@.to_multiset()) == before.to_multiset(),
                forall|k: int| 0 <= k < taken@.len() ==> (#[trigger] taken@[k]).state is WaitingCombo,
                forall|k: int| 0 <= k < i ==> !((#[trigger] self@[k]).state is WaitingCombo),
            decreases self@.len() - i,
        {
            let k = self.keys.get(i);
            if matches!(k.state, KeyState::WaitingCombo) {
                let ghost s = self@;
                let removed = self.keys.swap_remove(i);
                proof {
                    broadcast use vstd::multiset::group_multiset_properties;
                    broadcast use vstd::multiset::group_multiset_axioms;
                    let t = s.update(i as int, s.last());
                    vstd::seq_lib::to_multiset_update(s, i as int, s.last());
                    assert(t.drop_last() =~= t.remove(t.len() - 1));
                    vstd::seq_lib::to_multiset_remove(t, t.len() - 1);
                    assert(t[t.len() - 1] == s.last());
                    assert(self@.to_multiset() =~= s.to_multiset().remove(s[i as int]));
                    assert(forall|k: int| 0 <= k < i ==> self@[k] == s[k]);
                }
                let ghost taken_before = taken@;
                taken.push(removed);
                proof {
                    broadcast use vstd::multiset::group_multiset_properties;
                    broadcast use vstd::multiset::group_multiset_axioms;
                    vstd::seq_lib::to_multiset_build(taken_before, removed);
                    assert(s.to_multiset().count(removed) > 0) by {
                        vstd::seq_lib::to_multiset_contains(s, removed);
                        assert(s.contains(removed)) by {
                            assert(s[i as int] == removed);
                        }
                    }
                    assert(taken@.to_multiset().add(self@.to_multiset()) =~= before.to_multiset());
                }
            } else {
                i = i + 1;
            }
        }
        taken
    }
}

/// A key waiting for a combo whose binding is among `keys`.
pub open spec fn waiting_for(k: HeldKey, keys: Seq<KeyBinding>) -> bool {
    k.state is WaitingCombo && index_of(keys, k.action, 0) is Some
}

fn among(keys: &Vec<KeyBinding>, b: &KeyBinding) -> (r: bool)
    ensures
        r == (index_of(keys@, *b, 0) is Some),
{
    let mut i: usize = 0;
    while i < keys.len()
        invariant
            i <= keys@.len(),
            index_of(keys@, *b, 0) == index_of(keys@, *b, i as int),
        decreases keys@.len() - i,
    {
        if bindings_match(&keys[i], b) {
            return true;
        }
        i = i + 1;
    }
    false
}

impl HeldBuffer {
    /// Takes out the keys waiting for a combo whose bindings are among
    /// `keys`; the other keys stay.
    pub fn take_waiting_keys_of(&mut self, keys: &Vec<KeyBinding>) -> (r: Vec<HeldKey>)
        ensures
            r@.to_multiset().add(final(self)@.to_multiset()) == old(self)@.to_multiset(),
            forall|i: int| 0 <= i < r@.len() ==> waiting_for(#[trigger] r@[i], keys@),
            forall|i: int| 0 <= i < final(self)@.len() ==> !waiting_for(#[trigger] final(self)@[i], keys@),
    {
        let ghost before = self@;
        let mut taken: Vec<HeldKey> = Vec::new();
        let mut i: usize = 0;
        proof {
            broadcast use vstd::seq_lib::group_to_multiset_ensures;
        }
        while i < self.keys.len()
            invariant
                i <= self@.len(),
                taken@.to_multiset().add(self@.to_multiset()) == before.to_multiset(),
                forall|k: int| 0 <= k < taken@.len() ==> waiting_for(#[trigger] taken@[k], keys@),
                forall|k: int| 0 <= k < i ==> !waiting_for(#[trigger] self@[k], keys@),
            decreases self@.len() - i,
        {
            let k = self.keys.get(i);
            if matches!(k.state, KeyState::WaitingCombo) && among(keys, &k.action) {
                let ghost s = self@;
                let removed = self.keys.swap_remove(i);
                proof {
                    broadcast use vstd::multiset::group_multiset_properties;
                    broadcast use vstd::multiset::group_multiset_axioms;
                    let t = s.update(i as int, s.last());
                    vstd::seq_lib::to_multiset_update(s, i as int, s.last());
                    assert(t.drop_last() =~= t.remove(t.len() - 1));
                    vstd::seq_lib::to_multiset_remove(t, t.len() - 1);
                    assert(t[t.len() - 1] == s.last());
                    assert(self@.to_multiset() =~= s.to_multiset().remove(s[i as int]));
                    assert(forall|k: int| 0 <= k < i ==> self@[k] == s[k]);
                }
                let ghost taken_before = taken@;
                taken.push(removed);
                proof {
                    broadcast use vstd::multiset::group_multiset_properties;
                    broadcast use vstd::multiset::group_multiset_axioms;
                    vstd::seq_lib::to_multiset_build(taken_before, removed);
                    assert(s.to_multiset().count(removed) > 0) by {
                        vstd::seq_lib::to_multiset_contains(s, removed);
                        assert(s.contains(removed)) by {
                            assert(s[i as int] == removed);
                        }
                    }
                    assert(taken@.to_multiset().add(self@.to_multiset()) =~= before.to_multiset());
                }
            } else {
                i = i + 1;
            }
        }
        taken
    }
}

} // verus!
