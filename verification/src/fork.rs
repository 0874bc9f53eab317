//! Forks (key overrides): a key's binding is replaced, when it is pressed,
//! by one of two outputs depending on the modifiers, lock LEDs and mouse
//! buttons active at that moment. The choice is kept until the key is
//! released. A bindable fork's output may trigger further forks, each at
//! most once, with the modifiers suppressed so far taken out of the state.
//! The first fork of such a chain becomes active and remembers the final
//! output and every modifier the chain suppresses.

use vstd::prelude::*;

use crate::action::KeyBinding;

verus! {

/// Modifiers, lock LEDs and mouse buttons, as bit sets.
#[derive(Clone, Copy, Debug, PartialEq, Eq, Structural)]
pub struct StateBits {
    pub modifiers: u8,
    pub leds: u8,
    pub mouse: u8,
}

/// Whether two states share a bit.
pub open spec fn overlaps(a: StateBits, b: StateBits) -> bool {
    (a.modifiers & b.modifiers) != 0 || (a.leds & b.leds) != 0 || (a.mouse & b.mouse) != 0
}

/// A fork: on a press of `trigger`, the positive output when the state
/// shares a bit with `match_any` and none with `match_none`, the negative
/// output otherwise.
#[derive(Clone, Copy, Debug, PartialEq, Eq, Structural)]
pub struct Fork {
    pub trigger: KeyBinding,
    pub negative_output: KeyBinding,
    pub positive_output: KeyBinding,
    pub match_any: StateBits,
    pub match_none: StateBits,
    /// Modifiers of `match_any` that stay in the report.
    pub kept_modifiers: u8,
    /// Whether the output may trigger further forks.
    pub bindable: bool,
}

/// An active fork: the output chosen at the press and the modifiers its
/// chain suppresses.
#[derive(Clone, Copy, Debug, PartialEq, Eq, Structural)]
pub struct ActiveFork {
    pub replacement: KeyBinding,
    pub suppress: u8,
}

/// The forks' state: which fork is active, with what (one entry per fork),
/// and the suppressed modifiers that modifier keys pressed since keep.
#[derive(Clone, Debug)]
pub struct ForkState {
    pub active: Vec<Option<ActiveFork>>,
    pub keep_mask: u8,
}

/// Where a chain of forks stands: the output so far, the state it is
/// decided on, the with-modifiers and keep mask after the suppressions,
/// the fork that started it and the modifiers suppressed so far.
#[derive(Clone, Copy, Debug, PartialEq, Eq, Structural)]
pub struct ChainState {
    pub replacement: KeyBinding,
    pub decision: StateBits,
    pub with_modifiers: u8,
    pub keep_mask: u8,
    pub starter: Option<usize>,
    pub suppress: u8,
}

/// Whether fork `i` can fire on `binding`: not fired yet in this chain, not
/// active, and triggered by it.
pub open spec fn can_fire(
    forks: Seq<Fork>,
    active: Seq<Option<ActiveFork>>,
    fired: Seq<bool>,
    binding: KeyBinding,
    i: int,
) -> bool {
    &&& 0 <= i < forks.len()
    &&& i < active.len()
    &&& i < fired.len()
    &&& !fired[i]
    &&& active[i] is None
    &&& forks[i].trigger == binding
}

/// The first fork, from `j` on, that can fire on `binding`.
pub open spec fn first_to_fire(
    forks: Seq<Fork>,
    active: Seq<Option<ActiveFork>>,
    fired: Seq<bool>,
    binding: KeyBinding,
    j: int,
) -> Option<int>
    decreases forks.len() - j,
{
    if j < 0 || j >= forks.len() {
        None
    } else if can_fire(forks, active, fired, binding, j) {
        Some(j)
    } else {
        first_to_fire(forks, active, fired, binding, j + 1)
    }
}

/// The chain after fork `i` fires.
pub open spec fn fire_step(f: Fork, i: usize, c: ChainState) -> ChainState {
    let positive = overlaps(f.match_any, c.decision) && !overlaps(f.match_none, c.decision);
    let suppress = f.match_any.modifiers & !f.kept_modifiers;
    ChainState {
        replacement: if positive {
            f.positive_output
        } else {
            f.negative_output
        },
        decision: StateBits { modifiers: c.decision.modifiers & !suppress, ..c.decision },
        with_modifiers: c.with_modifiers & !suppress,
        keep_mask: (c.keep_mask & !f.match_any.modifiers) | f.kept_modifiers,
        starter: match c.starter {
            Some(s) => Some(s),
            None => Some(i),
        },
        suppress: c.suppress | suppress,
    }
}

/// How many forks have not fired.
pub open spec fn count_unfired(fired: Seq<bool>) -> nat
    decreases fired.len(),
{
    if fired.len() == 0 {
        0
    } else {
        count_unfired(fired.drop_last()) + if fired.last() {
            0nat
        } else {
            1nat
        }
    }
}

pub proof fn lemma_fire_counts_down(fired: Seq<bool>, i: int)
    requires
        0 <= i < fired.len(),
        !fired[i],
    ensures
        count_unfired(fired.update(i, true)) + 1 == count_unfired(fired),
    decreases fired.len(),
{
    let u = fired.update(i, true);
    if i == fired.len() - 1 {
        assert(u.drop_last() =~= fired.drop_last());
    } else {
        assert(u.drop_last() =~= fired.drop_last().update(i, true));
        lemma_fire_counts_down(fired.drop_last(), i);
    }
}

pub proof fn lemma_first_to_fire_can_fire(
    forks: Seq<Fork>,
    active: Seq<Option<ActiveFork>>,
    fired: Seq<bool>,
    binding: KeyBinding,
    j: int,
)
    requires
        0 <= j,
    ensures
        first_to_fire(forks, active, fired, binding, j) matches Some(i) ==> j <= i && can_fire(
            forks,
            active,
            fired,
            binding,
            i,
        ),
        first_to_fire(forks, active, fired, binding, j) is None ==> forall|k: int|
            j <= k ==> !can_fire(forks, active, fired, binding, k),
    decreases forks.len() - j,
{
    if j < forks.len() && !can_fire(forks, active, fired, binding, j) {
        lemma_first_to_fire_can_fire(forks, active, fired, binding, j + 1);
    }
}

/// The chain from `c` on: the first fork that can fire on the output so
/// far fires; a bindable one lets the chain go on.
pub open spec fn run_chain(
    forks: Seq<Fork>,
    active: Seq<Option<ActiveFork>>,
    fired: Seq<bool>,
    c: ChainState,
) -> ChainState
    decreases count_unfired(fired),
{
    match first_to_fire(forks, active, fired, c.replacement, 0) {
        None => c,
        Some(i) => {
            let n = fire_step(forks[i], i as usize, c);
            if forks[i].bindable {
                proof {
                    lemma_first_to_fire_can_fire(forks, active, fired, c.replacement, 0);
                    lemma_fire_counts_down(fired, i);
                }
                run_chain(forks, active, fired.update(i, true), n)
            } else {
                n
            }
        },
    }
}

/// The chain started by a press of `binding` in `state`.
pub open spec fn spec_press_chain(
    forks: Seq<Fork>,
    active: Seq<Option<ActiveFork>>,
    binding: KeyBinding,
    state: StateBits,
    with_modifiers: u8,
    keep_mask: u8,
) -> ChainState {
    run_chain(
        forks,
        active,
        Seq::new(forks.len(), |i: int| false),
        ChainState { replacement: binding, decision: state, with_modifiers, keep_mask, starter: None, suppress: 0 },
    )
}

/// The output that a release of `binding` releases: that of the first
/// active fork it triggered, else the binding itself.
pub open spec fn release_replacement(
    forks: Seq<Fork>,
    active: Seq<Option<ActiveFork>>,
    binding: KeyBinding,
    j: int,
) -> KeyBinding
    decreases forks.len() - j,
{
    if j < 0 || j >= forks.len() || j >= active.len() {
        binding
    } else if forks[j].trigger == binding && active[j] is Some {
        active[j]->0.replacement
    } else {
        release_replacement(forks, active, binding, j + 1)
    }
}

fn find_fork_to_fire(
    forks: &Vec<Fork>,
    active: &Vec<Option<ActiveFork>>,
    fired: &Vec<bool>,
    binding: KeyBinding,
) -> (r: Option<usize>)
    ensures
        r == (match first_to_fire(forks@, active@, fired@, binding, 0) {
            Some(i) => Some(i as usize),
            None => None::<usize>,
        }),
{
    let mut j: usize = 0;
    while j < forks.len()
        invariant
            j <= forks@.len(),
            first_to_fire(forks@, active@, fired@, binding, 0) == first_to_fire(forks@, active@, fired@, binding, j as int),
        decreases forks@.len() - j,
    {
        if j < active.len() && j < fired.len() && !fired[j] && active[j].is_none() && forks[j].trigger == binding {
            return Some(j);
        }
        j = j + 1;
    }
    None
}

fn fire(f: &Fork, i: usize, c: ChainState) -> (r: ChainState)
    ensures
        r == fire_step(*f, i, c),
{
    let any = f.match_any;
    let none = f.match_none;
    let d = c.decision;
    let hits_any = (any.modifiers & d.modifiers) != 0 || (any.leds & d.leds) != 0 || (any.mouse & d.mouse) != 0;
    let hits_none = (none.modifiers & d.modifiers) != 0 || (none.leds & d.leds) != 0 || (none.mouse & d.mouse) != 0;
    let suppress = any.modifiers & !f.kept_modifiers;
    ChainState {
        replacement: if hits_any && !hits_none {
            f.positive_output
        } else {
            f.negative_output
        },
        decision: StateBits { modifiers: d.modifiers & !suppress, ..d },
        with_modifiers: c.with_modifiers & !suppress,
        keep_mask: (c.keep_mask & !any.modifiers) | f.kept_modifiers,
        starter: match c.starter {
            Some(s) => Some(s),
            None => Some(i),
        },
        suppress: c.suppress | suppress,
    }
}

/// The suppressions of the active forks (0 for an inactive one).
pub open spec fn suppressions_of(active: Seq<Option<ActiveFork>>) -> Seq<u8> {
    active.map_values(|a: Option<ActiveFork>| match a {
        Some(x) => x.suppress,
        None => 0u8,
    })
}

/// The active forks after a release of `binding`: those it triggered are
/// no longer active.
pub open spec fn spec_finish(forks: Seq<Fork>, active: Seq<Option<ActiveFork>>, binding: KeyBinding) -> Seq<
    Option<ActiveFork>,
> {
    Seq::new(
        active.len(),
        |j: int|
            if j < forks.len() && forks[j].trigger == binding {
                None
            } else {
                active[j]
            },
    )
}

/// What the chain of a press changes: the fork that started it becomes
/// active with the chain's output and suppressions.
pub open spec fn activated(active: Seq<Option<ActiveFork>>, c: ChainState) -> Seq<Option<ActiveFork>> {
    match c.starter {
        Some(i) => active.update(i as int, Some(ActiveFork { replacement: c.replacement, suppress: c.suppress })),
        None => active,
    }
}

pub proof fn lemma_chain_starter(forks: Seq<Fork>, active: Seq<Option<ActiveFork>>, fired: Seq<bool>, c: ChainState)
    ensures
        c.starter is Some ==> run_chain(forks, active, fired, c).starter == c.starter,
        c.starter is None && first_to_fire(forks, active, fired, c.replacement, 0) is None ==> run_chain(
            forks,
            active,
            fired,
            c,
        ) == c,
        c.starter is None ==> (first_to_fire(forks, active, fired, c.replacement, 0) matches Some(i) ==> run_chain(
            forks,
            active,
            fired,
            c,
        ).starter == Some(i as usize)),
    decreases count_unfired(fired),
{
    match first_to_fire(forks, active, fired, c.replacement, 0) {
        None => {},
        Some(i) => {
            let n = fire_step(forks[i], i as usize, c);
            if forks[i].bindable {
                lemma_first_to_fire_can_fire(forks, active, fired, c.replacement, 0);
                lemma_fire_counts_down(fired, i);
                lemma_chain_starter(forks, active, fired.update(i, true), n);
            }
        },
    }
}

proof fn lemma_release_unmatched(forks: Seq<Fork>, active: Seq<Option<ActiveFork>>, binding: KeyBinding, k: int)
    requires
        0 <= k,
        forall|j: int| k <= j < forks.len() && j < active.len() && forks[j].trigger == binding ==> active[j] is None,
    ensures
        release_replacement(forks, active, binding, k) == binding,
    decreases forks.len() - k,
{
    if k < forks.len() && k < active.len() {
        lemma_release_unmatched(forks, active, binding, k + 1);
    }
}

proof fn lemma_release_first_match(
    forks: Seq<Fork>,
    active: Seq<Option<ActiveFork>>,
    binding: KeyBinding,
    k: int,
    i: int,
)
    requires
        0 <= k <= i < forks.len(),
        i < active.len(),
        forks[i].trigger == binding,
        active[i] is Some,
        forall|j: int| k <= j < i && forks[j].trigger == binding ==> active[j] is None,
    ensures
        release_replacement(forks, active, binding, k) == active[i]->0.replacement,
    decreases i - k,
{
    if k < i {
        lemma_release_first_match(forks, active, binding, k + 1, i);
    }
}

/// A fork's choice holds until the key's release: when no fork the
/// binding triggers is active, the release of a press gives the output the
/// press gave, and the release then leaves the active forks as they were
/// before the press.
pub proof fn lemma_fork_choice_held_until_release(
    forks: Seq<Fork>,
    active: Seq<Option<ActiveFork>>,
    binding: KeyBinding,
    state: StateBits,
    with_modifiers: u8,
    keep_mask: u8,
)
    requires
        active.len() == forks.len(),
        forks.len() <= usize::MAX,
        forall|j: int| 0 <= j < forks.len() && forks[j].trigger == binding ==> active[j] is None,
    ensures
        ({
            let c = spec_press_chain(forks, active, binding, state, with_modifiers, keep_mask);
            &&& release_replacement(forks, activated(active, c), binding, 0) == c.replacement
            &&& spec_finish(forks, activated(active, c), binding) == active
        }),
{
    let fired = Seq::new(forks.len(), |i: int| false);
    let c0 = ChainState { replacement: binding, decision: state, with_modifiers, keep_mask, starter: None, suppress: 0 };
    let c = spec_press_chain(forks, active, binding, state, with_modifiers, keep_mask);
    lemma_chain_starter(forks, active, fired, c0);
    lemma_first_to_fire_can_fire(forks, active, fired, binding, 0);
    match first_to_fire(forks, active, fired, binding, 0) {
        None => {
            lemma_release_unmatched(forks, active, binding, 0);
            assert(spec_finish(forks, active, binding) =~= active);
        },
        Some(i) => {
            let after = activated(active, c);
            assert(after == active.update(i, Some(ActiveFork { replacement: c.replacement, suppress: c.suppress })));
            lemma_release_first_match(forks, after, binding, 0, i);
            assert(spec_finish(forks, after, binding) =~= active);
        },
    }
}

impl ForkState {
    /// No active fork, for `n` forks.
    pub fn new(n: usize) -> (r: Self)
        ensures
            r.active@ == Seq::new(n as nat, |i: int| None::<ActiveFork>),
            r.keep_mask == 0,
    {
        let mut active: Vec<Option<ActiveFork>> = Vec::new();
        let mut i: usize = 0;
        while i < n
            invariant
                i <= n,
                active@ == Seq::new(i as nat, |k: int| None::<ActiveFork>),
            decreases n - i,
        {
            active.push(None);
            i = i + 1;
            assert(active@ =~= Seq::new(i as nat, |k: int| None::<ActiveFork>));
        }
        ForkState { active, keep_mask: 0 }
    }

    /// The binding a key event goes on with. A press runs the chain of
    /// forks its binding triggers, decided on `state` (the explicit
    /// modifiers, lock LEDs and mouse buttons): the chain's first fork
    /// becomes active, the suppressed modifiers leave `with_modifiers`,
    /// and the keep mask follows the chain. A release gives the output its
    /// press chose.
    pub fn try_start_forks(
        &mut self,
        forks: &Vec<Fork>,
        binding: KeyBinding,
        pressed: bool,
        state: StateBits,
        with_modifiers: &mut u8,
    ) -> (r: KeyBinding)
        requires
            old(self).active@.len() == forks@.len(),
        ensures
            final(self).active@.len() == forks@.len(),
            !pressed ==> r == release_replacement(forks@, old(self).active@, binding, 0) && *final(self) == *old(self)
                && *final(with_modifiers) == *old(with_modifiers),
            pressed ==> ({
                let c = spec_press_chain(
                    forks@,
                    old(self).active@,
                    binding,
                    state,
                    *old(with_modifiers),
                    old(self).keep_mask,
                );
                &&& r == c.replacement
                &&& *final(with_modifiers) == c.with_modifiers
                &&& final(self).keep_mask == c.keep_mask
                &&& final(self).active@ == activated(old(self).active@, c)
            }),
    {
        let n = forks.len();
        if !pressed {
            let mut j: usize = 0;
            while j < n
                invariant
                    !pressed,
                    n == forks@.len(),
                    self.active@.len() == n,
                    j <= n,
                    release_replacement(forks@, self.active@, binding, 0) == release_replacement(
                        forks@,
                        self.active@,
                        binding,
                        j as int,
                    ),
                decreases n - j,
            {
                if forks[j].trigger == binding {
                    if let Some(a) = self.active[j] {
                        return a.replacement;
                    }
                }
                j = j + 1;
            }
            return binding;
        }
        let ghost fired0 = Seq::new(n as nat, |i: int| false);
        let ghost c0 = ChainState {
            replacement: binding,
            decision: state,
            with_modifiers: *with_modifiers,
            keep_mask: self.keep_mask,
            starter: None,
            suppress: 0,
        };
        let ghost target = run_chain(forks@, self.active@, fired0, c0);
        if n == 0 {
            proof {
                lemma_chain_starter(forks@, self.active@, fired0, c0);
            }
            return binding;
        }
        let mut fired: Vec<bool> = Vec::new();
        let mut k: usize = 0;
        while k < n
            invariant
                k <= n,
                fired@ == Seq::new(k as nat, |i: int| false),
            decreases n - k,
        {
            fired.push(false);
            k = k + 1;
            assert(fired@ =~= Seq::new(k as nat, |i: int| false));
        }
        let mut c = ChainState {
            replacement: binding,
            decision: state,
            with_modifiers: *with_modifiers,
            keep_mask: self.keep_mask,
            starter: None,
            suppress: 0,
        };
        proof {
            lemma_chain_starter(forks@, self.active@, fired0, c0);
        }
        loop
            invariant_except_break
                fired@.len() == n,
                run_chain(forks@, self.active@, fired@, c) == target,
                c.starter is Some ==> c.starter == target.starter,
            invariant
                n == forks@.len(),
                self.active@.len() == n,
                self.active@ == old(self).active@,
                c.starter matches Some(s) ==> s < n,
            ensures
                c == target,
            decreases count_unfired(fired@),
        {
            let ghost before = c;
            match find_fork_to_fire(forks, &self.active, &fired, c.replacement) {
                None => {
                    break;
                },
                Some(i) => {
                    proof {
                        lemma_first_to_fire_can_fire(forks@, self.active@, fired@, c.replacement, 0);
                    }
                    let f = forks[i];
                    c = fire(&f, i, c);
                    if f.bindable {
                        proof {
                            lemma_fire_counts_down(fired@, i as int);
                            lemma_chain_starter(forks@, self.active@, fired@.update(i as int, true), c);
                        }
                        fired.set(i, true);
                    } else {
                        break;
                    }
                },
            }
        }
        if let Some(i) = c.starter {
            self.active.set(i, Some(ActiveFork { replacement: c.replacement, suppress: c.suppress }));
        }
        *with_modifiers = c.with_modifiers;
        self.keep_mask = c.keep_mask;
        c.replacement
    }

    /// After a release of `binding` is reported: the forks it triggered
    /// are no longer active.
    pub fn try_finish_forks(&mut self, forks: &Vec<Fork>, binding: KeyBinding, pressed: bool)
        requires
            old(self).active@.len() == forks@.len(),
        ensures
            final(self).keep_mask == old(self).keep_mask,
            final(self).active@ == (if pressed {
                old(self).active@
            } else {
                spec_finish(forks@, old(self).active@, binding)
            }),
    {
        if pressed {
            return;
        }
        let n = forks.len();
        let ghost fin = spec_finish(forks@, old(self).active@, binding);
        let mut j: usize = 0;
        while j < n
            invariant
                n == forks@.len(),
                self.active@.len() == n,
                old(self).active@.len() == n,
                fin == spec_finish(forks@, old(self).active@, binding),
                fin.len() == n,
                j <= n,
                self.keep_mask == old(self).keep_mask,
                forall|k: int| 0 <= k < j ==> self.active@[k] == fin[k],
                forall|k: int| j <= k < n ==> self.active@[k] == old(self).active@[k],
            decreases n - j,
        {
            assert(fin[j as int] == (if forks@[j as int].trigger == binding {
                None
            } else {
                old(self).active@[j as int]
            }));
            if self.active[j].is_some() && forks[j].trigger == binding {
                self.active.set(j, None);
            }
            j = j + 1;
        }
        assert(self.active@ =~= fin);
    }

    /// The modifiers each fork suppresses (0 when it is not active).
    pub fn suppressions(&self) -> (r: Vec<u8>)
        ensures
            r@ == suppressions_of(self.active@),
    {
        let mut out: Vec<u8> = Vec::new();
        let mut j: usize = 0;
        while j < self.active.len()
            invariant
                j <= self.active@.len(),
                out@ == suppressions_of(self.active@.subrange(0, j as int)),
            decreases self.active@.len() - j,
        {
            let s: u8 = match self.active[j] {
                Some(a) => a.suppress,
                None => 0,
            };
            out.push(s);
            j = j + 1;
            assert(out@ =~= suppressions_of(self.active@.subrange(0, j as int)));
        }
        assert(self.active@.subrange(0, j as int) =~= self.active@);
        out
    }
}

} // verus!
