//! General rotary encoder: quadrature decoding into turn directions.
//!
//! The encoder keeps the previous pin levels in the two low bits of its
//! state; each update moves the new levels in above them, and a `Phase`
//! turns the resulting 4-bit transition code into a direction.

use vstd::prelude::*;

verus! {

/// The encoder direction is either `Clockwise`, `CounterClockwise`, or `None`
#[derive(Clone, Copy, Debug, PartialEq, Eq, Structural)]
pub enum Direction {
    /// A clockwise turn
    Clockwise,
    /// A counterclockwise turn
    CounterClockwise,
    /// No change
    NoChange,
}

/// Allows customizing which Quadrature Phases should be considered movements
/// and in which direction or ignored.
///
/// `phase_next` states what `direction` does: the direction for a
/// transition code and the phase afterwards.
pub trait Phase: Sized {
    /// The direction reported for the transition code `s`, and the phase
    /// after reporting it.
    spec fn phase_next(&self, s: u8) -> (Direction, Self);

    /// Given the current state `s`, return the direction.
    fn direction(&mut self, s: u8) -> (r: Direction)
        ensures
            r == old(self).phase_next(s).0,
            *final(self) == old(self).phase_next(s).1,
    ;
}

/// The direction the default phase gives to a transition code: codes 1, 7,
/// 8 and 14 are clockwise, codes 2, 4, 11 and 13 counterclockwise.
pub open spec fn default_direction(s: u8) -> Direction {
    if s == 0b0001 || s == 0b0111 || s == 0b1000 || s == 0b1110 {
        Direction::Clockwise
    } else if s == 0b0010 || s == 0b0100 || s == 0b1011 || s == 0b1101 {
        Direction::CounterClockwise
    } else {
        Direction::NoChange
    }
}

/// The direction the E8H7 phase gives to a transition code: codes 2 and 13
/// are clockwise, codes 1 and 14 counterclockwise.
pub open spec fn e8h7_direction(s: u8) -> Direction {
    if s == 0b0010 || s == 0b1101 {
        Direction::Clockwise
    } else if s == 0b0001 || s == 0b1110 {
        Direction::CounterClockwise
    } else {
        Direction::NoChange
    }
}

/// Default implementation of `Phase`.
pub struct DefaultPhase;

impl Phase for DefaultPhase {
    open spec fn phase_next(&self, s: u8) -> (Direction, Self) {
        (default_direction(s), DefaultPhase)
    }

    fn direction(&mut self, s: u8) -> (r: Direction) {
        match s {
            0b0001 | 0b0111 | 0b1000 | 0b1110 => Direction::Clockwise,
            0b0010 | 0b0100 | 0b1011 | 0b1101 => Direction::CounterClockwise,
            _ => Direction::NoChange,
        }
    }
}

/// Phase implementation for E8H7 encoder
pub struct E8H7Phase;

impl Phase for E8H7Phase {
    open spec fn phase_next(&self, s: u8) -> (Direction, Self) {
        (e8h7_direction(s), E8H7Phase)
    }

    fn direction(&mut self, s: u8) -> (r: Direction) {
        match s {
            0b0010 | 0b1101 => Direction::Clockwise,
            0b0001 | 0b1110 => Direction::CounterClockwise,
            _ => Direction::NoChange,
        }
    }
}

/// The pulse that the quadrature lookup table assigns to a transition code, negated
/// for a reversed encoder.
pub open spec fn lut_pulse(reverse: bool, code: int) -> int {
    let base = if code == 1 || code == 7 || code == 8 || code == 14 {
        -1
    } else if code == 2 || code == 4 || code == 11 || code == 13 {
        1
    } else {
        0
    };
    if reverse {
        -base
    } else {
        base
    }
}

/// The resolution read as the signed byte the pulse count is compared with.
pub open spec fn signed_resolution(resolution: u8) -> int {
    if resolution < 128 {
        resolution as int
    } else {
        resolution - 256
    }
}

/// Remainder of a truncating division (sign of the dividend), as Rust's `%`.
pub open spec fn trem(a: int, b: int) -> int {
    if a >= 0 {
        a % b
    } else {
        -((-a) % b)
    }
}

proof fn lemma_trem_bound(a: int, b: int)
    requires
        b != 0,
    ensures
        abs(trem(a, b)) < abs(b),
{
    if a >= 0 {
        assert(0 <= a % b < abs(b)) by (nonlinear_arith)
            requires
                b != 0,
                abs(b) == (if b < 0 { -b } else { b }),
        ;
    } else {
        assert(0 <= (-a) % b < abs(b)) by (nonlinear_arith)
            requires
                b != 0,
                abs(b) == (if b < 0 { -b } else { b }),
        ;
    }
}

/// Absolute value.
pub open spec fn abs(a: int) -> int {
    if a < 0 {
        -a
    } else {
        a
    }
}

/// One step of the resolution phase: the direction reported and the pulse
/// count afterwards. Only a code whose new levels differ from its previous
/// ones counts; its pulse is added, and reaching the resolution (in either
/// direction) reports a turn and keeps the remainder.
pub open spec fn resolution_step(resolution: u8, reverse: bool, pulses: int, s: u8) -> (
    Direction,
    int,
) {
    let r = signed_resolution(resolution);
    if (s & 0xC) != (s & 0x3) {
        let p = pulses + lut_pulse(reverse, (s & 0xF) as int);
        if p >= r {
            (Direction::CounterClockwise, trem(p, r))
        } else if p <= -r {
            (Direction::Clockwise, trem(p, r))
        } else {
            (Direction::NoChange, p)
        }
    } else {
        (Direction::NoChange, pulses)
    }
}

/// Phase implementation based on configurable resolution
pub struct ResolutionPhase {
    resolution: u8,
    lut: [i8; 16],
    pulses: i8,
    reverse: Ghost<bool>,
}

impl ResolutionPhase {
    /// The configured resolution.
    pub closed spec fn resolution_spec(&self) -> u8 {
        self.resolution
    }

    /// Whether the direction table is reversed.
    pub closed spec fn reverse_spec(&self) -> bool {
        self.reverse@
    }

    /// The pulses counted toward the next turn.
    pub closed spec fn pulses_spec(&self) -> int {
        self.pulses as int
    }

    /// The table matches the direction, the resolution is usable and the
    /// pulse count lies strictly within it.
    #[verifier::type_invariant]
    closed spec fn wf(&self) -> bool {
        &&& forall|i: int| 0 <= i < 16 ==> self.lut[i] == lut_pulse(self.reverse@, i)
        &&& signed_resolution(self.resolution) != 0
        &&& self.resolution != 128
        &&& abs(self.pulses as int) < abs(signed_resolution(self.resolution))
    }

    pub fn new(resolution: u8, reverse: bool) -> (r: Self)
        requires
            resolution != 0,
            resolution != 128,
        ensures
            r.resolution_spec() == resolution,
            r.reverse_spec() == reverse,
            r.pulses_spec() == 0,
    {
        // Each entry of the table is a state transition (previous and
        // current pin levels) and gives +1, -1 or 0 pulse.
        let lut: [i8; 16] = if reverse {
            [0, 1, -1, 0, -1, 0, 0, 1, 1, 0, 0, -1, 0, -1, 1, 0]
        } else {
            [0, -1, 1, 0, 1, 0, 0, -1, -1, 0, 0, 1, 0, 1, -1, 0]
        };
        let r = Self { resolution, lut, pulses: 0, reverse: Ghost(reverse) };
        assert forall|i: int| 0 <= i < 16 implies r.lut[i] == lut_pulse(reverse, i) by {
            assert(r.lut@ == lut@);
        }
        r
    }
}

impl ResolutionPhase {
    /// A resolution phase steps as `resolution_step` says and keeps its
    /// resolution and direction table.
    pub proof fn lemma_phase_next(&self, s: u8)
        ensures
            self.phase_next(s).0 == resolution_step(
                self.resolution_spec(),
                self.reverse_spec(),
                self.pulses_spec(),
                s,
            ).0,
            self.phase_next(s).1.resolution_spec() == self.resolution_spec(),
            self.phase_next(s).1.reverse_spec() == self.reverse_spec(),
            self.phase_next(s).1.pulses_spec() == (resolution_step(
                self.resolution_spec(),
                self.reverse_spec(),
                self.pulses_spec(),
                s,
            ).1 as i8) as int,
    {
    }
}

/// The directions a resolution phase gives for a sequence of transition
/// codes, one call after the other.
pub open spec fn resolution_directions(p: ResolutionPhase, codes: Seq<u8>) -> Seq<Direction>
    decreases codes.len(),
{
    if codes.len() == 0 {
        seq![]
    } else {
        let (d, next) = p.phase_next(codes[0]);
        seq![d] + resolution_directions(next, codes.drop_first())
    }
}

impl ResolutionPhase {
    /// Resolution 1 without reverse is the default quadrature table: for a
    /// transition code (0..16) it gives the default direction and stays at
    /// resolution 1, not reversed, with no pulse left.
    pub proof fn lemma_resolution_one_is_default(&self, s: u8)
        requires
            self.resolution_spec() == 1,
            !self.reverse_spec(),
            self.pulses_spec() == 0,
            s < 16,
        ensures
            self.phase_next(s).0 == default_direction(s),
            self.phase_next(s).1.resolution_spec() == 1,
            !self.phase_next(s).1.reverse_spec(),
            self.phase_next(s).1.pulses_spec() == 0,
    {
        assert((s & 0xF) == s) by (bit_vector)
            requires
                s < 16,
        ;
        assert(((s & 0xC) == (s & 0x3)) <==> s == 0) by (bit_vector)
            requires
                s < 16,
        ;
        assert(trem(1, 1) == 0 && trem(-1, 1) == 0);
    }

    /// Resolution 1 without reverse gives the default directions call by
    /// call, for every sequence of transition codes.
    pub proof fn lemma_resolution_one_run(&self, codes: Seq<u8>)
        requires
            self.resolution_spec() == 1,
            !self.reverse_spec(),
            self.pulses_spec() == 0,
            forall|i: int| 0 <= i < codes.len() ==> codes[i] < 16,
        ensures
            resolution_directions(*self, codes) == codes.map_values(|s: u8| default_direction(s)),
        decreases codes.len(),
    {
        if codes.len() > 0 {
            self.lemma_resolution_one_is_default(codes[0]);
            let next = self.phase_next(codes[0]).1;
            next.lemma_resolution_one_run(codes.drop_first());
            assert(resolution_directions(*self, codes) =~= codes.map_values(|s: u8| default_direction(s)));
        } else {
            assert(resolution_directions(*self, codes) =~= codes.map_values(|s: u8| default_direction(s)));
        }
    }
}

impl Phase for ResolutionPhase {
    closed spec fn phase_next(&self, s: u8) -> (Direction, Self) {
        let (d, p) = resolution_step(self.resolution, self.reverse@, self.pulses as int, s);
        (d, ResolutionPhase { pulses: p as i8, ..*self })
    }

    /// One step of the resolution phase (see `resolution_step`).
    fn direction(&mut self, s: u8) -> (r: Direction) {
        proof {
            use_type_invariant(&*self);
        }
        // Only proceed if there was a state change
        if (s & 0xC) != (s & 0x3) {
            let idx = (s & 0xF) as usize;
            assert((s & 0xF) < 16) by (bit_vector);
            let d = self.lut[idx];
            assert(d == lut_pulse(self.reverse@, idx as int));
            let res = self.resolution;
            let r: i8 = #[verifier::truncate] (res as i8);
            assert(r == signed_resolution(res)) by (bit_vector)
                requires
                    r == res as i8,
            ;
            // Add pulse value from the lookup table
            let p = self.pulses + d;
            // Check if we've reached the resolution threshold
            proof {
                lemma_trem_bound(p as int, r as int);
            }
            if p >= r {
                self.pulses = p % r;
                return Direction::CounterClockwise;
            } else if p <= -r {
                self.pulses = p % r;
                return Direction::Clockwise;
            } else {
                self.pulses = p;
            }
        }
        Direction::NoChange
    }
}

/// The 4-bit transition code: the previous levels (low two bits of the
/// state) with the new "low" levels of pin A (bit 2) and pin B (bit 3).
pub open spec fn transition_code(state: u8, a_is_low: bool, b_is_low: bool) -> u8 {
    ((state & 0b11) | (if a_is_low { 0b0100u8 } else { 0u8 }) | (if b_is_low {
        0b1000u8
    } else {
        0u8
    })) as u8
}

/// Holds the current/old pin state, the phase and the pending release.
/// The pins themselves are read by the caller and handed to `update`.
pub struct RotaryEncoder<P> {
    state: u8,
    phase: P,
    /// The index of the rotary encoder
    id: u8,
    /// The last action of the rotary encoder.
    /// When it's not `None`, the rotary encoder needs to emit a release event.
    last_action: Option<Direction>,
}

/// A pin of the encoder could not be read.
#[derive(Clone, Copy, Debug, PartialEq, Eq, Structural)]
pub struct PinReadFailed;

impl<P> RotaryEncoder<P> {
    /// The previous pin levels (two low bits).
    pub closed spec fn state_spec(&self) -> u8 {
        self.state
    }

    /// The phase.
    pub closed spec fn phase_spec(&self) -> P {
        self.phase
    }

    /// The encoder's index.
    pub closed spec fn id_spec(&self) -> u8 {
        self.id
    }

    /// The turn whose release is still to be reported.
    pub closed spec fn last_action_spec(&self) -> Option<Direction> {
        self.last_action
    }
}

impl RotaryEncoder<DefaultPhase> {
    /// An encoder with the default phase.
    pub fn new(id: u8) -> (r: Self)
        ensures
            r.state_spec() == 0,
            r.id_spec() == id,
            r.last_action_spec().is_none(),
    {
        Self { state: 0u8, phase: DefaultPhase, id, last_action: None }
    }
}

impl RotaryEncoder<ResolutionPhase> {
    /// Creates a new encoder with the specified resolution
    pub fn with_resolution(resolution: u8, reverse: bool, id: u8) -> (r: Self)
        requires
            resolution != 0,
            resolution != 128,
        ensures
            r.state_spec() == 0,
            r.id_spec() == id,
            r.last_action_spec().is_none(),
            r.phase_spec().resolution_spec() == resolution,
            r.phase_spec().reverse_spec() == reverse,
            r.phase_spec().pulses_spec() == 0,
    {
        Self { state: 0u8, phase: ResolutionPhase::new(resolution, reverse), id, last_action: None }
    }
}

impl<P: Phase> RotaryEncoder<P> {
    /// An encoder that uses `phase` to determine the direction.
    pub fn with_phase(phase: P, id: u8) -> (r: Self)
        ensures
            r.state_spec() == 0,
            r.id_spec() == id,
            r.last_action_spec().is_none(),
            r.phase_spec() == phase,
    {
        Self { state: 0u8, phase, id, last_action: None }
    }

    /// Evaluate the next state of the encoder from the pin readings
    /// (`None` for a failed read). A failed read is passed back as an
    /// error and leaves the encoder as it was; otherwise the new levels
    /// become the previous ones and the phase decides the direction.
    pub fn update(&mut self, a_is_low: Option<bool>, b_is_low: Option<bool>) -> (r: Result<Direction, PinReadFailed>)
        ensures
            (r is Err) <==> (a_is_low.is_none() || b_is_low.is_none()),
            r is Err ==> *final(self) == *old(self),
            a_is_low.is_some() && b_is_low.is_some() ==> {
                let code = transition_code(old(self).state_spec(), a_is_low.unwrap(), b_is_low.unwrap());
                &&& final(self).state_spec() == code >> 2u8
                &&& r == Ok::<Direction, PinReadFailed>(old(self).phase_spec().phase_next(code).0)
                &&& final(self).phase_spec() == old(self).phase_spec().phase_next(code).1
                &&& final(self).id_spec() == old(self).id_spec()
                &&& final(self).last_action_spec() == old(self).last_action_spec()
            },
    {
        let a = match a_is_low {
            Some(v) => v,
            None => return Err(PinReadFailed),
        };
        let b = match b_is_low {
            Some(v) => v,
            None => return Err(PinReadFailed),
        };
        let st = self.state;
        // use mask to get previous state value, then move in the new state
        let s: u8 = (st & 0b11) | (if a { 0b0100u8 } else { 0u8 }) | (if b { 0b1000u8 } else { 0u8 });
        assert(s == transition_code(st, a, b)) by (bit_vector)
            requires
                s == ((st & 0b11) | (if a { 0b0100u8 } else { 0u8 }) | (if b { 0b1000u8 } else { 0u8 })),
        ;
        // move new state in
        self.state = s >> 2;
        // Use the phase implementation
        Ok(self.phase.direction(s))
    }

    /// Whether a turn's release is still to be reported.
    pub fn has_pending_release(&self) -> (r: bool)
        ensures
            r == self.last_action_spec().is_some(),
    {
        self.last_action.is_some()
    }

    /// One read step of the encoder as an input device: a pending release is
    /// reported first (`(direction, false)`); otherwise the pins are
    /// evaluated and a turn is reported as a press (`(direction, true)`),
    /// to be released by the next step. `None` when nothing happened.
    pub fn read_step(&mut self, a_is_low: Option<bool>, b_is_low: Option<bool>) -> (r: Option<
        (Direction, bool),
    >)
        ensures
            old(self).last_action_spec().is_some() ==> r == Some(
                (old(self).last_action_spec().unwrap(), false),
            ) && final(self).last_action_spec().is_none() && final(self).state_spec()
                == old(self).state_spec(),
            old(self).last_action_spec().is_none() ==> {
                let d = if a_is_low.is_none() || b_is_low.is_none() {
                    Direction::NoChange
                } else {
                    old(self).phase_spec().phase_next(
                        transition_code(
                            old(self).state_spec(),
                            a_is_low.unwrap(),
                            b_is_low.unwrap(),
                        ),
                    ).0
                };
                &&& d == Direction::NoChange ==> r.is_none() && final(self).last_action_spec().is_none()
                &&& d != Direction::NoChange ==> r == Some((d, true)) && final(self).last_action_spec() == Some(d)
            },
            final(self).id_spec() == old(self).id_spec(),
    {
        if let Some(last_action) = self.last_action {
            self.last_action = None;
            return Some((last_action, false));
        }
        let direction = match self.update(a_is_low, b_is_low) {
            Ok(d) => d,
            Err(_) => Direction::NoChange,
        };
        if direction != Direction::NoChange {
            self.last_action = Some(direction);
            Some((direction, true))
        } else {
            None
        }
    }
}

} // verus!
