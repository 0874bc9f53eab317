//! Analog inputs read through the nRF SAADC: joysticks and battery
//! voltage on a shared set of channels, sampled into two alternating
//! buffers.
//!
//! Each configured event takes its channels in order from the current
//! buffer; when every event has been produced, a new sample is taken into
//! the other buffer. A difference of more than 150 between the two
//! buffers on some channel marks the ADC active; 1.2 s without one sends
//! it back to light sleep, where the caller waits longer between events.
//! The sampling and the waiting are the caller's.

use vstd::prelude::*;

use crate::battery::BatteryAdcEvent;
use crate::event::{Axis, AxisEvent, AxisValType, PointingEvent};

verus! {

/// What an analog event reads.
#[derive(Clone, Copy, Debug, PartialEq, Eq, Structural)]
pub enum EventType {
    /// A joystick with this many axes (1 to 3; only X and Y are read).
    Joystick(u8),
    Battery,
}

/// Power state of the ADC.
#[derive(Clone, Copy, Debug, PartialEq, Eq, Structural)]
pub enum AdcState {
    LightSleep,
    Active,
}

/// An event produced by the ADC.
#[derive(Clone, Copy, Debug, PartialEq, Eq)]
pub enum NrfAdcEvent {
    Pointing(PointingEvent),
    Battery(BatteryAdcEvent),
}

/// Channels an event takes: a joystick one per axis read (at most 2), a
/// battery one; an unsupported joystick none.
pub open spec fn channels_of(e: EventType) -> nat {
    match e {
        EventType::Joystick(sz) => if 1 <= sz <= 3 {
            if sz >= 2 {
                2nat
            } else {
                1nat
            }
        } else {
            0nat
        },
        EventType::Battery => 1nat,
    }
}

/// Channels taken by the first `n` events.
pub open spec fn channels_before(events: Seq<EventType>, n: int) -> nat
    decreases n,
{
    if n <= 0 {
        0
    } else {
        channels_before(events, n - 1) + channels_of(events[n - 1])
    }
}

proof fn lemma_channels_before_monotone(events: Seq<EventType>, a: int, b: int)
    requires
        0 <= a <= b,
    ensures
        channels_before(events, a) <= channels_before(events, b),
    decreases b - a,
{
    if a < b {
        lemma_channels_before_monotone(events, a, b - 1);
    }
}

/// Channels taken by all the events of a list.
pub fn channels_needed(events: &Vec<EventType>) -> (r: u16)
    requires
        events@.len() <= 255,
    ensures
        r == channels_before(events@, events@.len() as int),
{
    let mut total: u16 = 0;
    let mut i: usize = 0;
    while i < events.len()
        invariant
            i <= events@.len() <= 255,
            total == channels_before(events@, i as int),
            total <= 2 * i,
        decreases events@.len() - i,
    {
        let c: u16 = match events[i] {
            EventType::Joystick(sz) => if 1 <= sz && sz <= 3 {
                if sz >= 2 {
                    2
                } else {
                    1
                }
            } else {
                0
            },
            EventType::Battery => 1,
        };
        total = total + c;
        i = i + 1;
    }
    total
}

/// A sample the axis arithmetic can take without overflow.
pub open spec fn sample_ok(v: i16) -> bool {
    -16384 <= v <= 16383
}

/// Every sample of a buffer can be used.
pub open spec fn samples_ok(s: Seq<i16>) -> bool {
    forall|i: int| 0 <= i < s.len() ==> #[trigger] sample_ok(s[i])
}

/// A joystick axis value from a sample: centered at 16384 and doubled,
/// saturating at `i16::MIN`.
pub open spec fn spec_axis_value(v: i16) -> i16 {
    let d = 2 * (v - 16384);
    if d < -32768 {
        -32768i16
    } else {
        d as i16
    }
}

/// The battery reading of a sample, as Rust's `as u16` gives it.
pub open spec fn spec_battery_value(v: i16) -> u16 {
    if v < 0 {
        (v + 65536) as u16
    } else {
        v as u16
    }
}

/// The SAADC event source.
#[derive(Clone, Debug)]
pub struct NrfAdc {
    pub polling_interval_ms: u64,
    pub light_sleep_ms: Option<u64>,
    pub buf0: Vec<i16>,
    pub buf1: Vec<i16>,
    pub event_type: Vec<EventType>,
    pub event_state: u8,
    pub channel_state: u8,
    /// Which buffer holds the current sample: `buf0` when set.
    pub buf_state: bool,
    pub adc_state: AdcState,
    /// When the ADC last became active; `None` before the first sample.
    pub active_instant: Option<u64>,
}

impl NrfAdc {
    /// The events cycle through the channels: each takes its channels in
    /// order from both equally long buffers of usable samples.
    pub open spec fn wf(&self) -> bool {
        &&& 1 <= self.event_type@.len() <= 255
        &&& self.buf0@.len() == self.buf1@.len() <= 255
        &&& self.event_state <= self.event_type@.len()
        &&& self.channel_state == channels_before(self.event_type@, self.event_state as int)
        &&& channels_before(self.event_type@, self.event_type@.len() as int) <= self.buf0@.len()
        &&& samples_ok(self.buf0@)
        &&& samples_ok(self.buf1@)
    }

    /// The buffer holding the current sample.
    pub open spec fn current(&self) -> Seq<i16> {
        if self.buf_state {
            self.buf0@
        } else {
            self.buf1@
        }
    }

    /// A source for `pin_num` channels and these events.
    pub fn new(event_type: Vec<EventType>, pin_num: u8, polling_interval_ms: u64, light_sleep_ms: Option<u64>) -> (r: Self)
        requires
            1 <= event_type@.len() <= 255,
            channels_before(event_type@, event_type@.len() as int) <= pin_num,
        ensures
            r.wf(),
            r.event_type@ == event_type@,
            r.buf0@ == Seq::new(pin_num as nat, |i: int| 0i16),
            r.buf1@ == Seq::new(pin_num as nat, |i: int| 0i16),
            r.polling_interval_ms == polling_interval_ms,
            r.light_sleep_ms == light_sleep_ms,
            r.event_state == 0,
            !r.buf_state,
            r.adc_state == AdcState::LightSleep,
            r.active_instant is None,
    {
        let mut buf0: Vec<i16> = Vec::new();
        let mut buf1: Vec<i16> = Vec::new();
        let mut i: u8 = 0;
        while i < pin_num
            invariant
                i <= pin_num,
                buf0@ == Seq::new(i as nat, |k: int| 0i16),
                buf1@ == Seq::new(i as nat, |k: int| 0i16),
            decreases pin_num - i,
        {
            buf0.push(0);
            buf1.push(0);
            i = i + 1;
            assert(buf0@ =~= Seq::new(i as nat, |k: int| 0i16));
            assert(buf1@ =~= Seq::new(i as nat, |k: int| 0i16));
        }
        NrfAdc {
            polling_interval_ms,
            light_sleep_ms,
            buf0,
            buf1,
            event_type,
            event_state: 0,
            channel_state: 0,
            buf_state: false,
            adc_state: AdcState::LightSleep,
            active_instant: None,
        }
    }

    /// How long to wait before the next event: the light-sleep interval in
    /// light sleep when one is set, else the polling interval.
    pub fn wait_ms(&self) -> (r: u64)
        ensures
            r == (match self.light_sleep_ms {
                Some(l) => if self.adc_state == AdcState::LightSleep {
                    l
                } else {
                    self.polling_interval_ms
                },
                None => self.polling_interval_ms,
            }),
    {
        match self.light_sleep_ms {
            Some(l) => if self.adc_state == AdcState::LightSleep {
                l
            } else {
                self.polling_interval_ms
            },
            None => self.polling_interval_ms,
        }
    }

    /// The very first sample, taken into the second buffer at `now`.
    pub fn first_sample(&mut self, samples: &Vec<i16>, now: u64)
        requires
            old(self).wf(),
            old(self).active_instant is None,
            samples@.len() == old(self).buf1@.len(),
            samples_ok(samples@),
        ensures
            final(self).wf(),
            final(self).buf1@ == samples@,
            final(self).active_instant == Some(now),
            final(self).buf0 == old(self).buf0,
            final(self).event_type == old(self).event_type,
            final(self).event_state == old(self).event_state,
            final(self).channel_state == old(self).channel_state,
            final(self).buf_state == old(self).buf_state,
            final(self).adc_state == old(self).adc_state,
            final(self).polling_interval_ms == old(self).polling_interval_ms,
            final(self).light_sleep_ms == old(self).light_sleep_ms,
    {
        self.buf1 = copy_samples(samples);
        self.active_instant = Some(now);
    }

    /// Woken at `now`: 1.2 s after the last activity the ADC goes to light
    /// sleep. Returns whether every event has been produced, so that a new
    /// sample is due.
    pub fn on_wake(&mut self, now: u64) -> (r: bool)
        requires
            old(self).wf(),
            old(self).active_instant matches Some(t) && t <= now,
        ensures
            final(self).wf(),
            r == (old(self).event_state as int == old(self).event_type@.len()),
            final(self).adc_state == (if now - old(self).active_instant->0 > 1200 {
                AdcState::LightSleep
            } else {
                old(self).adc_state
            }),
            *final(self) == (NrfAdc { adc_state: final(self).adc_state, ..*old(self) }),
    {
        let t = match self.active_instant {
            Some(t) => t,
            None => now,
        };
        if now - t > 1200 {
            self.adc_state = AdcState::LightSleep;
        }
        self.event_state as usize == self.event_type.len()
    }

    /// A new sample taken at `now` into the other buffer: marks the ADC
    /// active if some channel moved by more than 150, and restarts the
    /// events.
    pub fn on_sample(&mut self, samples: &Vec<i16>, now: u64)
        requires
            old(self).wf(),
            samples@.len() == old(self).buf0@.len(),
            samples_ok(samples@),
        ensures
            final(self).wf(),
            final(self).buf_state == !old(self).buf_state,
            final(self).current() == samples@,
            (if final(self).buf_state {
                final(self).buf1
            } else {
                final(self).buf0
            }) == (if old(self).buf_state {
                old(self).buf0
            } else {
                old(self).buf1
            }),
            final(self).event_state == 0,
            final(self).channel_state == 0,
            ({
                let moved = exists|i: int|
                    0 <= i < samples@.len() && #[trigger] diff_abs(final(self).buf0@[i], final(self).buf1@[i])
                        > 150;
                &&& moved ==> final(self).adc_state == AdcState::Active && final(self).active_instant
                    == Some(now)
                &&& !moved ==> final(self).adc_state == old(self).adc_state && final(self).active_instant
                    == old(self).active_instant
            }),
            final(self).event_type == old(self).event_type,
            final(self).polling_interval_ms == old(self).polling_interval_ms,
            final(self).light_sleep_ms == old(self).light_sleep_ms,
    {
        self.buf_state = !self.buf_state;
        if self.buf_state {
            self.buf0 = copy_samples(samples);
        } else {
            self.buf1 = copy_samples(samples);
        }
        let n = self.buf0.len();
        let mut i: usize = 0;
        let mut moved = false;
        while i < n
            invariant
                i <= n,
                n == self.buf0@.len(),
                self.buf1@.len() == n,
                samples_ok(self.buf0@),
                samples_ok(self.buf1@),
                !moved ==> forall|k: int| 0 <= k < i ==> #[trigger] diff_abs(self.buf0@[k], self.buf1@[k]) <= 150,
                moved ==> exists|k: int| 0 <= k < n && #[trigger] diff_abs(self.buf0@[k], self.buf1@[k]) > 150,
            ensures
                moved ==> exists|k: int| 0 <= k < n && #[trigger] diff_abs(self.buf0@[k], self.buf1@[k]) > 150,
                !moved ==> forall|k: int| 0 <= k < n ==> #[trigger] diff_abs(self.buf0@[k], self.buf1@[k]) <= 150,
            decreases n - i,
        {
            assert(sample_ok(self.buf0@[i as int]) && sample_ok(self.buf1@[i as int]));
            let d = self.buf0[i] - self.buf1[i];
            let a = if d < 0 {
                -d
            } else {
                d
            };
            if a > 150 {
                moved = true;
                assert(diff_abs(self.buf0@[i as int], self.buf1@[i as int]) > 150);
                break;
            }
            i = i + 1;
        }
        if moved {
            self.adc_state = AdcState::Active;
            self.active_instant = Some(now);
        }
        self.channel_state = 0;
        self.event_state = 0;
    }

    /// The next event from the current buffer: a joystick reads X and Y
    /// (as many as it has, at most 2) from its channels; a battery its
    /// channel. An unsupported joystick (no axes, or more than 3) is
    /// skipped and yields `None`.
    pub fn next_event(&mut self, device_id: u8) -> (r: Option<NrfAdcEvent>)
        requires
            old(self).wf(),
            (old(self).event_state as int) < old(self).event_type@.len(),
        ensures
            final(self).wf(),
            final(self).event_state == old(self).event_state + 1,
            *final(self) == (NrfAdc {
                event_state: final(self).event_state,
                channel_state: final(self).channel_state,
                ..*old(self)
            }),
            ({
                let s = *old(self);
                let buf = s.current();
                let ch = s.channel_state as int;
                match s.event_type@[s.event_state as int] {
                    EventType::Joystick(sz) => if sz > 3 || sz == 0 {
                        r is None
                    } else {
                        r == Some(
                            NrfAdcEvent::Pointing(
                                PointingEvent {
                                    device_id,
                                    axes: [
                                        AxisEvent { typ: AxisValType::Rel, axis: Axis::X, value: spec_axis_value(buf[ch]) },
                                        AxisEvent {
                                            typ: AxisValType::Rel,
                                            axis: Axis::Y,
                                            value: if sz >= 2 {
                                                spec_axis_value(buf[ch + 1])
                                            } else {
                                                0
                                            },
                                        },
                                        AxisEvent { typ: AxisValType::Rel, axis: Axis::Z, value: 0 },
                                    ],
                                },
                            ),
                        )
                    },
                    EventType::Battery => r == Some(NrfAdcEvent::Battery(BatteryAdcEvent(spec_battery_value(buf[ch])))),
                }
            }),
    {
        let ghost s = *self;
        proof {
            lemma_channels_before_monotone(s.event_type@, s.event_state as int + 1, s.event_type@.len() as int);
        }
        let ev = self.event_type[self.event_state as usize];
        let ch = self.channel_state as usize;
        let r = match ev {
            EventType::Joystick(sz) => {
                if sz > 3 || sz == 0 {
                    None
                } else {
                    let x = axis_value(if self.buf_state {
                        self.buf0[ch]
                    } else {
                        self.buf1[ch]
                    });
                    let y: i16 = if sz >= 2 {
                        axis_value(if self.buf_state {
                            self.buf0[ch + 1]
                        } else {
                            self.buf1[ch + 1]
                        })
                    } else {
                        0
                    };
                    Some(
                        NrfAdcEvent::Pointing(
                            PointingEvent {
                                device_id,
                                axes: [
                                    AxisEvent { typ: AxisValType::Rel, axis: Axis::X, value: x },
                                    AxisEvent { typ: AxisValType::Rel, axis: Axis::Y, value: y },
                                    AxisEvent { typ: AxisValType::Rel, axis: Axis::Z, value: 0 },
                                ],
                            },
                        ),
                    )
                }
            },
            EventType::Battery => {
                let v = if self.buf_state {
                    self.buf0[ch]
                } else {
                    self.buf1[ch]
                };
                Some(NrfAdcEvent::Battery(BatteryAdcEvent(battery_value(v))))
            },
        };
        let taken: u8 = match ev {
            EventType::Joystick(sz) => if sz > 3 || sz == 0 {
                0
            } else if sz >= 2 {
                2
            } else {
                1
            },
            EventType::Battery => 1,
        };
        self.channel_state = self.channel_state + taken;
        self.event_state = self.event_state + 1;
        r
    }
}

/// Distance between two samples.
pub open spec fn diff_abs(a: i16, b: i16) -> int {
    if a - b < 0 {
        b - a
    } else {
        a - b
    }
}

fn axis_value(v: i16) -> (r: i16)
    requires
        sample_ok(v),
    ensures
        r == spec_axis_value(v),
{
    let d = v - 16384;
    if d < -16384 {
        -32768
    } else {
        d * 2
    }
}

fn battery_value(v: i16) -> (r: u16)
    ensures
        r == spec_battery_value(v),
{
    if v < 0 {
        (v as i32 + 65536) as u16
    } else {
        v as u16
    }
}

fn copy_samples(samples: &Vec<i16>) -> (r: Vec<i16>)
    ensures
        r@ == samples@,
{
    let mut r: Vec<i16> = Vec::new();
    let mut i: usize = 0;
    while i < samples.len()
        invariant
            i <= samples@.len(),
            r@ == samples@.subrange(0, i as int),
        decreases samples@.len() - i,
    {
        r.push(samples[i]);
        i = i + 1;
        assert(r@ =~= samples@.subrange(0, i as int));
    }
    assert(r@ =~= samples@);
    r
}

} // verus!
