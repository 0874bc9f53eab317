//! The decisions of a pointing device: initialization with bounded
//! retries, accumulation of sensor motion between reports, and the report
//! event taken from the accumulated motion. The driver calls and the timing
//! loop that drive these steps are the caller's.

use vstd::prelude::*;

use crate::arith::{clamp_i32_to_i16, clamp_int, sat_add_i32};
use crate::event::{Axis, AxisEvent, AxisValType, PointingEvent};
use crate::pointing::MotionData;

verus! {

/// Initialization state for the device
#[derive(Debug, Clone, Copy, PartialEq, Eq, Structural)]
pub enum InitState {
    Pending,
    Initializing(u8),
    Ready,
    Failed,
}

/// How many initialization attempts are made before giving up.
pub const MAX_INIT_RETRIES: u8 = 3;

/// What to do before talking to the sensor.
#[derive(Debug, Clone, Copy, PartialEq, Eq, Structural)]
pub enum InitStep {
    /// Initialization is over; the flag tells whether the sensor is usable.
    Done(bool),
    /// Call the driver's `init`; this is attempt number `n + 1`.
    CallInit(u8),
}

/// The state after an initialization attempt, whether the sensor is now
/// usable, and whether to wait before the next attempt.
pub open spec fn init_result(retry_count: u8, succeeded: bool) -> (InitState, bool, bool) {
    if succeeded {
        (InitState::Ready, true, false)
    } else if retry_count + 1 >= MAX_INIT_RETRIES {
        (InitState::Failed, false, false)
    } else {
        (InitState::Initializing((retry_count + 1) as u8), false, true)
    }
}

/// A pointing device's state between sensor reads: its id, the
/// initialization state, the poll and report timing (milliseconds), and
/// the motion accumulated since the last report.
pub struct PointingDevice {
    pub init_state: InitState,
    pub poll_interval_ms: u64,
    pub id: u8,
    pub report_interval_ms: u64,
    pub last_poll_ms: u64,
    pub last_report_ms: u64,
    pub accumulated_x: i32,
    pub accumulated_y: i32,
}

impl PointingDevice {
    /// A device that has not been initialized and has no motion.
    pub fn new(id: u8, poll_interval_ms: u64, report_interval_ms: u64) -> (r: Self)
        ensures
            r.id == id,
            r.init_state == InitState::Pending,
            r.poll_interval_ms == poll_interval_ms,
            r.report_interval_ms == report_interval_ms,
            r.last_poll_ms == 0 && r.last_report_ms == 0,
            r.accumulated_x == 0 && r.accumulated_y == 0,
    {
        PointingDevice {
            init_state: InitState::Pending,
            poll_interval_ms,
            id,
            report_interval_ms,
            last_poll_ms: 0,
            last_report_ms: 0,
            accumulated_x: 0,
            accumulated_y: 0,
        }
    }

    /// First half of an initialization attempt: a ready or failed device
    /// needs no call; a pending one starts its first attempt.
    pub fn begin_init(&mut self) -> (r: InitStep)
        ensures
            match old(self).init_state {
                InitState::Ready => r == InitStep::Done(true) && final(self).init_state
                    == old(self).init_state,
                InitState::Failed => r == InitStep::Done(false) && final(self).init_state
                    == old(self).init_state,
                InitState::Pending => r == InitStep::CallInit(0) && final(self).init_state
                    == InitState::Initializing(0),
                InitState::Initializing(n) => r == InitStep::CallInit(n) && final(self).init_state
                    == old(self).init_state,
            },
            final(self).accumulated_x == old(self).accumulated_x,
            final(self).accumulated_y == old(self).accumulated_y,
            final(self).id == old(self).id,
    {
        match self.init_state {
            InitState::Ready => InitStep::Done(true),
            InitState::Failed => InitStep::Done(false),
            InitState::Pending => {
                self.init_state = InitState::Initializing(0);
                InitStep::CallInit(0)
            },
            InitState::Initializing(n) => InitStep::CallInit(n),
        }
    }

    /// Second half of an initialization attempt number `retry_count + 1`:
    /// success makes the device ready; a failure either schedules another
    /// attempt (after a pause) or gives up after `MAX_INIT_RETRIES` attempts.
    /// Returns whether the device is ready and whether to pause.
    pub fn finish_init(&mut self, retry_count: u8, succeeded: bool) -> (r: (bool, bool))
        requires
            retry_count < 255,
        ensures
            final(self).init_state == init_result(retry_count, succeeded).0,
            r == (init_result(retry_count, succeeded).1, init_result(retry_count, succeeded).2),
            final(self).accumulated_x == old(self).accumulated_x,
            final(self).accumulated_y == old(self).accumulated_y,
            final(self).id == old(self).id,
    {
        if succeeded {
            self.init_state = InitState::Ready;
            (true, false)
        } else if retry_count + 1 >= MAX_INIT_RETRIES {
            self.init_state = InitState::Failed;
            (false, false)
        } else {
            self.init_state = InitState::Initializing(retry_count + 1);
            (false, true)
        }
    }

    /// Add a sensor reading to the accumulated motion (saturating).
    pub fn add_motion(&mut self, motion: MotionData)
        ensures
            final(self).accumulated_x == clamp_int(
                old(self).accumulated_x + motion.dx,
                i32::MIN as int,
                i32::MAX as int,
            ),
            final(self).accumulated_y == clamp_int(
                old(self).accumulated_y + motion.dy,
                i32::MIN as int,
                i32::MAX as int,
            ),
            final(self).init_state == old(self).init_state,
            final(self).id == old(self).id,
    {
        self.accumulated_x = sat_add_i32(self.accumulated_x, motion.dx as i32);
        self.accumulated_y = sat_add_i32(self.accumulated_y, motion.dy as i32);
    }

    /// Take the accumulated motion as a report event: none when nothing
    /// moved; otherwise the motion clamped to `i16` on the relative X and Y
    /// axes (Z is 0), after which the accumulator is empty.
    pub fn take_report_event(&mut self) -> (r: Option<PointingEvent>)
        ensures
            old(self).accumulated_x == 0 && old(self).accumulated_y == 0 ==> r.is_none()
                && final(self).accumulated_x == 0 && final(self).accumulated_y == 0,
            !(old(self).accumulated_x == 0 && old(self).accumulated_y == 0) ==> r == Some(
                PointingEvent {
                    device_id: old(self).id,
                    axes: [
                        AxisEvent {
                            typ: AxisValType::Rel,
                            axis: Axis::X,
                            value: clamp_int(
                                old(self).accumulated_x as int,
                                i16::MIN as int,
                                i16::MAX as int,
                            ) as i16,
                        },
                        AxisEvent {
                            typ: AxisValType::Rel,
                            axis: Axis::Y,
                            value: clamp_int(
                                old(self).accumulated_y as int,
                                i16::MIN as int,
                                i16::MAX as int,
                            ) as i16,
                        },
                        AxisEvent { typ: AxisValType::Rel, axis: Axis::Z, value: 0 },
                    ],
                },
            ),
            final(self).accumulated_x == 0,
            final(self).accumulated_y == 0,
            final(self).init_state == old(self).init_state,
            final(self).id == old(self).id,
    {
        if self.accumulated_x == 0 && self.accumulated_y == 0 {
            return None;
        }
        let dx = clamp_i32_to_i16(self.accumulated_x);
        let dy = clamp_i32_to_i16(self.accumulated_y);
        self.accumulated_x = 0;
        self.accumulated_y = 0;
        Some(
            PointingEvent {
                device_id: self.id,
                axes: [
                    AxisEvent { typ: AxisValType::Rel, axis: Axis::X, value: dx },
                    AxisEvent { typ: AxisValType::Rel, axis: Axis::Y, value: dy },
                    AxisEvent { typ: AxisValType::Rel, axis: Axis::Z, value: 0 },
                ],
            },
        )
    }

    /// Whether a pending motion should be reported now: only when motion
    /// has accumulated and the report interval has elapsed.
    pub fn report_due(&self, now_ms: u64) -> (r: bool)
        ensures
            r == ((self.accumulated_x != 0 || self.accumulated_y != 0) && now_ms
                >= self.last_report_ms && now_ms - self.last_report_ms
                >= self.report_interval_ms),
    {
        (self.accumulated_x != 0 || self.accumulated_y != 0) && now_ms >= self.last_report_ms
            && now_ms - self.last_report_ms >= self.report_interval_ms
    }
}

} // verus!
