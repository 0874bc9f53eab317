//! Battery level from ADC readings and charging state from a pin.
//!
//! The ADC value of a divided battery voltage maps linearly onto 0..=100 %
//! between 3.6 V and 4.2 V; a reading taken on the VDDH pin (recognized by
//! its range) uses the pin's fixed 1/5 divider. While charging, ADC
//! readings are ignored. The pin reads and the publishing are the caller's.

use vstd::prelude::*;

use crate::arith::tdiv;

verus! {

/// A raw battery ADC reading.
#[derive(Clone, Copy, Debug, PartialEq, Eq, Structural)]
pub struct BatteryAdcEvent(pub u16);

/// A change of the charging state.
#[derive(Clone, Copy, Debug, PartialEq, Eq, Structural)]
pub struct ChargingStateEvent {
    pub charging: bool,
}

/// Charge state of the battery.
#[derive(Clone, Copy, Debug, PartialEq, Eq, Structural)]
pub enum ChargeState {
    Charging,
    Discharging,
    Unknown,
}

/// Battery status, as published to the host services.
#[derive(Clone, Copy, Debug, PartialEq, Eq, Structural)]
pub enum BatteryStatus {
    Unavailable,
    Available { charge_state: ChargeState, level: Option<u8> },
}

/// Divider settings under which the level computation cannot overflow or
/// divide by zero.
pub open spec fn divider_ok(measured: u32, total: u32) -> bool {
    1 <= measured <= 451_626 && 1 <= total <= 32_767
}

/// Whether divider settings are in range.
pub fn divider_ok_exec(measured: u32, total: u32) -> (r: bool)
    ensures
        r == divider_ok(measured, total),
{
    1 <= measured && measured <= 451_626 && 1 <= total && total <= 32_767
}

/// The battery level of ADC value `val` through a divider of `measured`
/// over `total`: 100 above `4755 * measured / total`, 0 below
/// `4055 * measured / total`, else `(val * total / measured - 4055) / 7`
/// (Rust's truncating division, cast to `u8`). Values in `501..=999` are
/// VDDH readings, with a 1/5 divider.
pub open spec fn spec_battery_percent(measured: u32, total: u32, val: u16) -> u8 {
    let (m, t): (int, int) = if 500 < val && val < 1000 {
        (1, 5)
    } else {
        (measured as int, total as int)
    };
    if val > 4755 * m / t {
        100
    } else if val < 4055 * m / t {
        0
    } else {
        tdiv(val * t / m - 4055, 7) as u8
    }
}

/// Turns battery ADC readings and charging changes into battery statuses.
#[derive(Clone, Copy, Debug, PartialEq, Eq, Structural)]
pub struct BatteryProcessor {
    pub adc_divider_measured: u32,
    pub adc_divider_total: u32,
    pub battery_status: BatteryStatus,
}

impl BatteryProcessor {
    /// A processor for a divider, with the status not yet available.
    pub fn new(adc_divider_measured: u32, adc_divider_total: u32) -> (r: Self)
        ensures
            r == (BatteryProcessor {
                adc_divider_measured,
                adc_divider_total,
                battery_status: BatteryStatus::Unavailable,
            }),
    {
        BatteryProcessor { adc_divider_measured, adc_divider_total, battery_status: BatteryStatus::Unavailable }
    }

    /// The battery level, in percent, of an ADC value.
    pub fn get_battery_percent(&self, val: u16) -> (r: u8)
        requires
            divider_ok(self.adc_divider_measured, self.adc_divider_total),
        ensures
            r == spec_battery_percent(self.adc_divider_measured, self.adc_divider_total, val),
    {
        let v = val as i32;
        let mut measured = self.adc_divider_measured as i32;
        let mut total = self.adc_divider_total as i32;
        if 500 < v && v < 1000 {
            measured = 1;
            total = 5;
        }
        proof {
            assert(4755 * measured <= 4755 * 451_626) by (nonlinear_arith)
                requires
                    1 <= measured <= 451_626,
            ;
            assert(v * total <= 65535 * 32767) by (nonlinear_arith)
                requires
                    0 <= v <= 65535,
                    1 <= total <= 32_767,
            ;
            assert(v * total >= 0) by (nonlinear_arith)
                requires
                    0 <= v,
                    1 <= total,
            ;
            assert((v * total) / (measured as int) <= v * total) by {
                vstd::arithmetic::div_mod::lemma_div_is_ordered_by_denominator(v * total, 1, measured as int);
            }
            assert((v * total) / (measured as int) >= 0) by {
                vstd::arithmetic::div_mod::lemma_div_pos_is_pos(v * total, measured as int);
            }
        }
        if v > 4755 * measured / total {
            100
        } else if v < 4055 * measured / total {
            0
        } else {
            let level = (v * total / measured - 4055) / 7;
            (#[verifier::truncate] (level as u8))
        }
    }

    /// A battery ADC reading: ignored while charging; otherwise the level
    /// is computed, and a changed status (the first reading makes the
    /// status available, with an unknown charge state) is returned for
    /// publishing.
    pub fn on_battery_adc_event(&mut self, event: BatteryAdcEvent) -> (r: Option<BatteryStatus>)
        requires
            divider_ok(old(self).adc_divider_measured, old(self).adc_divider_total),
        ensures
            final(self).adc_divider_measured == old(self).adc_divider_measured,
            final(self).adc_divider_total == old(self).adc_divider_total,
            ({
                let p = spec_battery_percent(old(self).adc_divider_measured, old(self).adc_divider_total, event.0);
                match old(self).battery_status {
                    BatteryStatus::Available { charge_state: ChargeState::Charging, .. } => r is None
                        && final(self).battery_status == old(self).battery_status,
                    BatteryStatus::Available { charge_state, level } => if level == Some(p) {
                        r is None && final(self).battery_status == old(self).battery_status
                    } else {
                        r == Some(BatteryStatus::Available { charge_state, level: Some(p) })
                            && final(self).battery_status == r->0
                    },
                    BatteryStatus::Unavailable => r == Some(
                        BatteryStatus::Available { charge_state: ChargeState::Unknown, level: Some(p) },
                    ) && final(self).battery_status == r->0,
                }
            }),
    {
        let val = event.0;
        match self.battery_status {
            BatteryStatus::Available { charge_state: ChargeState::Charging, .. } => None,
            BatteryStatus::Available { charge_state, level } => {
                let battery_percent = self.get_battery_percent(val);
                if level != Some(battery_percent) {
                    let status = BatteryStatus::Available { charge_state, level: Some(battery_percent) };
                    self.battery_status = status;
                    Some(status)
                } else {
                    None
                }
            },
            BatteryStatus::Unavailable => {
                let battery_percent = self.get_battery_percent(val);
                let status = BatteryStatus::Available {
                    charge_state: ChargeState::Unknown,
                    level: Some(battery_percent),
                };
                self.battery_status = status;
                Some(status)
            },
        }
    }

    /// A charging change: charging keeps the known level; unplugging
    /// makes the level unknown until the next reading. The new status is
    /// returned for publishing.
    pub fn on_charging_state_event(&mut self, event: ChargingStateEvent) -> (r: BatteryStatus)
        ensures
            final(self).adc_divider_measured == old(self).adc_divider_measured,
            final(self).adc_divider_total == old(self).adc_divider_total,
            final(self).battery_status == r,
            r == (if event.charging {
                BatteryStatus::Available {
                    charge_state: ChargeState::Charging,
                    level: match old(self).battery_status {
                        BatteryStatus::Available { level, .. } => level,
                        BatteryStatus::Unavailable => None,
                    },
                }
            } else {
                BatteryStatus::Available { charge_state: ChargeState::Discharging, level: None }
            }),
    {
        let status = if event.charging {
            let level = match self.battery_status {
                BatteryStatus::Available { level, .. } => level,
                BatteryStatus::Unavailable => None,
            };
            BatteryStatus::Available { charge_state: ChargeState::Charging, level }
        } else {
            BatteryStatus::Available { charge_state: ChargeState::Discharging, level: None }
        };
        self.battery_status = status;
        status
    }
}

/// Whether a status is available.
pub fn is_available(status: BatteryStatus) -> (r: bool)
    ensures
        r == (status is Available),
{
    match status {
        BatteryStatus::Available { .. } => true,
        BatteryStatus::Unavailable => false,
    }
}

/// Reads the charging state from a pin: the first reading (after 2 s) is
/// always reported; later readings (every 5 s) only when they change.
#[derive(Clone, Copy, Debug, PartialEq, Eq, Structural)]
pub struct ChargingStateReader {
    /// A low pin means charging.
    pub low_active: bool,
    pub current_charging_state: bool,
    pub first_read: bool,
}

/// The charging state of a pin reading (`None`: the read failed, which
/// counts as not charging).
pub open spec fn spec_charging(low_active: bool, pin_high: Option<bool>) -> bool {
    match pin_high {
        Some(h) => if low_active {
            !h
        } else {
            h
        },
        None => false,
    }
}

impl ChargingStateReader {
    pub fn new(low_active: bool) -> (r: Self)
        ensures
            r == (ChargingStateReader { low_active, current_charging_state: false, first_read: false }),
    {
        ChargingStateReader { low_active, current_charging_state: false, first_read: false }
    }

    /// Seconds to wait before the next reading.
    pub fn wait_secs(&self) -> (r: u64)
        ensures
            r == (if self.first_read {
                5u64
            } else {
                2u64
            }),
    {
        if self.first_read {
            5
        } else {
            2
        }
    }

    /// A pin reading (`pin_high`, or `None` when the read failed): the
    /// event to publish, if any.
    pub fn on_reading(&mut self, pin_high: Option<bool>) -> (r: Option<ChargingStateEvent>)
        ensures
            final(self).low_active == old(self).low_active,
            final(self).first_read,
            final(self).current_charging_state == spec_charging(old(self).low_active, pin_high),
            r == (if !old(self).first_read || spec_charging(old(self).low_active, pin_high)
                != old(self).current_charging_state {
                Some(ChargingStateEvent { charging: spec_charging(old(self).low_active, pin_high) })
            } else {
                None
            }),
    {
        let charging = match pin_high {
            Some(h) => if self.low_active {
                !h
            } else {
                h
            },
            None => false,
        };
        if !self.first_read {
            self.current_charging_state = charging;
            self.first_read = true;
            return Some(ChargingStateEvent { charging });
        }
        if charging != self.current_charging_state {
            self.current_charging_state = charging;
            Some(ChargingStateEvent { charging })
        } else {
            None
        }
    }
}

} // verus!
