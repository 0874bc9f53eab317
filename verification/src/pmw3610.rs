//! PMW3610 low-power optical sensor: configuration, the register values
//! the driver computes, its checks of what the sensor answers, the
//! decoding of motion bursts and the smart-mode switching on shiny
//! surfaces. The SPI transfers and the timing are the caller's.

use vstd::prelude::*;

use crate::pointing::{MotionData, PointingDriverError};

verus! {

/// Page 0 registers.
pub const REG_PROD_ID: u8 = 0x00;
pub const REG_MOTION: u8 = 0x02;
pub const REG_DELTA_XY_H: u8 = 0x05;
pub const REG_PERFORMANCE: u8 = 0x11;
pub const REG_BURST_READ: u8 = 0x12;
pub const REG_RUN_DOWNSHIFT: u8 = 0x1b;
pub const REG_REST1_RATE: u8 = 0x1c;
pub const REG_REST1_DOWNSHIFT: u8 = 0x1d;
pub const REG_OBSERVATION1: u8 = 0x2d;
pub const REG_SMART_MODE: u8 = 0x32;
pub const REG_POWER_UP_RESET: u8 = 0x3a;
pub const REG_SPI_CLK_ON_REQ: u8 = 0x41;
pub const REG_SPI_PAGE0: u8 = 0x7f;
/// Page 1 registers.
pub const REG_RES_STEP: u8 = 0x05;
pub const REG_SPI_PAGE1: u8 = 0x7f;

/// Values written during initialization.
pub const PERFORMANCE_INIT: u8 = 0x0d;
pub const RUN_DOWNSHIFT_INIT: u8 = 0x04;
pub const REST1_RATE_INIT: u8 = 0x04;
pub const REST1_DOWNSHIFT_INIT: u8 = 0x0f;
pub const POWER_UP_RESET_VAL: u8 = 0x5a;
pub const SPI_CLOCK_ON_REQ_ON: u8 = 0xba;
pub const SPI_CLOCK_ON_REQ_OFF: u8 = 0xb5;
pub const SPI_PAGE0_1: u8 = 0xff;
pub const SPI_PAGE1_0: u8 = 0x00;
pub const SPI_WRITE: u8 = 0x80;

pub const PRODUCT_ID_PMW3610: u8 = 0x3e;
pub const MOTION_STATUS_MOTION: u8 = 0x80;
pub const OBSERVATION1_INIT_MASK: u8 = 0x0f;
pub const RES_STEP_SWAP_XY_BIT: u8 = 7;
pub const RES_STEP_INV_X_BIT: u8 = 6;
pub const RES_STEP_INV_Y_BIT: u8 = 5;
pub const RES_STEP_RES_MASK: u8 = 0x1f;
pub const PERFORMANCE_FMODE_MASK: u8 = 0xf0;
pub const PERFORMANCE_FMODE_FORCE_AWAKE: u8 = 0xf0;
pub const SHUTTER_SMART_THRESHOLD: u16 = 45;
pub const SMART_MODE_ENABLE: u8 = 0x00;
pub const SMART_MODE_DISABLE: u8 = 0x80;
pub const RES_STEP: u16 = 200;
pub const RES_MIN: u16 = 200;
pub const RES_MAX: u16 = 3200;

/// PMW3610 configuration.
#[derive(Clone, Copy, Debug, PartialEq, Eq, Structural)]
pub struct Pmw3610Config {
    /// CPI resolution (200-3200, step 200); not positive: the sensor's
    /// default.
    pub res_cpi: i16,
    pub invert_x: bool,
    pub invert_y: bool,
    pub swap_xy: bool,
    /// Disable power saving.
    pub force_awake: bool,
    /// Better tracking on shiny surfaces.
    pub smart_mode: bool,
}

impl Default for Pmw3610Config {
    fn default() -> (r: Self)
        ensures
            r == (Pmw3610Config {
                res_cpi: -1i16,
                invert_x: false,
                invert_y: false,
                swap_xy: false,
                force_awake: false,
                smart_mode: false,
            }),
    {
        Pmw3610Config {
            res_cpi: -1,
            invert_x: false,
            invert_y: false,
            swap_xy: false,
            force_awake: false,
            smart_mode: false,
        }
    }
}

/// PMW3610 errors.
#[derive(Clone, Copy, Debug, PartialEq, Eq, Structural)]
pub enum Pmw3610Error {
    Spi,
    InvalidProductId(u8),
    InitFailed,
    InvalidCpi,
}

/// The pointing error of a sensor error.
pub open spec fn spec_driver_error(err: Pmw3610Error) -> PointingDriverError {
    match err {
        Pmw3610Error::Spi => PointingDriverError::Spi,
        Pmw3610Error::InvalidProductId(id) => PointingDriverError::InvalidProductId(id),
        Pmw3610Error::InitFailed => PointingDriverError::InitFailed,
        Pmw3610Error::InvalidCpi => PointingDriverError::InvalidCpi,
    }
}

impl From<Pmw3610Error> for PointingDriverError {
    fn from(err: Pmw3610Error) -> (r: PointingDriverError) {
        match err {
            Pmw3610Error::Spi => PointingDriverError::Spi,
            Pmw3610Error::InvalidProductId(id) => PointingDriverError::InvalidProductId(id),
            Pmw3610Error::InitFailed => PointingDriverError::InitFailed,
            Pmw3610Error::InvalidCpi => PointingDriverError::InvalidCpi,
        }
    }
}

impl vstd::std_specs::convert::FromSpecImpl<Pmw3610Error> for PointingDriverError {
    open spec fn obeys_from_spec() -> bool {
        true
    }

    open spec fn from_spec(err: Pmw3610Error) -> PointingDriverError {
        spec_driver_error(err)
    }
}

/// The product id read after the power-up reset must be the PMW3610's.
pub fn check_product_id(id: u8) -> (r: Result<(), Pmw3610Error>)
    ensures
        id == PRODUCT_ID_PMW3610 ==> r == Ok::<(), Pmw3610Error>(()),
        id != PRODUCT_ID_PMW3610 ==> r == Err::<(), Pmw3610Error>(Pmw3610Error::InvalidProductId(id)),
{
    if id != PRODUCT_ID_PMW3610 {
        Err(Pmw3610Error::InvalidProductId(id))
    } else {
        Ok(())
    }
}

/// The observation register must show its four low bits after
/// initialization.
pub fn check_observation(val: u8) -> (r: Result<(), Pmw3610Error>)
    ensures
        (val & OBSERVATION1_INIT_MASK == OBSERVATION1_INIT_MASK) ==> r == Ok::<(), Pmw3610Error>(()),
        (val & OBSERVATION1_INIT_MASK != OBSERVATION1_INIT_MASK) ==> r == Err::<(), Pmw3610Error>(
            Pmw3610Error::InitFailed,
        ),
{
    if (val & OBSERVATION1_INIT_MASK) != OBSERVATION1_INIT_MASK {
        Err(Pmw3610Error::InitFailed)
    } else {
        Ok(())
    }
}

/// A bit of a register set or cleared.
pub open spec fn with_bit(v: u8, bit: u8, on: bool) -> u8 {
    if on {
        v | ((1u8 << bit) as u8)
    } else {
        v & !((1u8 << bit) as u8)
    }
}

/// The RES_STEP register with the orientation bits of the configuration:
/// bit 7 swaps X and Y, bit 6 inverts X, bit 5 inverts Y.
pub fn res_step_orientation(current: u8, config: &Pmw3610Config) -> (r: u8)
    ensures
        r == with_bit(
            with_bit(with_bit(current, RES_STEP_SWAP_XY_BIT, config.swap_xy), RES_STEP_INV_X_BIT, config.invert_x),
            RES_STEP_INV_Y_BIT,
            config.invert_y,
        ),
{
    let mut v = current;
    if config.swap_xy {
        v = v | (1u8 << RES_STEP_SWAP_XY_BIT);
    } else {
        v = v & !(1u8 << RES_STEP_SWAP_XY_BIT);
    }
    if config.invert_x {
        v = v | (1u8 << RES_STEP_INV_X_BIT);
    } else {
        v = v & !(1u8 << RES_STEP_INV_X_BIT);
    }
    if config.invert_y {
        v = v | (1u8 << RES_STEP_INV_Y_BIT);
    } else {
        v = v & !(1u8 << RES_STEP_INV_Y_BIT);
    }
    v
}

/// A resolution the sensor takes: 200..=3200 CPI.
pub fn check_cpi(cpi: u16) -> (r: Result<(), PointingDriverError>)
    ensures
        (RES_MIN <= cpi <= RES_MAX) ==> r == Ok::<(), PointingDriverError>(()),
        !(RES_MIN <= cpi <= RES_MAX) ==> r == Err::<(), PointingDriverError>(PointingDriverError::InvalidCpi),
{
    if cpi < RES_MIN || cpi > RES_MAX {
        Err(PointingDriverError::InvalidCpi)
    } else {
        Ok(())
    }
}

/// The RES_STEP register with a resolution: its low five bits cleared and
/// `cpi / 200` or'ed in.
pub fn res_step_resolution(current: u8, cpi: u16) -> (r: u8)
    requires
        RES_MIN <= cpi <= RES_MAX,
    ensures
        r == ((current & !RES_STEP_RES_MASK) | ((cpi / 200) as u8)),
{
    (current & !RES_STEP_RES_MASK) | ((cpi / RES_STEP) as u8)
}

/// Whether initialization sets a resolution: only for a positive CPI.
pub fn configured_cpi(config: &Pmw3610Config) -> (r: Option<u16>)
    ensures
        config.res_cpi > 0 ==> r == Some(config.res_cpi as u16),
        config.res_cpi <= 0 ==> r is None,
{
    if config.res_cpi > 0 {
        Some(config.res_cpi as u16)
    } else {
        None
    }
}

/// The PERFORMANCE register with its frame-mode nibble set to force-awake
/// or normal.
pub fn performance_value(current: u8, force_awake: bool) -> (r: u8)
    ensures
        r == ((current & !PERFORMANCE_FMODE_MASK) | (if force_awake {
            PERFORMANCE_FMODE_FORCE_AWAKE
        } else {
            0u8
        })),
{
    let v = current & !PERFORMANCE_FMODE_MASK;
    if force_awake {
        v | PERFORMANCE_FMODE_FORCE_AWAKE
    } else {
        v | 0u8
    }
}

/// The signed value of a 12-bit two's complement field.
pub open spec fn spec_sign_extend_12(v: u16) -> i16 {
    if v >= 0x800 {
        (v - 0x1000) as i16
    } else {
        v as i16
    }
}

/// Sign extension from bit `bits` of a 12-bit field.
pub fn sign_extend(value: u16, bits: u16) -> (r: i16)
    requires
        bits == 11,
        value < 0x1000,
    ensures
        r == spec_sign_extend_12(value),
{
    let sign_bit: u16 = 1u16 << bits;
    assert(sign_bit == 0x800) by (bit_vector)
        requires
            sign_bit == 1u16 << bits,
            bits == 11,
    ;
    if value & sign_bit != 0 {
        let shift: u16 = bits + 1;
        let top: u16 = 1u16 << shift;
        assert(top == 0x1000) by (bit_vector)
            requires
                top == 1u16 << shift,
                shift == 12,
        ;
        let mask: u16 = top - 1;
        let extended: u16 = value | !mask;
        assert(value & 0x800u16 != 0 ==> value >= 0x800) by (bit_vector)
            requires
                value < 0x1000,
        ;
        assert(extended == value + 0xF000) by (bit_vector)
            requires
                extended == value | !mask,
                mask == 0x0FFF,
                value < 0x1000,
        ;
        (extended as i32 - 65536) as i16
    } else {
        assert(value & 0x800u16 == 0 ==> value < 0x800) by (bit_vector)
            requires
                value < 0x1000,
        ;
        value as i16
    }
}

/// The 12-bit X and Y deltas of a burst: low bytes at 1 and 2, the high
/// nibbles of X (upper) and Y (lower) at 3.
pub open spec fn spec_burst_x(b1: u8, b3: u8) -> u16 {
    ((b3 / 16) * 256 + b1) as u16
}

pub open spec fn spec_burst_y(b2: u8, b3: u8) -> u16 {
    ((b3 % 16) * 256 + b2) as u16
}

/// What a burst gives: the motion and, in smart mode, the SMART_MODE value
/// to write when the shutter crosses the threshold.
#[derive(Clone, Copy, Debug)]
pub struct BurstOutcome {
    pub motion: MotionData,
    pub smart_write: Option<u8>,
}

/// Smart-mode switching state of a sensor.
#[derive(Clone, Copy, Debug, PartialEq, Eq, Structural)]
pub struct Pmw3610 {
    pub id: u8,
    pub config: Pmw3610Config,
    pub smart_flag: bool,
}

impl Pmw3610 {
    pub fn new(id: u8, config: Pmw3610Config) -> (r: Self)
        ensures
            r == (Pmw3610 { id, config, smart_flag: false }),
    {
        Pmw3610 { id, config, smart_flag: false }
    }

    /// Bytes to read in a burst: 7 in smart mode (with the shutter), else 4.
    pub fn burst_len(&self) -> (r: usize)
        ensures
            r == (if self.config.smart_mode {
                7usize
            } else {
                4usize
            }),
    {
        if self.config.smart_mode {
            7
        } else {
            4
        }
    }

    /// Decodes a burst (bytes beyond `burst_len` are ignored). Without the
    /// motion flag there is no motion. In smart mode a shutter below 45
    /// enables smart mode if it was off, one above 45 disables it if it
    /// was on.
    pub fn read_motion(&mut self, burst: [u8; 7]) -> (r: BurstOutcome)
        ensures
            final(self).id == old(self).id,
            final(self).config == old(self).config,
            burst[0] & MOTION_STATUS_MOTION == 0 ==> r.motion.dx == 0 && r.motion.dy == 0 && r.smart_write is None
                && *final(self) == *old(self),
            burst[0] & MOTION_STATUS_MOTION != 0 ==> {
                let shutter = burst[5] * 256 + burst[6];
                &&& r.motion.dx == spec_sign_extend_12(spec_burst_x(burst[1], burst[3]))
                &&& r.motion.dy == spec_sign_extend_12(spec_burst_y(burst[2], burst[3]))
                &&& if old(self).config.smart_mode && old(self).smart_flag && shutter < 45 {
                    r.smart_write == Some(SMART_MODE_ENABLE) && !final(self).smart_flag
                } else if old(self).config.smart_mode && !old(self).smart_flag && shutter > 45 {
                    r.smart_write == Some(SMART_MODE_DISABLE) && final(self).smart_flag
                } else {
                    r.smart_write is None && final(self).smart_flag == old(self).smart_flag
                }
            },
    {
        if burst[0] & MOTION_STATUS_MOTION == 0 {
            return BurstOutcome { motion: MotionData { dx: 0, dy: 0 }, smart_write: None };
        }
        let x: u16 = (burst[3] / 16) as u16 * 256 + burst[1] as u16;
        let y: u16 = (burst[3] % 16) as u16 * 256 + burst[2] as u16;
        let dx = sign_extend(x, 11);
        let dy = sign_extend(y, 11);
        let mut smart_write: Option<u8> = None;
        if self.config.smart_mode {
            let shutter_val: u16 = burst[5] as u16 * 256 + burst[6] as u16;
            if self.smart_flag && shutter_val < SHUTTER_SMART_THRESHOLD {
                smart_write = Some(SMART_MODE_ENABLE);
                self.smart_flag = false;
            } else if !self.smart_flag && shutter_val > SHUTTER_SMART_THRESHOLD {
                smart_write = Some(SMART_MODE_DISABLE);
                self.smart_flag = true;
            }
        }
        BurstOutcome { motion: MotionData { dx, dy }, smart_write }
    }
}

} // verus!
