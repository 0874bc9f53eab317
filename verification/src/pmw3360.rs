//! PMW3360 optical sensor: configuration, the register values the driver
//! writes, its checks of what the sensor answers, and the decoding of a
//! motion burst. The SPI transfers and the timing are the caller's.

use vstd::prelude::*;

use crate::iqs9151::le_i16;
use crate::pointing::MotionData;

verus! {

/// The sensor's registers.
#[derive(Clone, Copy, Debug, PartialEq, Eq, Structural)]
pub enum Register {
    ProductId,
    RevisionId,
    Motion,
    DeltaXL,
    DeltaXH,
    DeltaYL,
    DeltaYH,
    SQUAL,
    RawDataSum,
    MaximumRawData,
    MinimumRawData,
    ShutterLower,
    ShutterUpper,
    Control,
    Config1,
    Config2,
    AngleTune,
    FrameCapture,
    SromEnable,
    RunDownshift,
    Rest1RateLower,
    Rest1RateUpper,
    Rest1Downshift,
    Rest2RateLower,
    Rest2RateUpper,
    Rest2Downshift,
    Rest3RateLower,
    Rest3RateUpper,
    Observation,
    DataOutLower,
    DataOutUpper,
    RawDataDump,
    SromId,
    MinSqRun,
    RawDataThreshold,
    Config5,
    PowerUpReset,
    Shutdown,
    InverseProductId,
    LiftCutoffTune3,
    AngleSnap,
    LiftCutoffTune1,
    MotionBurst,
    LiftCutoffTuneTimeout,
    LiftCutoffTuneMinLength,
    SromLoadBurst,
    LiftConfig,
    RawDataBurst,
    LiftCutoffTune2,
}

impl Register {
    /// The register's address.
    pub open spec fn spec_value(self) -> u8 {
        match self {
            Register::ProductId => 0x00,
            Register::RevisionId => 0x01,
            Register::Motion => 0x02,
            Register::DeltaXL => 0x03,
            Register::DeltaXH => 0x04,
            Register::DeltaYL => 0x05,
            Register::DeltaYH => 0x06,
            Register::SQUAL => 0x07,
            Register::RawDataSum => 0x08,
            Register::MaximumRawData => 0x09,
            Register::MinimumRawData => 0x0a,
            Register::ShutterLower => 0x0b,
            Register::ShutterUpper => 0x0c,
            Register::Control => 0x0d,
            Register::Config1 => 0x0f,
            Register::Config2 => 0x10,
            Register::AngleTune => 0x11,
            Register::FrameCapture => 0x12,
            Register::SromEnable => 0x13,
            Register::RunDownshift => 0x14,
            Register::Rest1RateLower => 0x15,
            Register::Rest1RateUpper => 0x16,
            Register::Rest1Downshift => 0x17,
            Register::Rest2RateLower => 0x18,
            Register::Rest2RateUpper => 0x19,
            Register::Rest2Downshift => 0x1a,
            Register::Rest3RateLower => 0x1b,
            Register::Rest3RateUpper => 0x1c,
            Register::Observation => 0x24,
            Register::DataOutLower => 0x25,
            Register::DataOutUpper => 0x26,
            Register::RawDataDump => 0x29,
            Register::SromId => 0x2a,
            Register::MinSqRun => 0x2b,
            Register::RawDataThreshold => 0x2c,
            Register::Config5 => 0x2f,
            Register::PowerUpReset => 0x3a,
            Register::Shutdown => 0x3b,
            Register::InverseProductId => 0x3f,
            Register::LiftCutoffTune3 => 0x41,
            Register::AngleSnap => 0x42,
            Register::LiftCutoffTune1 => 0x4a,
            Register::MotionBurst => 0x50,
            Register::LiftCutoffTuneTimeout => 0x58,
            Register::LiftCutoffTuneMinLength => 0x5a,
            Register::SromLoadBurst => 0x62,
            Register::LiftConfig => 0x63,
            Register::RawDataBurst => 0x64,
            Register::LiftCutoffTune2 => 0x65,
        }
    }

    /// The register's address.
    pub fn value(&self) -> (r: u8)
        ensures
            r == self.spec_value(),
    {
        match self {
            Register::ProductId => 0x00,
            Register::RevisionId => 0x01,
            Register::Motion => 0x02,
            Register::DeltaXL => 0x03,
            Register::DeltaXH => 0x04,
            Register::DeltaYL => 0x05,
            Register::DeltaYH => 0x06,
            Register::SQUAL => 0x07,
            Register::RawDataSum => 0x08,
            Register::MaximumRawData => 0x09,
            Register::MinimumRawData => 0x0a,
            Register::ShutterLower => 0x0b,
            Register::ShutterUpper => 0x0c,
            Register::Control => 0x0d,
            Register::Config1 => 0x0f,
            Register::Config2 => 0x10,
            Register::AngleTune => 0x11,
            Register::FrameCapture => 0x12,
            Register::SromEnable => 0x13,
            Register::RunDownshift => 0x14,
            Register::Rest1RateLower => 0x15,
            Register::Rest1RateUpper => 0x16,
            Register::Rest1Downshift => 0x17,
            Register::Rest2RateLower => 0x18,
            Register::Rest2RateUpper => 0x19,
            Register::Rest2Downshift => 0x1a,
            Register::Rest3RateLower => 0x1b,
            Register::Rest3RateUpper => 0x1c,
            Register::Observation => 0x24,
            Register::DataOutLower => 0x25,
            Register::DataOutUpper => 0x26,
            Register::RawDataDump => 0x29,
            Register::SromId => 0x2a,
            Register::MinSqRun => 0x2b,
            Register::RawDataThreshold => 0x2c,
            Register::Config5 => 0x2f,
            Register::PowerUpReset => 0x3a,
            Register::Shutdown => 0x3b,
            Register::InverseProductId => 0x3f,
            Register::LiftCutoffTune3 => 0x41,
            Register::AngleSnap => 0x42,
            Register::LiftCutoffTune1 => 0x4a,
            Register::MotionBurst => 0x50,
            Register::LiftCutoffTuneTimeout => 0x58,
            Register::LiftCutoffTuneMinLength => 0x5a,
            Register::SromLoadBurst => 0x62,
            Register::LiftConfig => 0x63,
            Register::RawDataBurst => 0x64,
            Register::LiftCutoffTune2 => 0x65,
        }
    }
}

/// Product id of the PMW3360.
pub const PRODUCT_ID_PMW3360: u8 = 0x42;
/// Inverse product id the firmware signature check expects.
pub const FW_SIG_INV_PID: u8 = 0xBD;
/// Value written to the power-up reset register.
pub const POWER_UP_RESET_VAL: u8 = 0x5a;
/// Motion status: motion occurred.
pub const MOTION_STATUS_MOTION: u8 = 0x80;
/// Motion status: the sensor is lifted.
pub const MOTION_STATUS_LIFTED: u8 = 0x08;
/// Bit marking a register write.
pub const SPI_WRITE: u8 = 0x80;
pub const RES_STEP: u16 = 100;
pub const RES_MIN: u16 = 100;
pub const RES_MAX: u16 = 12000;

/// PMW3360 configuration.
#[derive(Clone, Copy, Debug, PartialEq, Eq, Structural)]
pub struct Pmw3360Config {
    /// CPI resolution (100-12000, step 100)
    pub res_cpi: u16,
    /// Rotational transform angle (-127 to 127)
    pub rot_trans_angle: i8,
    /// Liftoff distance
    pub liftoff_dist: u8,
    pub invert_x: bool,
    pub invert_y: bool,
    pub swap_xy: bool,
}

impl Default for Pmw3360Config {
    fn default() -> (r: Self)
        ensures
            r == (Pmw3360Config {
                res_cpi: 1600,
                rot_trans_angle: 0,
                liftoff_dist: 0x02,
                invert_x: false,
                invert_y: false,
                swap_xy: false,
            }),
    {
        Pmw3360Config {
            res_cpi: 1600,
            rot_trans_angle: 0,
            liftoff_dist: 0x02,
            invert_x: false,
            invert_y: false,
            swap_xy: false,
        }
    }
}

/// PMW3360 errors.
#[derive(Clone, Copy, Debug, PartialEq, Eq)]
pub enum Pmw3360Error {
    /// SPI communication error
    Spi,
    /// Invalid product ID detected
    InvalidProductId(u8),
    /// Initialization failed
    InitFailed,
    /// Invalid CPI value
    InvalidCpi,
    /// Invalid firmware signature detected
    InvalidFwSignature((u8, u8)),
}

/// The byte that selects register `addr` for a read (bit 7 clear) or a
/// write (bit 7 set).
pub fn address_byte(addr: u8, write: bool) -> (r: u8)
    ensures
        r == (if write {
            addr | SPI_WRITE
        } else {
            addr & 0x7f
        }),
{
    if write {
        addr | SPI_WRITE
    } else {
        addr & 0x7f
    }
}

/// The Config1 value for a resolution: `cpi / 100 - 1`, for a CPI in
/// 100..=12000.
pub fn resolution_value(cpi: u16) -> (r: Result<u8, Pmw3360Error>)
    ensures
        (RES_MIN <= cpi <= RES_MAX) ==> r == Ok::<u8, Pmw3360Error>((cpi / 100 - 1) as u8),
        !(RES_MIN <= cpi <= RES_MAX) ==> r == Err::<u8, Pmw3360Error>(Pmw3360Error::InvalidCpi),
{
    if cpi < RES_MIN || cpi > RES_MAX {
        return Err(Pmw3360Error::InvalidCpi);
    }
    Ok(((cpi / RES_STEP) - 1) as u8)
}

/// The AngleTune value of an angle: its two's complement byte.
pub fn angle_value(angle: i8) -> (r: u8)
    ensures
        r == (if angle < 0 {
            (angle + 256) as u8
        } else {
            angle as u8
        }),
{
    if angle < 0 {
        (angle as i16 + 256) as u8
    } else {
        angle as u8
    }
}

/// The product id read after the power-up reset must be the PMW3360's.
pub fn check_product_id(id: u8) -> (r: Result<(), Pmw3360Error>)
    ensures
        id == PRODUCT_ID_PMW3360 ==> r == Ok::<(), Pmw3360Error>(()),
        id != PRODUCT_ID_PMW3360 ==> r == Err::<(), Pmw3360Error>(Pmw3360Error::InvalidProductId(id)),
{
    if id != PRODUCT_ID_PMW3360 {
        Err(Pmw3360Error::InvalidProductId(id))
    } else {
        Ok(())
    }
}

/// The firmware signature: product id 0x42 and inverse product id 0xBD.
pub fn check_fw_signature(product_id: u8, inverse_product_id: u8) -> (r: Result<(), Pmw3360Error>)
    ensures
        (product_id == PRODUCT_ID_PMW3360 && inverse_product_id == FW_SIG_INV_PID) ==> r == Ok::<
            (),
            Pmw3360Error,
        >(()),
        !(product_id == PRODUCT_ID_PMW3360 && inverse_product_id == FW_SIG_INV_PID) ==> r == Err::<
            (),
            Pmw3360Error,
        >(Pmw3360Error::InvalidFwSignature((product_id, inverse_product_id))),
{
    if product_id == PRODUCT_ID_PMW3360 && inverse_product_id == FW_SIG_INV_PID {
        Ok(())
    } else {
        Err(Pmw3360Error::InvalidFwSignature((product_id, inverse_product_id)))
    }
}

/// The motion of a burst after the configured inversions and swap.
pub open spec fn spec_oriented(config: Pmw3360Config, dx: i16, dy: i16) -> (i16, i16) {
    let x: i16 = if config.invert_x {
        (-dx) as i16
    } else {
        dx
    };
    let y: i16 = if config.invert_y {
        (-dy) as i16
    } else {
        dy
    };
    if config.swap_xy {
        (y, x)
    } else {
        (x, y)
    }
}

/// A burst the inversions can negate without overflow.
pub open spec fn burst_ok(config: Pmw3360Config, burst: [u8; 6]) -> bool {
    &&& config.invert_x ==> le_i16(burst[2], burst[3]) != -32768
    &&& config.invert_y ==> le_i16(burst[4], burst[5]) != -32768
}

fn i16_from_le(lo: u8, hi: u8) -> (r: i16)
    ensures
        r == le_i16(lo, hi),
{
    let v: i32 = lo as i32 + (hi as i32) * 256;
    if v >= 32768 {
        (v - 65536) as i16
    } else {
        v as i16
    }
}

/// Decodes a motion burst (motion flags, observation, X and Y
/// little-endian). Returns the motion (none without the motion flag or
/// when lifted) and whether burst mode is still valid: flags in the low
/// three bits mean the burst went wrong and must be restarted.
pub fn decode_burst(config: Pmw3360Config, burst: [u8; 6]) -> (r: (MotionData, bool))
    requires
        burst_ok(config, burst),
    ensures
        r.1 == (burst[0] & 0b111 == 0),
        (burst[0] & MOTION_STATUS_MOTION == 0 || burst[0] & MOTION_STATUS_LIFTED != 0) ==> r.0.dx == 0
            && r.0.dy == 0,
        !(burst[0] & MOTION_STATUS_MOTION == 0 || burst[0] & MOTION_STATUS_LIFTED != 0) ==> (r.0.dx, r.0.dy)
            == spec_oriented(config, le_i16(burst[2], burst[3]), le_i16(burst[4], burst[5])),
{
    let still_in_burst = burst[0] & 0b111 == 0;
    if burst[0] & MOTION_STATUS_MOTION == 0 || burst[0] & MOTION_STATUS_LIFTED != 0 {
        return (MotionData { dx: 0, dy: 0 }, still_in_burst);
    }
    let mut dx = i16_from_le(burst[2], burst[3]);
    let mut dy = i16_from_le(burst[4], burst[5]);
    if config.invert_x {
        dx = -dx;
    }
    if config.invert_y {
        dy = -dy;
    }
    if config.swap_xy {
        let t = dx;
        dx = dy;
        dy = t;
    }
    (MotionData { dx, dy }, still_in_burst)
}

} // verus!
