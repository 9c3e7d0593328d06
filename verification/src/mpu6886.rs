//! The MPU6886 accelerometer as seen over its bus: where its registers are,
//! what to write to set it up, and how to read a sample. A sample is three
//! signed 16-bit counts, each sent high byte first.

use vstd::prelude::*;

verus! {

/// The sensor's address on the bus.
pub const MPU_ADDR: u8 = 0x68;

pub const MPU_PWR_MGMT_1: u8 = 0x6b;

pub const MPU_ACCELL_CONFIG: u8 = 0x1c;

pub const MPU_GYRO_CONFIG: u8 = 0x1b;

/// The first of the six registers that hold a sample.
pub const MPU_ACCELL_DATA: u8 = 0x3b;

/// Counts per g at the range of 8 g that the set-up selects.
pub const COUNTS_PER_G: i16 = 4_096;

/// Bytes in one acceleration sample.
pub const SAMPLE_LEN: usize = 6;

/// One acceleration sample, in counts of `1 / COUNTS_PER_G` g.
#[derive(Debug, Clone, Copy, PartialEq, Eq, Structural)]
pub struct AccData {
    pub x: i16,
    pub y: i16,
    pub z: i16,
}

/// One step of the set-up: a value for a register, and how long the sensor
/// needs afterwards.
#[derive(Debug, Clone, Copy, PartialEq, Eq, Structural)]
pub struct RegisterWrite {
    pub register: u8,
    pub value: u8,
    pub settle_ms: u32,
}

/// The set-up: clear the power management register, reset the device, start
/// its clock, then select 8 g for the accelerometer and 2000 degrees per
/// second for the gyroscope.
pub open spec fn init_steps() -> Seq<RegisterWrite> {
    seq![
        RegisterWrite { register: MPU_PWR_MGMT_1, value: 0x00, settle_ms: 10 },
        RegisterWrite { register: MPU_PWR_MGMT_1, value: 0x80, settle_ms: 10 },
        RegisterWrite { register: MPU_PWR_MGMT_1, value: 0x01, settle_ms: 10 },
        RegisterWrite { register: MPU_ACCELL_CONFIG, value: 0x10, settle_ms: 1 },
        RegisterWrite { register: MPU_GYRO_CONFIG, value: 0x18, settle_ms: 1 },
    ]
}

/// The writes that set the sensor up, in the order in which to make them.
pub fn init_sequence() -> (out: Vec<RegisterWrite>)
    ensures
        out@ == init_steps(),
{
    let mut out: Vec<RegisterWrite> = Vec::new();
    out.push(RegisterWrite { register: MPU_PWR_MGMT_1, value: 0x00, settle_ms: 10 });
    out.push(RegisterWrite { register: MPU_PWR_MGMT_1, value: 0x80, settle_ms: 10 });
    out.push(RegisterWrite { register: MPU_PWR_MGMT_1, value: 0x01, settle_ms: 10 });
    out.push(RegisterWrite { register: MPU_ACCELL_CONFIG, value: 0x10, settle_ms: 1 });
    out.push(RegisterWrite { register: MPU_GYRO_CONFIG, value: 0x18, settle_ms: 1 });
    assert(out@ =~= init_steps());
    out
}

/// The signed 16-bit number whose two's complement form is `high`, `low`.
pub open spec fn signed_word(high: u8, low: u8) -> int {
    if high < 128 {
        high * 256 + low
    } else {
        high * 256 + low - 65_536
    }
}

/// Joins the two register bytes of one axis.
pub fn axis_count(high: u8, low: u8) -> (out: i16)
    ensures
        out == signed_word(high, low),
{
    if high < 128 {
        high as i16 * 256 + low as i16
    } else {
        (high as i16 - 256) * 256 + low as i16
    }
}

impl AccData {
    /// Decodes the six bytes read from the sensor's acceleration registers:
    /// x, y and z in that order.
    pub fn from_registers(buffer: &[u8; SAMPLE_LEN]) -> (out: AccData)
        ensures
            out.x == signed_word(buffer[0], buffer[1]),
            out.y == signed_word(buffer[2], buffer[3]),
            out.z == signed_word(buffer[4], buffer[5]),
    {
        AccData {
            x: axis_count(buffer[0], buffer[1]),
            y: axis_count(buffer[2], buffer[3]),
            z: axis_count(buffer[4], buffer[5]),
        }
    }
}

} // verus!
