//! Decoding of the six-axis inertial sensor's registers.
//!
//! Board axes: Y runs along the long edge, with negative Y at the top of the
//! display; X runs along the short edge; Z points out of the back. Upright in
//! landscape the sensor reads about minus one g on Y, face down about plus one
//! g on Z.

use vstd::prelude::*;

verus! {

/// Bus address of the sensor.
pub const QMI8658_ADDR: u8 = 0x6B;

pub const REG_WHO_AM_I: u8 = 0x00;

pub const REG_CTRL1: u8 = 0x02;

/// Accelerometer configuration.
pub const REG_CTRL2: u8 = 0x03;

/// Gyroscope configuration.
pub const REG_CTRL3: u8 = 0x04;

/// Sensor enable.
pub const REG_CTRL7: u8 = 0x08;

/// First register of the burst that holds temperature, acceleration and
/// rotation.
pub const REG_TEMP_L: u8 = 0x33;

pub const WHO_AM_I_EXPECTED: u8 = 0x05;

/// Accelerometer counts per g at the configured range of eight g.
pub const ACCEL_COUNTS_PER_G: i32 = 4096;

/// Gyroscope counts per degree per second at the configured range.
pub const GYRO_COUNTS_PER_DPS: i32 = 64;

/// Temperature counts per degree Celsius.
pub const TEMP_COUNTS_PER_DEGREE: i32 = 256;

/// One sample of the sensor, in counts as the sensor reports them.
#[derive(Debug, Clone, Copy, PartialEq, Eq, Structural)]
pub struct ImuReading {
    pub accel_x: i16,
    pub accel_y: i16,
    pub accel_z: i16,
    pub gyro_x: i16,
    pub gyro_y: i16,
    pub gyro_z: i16,
    pub temp: i16,
}

/// The signed number that two register bytes hold in two's complement.
pub open spec fn signed_word(low: u8, high: u8) -> int {
    if high < 128 {
        high * 256 + low
    } else {
        high * 256 + low - 65536
    }
}

pub fn raw_to_i16(low: u8, high: u8) -> (v: i16)
    ensures
        v == signed_word(low, high),
{
    let word: u16 = ((high as u16) << 8) | (low as u16);
    let v: i16 = word as i16;
    assert(high < 128 ==> v == high * 256 + low) by (bit_vector)
        requires
            word == ((high as u16) << 8) | (low as u16),
            v == word as i16,
    ;
    assert(high >= 128 ==> v == high * 256 + low - 65536) by (bit_vector)
        requires
            word == ((high as u16) << 8) | (low as u16),
            v == word as i16,
    ;
    v
}

/// The sample that a burst of fourteen register bytes holds: temperature,
/// then acceleration on X, Y and Z, then rotation on X, Y and Z, each with
/// its low byte first.
pub open spec fn reading_of(burst: Seq<u8>) -> ImuReading {
    ImuReading {
        temp: signed_word(burst[0], burst[1]) as i16,
        accel_x: signed_word(burst[2], burst[3]) as i16,
        accel_y: signed_word(burst[4], burst[5]) as i16,
        accel_z: signed_word(burst[6], burst[7]) as i16,
        gyro_x: signed_word(burst[8], burst[9]) as i16,
        gyro_y: signed_word(burst[10], burst[11]) as i16,
        gyro_z: signed_word(burst[12], burst[13]) as i16,
    }
}

/// Decodes one burst read from the sensor.
pub fn parse_burst(burst: &[u8; 14]) -> (r: ImuReading)
    ensures
        r == reading_of(burst@),
{
    ImuReading {
        temp: raw_to_i16(burst[0], burst[1]),
        accel_x: raw_to_i16(burst[2], burst[3]),
        accel_y: raw_to_i16(burst[4], burst[5]),
        accel_z: raw_to_i16(burst[6], burst[7]),
        gyro_x: raw_to_i16(burst[8], burst[9]),
        gyro_y: raw_to_i16(burst[10], burst[11]),
        gyro_z: raw_to_i16(burst[12], burst[13]),
    }
}

/// The register writes that configure the sensor, in order: address
/// auto-increment, accelerometer at eight g and 125 Hz, gyroscope at 512
/// degrees per second and 125 Hz, both sensors on.
pub fn init_sequence() -> (writes: [(u8, u8); 4])
    ensures
        writes@ == seq![
            (REG_CTRL1, 0x60u8),
            (REG_CTRL2, 0x24u8),
            (REG_CTRL3, 0x54u8),
            (REG_CTRL7, 0x03u8),
        ],
{
    [(REG_CTRL1, 0x60), (REG_CTRL2, 0x24), (REG_CTRL3, 0x54), (REG_CTRL7, 0x03)]
}

} // verus!
