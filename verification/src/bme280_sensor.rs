//! Decoding of the environmental sensor: calibration words, raw samples and
//! the chip probe.

use vstd::prelude::*;

verus! {

pub const BME280_ADDR: u8 = 0x76;

pub const BME280_ADDR_ALT: u8 = 0x77;

pub const BME280_CHIP_ID_REG: u8 = 0xD0;

pub const BME280_CHIP_ID: u8 = 0x60;

pub const REG_CTRL_HUM: u8 = 0xF2;

pub const REG_CTRL_MEAS: u8 = 0xF4;

pub const REG_CONFIG: u8 = 0xF5;

pub const REG_PRESS_MSB: u8 = 0xF7;

pub const REG_CALIB_00: u8 = 0x88;

pub const REG_CALIB_H1: u8 = 0xA1;

pub const REG_CALIB_26: u8 = 0xE1;

/// One sample of the sensor in fixed point: hundredths of a degree Celsius,
/// 1024ths of a percent of relative humidity, 256ths of a pascal.
#[derive(Debug, Clone, Copy, PartialEq, Eq, Structural)]
pub struct Bme280Reading {
    pub temperature: i64,
    pub humidity: i64,
    pub pressure: i64,
}

/// A sensor at a bus address, with its calibration words.
#[derive(Debug, Clone, Copy, PartialEq, Eq, Structural)]
pub struct Bme280 {
    pub addr: u8,
    pub dig_t1: u16,
    pub dig_t2: i16,
    pub dig_t3: i16,
    pub dig_p1: u16,
    pub dig_p2: i16,
    pub dig_p3: i16,
    pub dig_p4: i16,
    pub dig_p5: i16,
    pub dig_p6: i16,
    pub dig_p7: i16,
    pub dig_p8: i16,
    pub dig_p9: i16,
    pub dig_h1: u8,
    pub dig_h2: i16,
    pub dig_h3: u8,
    pub dig_h4: i16,
    pub dig_h5: i16,
    pub dig_h6: i8,
}

impl Bme280 {
    /// A sensor at `addr` whose calibration words are all zero.
    pub open spec fn uncalibrated(addr: u8) -> Bme280 {
        Bme280 {
            addr,
            dig_t1: 0,
            dig_t2: 0,
            dig_t3: 0,
            dig_p1: 0,
            dig_p2: 0,
            dig_p3: 0,
            dig_p4: 0,
            dig_p5: 0,
            dig_p6: 0,
            dig_p7: 0,
            dig_p8: 0,
            dig_p9: 0,
            dig_h1: 0,
            dig_h2: 0,
            dig_h3: 0,
            dig_h4: 0,
            dig_h5: 0,
            dig_h6: 0,
        }
    }

    pub fn new_uncalibrated(addr: u8) -> (s: Bme280)
        ensures
            s == Bme280::uncalibrated(addr),
    {
        Bme280 {
            addr,
            dig_t1: 0,
            dig_t2: 0,
            dig_t3: 0,
            dig_p1: 0,
            dig_p2: 0,
            dig_p3: 0,
            dig_p4: 0,
            dig_p5: 0,
            dig_p6: 0,
            dig_p7: 0,
            dig_p8: 0,
            dig_p9: 0,
            dig_h1: 0,
            dig_h2: 0,
            dig_h3: 0,
            dig_h4: 0,
            dig_h5: 0,
            dig_h6: 0,
        }
    }
}

/// A number that fits a signed 64-bit word.
pub open spec fn fits64(v: int) -> bool {
    i64::MIN <= v <= i64::MAX
}

/// `v` if it fits a signed 64-bit word.
pub open spec fn word(v: int) -> Option<int> {
    if fits64(v) {
        Some(v)
    } else {
        None
    }
}

/// The sum in 64-bit arithmetic; nothing once a word was exceeded.
pub open spec fn plus(a: Option<int>, b: Option<int>) -> Option<int> {
    match (a, b) {
        (Some(x), Some(y)) => word(x + y),
        _ => None,
    }
}

/// The difference in 64-bit arithmetic.
pub open spec fn minus(a: Option<int>, b: Option<int>) -> Option<int> {
    match (a, b) {
        (Some(x), Some(y)) => word(x - y),
        _ => None,
    }
}

/// The product in 64-bit arithmetic.
pub open spec fn times(a: Option<int>, b: Option<int>) -> Option<int> {
    match (a, b) {
        (Some(x), Some(y)) => word(x * y),
        _ => None,
    }
}

/// The quotient by a positive number, rounded down, as an arithmetic shift
/// to the right gives it.
pub open spec fn shifted(a: Option<int>, divisor: int) -> Option<int> {
    match a {
        Some(x) => word(x / divisor),
        None => None,
    }
}

/// The quotient rounded toward zero; nothing for a zero divisor.
pub open spec fn quotient(a: Option<int>, b: Option<int>) -> Option<int> {
    match (a, b) {
        (Some(x), Some(y)) => if y == 0 {
            None
        } else if x >= 0 && y > 0 {
            word(x / y)
        } else if x < 0 && y < 0 {
            word((-x) / (-y))
        } else if x < 0 {
            word(-((-x) / y))
        } else {
            word(-(x / (-y)))
        },
        _ => None,
    }
}

/// The value of a 64-bit word, if there is one.
pub open spec fn value(a: Option<i64>) -> Option<int> {
    match a {
        Some(x) => Some(x as int),
        None => None,
    }
}

fn lit(v: i64) -> (r: Option<i64>)
    ensures
        value(r) == Some(v as int),
{
    Some(v)
}

fn sum(a: Option<i64>, b: Option<i64>) -> (r: Option<i64>)
    ensures
        value(r) == plus(value(a), value(b)),
{
    match (a, b) {
        (Some(x), Some(y)) => x.checked_add(y),
        _ => None,
    }
}

fn difference(a: Option<i64>, b: Option<i64>) -> (r: Option<i64>)
    ensures
        value(r) == minus(value(a), value(b)),
{
    match (a, b) {
        (Some(x), Some(y)) => x.checked_sub(y),
        _ => None,
    }
}

fn product(a: Option<i64>, b: Option<i64>) -> (r: Option<i64>)
    ensures
        value(r) == times(value(a), value(b)),
{
    match (a, b) {
        (Some(x), Some(y)) => x.checked_mul(y),
        _ => None,
    }
}

fn shift_right(a: Option<i64>, divisor: i64) -> (r: Option<i64>)
    requires
        divisor > 0,
    ensures
        value(r) == shifted(value(a), divisor as int),
{
    match a {
        Some(x) => x.checked_div_euclid(divisor),
        None => None,
    }
}

fn divide(a: Option<i64>, b: Option<i64>) -> (r: Option<i64>)
    ensures
        value(r) == quotient(value(a), value(b)),
{
    match (a, b) {
        (Some(x), Some(y)) => {
            let q: Option<i64> = x.checked_div(y);
            assert(value(q) == quotient(Some(x as int), Some(y as int))) by {
                assert((x as int) * -1 == -(x as int));
                assert((y as int) * -1 == -(y as int));
                if x == 0 && y != 0 {
                    assert(0int / (y as int) == 0) by (nonlinear_arith)
                        requires
                            y != 0,
                    ;
                    assert(0int / (-(y as int)) == 0) by (nonlinear_arith)
                        requires
                            y != 0,
                    ;
                }
            }
            q
        },
        _ => None,
    }
}

/// The unsigned 16-bit number of two bytes, low byte first.
pub open spec fn le_u16(low: u8, high: u8) -> int {
    high * 256 + low
}

/// The signed 16-bit number of two bytes, low byte first.
pub open spec fn le_i16(low: u8, high: u8) -> int {
    if high < 128 {
        high * 256 + low
    } else {
        high * 256 + low - 65536
    }
}

fn read_u16(low: u8, high: u8) -> (v: u16)
    ensures
        v == le_u16(low, high),
{
    (high as u16) * 256 + (low as u16)
}

fn read_i16(low: u8, high: u8) -> (v: i16)
    ensures
        v == le_i16(low, high),
{
    crate::qmi8658::raw_to_i16(low, high)
}

/// The raw sample in a burst of eight register bytes: pressure and
/// temperature with twenty bits each, humidity with sixteen.
pub struct RawSample {
    pub adc_p: i32,
    pub adc_t: i32,
    pub adc_h: i32,
}

/// The raw sample that a burst holds.
pub open spec fn raw_sample_of(burst: Seq<u8>) -> RawSample {
    RawSample {
        adc_p: (burst[0] * 4096 + burst[1] * 16 + burst[2] / 16) as i32,
        adc_t: (burst[3] * 4096 + burst[4] * 16 + burst[5] / 16) as i32,
        adc_h: (burst[6] * 256 + burst[7]) as i32,
    }
}

/// Decodes the burst read from the data registers.
pub fn parse_raw_sample(burst: &[u8; 8]) -> (raw: RawSample)
    ensures
        raw == raw_sample_of(burst@),
{
    RawSample {
        adc_p: (burst[0] as i32) * 4096 + (burst[1] as i32) * 16 + (burst[2] as i32) / 16,
        adc_t: (burst[3] as i32) * 4096 + (burst[4] as i32) * 16 + (burst[5] as i32) / 16,
        adc_h: (burst[6] as i32) * 256 + (burst[7] as i32),
    }
}

/// Tells whether a chip identifier is that of the sensor.
pub fn is_bme280(chip_id: u8) -> (ok: bool)
    ensures
        ok == (chip_id == BME280_CHIP_ID),
{
    chip_id == BME280_CHIP_ID
}

/// The register writes that configure the sensor, in order: humidity
/// oversampling once, one second standby with the filter off, then
/// temperature and pressure oversampling once in normal mode.
pub fn configure_sequence() -> (writes: [(u8, u8); 3])
    ensures
        writes@ == seq![(REG_CTRL_HUM, 0x01u8), (REG_CONFIG, 0xA0u8), (REG_CTRL_MEAS, 0x27u8)],
{
    [(REG_CTRL_HUM, 0x01), (REG_CONFIG, 0xA0), (REG_CTRL_MEAS, 0x27)]
}

impl Bme280 {
    /// The sensor at `addr` with the calibration words of the three
    /// calibration reads: the block of 26 bytes, the single byte and the
    /// block of seven bytes.
    pub open spec fn calibrated(addr: u8, block1: Seq<u8>, h1: u8, block2: Seq<u8>) -> Bme280 {
        Bme280 {
            addr,
            dig_t1: le_u16(block1[0], block1[1]) as u16,
            dig_t2: le_i16(block1[2], block1[3]) as i16,
            dig_t3: le_i16(block1[4], block1[5]) as i16,
            dig_p1: le_u16(block1[6], block1[7]) as u16,
            dig_p2: le_i16(block1[8], block1[9]) as i16,
            dig_p3: le_i16(block1[10], block1[11]) as i16,
            dig_p4: le_i16(block1[12], block1[13]) as i16,
            dig_p5: le_i16(block1[14], block1[15]) as i16,
            dig_p6: le_i16(block1[16], block1[17]) as i16,
            dig_p7: le_i16(block1[18], block1[19]) as i16,
            dig_p8: le_i16(block1[20], block1[21]) as i16,
            dig_p9: le_i16(block1[22], block1[23]) as i16,
            dig_h1: h1,
            dig_h2: le_i16(block2[0], block2[1]) as i16,
            dig_h3: block2[2],
            dig_h4: (block2[3] * 16 + block2[4] % 16) as i16,
            dig_h5: (block2[5] * 16 + block2[4] / 16) as i16,
            dig_h6: if block2[6] < 128 {
                block2[6] as i8
            } else {
                (block2[6] - 256) as i8
            },
        }
    }

    /// Decodes the calibration words.
    pub fn read_calibration(addr: u8, block1: &[u8; 26], h1: u8, block2: &[u8; 7]) -> (s: Bme280)
        ensures
            s == Bme280::calibrated(addr, block1@, h1, block2@),
    {
        let b6: u8 = block2[6];
        let h6: i8 = if b6 < 128 {
            b6 as i8
        } else {
            ((b6 as i16) - 256) as i8
        };
        Bme280 {
            addr,
            dig_t1: read_u16(block1[0], block1[1]),
            dig_t2: read_i16(block1[2], block1[3]),
            dig_t3: read_i16(block1[4], block1[5]),
            dig_p1: read_u16(block1[6], block1[7]),
            dig_p2: read_i16(block1[8], block1[9]),
            dig_p3: read_i16(block1[10], block1[11]),
            dig_p4: read_i16(block1[12], block1[13]),
            dig_p5: read_i16(block1[14], block1[15]),
            dig_p6: read_i16(block1[16], block1[17]),
            dig_p7: read_i16(block1[18], block1[19]),
            dig_p8: read_i16(block1[20], block1[21]),
            dig_p9: read_i16(block1[22], block1[23]),
            dig_h1: h1,
            dig_h2: read_i16(block2[0], block2[1]),
            dig_h3: block2[2],
            dig_h4: (block2[3] as i16) * 16 + ((block2[4] % 16) as i16),
            dig_h5: (block2[5] as i16) * 16 + ((block2[4] / 16) as i16),
            dig_h6: h6,
        }
    }

    /// The fine temperature of the data sheet's integer formula, evaluated
    /// in 64-bit arithmetic.
    pub open spec fn fine_temperature(self, adc_t: int) -> Option<int> {
        let t1 = Some(self.dig_t1 as int);
        let coarse = minus(shifted(Some(adc_t), 8), times(t1, Some(2)));
        let var1 = shifted(times(coarse, Some(self.dig_t2 as int)), 2048);
        let fine = minus(shifted(Some(adc_t), 16), t1);
        let var2 = shifted(
            times(shifted(times(fine, fine), 4096), Some(self.dig_t3 as int)),
            16384,
        );
        plus(var1, var2)
    }

    /// The temperature in hundredths of a degree Celsius.
    pub open spec fn temperature(self, adc_t: int) -> Option<int> {
        shifted(plus(times(self.fine_temperature(adc_t), Some(5)), Some(128)), 256)
    }

    /// The pressure in 256ths of a pascal by the data sheet's 64-bit
    /// formula; zero when the formula's divisor is zero.
    pub open spec fn pressure(self, adc_p: int, t_fine: int) -> Option<int> {
        let v = minus(Some(t_fine), Some(128000));
        let vv = times(v, v);
        let var2 = plus(
            plus(
                times(vv, Some(self.dig_p6 as int)),
                times(times(v, Some(self.dig_p5 as int)), Some(131072)),
            ),
            times(Some(self.dig_p4 as int), Some(34359738368)),
        );
        let var1 = shifted(
            times(
                plus(
                    Some(140737488355328),
                    plus(
                        shifted(times(vv, Some(self.dig_p3 as int)), 256),
                        times(times(v, Some(self.dig_p2 as int)), Some(4096)),
                    ),
                ),
                Some(self.dig_p1 as int),
            ),
            8589934592,
        );
        if var1 == Some(0int) {
            Some(0)
        } else {
            let p = quotient(
                times(
                    minus(times(minus(Some(1048576), Some(adc_p)), Some(2147483648)), var2),
                    Some(3125),
                ),
                var1,
            );
            let p13 = shifted(p, 8192);
            let w1 = shifted(times(times(Some(self.dig_p9 as int), p13), p13), 33554432);
            let w2 = shifted(times(Some(self.dig_p8 as int), p), 524288);
            plus(shifted(plus(plus(p, w1), w2), 256), times(Some(self.dig_p7 as int), Some(16)))
        }
    }

    /// The relative humidity in 1024ths of a percent by the data sheet's
    /// integer formula, held between zero and one hundred percent; zero at
    /// the one fine temperature where the formula is not used.
    pub open spec fn humidity(self, adc_h: int, t_fine: int) -> Option<int> {
        let v = minus(Some(t_fine), Some(76800));
        if v == Some(0int) {
            Some(0)
        } else {
            let x1 = minus(
                minus(Some(adc_h), times(Some(self.dig_h4 as int), Some(16))),
                shifted(times(Some(self.dig_h5 as int), v), 16384),
            );
            let x2 = plus(
                shifted(
                    times(
                        shifted(times(v, Some(self.dig_h6 as int)), 1024),
                        plus(shifted(times(v, Some(self.dig_h3 as int)), 2048), Some(32768)),
                    ),
                    1024,
                ),
                Some(2097152),
            );
            let var = shifted(
                times(
                    x1,
                    plus(shifted(times(x2, Some(self.dig_h2 as int)), 1024), Some(8192)),
                ),
                16384,
            );
            let v15 = shifted(var, 32768);
            let less = minus(
                var,
                shifted(
                    times(shifted(times(v15, v15), 128), Some(self.dig_h1 as int)),
                    16,
                ),
            );
            match less {
                Some(x) => Some(
                    if x < 0 {
                        0int
                    } else if x > 419430400 {
                        419430400int / 4096
                    } else {
                        x / 4096
                    },
                ),
                None => None,
            }
        }
    }

    /// The reading that a burst of the data registers gives; nothing where
    /// the formulas leave 64-bit arithmetic.
    pub open spec fn reading(self, burst: Seq<u8>) -> Option<Bme280Reading> {
        let raw = raw_sample_of(burst);
        match self.fine_temperature(raw.adc_t as int) {
            Some(t_fine) => match (
                self.temperature(raw.adc_t as int),
                self.pressure(raw.adc_p as int, t_fine),
                self.humidity(raw.adc_h as int, t_fine),
            ) {
                (Some(t), Some(p), Some(h)) => Some(
                    Bme280Reading { temperature: t as i64, humidity: h as i64, pressure: p as i64 },
                ),
                _ => None,
            },
            None => None,
        }
    }

    fn compensate_fine(&self, adc_t: i32) -> (t_fine: Option<i64>)
        ensures
            value(t_fine) == self.fine_temperature(adc_t as int),
    {
        let t1: Option<i64> = lit(self.dig_t1 as i64);
        let coarse: Option<i64> = difference(
            shift_right(lit(adc_t as i64), 8),
            product(t1, lit(2)),
        );
        let var1: Option<i64> = shift_right(product(coarse, lit(self.dig_t2 as i64)), 2048);
        let fine: Option<i64> = difference(shift_right(lit(adc_t as i64), 16), t1);
        let var2: Option<i64> = shift_right(
            product(shift_right(product(fine, fine), 4096), lit(self.dig_t3 as i64)),
            16384,
        );
        sum(var1, var2)
    }

    fn compensate_pressure(&self, adc_p: i32, t_fine: i64) -> (p: Option<i64>)
        ensures
            value(p) == self.pressure(adc_p as int, t_fine as int),
    {
        let v: Option<i64> = difference(lit(t_fine), lit(128000));
        let vv: Option<i64> = product(v, v);
        let var2: Option<i64> = sum(
            sum(
                product(vv, lit(self.dig_p6 as i64)),
                product(product(v, lit(self.dig_p5 as i64)), lit(131072)),
            ),
            product(lit(self.dig_p4 as i64), lit(34359738368)),
        );
        let var1: Option<i64> = shift_right(
            product(
                sum(
                    lit(140737488355328),
                    sum(
                        shift_right(product(vv, lit(self.dig_p3 as i64)), 256),
                        product(product(v, lit(self.dig_p2 as i64)), lit(4096)),
                    ),
                ),
                lit(self.dig_p1 as i64),
            ),
            8589934592,
        );
        let zero: bool = match var1 {
            Some(d) => d == 0,
            None => false,
        };
        if zero {
            return Some(0);
        }
        let p: Option<i64> = divide(
            product(
                difference(
                    product(difference(lit(1048576), lit(adc_p as i64)), lit(2147483648)),
                    var2,
                ),
                lit(3125),
            ),
            var1,
        );
        let p13: Option<i64> = shift_right(p, 8192);
        let w1: Option<i64> = shift_right(
            product(product(lit(self.dig_p9 as i64), p13), p13),
            33554432,
        );
        let w2: Option<i64> = shift_right(product(lit(self.dig_p8 as i64), p), 524288);
        sum(shift_right(sum(sum(p, w1), w2), 256), product(lit(self.dig_p7 as i64), lit(16)))
    }

    fn compensate_humidity(&self, adc_h: i32, t_fine: i64) -> (h: Option<i64>)
        ensures
            value(h) == self.humidity(adc_h as int, t_fine as int),
    {
        let v: Option<i64> = difference(lit(t_fine), lit(76800));
        let zero: bool = match v {
            Some(d) => d == 0,
            None => false,
        };
        if zero {
            return Some(0);
        }
        let x1: Option<i64> = difference(
            difference(lit(adc_h as i64), product(lit(self.dig_h4 as i64), lit(16))),
            shift_right(product(lit(self.dig_h5 as i64), v), 16384),
        );
        let x2: Option<i64> = sum(
            shift_right(
                product(
                    shift_right(product(v, lit(self.dig_h6 as i64)), 1024),
                    sum(shift_right(product(v, lit(self.dig_h3 as i64)), 2048), lit(32768)),
                ),
                1024,
            ),
            lit(2097152),
        );
        let var: Option<i64> = shift_right(
            product(x1, sum(shift_right(product(x2, lit(self.dig_h2 as i64)), 1024), lit(8192))),
            16384,
        );
        let v15: Option<i64> = shift_right(var, 32768);
        let less: Option<i64> = difference(
            var,
            shift_right(
                product(shift_right(product(v15, v15), 128), lit(self.dig_h1 as i64)),
                16,
            ),
        );
        match less {
            Some(x) => Some(
                if x < 0 {
                    0
                } else if x > 419430400 {
                    419430400 / 4096
                } else {
                    x / 4096
                },
            ),
            None => None,
        }
    }

    /// Turns a burst of the data registers into temperature, humidity and
    /// pressure.
    pub fn read(&self, burst: &[u8; 8]) -> (r: Option<Bme280Reading>)
        ensures
            r == self.reading(burst@),
    {
        let raw: RawSample = parse_raw_sample(burst);
        let fine: Option<i64> = self.compensate_fine(raw.adc_t);
        match fine {
            None => None,
            Some(t_fine) => {
                let t: Option<i64> = shift_right(sum(product(fine, lit(5)), lit(128)), 256);
                let p: Option<i64> = self.compensate_pressure(raw.adc_p, t_fine);
                let h: Option<i64> = self.compensate_humidity(raw.adc_h, t_fine);
                match (t, p, h) {
                    (Some(t), Some(p), Some(h)) => Some(
                        Bme280Reading { temperature: t, humidity: h, pressure: p },
                    ),
                    _ => None,
                }
            },
        }
    }
}

} // verus!
