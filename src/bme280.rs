//! BME280 temperature / humidity / pressure sensor on I2C.
//!
//! The bus transactions are made by the caller; this module holds the driver's
//! state and decides: which address to probe next, how the calibration block
//! is unpacked, and how a raw measurement block becomes a reading, using the
//! fixed-point compensation formulas of the Bosch datasheet.
//!
//! Every arithmetic right shift `x >> k` of the datasheet algorithm is a floor
//! division by `2^k`, which is how it is written here; the one division of the
//! datasheet algorithm truncates toward zero.
use vstd::prelude::*;
use vstd::arithmetic::div_mod::*;
use crate::sensor::{Quality, Sensor, SensorData, SensorError, SensorInfo, SensorReading, SensorType};

verus! {

/// First I2C address probed.
pub const BME280_ADDRESS_PRIMARY: u8 = 0x76;
/// Second I2C address probed.
pub const BME280_ADDRESS_SECONDARY: u8 = 0x77;
/// Expected content of the chip-ID register.
pub const BME280_CHIP_ID: u8 = 0x60;
/// Chip-ID register.
pub const BME280_REG_CHIP_ID: u8 = 0xD0;
/// Soft-reset register.
pub const BME280_REG_RESET: u8 = 0xE0;
/// Humidity oversampling control register.
pub const BME280_REG_CTRL_HUM: u8 = 0xF2;
/// Temperature / pressure oversampling and mode register.
pub const BME280_REG_CTRL_MEAS: u8 = 0xF4;
/// Filter and standby register.
pub const BME280_REG_CONFIG: u8 = 0xF5;
/// First register of the 8-byte measurement block.
pub const BME280_REG_PRESS_MSB: u8 = 0xF7;
/// First register of the 24-byte temperature / pressure calibration block.
pub const BME280_REG_DIG_T1: u8 = 0x88;
/// The single humidity calibration byte H1.
pub const BME280_REG_DIG_H1: u8 = 0xA1;
/// First register of the 7-byte humidity calibration block.
pub const BME280_REG_DIG_H2: u8 = 0xE1;
/// Humidity oversampling 1x.
pub const CTRL_HUM_OVERSAMPLING_1X: u8 = 0x01;
/// Temperature and pressure oversampling 1x, forced mode.
pub const CTRL_MEAS_FORCED_1X: u8 = 0x25;
/// Filter off, standby 1000 ms.
pub const CONFIG_FILTER_OFF_STANDBY_1000MS: u8 = 0xA0;
/// Time budget of every bus transaction, in milliseconds.
pub const BUS_TIMEOUT_MS: u64 = 100;
/// Wait between triggering a forced conversion and reading it, in milliseconds.
pub const CONVERSION_WAIT_MS: u64 = 50;

/// Lowest accepted temperature, in 0.01 °C.
pub const TEMPERATURE_MIN: i32 = -4000;
/// Highest accepted temperature, in 0.01 °C.
pub const TEMPERATURE_MAX: i32 = 8500;
/// Highest accepted humidity, in 1/1024 %RH (100 %).
pub const HUMIDITY_MAX: u32 = 102400;
/// Lowest accepted pressure, in 1/256 Pa (300 hPa).
pub const PRESSURE_MIN: u32 = 7680000;
/// Highest accepted pressure, in 1/256 Pa (1100 hPa).
pub const PRESSURE_MAX: u32 = 28160000;
/// Bound on the magnitude of the fine temperature for any calibration and any
/// 20-bit temperature sample.
pub const T_FINE_BOUND: i32 = 4194304;

/// The factory calibration coefficients of one device.
#[derive(Debug, Clone, Copy, PartialEq, Eq, Structural)]
pub struct Calibration {
    pub dig_t1: u16,
    pub dig_t2: i16,
    pub dig_t3: i16,
    pub dig_p1: u16,
    pub dig_p2: i16,
    pub dig_p3: i16,
    pub dig_p4: i16,
    pub dig_p5: i16,
    pub dig_p6: i16,
    pub dig_p7: i16,
    pub dig_p8: i16,
    pub dig_p9: i16,
    pub dig_h1: u8,
    pub dig_h2: i16,
    pub dig_h3: u8,
    pub dig_h4: i16,
    pub dig_h5: i16,
    pub dig_h6: i8,
}

/// The three uncompensated samples of one measurement block.
#[derive(Debug, Clone, Copy, PartialEq, Eq, Structural)]
pub struct RawSample {
    /// 20-bit pressure sample.
    pub adc_p: u32,
    /// 20-bit temperature sample.
    pub adc_t: u32,
    /// 16-bit humidity sample.
    pub adc_h: u32,
}

/// Unsigned little-endian 16-bit value.
pub open spec fn le_u16(lo: u8, hi: u8) -> int {
    lo + 256 * hi
}

/// Signed (two's complement) little-endian 16-bit value.
pub open spec fn le_i16(lo: u8, hi: u8) -> int {
    if le_u16(lo, hi) >= 32768 { le_u16(lo, hi) - 65536 } else { le_u16(lo, hi) }
}

/// A byte read as a two's complement signed value.
pub open spec fn signed_byte(b: u8) -> int {
    if b >= 128 { b - 256 } else { b as int }
}

/// The coefficients held by the 24-byte block at 0x88, the byte at 0xA1 and
/// the 7-byte block at 0xE1. H4 and H5 are 12-bit signed values packed around
/// the shared nibble byte 0xE5.
pub open spec fn calibration_matches(c: Calibration, tp: Seq<u8>, h1: u8, h: Seq<u8>) -> bool {
    &&& c.dig_t1 == le_u16(tp[0], tp[1])
    &&& c.dig_t2 == le_i16(tp[2], tp[3])
    &&& c.dig_t3 == le_i16(tp[4], tp[5])
    &&& c.dig_p1 == le_u16(tp[6], tp[7])
    &&& c.dig_p2 == le_i16(tp[8], tp[9])
    &&& c.dig_p3 == le_i16(tp[10], tp[11])
    &&& c.dig_p4 == le_i16(tp[12], tp[13])
    &&& c.dig_p5 == le_i16(tp[14], tp[15])
    &&& c.dig_p6 == le_i16(tp[16], tp[17])
    &&& c.dig_p7 == le_i16(tp[18], tp[19])
    &&& c.dig_p8 == le_i16(tp[20], tp[21])
    &&& c.dig_p9 == le_i16(tp[22], tp[23])
    &&& c.dig_h1 == h1
    &&& c.dig_h2 == le_i16(h[0], h[1])
    &&& c.dig_h3 == h[2]
    &&& c.dig_h4 == signed_byte(h[3]) * 16 + h[4] % 16
    &&& c.dig_h5 == signed_byte(h[5]) * 16 + h[4] / 16
    &&& c.dig_h6 == signed_byte(h[6])
}

fn u16_from_le(lo: u8, hi: u8) -> (r: u16)
    ensures
        r == le_u16(lo, hi),
{
    (lo as u16) + (hi as u16) * 256
}

fn i16_from_le(lo: u8, hi: u8) -> (r: i16)
    ensures
        r == le_i16(lo, hi),
{
    let v = u16_from_le(lo, hi);
    if v >= 32768 {
        ((v as i32) - 65536) as i16
    } else {
        v as i16
    }
}

fn i8_from_byte(b: u8) -> (r: i8)
    ensures
        r == signed_byte(b),
{
    if b >= 128 {
        ((b as i16) - 256) as i8
    } else {
        b as i8
    }
}

impl Calibration {
    /// All coefficients zero.
    pub open spec fn zeroed_spec() -> Calibration {
        Calibration {
            dig_t1: 0, dig_t2: 0, dig_t3: 0,
            dig_p1: 0, dig_p2: 0, dig_p3: 0, dig_p4: 0, dig_p5: 0,
            dig_p6: 0, dig_p7: 0, dig_p8: 0, dig_p9: 0,
            dig_h1: 0, dig_h2: 0, dig_h3: 0, dig_h4: 0, dig_h5: 0, dig_h6: 0,
        }
    }

    /// All coefficients zero, as before the calibration block is read.
    pub fn zeroed() -> (r: Calibration)
        ensures
            r == Calibration::zeroed_spec(),
    {
        Calibration {
            dig_t1: 0, dig_t2: 0, dig_t3: 0,
            dig_p1: 0, dig_p2: 0, dig_p3: 0, dig_p4: 0, dig_p5: 0,
            dig_p6: 0, dig_p7: 0, dig_p8: 0, dig_p9: 0,
            dig_h1: 0, dig_h2: 0, dig_h3: 0, dig_h4: 0, dig_h5: 0, dig_h6: 0,
        }
    }

    /// Unpacks the coefficients from the three calibration register blocks.
    pub fn from_registers(tp: &[u8; 24], h1: u8, h: &[u8; 7]) -> (r: Calibration)
        ensures
            calibration_matches(r, tp@, h1, h@),
    {
        let h4_msb = i8_from_byte(h[3]) as i16;
        let h5_msb = i8_from_byte(h[5]) as i16;
        Calibration {
            dig_t1: u16_from_le(tp[0], tp[1]),
            dig_t2: i16_from_le(tp[2], tp[3]),
            dig_t3: i16_from_le(tp[4], tp[5]),
            dig_p1: u16_from_le(tp[6], tp[7]),
            dig_p2: i16_from_le(tp[8], tp[9]),
            dig_p3: i16_from_le(tp[10], tp[11]),
            dig_p4: i16_from_le(tp[12], tp[13]),
            dig_p5: i16_from_le(tp[14], tp[15]),
            dig_p6: i16_from_le(tp[16], tp[17]),
            dig_p7: i16_from_le(tp[18], tp[19]),
            dig_p8: i16_from_le(tp[20], tp[21]),
            dig_p9: i16_from_le(tp[22], tp[23]),
            dig_h1: h1,
            dig_h2: i16_from_le(h[0], h[1]),
            dig_h3: h[2],
            dig_h4: h4_msb * 16 + ((h[4] % 16) as i16),
            dig_h5: h5_msb * 16 + ((h[4] / 16) as i16),
            dig_h6: i8_from_byte(h[6]),
        }
    }
}

/// The samples packed in the measurement block starting at 0xF7: pressure and
/// temperature as 20 bits over three bytes each, humidity as 16 bits.
pub open spec fn raw_sample_of(d: Seq<u8>) -> RawSample {
    RawSample {
        adc_p: (d[0] * 4096 + d[1] * 16 + d[2] / 16) as u32,
        adc_t: (d[3] * 4096 + d[4] * 16 + d[5] / 16) as u32,
        adc_h: (d[6] * 256 + d[7]) as u32,
    }
}

/// Unpacks the measurement block.
pub fn parse_measurement(d: &[u8; 8]) -> (r: RawSample)
    ensures
        r == raw_sample_of(d@),
        r.adc_p < 0x100000,
        r.adc_t < 0x100000,
        r.adc_h < 0x10000,
{
    RawSample {
        adc_p: (d[0] as u32) * 4096 + (d[1] as u32) * 16 + (d[2] as u32) / 16,
        adc_t: (d[3] as u32) * 4096 + (d[4] as u32) * 16 + (d[5] as u32) / 16,
        adc_h: (d[6] as u32) * 256 + (d[7] as u32),
    }
}

/// The fine temperature, the shared input of all three compensations.
pub open spec fn t_fine_of(c: Calibration, adc_t: int) -> int {
    let var1 = ((adc_t / 8 - c.dig_t1 * 2) * c.dig_t2) / 2048;
    let d = adc_t / 16 - c.dig_t1;
    let var2 = ((d * d) / 4096 * c.dig_t3) / 16384;
    var1 + var2
}

/// Temperature in 0.01 °C from the fine temperature.
pub open spec fn temperature_of(t_fine: int) -> int {
    (t_fine * 5 + 128) / 256
}

/// Division that truncates toward zero, as the datasheet algorithm divides.
pub open spec fn trunc_div(a: int, b: int) -> int {
    if a == 0 {
        0
    } else if a > 0 && b > 0 {
        a / b
    } else if a < 0 && b < 0 {
        (-a) / (-b)
    } else if a < 0 {
        -((-a) / b)
    } else {
        -(a / (-b))
    }
}

/// The quotient step of the pressure compensation, or `None` where the
/// datasheet algorithm divides by zero.
pub open spec fn pressure_quotient(c: Calibration, t_fine: int, adc_p: int) -> Option<int> {
    let a = t_fine - 128000;
    let var2 = a * a * c.dig_p6 + a * c.dig_p5 * 131072 + c.dig_p4 * 34359738368;
    let var1 = (a * a * c.dig_p3) / 256 + a * c.dig_p2 * 4096;
    let var1 = ((140737488355328 + var1) * c.dig_p1) / 8589934592;
    if var1 == 0 {
        None
    } else {
        Some(trunc_div(((1048576 - adc_p) * 2147483648 - var2) * 3125, var1))
    }
}

/// Whether the pressure quotient is a 64-bit value, the width in which the
/// datasheet algorithm is defined.
pub open spec fn quotient_fits(q: int) -> bool {
    i64::MIN <= q <= i64::MAX
}

/// Pressure in 1/256 Pa from the pressure quotient.
pub open spec fn pressure_from_quotient(c: Calibration, q: int) -> int {
    let var1 = (c.dig_p9 * (q / 8192) * (q / 8192)) / 33554432;
    let var2 = (c.dig_p8 * q) / 524288;
    (q + var1 + var2) / 256 + c.dig_p7 * 16
}

/// Pressure in 1/256 Pa: zero where the datasheet algorithm's denominator is
/// zero, `None` where its quotient leaves 64 bits, so that no value is defined.
pub open spec fn pressure_of(c: Calibration, t_fine: int, adc_p: int) -> Option<int> {
    match pressure_quotient(c, t_fine, adc_p) {
        None => Some(0),
        Some(q) => if quotient_fits(q) { Some(pressure_from_quotient(c, q)) } else { None },
    }
}

/// Clamp into the datasheet algorithm's humidity range.
pub open spec fn humidity_clamp(x: int) -> int {
    if x < 0 { 0 } else if x > 419430400 { 419430400 } else { x }
}

/// Relative humidity in 1/1024 %RH.
pub open spec fn humidity_of(c: Calibration, t_fine: int, adc_h: int) -> int {
    let v = t_fine - 76800;
    let x = (adc_h * 16384 - c.dig_h4 * 1048576 - c.dig_h5 * v + 16384) / 32768;
    let y = (((v * c.dig_h6) / 1024 * ((v * c.dig_h3) / 2048 + 32768)) / 1024 + 2097152) * c.dig_h2;
    let y = (y + 8192) / 16384;
    let z = x * y;
    let z = z - ((z / 32768) * (z / 32768) / 128 * c.dig_h1) / 16;
    humidity_clamp(z) / 4096
}

proof fn lemma_div_within(x: int, b: int, d: int)
    requires
        -b <= x <= b,
        d > 0,
    ensures
        (-b) / d <= x / d <= b / d,
{
    lemma_div_is_ordered(-b, x, d);
    lemma_div_is_ordered(x, b, d);
}

proof fn lemma_mul_within(x: int, y: int, bx: int, b_y: int)
    by (nonlinear_arith)
    requires
        -bx <= x <= bx,
        -b_y <= y <= b_y,
    ensures
        -(bx * b_y) <= x * y <= bx * b_y,
{
}

/// Floor division, as an arithmetic right shift computes it.
fn floor_div(x: i128, d: i128) -> (r: i128)
    requires
        d > 0,
    ensures
        r == x / d,
{
    proof {
        if x >= 0 {
            lemma_div_is_ordered(0, x as int, d as int);
            lemma_div_is_ordered_by_denominator(x as int, 1, d as int);
        } else {
            lemma_div_is_ordered(x as int, 0, d as int);
            lemma_fundamental_div_mod(x as int, d as int);
            let q = x as int / d as int;
            let m = x as int % d as int;
            assert(q >= x) by (nonlinear_arith)
                requires
                    x == d * q + m,
                    0 <= m < d,
                    x < 0,
                    d > 0,
            ;
        }
    }
    match x.checked_div_euclid(d) {
        Some(q) => q,
        None => 0,
    }
}

impl Calibration {
    /// Temperature in 0.01 °C and the fine temperature, from a 20-bit sample.
    pub fn compensate_temperature(&self, adc_t: u32) -> (r: (i32, i32))
        requires
            adc_t < 0x100000,
        ensures
            r.1 == t_fine_of(*self, adc_t as int),
            r.0 == temperature_of(r.1 as int),
            -T_FINE_BOUND <= r.1 <= T_FINE_BOUND,
    {
        let a = adc_t as i128;
        let t1 = self.dig_t1 as i128;
        let a8 = floor_div(a, 8);
        let a16 = floor_div(a, 16);
        proof {
            lemma_div_is_ordered(0, a as int, 8);
            lemma_div_is_ordered(a as int, 0xfffff, 8);
            lemma_div_is_ordered(0, a as int, 16);
            lemma_div_is_ordered(a as int, 0xfffff, 16);
        }
        let d1 = a8 - t1 * 2;
        proof {
            lemma_mul_within(d1 as int, self.dig_t2 as int, 131071, 32768);
            lemma_div_within((d1 as int) * (self.dig_t2 as int), 4294934528int, 2048);
        }
        let var1 = floor_div(d1 * (self.dig_t2 as i128), 2048);
        let d2 = a16 - t1;
        proof {
            lemma_mul_within(d2 as int, d2 as int, 65535, 65535);
            let dd = (d2 as int) * (d2 as int);
            assert(0 <= dd) by (nonlinear_arith)
                requires
                    dd == (d2 as int) * (d2 as int),
            ;
            lemma_div_is_ordered(0, dd, 4096);
            lemma_div_is_ordered(dd, 4294836225int, 4096);
        }
        let sq = floor_div(d2 * d2, 4096);
        proof {
            lemma_mul_within(sq as int, self.dig_t3 as int, 1048575, 32768);
            lemma_div_within((sq as int) * (self.dig_t3 as int), 34359705600int, 16384);
        }
        let var2 = floor_div(sq * (self.dig_t3 as i128), 16384);
        let t_fine = var1 + var2;
        let temp = floor_div(t_fine * 5 + 128, 256);
        proof {
            lemma_div_within((t_fine as int) * 5 + 128, 20971648int, 256);
        }
        (temp as i32, t_fine as i32)
    }

    /// Pressure in 1/256 Pa from the fine temperature and a 20-bit sample:
    /// zero where the datasheet algorithm's denominator is zero, `None` where
    /// its quotient does not fit in 64 bits.
    pub fn compensate_pressure(&self, t_fine: i32, adc_p: u32) -> (r: Option<i128>)
        requires
            -T_FINE_BOUND <= t_fine <= T_FINE_BOUND,
            adc_p < 0x100000,
        ensures
            r is Some <==> pressure_of(*self, t_fine as int, adc_p as int) is Some,
            r is Some ==> pressure_of(*self, t_fine as int, adc_p as int) == Some(r->0 as int),
    {
        let dp1 = self.dig_p1 as i128;
        let dp2 = self.dig_p2 as i128;
        let dp3 = self.dig_p3 as i128;
        let dp4 = self.dig_p4 as i128;
        let dp5 = self.dig_p5 as i128;
        let dp6 = self.dig_p6 as i128;
        let dp7 = self.dig_p7 as i128;
        let dp8 = self.dig_p8 as i128;
        let dp9 = self.dig_p9 as i128;
        let a = (t_fine as i128) - 128000;
        proof {
            lemma_mul_within(a as int, a as int, 0x800000, 0x800000);
        }
        let aa = a * a;
        proof {
            lemma_mul_within(aa as int, dp6 as int, 0x400000000000, 0x8000);
            lemma_mul_within(a as int, dp5 as int, 0x800000, 0x8000);
            lemma_mul_within(aa as int, dp3 as int, 0x400000000000, 0x8000);
            lemma_mul_within(a as int, dp2 as int, 0x800000, 0x8000);
        }
        let var2 = aa * dp6 + a * dp5 * 131072 + dp4 * 34359738368;
        let var1 = floor_div(aa * dp3, 256) + a * dp2 * 4096;
        proof {
            lemma_div_within((aa as int) * (dp3 as int), 0x2000000000000000int, 256);
            lemma_mul_within(140737488355328 + var1, dp1 as int, 0x80000000000000int, 0x10000);
            lemma_div_within((140737488355328 + var1) * (dp1 as int), 0x800000000000000000int, 8589934592);
        }
        let var1 = floor_div((140737488355328 + var1) * dp1, 8589934592);
        if var1 == 0 {
            return Some(0);
        }
        let num = ((1048576 - (adc_p as i128)) * 2147483648 - var2) * 3125;
        let q = match num.checked_div(var1) {
            Some(q) => q,
            None => return None,
        };
        if q < (i64::MIN as i128) || q > (i64::MAX as i128) {
            return None;
        }
        let q13 = floor_div(q, 8192);
        proof {
            lemma_div_within(q as int, 0x8000000000000000int, 8192);
            lemma_mul_within(dp9 as int, q13 as int, 0x8000, 0x4000000000000);
            lemma_mul_within((dp9 as int) * (q13 as int), q13 as int, 0x20000000000000000int, 0x4000000000000);
            lemma_mul_within(dp8 as int, q as int, 0x8000, 0x8000000000000000int);
            lemma_div_within((dp9 as int) * (q13 as int) * (q13 as int), 0x80000000000000000000000000000int, 33554432);
            lemma_div_within((dp8 as int) * (q as int), 0x40000000000000000000int, 524288);
        }
        let w1 = floor_div(dp9 * q13 * q13, 33554432);
        let w2 = floor_div(dp8 * q, 524288);
        proof {
            lemma_div_within((q + w1 + w2) as int, 0x100000000000000000000000int, 256);
        }
        Some(floor_div(q + w1 + w2, 256) + dp7 * 16)
    }

    /// Relative humidity in 1/1024 %RH from the fine temperature and a 16-bit
    /// sample.
    pub fn compensate_humidity(&self, t_fine: i32, adc_h: u32) -> (r: u32)
        requires
            -T_FINE_BOUND <= t_fine <= T_FINE_BOUND,
            adc_h < 0x10000,
        ensures
            r == humidity_of(*self, t_fine as int, adc_h as int),
            r <= HUMIDITY_MAX,
    {
        let h1 = self.dig_h1 as i128;
        let h2 = self.dig_h2 as i128;
        let h3 = self.dig_h3 as i128;
        let h4 = self.dig_h4 as i128;
        let h5 = self.dig_h5 as i128;
        let h6 = self.dig_h6 as i128;
        let v = (t_fine as i128) - 76800;
        proof {
            lemma_mul_within(h5 as int, v as int, 0x8000, 0x800000);
            lemma_mul_within(v as int, h6 as int, 0x800000, 0x80);
            lemma_mul_within(v as int, h3 as int, 0x800000, 0x100);
        }
        let xs = (adc_h as i128) * 16384 - h4 * 1048576 - h5 * v + 16384;
        proof {
            lemma_div_within(xs as int, 0x8000000000int, 32768);
            lemma_div_within((v as int) * (h6 as int), 0x40000000int, 1024);
            lemma_div_within((v as int) * (h3 as int), 0x80000000int, 2048);
        }
        let x = floor_div(xs, 32768);
        let y6 = floor_div(v * h6, 1024);
        let y3 = floor_div(v * h3, 2048) + 32768;
        proof {
            lemma_mul_within(y6 as int, y3 as int, 0x100001, 0x200000);
            lemma_div_within((y6 as int) * (y3 as int), 0x20000200000int, 1024);
        }
        let ym = floor_div(y6 * y3, 1024) + 2097152;
        proof {
            lemma_mul_within(ym as int, h2 as int, 0x100000000int, 0x8000);
            lemma_div_within((ym as int) * (h2 as int) + 8192, 0x800000002000int, 16384);
        }
        let y = floor_div(ym * h2 + 8192, 16384);
        proof {
            lemma_mul_within(x as int, y as int, 0x2000000, 0x800000000int);
        }
        let z = x * y;
        let z15 = floor_div(z, 32768);
        proof {
            lemma_div_within(z as int, 0x1000000000000000int, 32768);
            lemma_mul_within(z15 as int, z15 as int, 0x200000000000int, 0x200000000000int);
            lemma_div_within((z15 as int) * (z15 as int), 0x40000000000000000000000int, 128);
        }
        let zq = floor_div(z15 * z15, 128);
        proof {
            lemma_mul_within(zq as int, h1 as int, 0x800000000000000000000int, 0x100);
            lemma_div_within((zq as int) * (h1 as int), 0x80000000000000000000000int, 16);
        }
        let z = z - floor_div(zq * h1, 16);
        let c = if z < 0 {
            0
        } else if z > 419430400 {
            419430400
        } else {
            z
        };
        proof {
            lemma_div_is_ordered(0, c as int, 4096);
            lemma_div_is_ordered(c as int, 419430400, 4096);
        }
        floor_div(c, 4096) as u32
    }
}

/// The accepted temperature, in 0.01 °C.
pub open spec fn temperature_field(t: int) -> Option<i32> {
    if TEMPERATURE_MIN <= t <= TEMPERATURE_MAX { Some(t as i32) } else { None }
}

/// The accepted humidity, in 1/1024 %RH.
pub open spec fn humidity_field(h: int) -> Option<u32> {
    if 0 <= h <= HUMIDITY_MAX { Some(h as u32) } else { None }
}

/// The accepted pressure, in 1/256 Pa.
pub open spec fn pressure_field(p: Option<int>) -> Option<u32> {
    match p {
        Some(v) => if PRESSURE_MIN <= v <= PRESSURE_MAX { Some(v as u32) } else { None },
        None => None,
    }
}

/// The environmental record built from three compensated values: each value
/// outside its range is absent.
pub open spec fn environmental_data(t: int, h: int, p: Option<int>) -> SensorData {
    SensorData::Environmental {
        temperature: temperature_field(t),
        humidity: humidity_field(h),
        pressure: pressure_field(p),
        gas_resistance: None,
    }
}

/// `Good` exactly when all three values are in range.
pub open spec fn environmental_quality(t: int, h: int, p: Option<int>) -> Quality {
    if temperature_field(t) is Some && humidity_field(h) is Some && pressure_field(p) is Some {
        Quality::Good
    } else {
        Quality::Bad
    }
}

/// Range-checks compensated temperature (0.01 °C), humidity (1/1024 %RH) and
/// pressure (1/256 Pa) into an environmental record and its quality.
pub fn environmental_record(temperature: i32, humidity: u32, pressure: Option<i128>) -> (r: (SensorData, Quality))
    ensures
        r.0 == environmental_data(temperature as int, humidity as int, match pressure { Some(p) => Some(p as int), None => None }),
        r.1 == environmental_quality(temperature as int, humidity as int, match pressure { Some(p) => Some(p as int), None => None }),
{
    let t = if TEMPERATURE_MIN <= temperature && temperature <= TEMPERATURE_MAX { Some(temperature) } else { None };
    let h = if humidity <= HUMIDITY_MAX { Some(humidity) } else { None };
    let p = match pressure {
        Some(v) => if (PRESSURE_MIN as i128) <= v && v <= (PRESSURE_MAX as i128) { Some(v as u32) } else { None },
        None => None,
    };
    let quality = if t.is_some() && h.is_some() && p.is_some() { Quality::Good } else { Quality::Bad };
    (SensorData::Environmental { temperature: t, humidity: h, pressure: p, gas_resistance: None }, quality)
}

/// What the driver state holds, as seen by contracts.
pub struct Bme280State {
    pub address: u8,
    pub initialized: bool,
    pub calibration: Calibration,
    pub t_fine: int,
}

/// BME280 driver state: the address found, the calibration loaded, and the
/// fine temperature of the last measurement.
pub struct Bme280Sensor {
    address: u8,
    initialized: bool,
    calibration: Calibration,
    t_fine: i32,
}

impl View for Bme280Sensor {
    type V = Bme280State;

    closed spec fn view(&self) -> Bme280State {
        Bme280State {
            address: self.address,
            initialized: self.initialized,
            calibration: self.calibration,
            t_fine: self.t_fine as int,
        }
    }
}

impl Bme280Sensor {
    #[verifier::type_invariant]
    spec fn inv(&self) -> bool {
        &&& -T_FINE_BOUND <= self.t_fine <= T_FINE_BOUND
        &&& (self.address == BME280_ADDRESS_PRIMARY || self.address == BME280_ADDRESS_SECONDARY)
    }

    /// A driver that has not found its device yet.
    pub fn new() -> (r: Bme280Sensor)
        ensures
            r@.address == BME280_ADDRESS_PRIMARY,
            !r@.initialized,
            r@.calibration == Calibration::zeroed_spec(),
            r@.t_fine == 0,
    {
        Bme280Sensor {
            address: BME280_ADDRESS_PRIMARY,
            initialized: false,
            calibration: Calibration::zeroed(),
            t_fine: 0,
        }
    }

    /// The I2C address to talk to.
    pub fn address(&self) -> (r: u8)
        ensures
            r == self@.address,
            r == BME280_ADDRESS_PRIMARY || r == BME280_ADDRESS_SECONDARY,
    {
        proof {
            use_type_invariant(self);
        }
        self.address
    }

    /// Whether initialisation has completed.
    pub fn is_initialized(&self) -> (r: bool)
        ensures
            r == self@.initialized,
    {
        self.initialized
    }

    /// The calibration in use.
    pub fn calibration(&self) -> (r: Calibration)
        ensures
            r == self@.calibration,
    {
        self.calibration
    }

    /// Starts locating the device: the primary address is probed first.
    pub fn begin_probe(&mut self)
        ensures
            final(self)@ == (Bme280State { address: BME280_ADDRESS_PRIMARY, ..old(self)@ }),
    {
        proof {
            use_type_invariant(&*self);
        }
        self.address = BME280_ADDRESS_PRIMARY;
    }

    /// Takes the outcome of reading the chip-ID register at the current
    /// address. `Ok(true)`: the device is there. `Ok(false)`: the secondary
    /// address is now current and is to be probed. `Err(HardwareFailure)`:
    /// neither address answered with the expected chip ID.
    pub fn probe_result(&mut self, chip_id: Result<u8, SensorError>) -> (r: Result<bool, SensorError>)
        ensures
            chip_id == Ok::<u8, SensorError>(BME280_CHIP_ID) ==> r == Ok::<bool, SensorError>(true) && final(self)@ == old(self)@,
            chip_id != Ok::<u8, SensorError>(BME280_CHIP_ID) && old(self)@.address == BME280_ADDRESS_PRIMARY ==>
                r == Ok::<bool, SensorError>(false) && final(self)@ == (Bme280State { address: BME280_ADDRESS_SECONDARY, ..old(self)@ }),
            chip_id != Ok::<u8, SensorError>(BME280_CHIP_ID) && old(self)@.address != BME280_ADDRESS_PRIMARY ==>
                r == Err::<bool, SensorError>(SensorError::HardwareFailure) && final(self)@ == old(self)@,
    {
        proof {
            use_type_invariant(&*self);
        }
        let found = match chip_id {
            Ok(id) => id == BME280_CHIP_ID,
            Err(_) => false,
        };
        if found {
            Ok(true)
        } else if self.address == BME280_ADDRESS_PRIMARY {
            self.address = BME280_ADDRESS_SECONDARY;
            Ok(false)
        } else {
            Err(SensorError::HardwareFailure)
        }
    }

    /// Loads the calibration read from the device; the driver is then ready
    /// to sample.
    pub fn complete_init(&mut self, tp: &[u8; 24], h1: u8, h: &[u8; 7])
        ensures
            calibration_matches(final(self)@.calibration, tp@, h1, h@),
            final(self)@.initialized,
            final(self)@.address == old(self)@.address,
            final(self)@.t_fine == old(self)@.t_fine,
    {
        proof {
            use_type_invariant(&*self);
        }
        self.calibration = Calibration::from_registers(tp, h1, h);
        self.initialized = true;
    }

    /// Compensates a measurement block: temperature first, whose fine value is
    /// kept for the pressure and humidity compensations. Returns temperature
    /// (0.01 °C), humidity (1/1024 %RH) and pressure (1/256 Pa).
    pub fn read_compensated_data(&mut self, block: &[u8; 8]) -> (r: (i32, u32, Option<i128>))
        ensures
            ({
                let raw = raw_sample_of(block@);
                let c = old(self)@.calibration;
                let tf = t_fine_of(c, raw.adc_t as int);
                &&& final(self)@ == (Bme280State { t_fine: tf, ..old(self)@ })
                &&& r.0 == temperature_of(tf)
                &&& r.1 == humidity_of(c, tf, raw.adc_h as int)
                &&& (r.2 is Some <==> pressure_of(c, tf, raw.adc_p as int) is Some)
                &&& (r.2 is Some ==> pressure_of(c, tf, raw.adc_p as int) == Some(r.2->0 as int))
            }),
    {
        proof {
            use_type_invariant(&*self);
        }
        let raw = parse_measurement(block);
        let (temperature, t_fine) = self.calibration.compensate_temperature(raw.adc_t);
        self.t_fine = t_fine;
        let pressure = self.calibration.compensate_pressure(t_fine, raw.adc_p);
        let humidity = self.calibration.compensate_humidity(t_fine, raw.adc_h);
        (temperature, humidity, pressure)
    }

    /// Turns a measurement block into a reading stamped `timestamp`; before
    /// initialisation, `NotInitialized` and nothing changes.
    pub fn read(&mut self, block: &[u8; 8], timestamp: u64) -> (r: Result<SensorReading, SensorError>)
        ensures
            !old(self)@.initialized ==> r == Err::<SensorReading, SensorError>(SensorError::NotInitialized) && final(self)@ == old(self)@,
            old(self)@.initialized ==> ({
                let raw = raw_sample_of(block@);
                let c = old(self)@.calibration;
                let tf = t_fine_of(c, raw.adc_t as int);
                let t = temperature_of(tf);
                let h = humidity_of(c, tf, raw.adc_h as int);
                let p = pressure_of(c, tf, raw.adc_p as int);
                &&& final(self)@ == (Bme280State { t_fine: tf, ..old(self)@ })
                &&& r is Ok
                &&& r->Ok_0.sensor_type == SensorType::BME280
                &&& r->Ok_0.data == environmental_data(t, h, p)
                &&& r->Ok_0.quality == environmental_quality(t, h, p)
                &&& r->Ok_0.timestamp == timestamp
            }),
    {
        if !self.initialized {
            return Err(SensorError::NotInitialized);
        }
        let (temperature, humidity, pressure) = self.read_compensated_data(block);
        let (data, quality) = environmental_record(temperature, humidity, pressure);
        Ok(SensorReading::new_at(SensorType::BME280, data, quality, timestamp))
    }
}

/// Warm-up after the first initialisation, in milliseconds.
pub const BME280_WARM_UP_MS: u64 = 2000;
/// Interval between readings, in milliseconds.
pub const BME280_INTERVAL_MS: u64 = 30_000;

impl Sensor for Bme280Sensor {
    fn info(&self) -> SensorInfo {
        SensorInfo { name: "BME280", sensor_type: SensorType::BME280, version: "1.0.0", manufacturer: "Bosch" }
    }

    fn warm_up_time(&self) -> u64 {
        BME280_WARM_UP_MS
    }

    fn reading_interval(&self) -> u64 {
        BME280_INTERVAL_MS
    }
}

} // verus!
