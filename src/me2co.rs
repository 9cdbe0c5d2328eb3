//! ME2-CO carbon monoxide sensor: a fixed 9-byte question-and-answer protocol
//! over UART at 9600 baud.
//!
//! The caller writes the command frames and collects the response bytes; this
//! module holds the driver state and validates and decodes a response.
use vstd::prelude::*;
use crate::sensor::{Quality, Sensor, SensorData, SensorError, SensorInfo, SensorReading, SensorType};

verus! {

/// Mode-select command: question-and-answer mode.
pub const ME2CO_INIT_CMD: [u8; 9] = [0xFF, 0x01, 0x78, 0x41, 0x00, 0x00, 0x00, 0x00, 0x46];
/// Query command: ask for one concentration reading.
pub const ME2CO_QUERY_CMD: [u8; 9] = [0xFF, 0x01, 0x86, 0x00, 0x00, 0x00, 0x00, 0x00, 0x79];
/// Frame length in both directions.
pub const ME2CO_FRAME_LEN: usize = 9;
/// Write budget of the mode-select command, in milliseconds.
pub const ME2CO_INIT_WRITE_TIMEOUT_MS: u64 = 1000;
/// Settle time after the mode-select command, in milliseconds.
pub const ME2CO_INIT_SETTLE_MS: u64 = 100;
/// Write budget of the query command, in milliseconds.
pub const ME2CO_QUERY_WRITE_TIMEOUT_MS: u64 = 500;
/// Wait between the query and the first read, in milliseconds.
pub const ME2CO_RESPONSE_WAIT_MS: u64 = 50;
/// Budget for collecting the whole response, in milliseconds.
pub const ME2CO_RESPONSE_DEADLINE_MS: u64 = 1000;
/// Highest accepted concentration, in 0.1 ppm (1000 ppm).
pub const ME2CO_MAX_DECI_PPM: u16 = 10000;
/// Warm-up after the first initialisation, in milliseconds.
pub const ME2CO_WARM_UP_MS: u64 = 10_000;
/// Interval between readings, in milliseconds.
pub const ME2CO_INTERVAL_MS: u64 = 30_000;

/// Sum of bytes 1 through 7 of a frame.
pub open spec fn frame_sum(f: Seq<u8>) -> int {
    f[1] + f[2] + f[3] + f[4] + f[5] + f[6] + f[7]
}

/// Two's complement of the byte sum, modulo 256.
pub open spec fn frame_checksum(f: Seq<u8>) -> int {
    (256 - frame_sum(f) % 256) % 256
}

/// The trailing byte matches the checksum of bytes 1 through 7.
pub open spec fn checksum_ok(f: Seq<u8>) -> bool {
    f[8] == frame_checksum(f)
}

/// The response starts with the reading header `FF 86`.
pub open spec fn header_ok(f: Seq<u8>) -> bool {
    f[0] == 0xFF && f[1] == 0x86
}

/// Big-endian concentration in bytes 2 and 3, in 0.1 ppm.
pub open spec fn concentration(f: Seq<u8>) -> int {
    f[2] * 256 + f[3]
}

/// The outcome of validating a complete response: the concentration in
/// 0.1 ppm, or `InvalidData` for a bad header, checksum or range.
pub open spec fn response_outcome(f: Seq<u8>) -> Result<u16, SensorError> {
    if header_ok(f) && checksum_ok(f) && concentration(f) <= ME2CO_MAX_DECI_PPM {
        Ok(concentration(f) as u16)
    } else {
        Err(SensorError::InvalidData)
    }
}

/// The checksum a frame's trailing byte must hold.
pub fn frame_checksum_of(f: &[u8; 9]) -> (r: u8)
    ensures
        r == frame_checksum(f@),
{
    let sum: u32 = f[1] as u32 + f[2] as u32 + f[3] as u32 + f[4] as u32 + f[5] as u32 + f[6] as u32 + f[7] as u32;
    ((256 - sum % 256) % 256) as u8
}

/// Validates a complete response and decodes its concentration in 0.1 ppm.
pub fn parse_response(f: &[u8; 9]) -> (r: Result<u16, SensorError>)
    ensures
        r == response_outcome(f@),
{
    if f[0] != 0xFF || f[1] != 0x86 {
        return Err(SensorError::InvalidData);
    }
    let co_raw: u16 = (f[2] as u16) * 256 + (f[3] as u16);
    if frame_checksum_of(f) != f[8] {
        return Err(SensorError::InvalidData);
    }
    if co_raw > ME2CO_MAX_DECI_PPM {
        return Err(SensorError::InvalidData);
    }
    Ok(co_raw)
}

/// A single changed byte among positions 1 to 7 of a frame whose checksum
/// holds is always detected: the changed frame fails its checksum.
pub proof fn lemma_checksum_detects_single_byte_change(f: Seq<u8>, i: int, v: u8)
    requires
        f.len() == 9,
        checksum_ok(f),
        1 <= i <= 7,
        v != f[i],
    ensures
        !checksum_ok(f.update(i, v)),
{
    let g = f.update(i, v);
    assert(frame_sum(g) == frame_sum(f) + v - f[i]);
    let a = frame_sum(f);
    let b = frame_sum(g);
    assert(a % 256 != b % 256) by {
        vstd::arithmetic::div_mod::lemma_fundamental_div_mod(a, 256);
        vstd::arithmetic::div_mod::lemma_fundamental_div_mod(b, 256);
        assert(-256 < b - a < 256 && b - a != 0);
        if a % 256 == b % 256 {
            assert(b - a == 256 * (b / 256 - a / 256));
            assert(b / 256 - a / 256 == 0) by (nonlinear_arith)
                requires
                    -256 < 256 * (b / 256 - a / 256) < 256,
            ;
        }
    }
}

/// ME2-CO driver state.
pub struct Me2CoSensorWrapper {
    initialized: bool,
}

impl Me2CoSensorWrapper {
    /// A driver that has not sent its mode-select command yet.
    pub fn new() -> (r: Me2CoSensorWrapper)
        ensures
            !r.initialized_spec(),
    {
        Me2CoSensorWrapper { initialized: false }
    }

    /// Whether initialisation has completed.
    pub closed spec fn initialized_spec(&self) -> bool {
        self.initialized
    }

    /// Whether initialisation has completed.
    pub fn is_initialized(&self) -> (r: bool)
        ensures
            r == self.initialized_spec(),
    {
        self.initialized
    }

    /// Takes the outcome of writing the mode-select command: on success the
    /// driver is ready once the settle time has passed; a failure is returned
    /// as it came and nothing changes.
    pub fn init_result(&mut self, sent: Result<(), SensorError>) -> (r: Result<(), SensorError>)
        ensures
            r == sent,
            final(self).initialized_spec() == (old(self).initialized_spec() || sent is Ok),
    {
        if sent.is_ok() {
            self.initialized = true;
        }
        sent
    }

    /// Turns the response bytes collected before the deadline into a reading:
    /// `NotInitialized` before initialisation, `Timeout` when fewer than nine
    /// bytes arrived, otherwise the validation outcome of the frame.
    pub fn read(&self, response: &[u8; 9], bytes_read: usize, timestamp: u64) -> (r: Result<SensorReading, SensorError>)
        ensures
            !self.initialized_spec() ==> r == Err::<SensorReading, SensorError>(SensorError::NotInitialized),
            self.initialized_spec() && bytes_read < 9 ==> r == Err::<SensorReading, SensorError>(SensorError::Timeout),
            self.initialized_spec() && bytes_read >= 9 ==> match response_outcome(response@) {
                Ok(co) => r == Ok::<SensorReading, SensorError>(SensorReading {
                    sensor_type: SensorType::ME2CO,
                    data: SensorData::Gas { co_ppm: Some(co), co2_ppm: None, voc_index: None },
                    timestamp,
                    quality: Quality::Good,
                }),
                Err(e) => r == Err::<SensorReading, SensorError>(e),
            },
    {
        if !self.initialized {
            return Err(SensorError::NotInitialized);
        }
        if bytes_read < 9 {
            return Err(SensorError::Timeout);
        }
        match parse_response(response) {
            Ok(co) => {
                let data = SensorData::Gas { co_ppm: Some(co), co2_ppm: None, voc_index: None };
                Ok(SensorReading::new_at(SensorType::ME2CO, data, Quality::Good, timestamp))
            },
            Err(e) => Err(e),
        }
    }
}

impl Sensor for Me2CoSensorWrapper {
    fn info(&self) -> SensorInfo {
        SensorInfo {
            name: "ME2-CO",
            sensor_type: SensorType::ME2CO,
            version: "1.0.0",
            manufacturer: "Winsen Electronics",
        }
    }

    fn warm_up_time(&self) -> u64 {
        ME2CO_WARM_UP_MS
    }

    fn reading_interval(&self) -> u64 {
        ME2CO_INTERVAL_MS
    }
}

} // verus!
