//! SDS011 particulate matter sensor: 19-byte command frames out, unsolicited
//! 10-byte measurement frames in (header `AA C0`, then 8 payload bytes), over
//! UART at 9600 baud.
//!
//! The caller writes the commands and reads the byte stream; this module holds
//! the driver state (running flag, consecutive-error gate), synchronises on the
//! stream byte by byte, and validates and decodes a payload.
use vstd::prelude::*;
use crate::sensor::{Quality, Sensor, SensorData, SensorError, SensorInfo, SensorReading, SensorType};

verus! {

/// Set the working mode to continuous.
pub const SDS011_CMD_WORKING_CONTINUOUS: [u8; 19] = [
    0xAA, 0xB4, 0x08, 0x01, 0x00, 0x00, 0x00, 0x00, 0x00, 0x00,
    0x00, 0x00, 0x00, 0x00, 0x00, 0xFF, 0xFF, 0x07, 0xAB,
];
/// Set the reporting mode to continuous.
pub const SDS011_CMD_REPORTING_CONTINUOUS: [u8; 19] = [
    0xAA, 0xB4, 0x02, 0x01, 0x00, 0x00, 0x00, 0x00, 0x00, 0x00,
    0x00, 0x00, 0x00, 0x00, 0x00, 0xFF, 0xFF, 0x01, 0xAB,
];
/// Stop measuring (fan and laser off).
pub const SDS011_CMD_STOP: [u8; 19] = [
    0xAA, 0xB4, 0x06, 0x01, 0x00, 0x00, 0x00, 0x00, 0x00, 0x00,
    0x00, 0x00, 0x00, 0x00, 0x00, 0xFF, 0xFF, 0x05, 0xAB,
];
/// Start measuring.
pub const SDS011_CMD_START: [u8; 19] = [
    0xAA, 0xB4, 0x06, 0x01, 0x01, 0x00, 0x00, 0x00, 0x00, 0x00,
    0x00, 0x00, 0x00, 0x00, 0x00, 0xFF, 0xFF, 0x06, 0xAB,
];
/// First header byte of a measurement frame.
pub const SDS011_HEADER: u8 = 0xAA;
/// Second header byte of a measurement frame.
pub const SDS011_COMMAND_ID: u8 = 0xC0;
/// Last payload byte of a measurement frame.
pub const SDS011_TAIL: u8 = 0xAB;
/// Payload length of a measurement frame.
pub const SDS011_PAYLOAD_LEN: usize = 8;
/// Write budget of a command, in milliseconds.
pub const SDS011_WRITE_TIMEOUT_MS: u64 = 500;
/// Pause between the two mode commands, and before the stop command, in milliseconds.
pub const SDS011_COMMAND_GAP_MS: u64 = 100;
/// Settle time after the start command, in milliseconds.
pub const SDS011_START_SETTLE_MS: u64 = 3000;
/// Budget for finding one valid measurement frame, in milliseconds.
pub const SDS011_ACQUIRE_DEADLINE_MS: u64 = 2000;
/// Budget of one byte read while scanning, in milliseconds.
pub const SDS011_BYTE_TIMEOUT_MS: u64 = 100;
/// Idle sleep after an unproductive read, in milliseconds.
pub const SDS011_IDLE_SLEEP_MS: u64 = 10;
/// Consecutive errors after which reads are refused during the cooldown.
pub const SDS011_ERROR_LIMIT: u32 = 5;
/// Cooldown after the last error, in milliseconds.
pub const SDS011_COOLDOWN_MS: u64 = 60_000;
/// Concentrations must be below this, in 0.1 µg/m³ (1000 µg/m³).
pub const SDS011_LIMIT_DECI_UG: u16 = 10000;
/// Warm-up after the first initialisation, in milliseconds.
pub const SDS011_WARM_UP_MS: u64 = 15_000;
/// Interval between readings, in milliseconds.
pub const SDS011_INTERVAL_MS: u64 = 30_000;

/// Payload bytes 0 to 5 summed modulo 256 equal byte 6, and byte 7 is the tail.
pub open spec fn payload_ok(d: Seq<u8>) -> bool {
    &&& (d[0] + d[1] + d[2] + d[3] + d[4] + d[5]) % 256 == d[6]
    &&& d[7] == SDS011_TAIL
}

/// PM2.5 and PM10 in 0.1 µg/m³, little-endian in bytes 0-1 and 2-3.
pub open spec fn payload_values(d: Seq<u8>) -> (u16, u16) {
    ((d[0] + 256 * d[1]) as u16, (d[2] + 256 * d[3]) as u16)
}

/// Checks a measurement payload.
pub fn checksum_valid(d: &[u8; 8]) -> (r: bool)
    ensures
        r == payload_ok(d@),
{
    let sum: u16 = d[0] as u16 + d[1] as u16 + d[2] as u16 + d[3] as u16 + d[4] as u16 + d[5] as u16;
    (sum % 256) as u8 == d[6] && d[7] == SDS011_TAIL
}

/// Decodes the two concentrations of a payload, in 0.1 µg/m³.
pub fn decode_payload(d: &[u8; 8]) -> (r: (u16, u16))
    ensures
        r == payload_values(d@),
{
    ((d[0] as u16) + 256 * (d[1] as u16), (d[2] as u16) + 256 * (d[3] as u16))
}

/// Changing any single byte of a valid payload makes it invalid, so a
/// corrupted frame is rejected.
pub proof fn lemma_payload_detects_single_byte_change(d: Seq<u8>, i: int, v: u8)
    requires
        d.len() == 8,
        payload_ok(d),
        0 <= i < 8,
        v != d[i],
    ensures
        !payload_ok(d.update(i, v)),
{
    let e = d.update(i, v);
    if 0 <= i < 6 {
        let a = d[0] + d[1] + d[2] + d[3] + d[4] + d[5];
        let b = e[0] + e[1] + e[2] + e[3] + e[4] + e[5];
        assert(b == a + v - d[i]);
        assert(a % 256 != b % 256) by {
            vstd::arithmetic::div_mod::lemma_fundamental_div_mod(a, 256);
            vstd::arithmetic::div_mod::lemma_fundamental_div_mod(b, 256);
            if a % 256 == b % 256 {
                assert(b - a == 256 * (b / 256 - a / 256));
                assert(b / 256 - a / 256 == 0) by (nonlinear_arith)
                    requires
                        -256 < 256 * (b / 256 - a / 256) < 256,
                ;
            }
        }
    }
}

/// What the stream synchroniser holds: the last byte seen while hunting for a
/// header, and the payload bytes gathered since a header, if one was seen.
pub struct ScannerState {
    pub prev: u8,
    pub payload: Option<Seq<u8>>,
}

/// The state after one more byte of the stream.
pub open spec fn scan_next(s: ScannerState, b: u8) -> ScannerState {
    match s.payload {
        None => if s.prev == SDS011_HEADER && b == SDS011_COMMAND_ID {
            ScannerState { prev: b, payload: Some(Seq::empty()) }
        } else {
            ScannerState { prev: b, payload: None }
        },
        Some(p) => if p.len() + 1 == SDS011_PAYLOAD_LEN {
            ScannerState { prev: SDS011_COMMAND_ID, payload: None }
        } else {
            ScannerState { prev: s.prev, payload: Some(p.push(b)) }
        },
    }
}

/// The payload completed by one more byte, when it completes one.
pub open spec fn scan_frame(s: ScannerState, b: u8) -> Option<Seq<u8>> {
    match s.payload {
        Some(p) => if p.len() + 1 == SDS011_PAYLOAD_LEN { Some(p.push(b)) } else { None },
        None => None,
    }
}

/// Synchronises on the measurement stream: hunts for `AA C0`, gathers the
/// eight bytes after it, and hands back the decoded values of a valid payload.
/// An invalid payload is dropped and hunting goes on.
pub struct FrameScanner {
    prev: u8,
    collecting: bool,
    count: usize,
    buf: [u8; 8],
}

impl View for FrameScanner {
    type V = ScannerState;

    closed spec fn view(&self) -> ScannerState {
        ScannerState {
            prev: self.prev,
            payload: if self.collecting { Some(self.buf@.subrange(0, self.count as int)) } else { None },
        }
    }
}

impl FrameScanner {
    #[verifier::type_invariant]
    spec fn inv(&self) -> bool {
        self.count < SDS011_PAYLOAD_LEN
    }

    /// A scanner that has seen nothing.
    pub fn new() -> (r: FrameScanner)
        ensures
            r@ == (ScannerState { prev: 0, payload: None }),
    {
        FrameScanner { prev: 0, collecting: false, count: 0, buf: [0; 8] }
    }

    /// Whether payload bytes are being gathered.
    pub fn in_frame(&self) -> (r: bool)
        ensures
            r == self@.payload is Some,
    {
        self.collecting
    }

    /// Takes one byte of the stream. Returns the PM2.5 and PM10 values when
    /// the byte completes a valid payload; `None` otherwise, including for a
    /// payload that fails its check, after which hunting resumes.
    pub fn feed(&mut self, b: u8) -> (r: Option<(u16, u16)>)
        ensures
            final(self)@ == scan_next(old(self)@, b),
            r == match scan_frame(old(self)@, b) {
                Some(p) => if payload_ok(p) { Some(payload_values(p)) } else { None },
                None => None,
            },
    {
        proof {
            use_type_invariant(&*self);
        }
        if !self.collecting {
            if self.prev == SDS011_HEADER && b == SDS011_COMMAND_ID {
                self.collecting = true;
                self.count = 0;
                assert(self.buf@.subrange(0, 0) =~= Seq::<u8>::empty());
            }
            self.prev = b;
            return None;
        }
        let mut frame = self.buf;
        frame[self.count] = b;
        assert(frame@.subrange(0, self.count + 1) =~= self.buf@.subrange(0, self.count as int).push(b));
        if self.count + 1 < SDS011_PAYLOAD_LEN {
            self.buf = frame;
            self.count = self.count + 1;
            return None;
        }
        assert(frame@ =~= frame@.subrange(0, 8));
        self.collecting = false;
        self.count = 0;
        self.prev = SDS011_COMMAND_ID;
        if checksum_valid(&frame) {
            Some(decode_payload(&frame))
        } else {
            None
        }
    }

    /// The payload stopped arriving: drop the candidate frame and hunt again.
    pub fn abandon_frame(&mut self)
        ensures
            final(self)@ == (ScannerState {
                prev: if old(self)@.payload is Some { SDS011_COMMAND_ID } else { old(self)@.prev },
                payload: None,
            }),
    {
        proof {
            use_type_invariant(&*self);
        }
        if self.collecting {
            self.prev = SDS011_COMMAND_ID;
        }
        self.collecting = false;
        self.count = 0;
    }
}

/// What the driver state holds.
pub struct Sds011State {
    pub initialized: bool,
    pub is_running: bool,
    pub error_count: u32,
    pub last_error_time: Option<u64>,
}

/// Milliseconds from `since` to `now`; zero if the clock reads earlier.
pub open spec fn elapsed(since: u64, now: u64) -> int {
    if now >= since { now - since } else { 0 }
}

/// The state after a failure at `now`.
pub open spec fn after_failure(s: Sds011State, now: u64) -> Sds011State {
    Sds011State {
        error_count: if s.error_count < u32::MAX { (s.error_count + 1) as u32 } else { u32::MAX },
        last_error_time: Some(now),
        ..s
    }
}

/// SDS011 driver state.
pub struct Sds011Sensor {
    initialized: bool,
    is_running: bool,
    error_count: u32,
    last_error_time: Option<u64>,
}

impl View for Sds011Sensor {
    type V = Sds011State;

    closed spec fn view(&self) -> Sds011State {
        Sds011State {
            initialized: self.initialized,
            is_running: self.is_running,
            error_count: self.error_count,
            last_error_time: self.last_error_time,
        }
    }
}

impl Sds011Sensor {
    /// A driver that has not configured its device yet.
    pub fn new() -> (r: Sds011Sensor)
        ensures
            r@ == (Sds011State { initialized: false, is_running: false, error_count: 0, last_error_time: None }),
    {
        Sds011Sensor { initialized: false, is_running: false, error_count: 0, last_error_time: None }
    }

    /// Consecutive failures counted so far.
    pub fn error_count(&self) -> (r: u32)
        ensures
            r == self@.error_count,
    {
        self.error_count
    }

    /// Whether the fan and laser are on.
    pub fn is_running(&self) -> (r: bool)
        ensures
            r == self@.is_running,
    {
        self.is_running
    }

    /// The mode commands and the stop command were sent: the driver is ready
    /// and the device is stopped.
    pub fn complete_init(&mut self)
        ensures
            final(self)@ == (Sds011State { initialized: true, is_running: false, ..old(self)@ }),
    {
        self.is_running = false;
        self.initialized = true;
    }

    /// Records a failed read at `now`.
    fn record_failure(&mut self, now: u64)
        ensures
            final(self)@ == after_failure(old(self)@, now),
    {
        self.error_count = self.error_count.saturating_add(1);
        self.last_error_time = Some(now);
    }

    /// First step of a read, at time `now`: `NotInitialized` before
    /// initialisation; `Timeout` while at least five consecutive errors are
    /// counted and the last one is under a minute old; once that minute has
    /// passed the count is cleared and the read goes on.
    pub fn begin_read(&mut self, now: u64) -> (r: Result<(), SensorError>)
        ensures
            !old(self)@.initialized ==> r == Err::<(), SensorError>(SensorError::NotInitialized) && final(self)@ == old(self)@,
            old(self)@.initialized ==> match old(self)@.last_error_time {
                Some(t) => if old(self)@.error_count >= SDS011_ERROR_LIMIT {
                    if elapsed(t, now) < SDS011_COOLDOWN_MS {
                        r == Err::<(), SensorError>(SensorError::Timeout) && final(self)@ == old(self)@
                    } else {
                        r == Ok::<(), SensorError>(()) && final(self)@ == (Sds011State { error_count: 0, last_error_time: None, ..old(self)@ })
                    }
                } else {
                    r == Ok::<(), SensorError>(()) && final(self)@ == old(self)@
                },
                None => r == Ok::<(), SensorError>(()) && final(self)@ == old(self)@,
            },
    {
        if !self.initialized {
            return Err(SensorError::NotInitialized);
        }
        if self.error_count >= SDS011_ERROR_LIMIT {
            if let Some(last) = self.last_error_time {
                let since = if now >= last { now - last } else { 0 };
                if since < SDS011_COOLDOWN_MS {
                    return Err(SensorError::Timeout);
                }
                self.error_count = 0;
                self.last_error_time = None;
            }
        }
        Ok(())
    }

    /// Takes the outcome of sending the start command at `now`: on success the
    /// device is running (and needs its settle time); a failure counts as an
    /// error and is returned.
    pub fn start_result(&mut self, sent: Result<(), SensorError>, now: u64) -> (r: Result<(), SensorError>)
        ensures
            r == sent,
            sent is Ok ==> final(self)@ == (Sds011State { is_running: true, ..old(self)@ }),
            sent is Err ==> final(self)@ == after_failure(old(self)@, now),
    {
        if sent.is_ok() {
            self.is_running = true;
        } else {
            self.record_failure(now);
        }
        sent
    }

    /// Takes the outcome of acquiring a measurement at `now`: values below
    /// 1000 µg/m³ give a reading stamped `timestamp` and clear the error count;
    /// out-of-range values give `InvalidData`; an acquisition error is
    /// returned. Every failure is counted and its time recorded.
    pub fn measurement_result(&mut self, measured: Result<(u16, u16), SensorError>, now: u64, timestamp: u64) -> (r: Result<SensorReading, SensorError>)
        ensures
            match measured {
                Ok((pm25, pm10)) => if pm25 < SDS011_LIMIT_DECI_UG && pm10 < SDS011_LIMIT_DECI_UG {
                    &&& r == Ok::<SensorReading, SensorError>(SensorReading {
                        sensor_type: SensorType::SDS011,
                        data: SensorData::AirQuality { pm25: Some(pm25), pm10: Some(pm10) },
                        timestamp,
                        quality: Quality::Good,
                    })
                    &&& final(self)@ == (Sds011State { error_count: 0, ..old(self)@ })
                } else {
                    &&& r == Err::<SensorReading, SensorError>(SensorError::InvalidData)
                    &&& final(self)@ == after_failure(old(self)@, now)
                },
                Err(e) => r == Err::<SensorReading, SensorError>(e) && final(self)@ == after_failure(old(self)@, now),
            },
    {
        match measured {
            Ok((pm25, pm10)) => {
                if pm25 < SDS011_LIMIT_DECI_UG && pm10 < SDS011_LIMIT_DECI_UG {
                    self.error_count = 0;
                    let data = SensorData::AirQuality { pm25: Some(pm25), pm10: Some(pm10) };
                    Ok(SensorReading::new_at(SensorType::SDS011, data, Quality::Good, timestamp))
                } else {
                    self.record_failure(now);
                    Err(SensorError::InvalidData)
                }
            },
            Err(e) => {
                self.record_failure(now);
                Err(e)
            },
        }
    }
}

impl Sensor for Sds011Sensor {
    fn info(&self) -> SensorInfo {
        SensorInfo { name: "SDS011", sensor_type: SensorType::SDS011, version: "1.0.0", manufacturer: "Nova Fitness" }
    }

    fn warm_up_time(&self) -> u64 {
        SDS011_WARM_UP_MS
    }

    fn reading_interval(&self) -> u64 {
        SDS011_INTERVAL_MS
    }
}

} // verus!
