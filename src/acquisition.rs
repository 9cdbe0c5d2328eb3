//! The decisions of the acquisition loop every driver runs under: retry the
//! initialisation every five seconds, warm up once, then read, publish and
//! sleep, backing off for a minute after more than three failures in a row.
//!
//! The caller performs each action (sleeping, calling the driver) and hands
//! the outcome back; the loop state says what comes next.
use vstd::prelude::*;
use crate::channel::{after_send, ReadingChannel, CHANNEL_CAPACITY};
use crate::sensor::{SensorData, SensorError, SensorReading};

verus! {

/// Delay between initialisation attempts, in milliseconds.
pub const INIT_RETRY_DELAY_MS: u64 = 5000;
/// Consecutive failures tolerated before backing off.
pub const LOOP_ERROR_THRESHOLD: u32 = 3;
/// Backoff after too many consecutive failures, in milliseconds.
pub const LOOP_BACKOFF_MS: u64 = 60_000;

/// Where a driver is in its lifecycle.
#[derive(Debug, Clone, Copy, PartialEq, Eq, Structural)]
pub enum Phase {
    Initializing,
    WarmingUp,
    Sampling,
    Backoff,
}

/// What the caller does next, with the delay before the next step.
#[derive(Debug, Clone, Copy, PartialEq, Eq, Structural)]
pub enum LoopAction {
    /// Initialisation failed: try again after the delay.
    RetryInit { delay_ms: u64 },
    /// Initialisation succeeded: wait for the warm-up, then start sampling.
    WarmUp { delay_ms: u64 },
    /// The reading was queued: sleep, then read again.
    Published { delay_ms: u64 },
    /// The channel was full and the reading was dropped: sleep, then read again.
    Dropped { delay_ms: u64 },
    /// The read failed: sleep the usual interval, then read again.
    Failed { delay_ms: u64, consecutive_errors: u32 },
    /// Too many failures in a row: back off, then read again.
    BackOff { delay_ms: u64, consecutive_errors: u32 },
}

/// The state of one driver's acquisition loop.
#[derive(Debug, Clone, Copy, PartialEq, Eq, Structural)]
pub struct AcquisitionLoop {
    pub phase: Phase,
    pub consecutive_errors: u32,
    /// Warm-up after the first successful initialisation, in milliseconds.
    pub warm_up_ms: u64,
    /// Sleep between reads, in milliseconds.
    pub interval_ms: u64,
}

/// The failure count after one more failure, saturating.
pub open spec fn bumped(n: u32) -> u32 {
    if n < u32::MAX { (n + 1) as u32 } else { n }
}

impl AcquisitionLoop {
    /// A loop about to initialise its driver.
    pub fn new(warm_up_ms: u64, interval_ms: u64) -> (r: AcquisitionLoop)
        ensures
            r == (AcquisitionLoop { phase: Phase::Initializing, consecutive_errors: 0, warm_up_ms, interval_ms }),
    {
        AcquisitionLoop { phase: Phase::Initializing, consecutive_errors: 0, warm_up_ms, interval_ms }
    }

    /// Takes the outcome of an initialisation attempt.
    pub fn on_init(&mut self, result: Result<(), SensorError>) -> (r: LoopAction)
        ensures
            result is Ok ==> r == (LoopAction::WarmUp { delay_ms: old(self).warm_up_ms })
                && *final(self) == (AcquisitionLoop { phase: Phase::WarmingUp, ..*old(self) }),
            result is Err ==> r == (LoopAction::RetryInit { delay_ms: INIT_RETRY_DELAY_MS })
                && *final(self) == (AcquisitionLoop { phase: Phase::Initializing, ..*old(self) }),
    {
        if result.is_ok() {
            self.phase = Phase::WarmingUp;
            LoopAction::WarmUp { delay_ms: self.warm_up_ms }
        } else {
            self.phase = Phase::Initializing;
            LoopAction::RetryInit { delay_ms: INIT_RETRY_DELAY_MS }
        }
    }

    /// The warm-up has elapsed: sampling starts.
    pub fn warm_up_done(&mut self)
        ensures
            *final(self) == (AcquisitionLoop { phase: Phase::Sampling, ..*old(self) }),
    {
        self.phase = Phase::Sampling;
    }

    /// Takes the outcome of a read. A reading clears the failure count and is
    /// sent to the channel without waiting (dropped when the channel is full);
    /// a failure is counted, and past three in a row the loop backs off for a
    /// minute instead of sleeping the usual interval.
    pub fn on_read(&mut self, result: Result<SensorReading, SensorError>, channel: &mut ReadingChannel) -> (r: LoopAction)
        ensures
            match result {
                Ok(reading) => {
                    &&& *final(self) == (AcquisitionLoop { phase: Phase::Sampling, consecutive_errors: 0, ..*old(self) })
                    &&& final(channel)@ == after_send(old(channel)@, reading)
                    &&& r == if old(channel)@.len() < CHANNEL_CAPACITY {
                        (LoopAction::Published { delay_ms: old(self).interval_ms })
                    } else {
                        (LoopAction::Dropped { delay_ms: old(self).interval_ms })
                    }
                },
                Err(_) => {
                    let n = bumped(old(self).consecutive_errors);
                    &&& final(channel)@ == old(channel)@
                    &&& if n > LOOP_ERROR_THRESHOLD {
                        &&& *final(self) == (AcquisitionLoop { phase: Phase::Backoff, consecutive_errors: n, ..*old(self) })
                        &&& r == (LoopAction::BackOff { delay_ms: LOOP_BACKOFF_MS, consecutive_errors: n })
                    } else {
                        &&& *final(self) == (AcquisitionLoop { phase: Phase::Sampling, consecutive_errors: n, ..*old(self) })
                        &&& r == (LoopAction::Failed { delay_ms: old(self).interval_ms, consecutive_errors: n })
                    }
                },
            },
    {
        match result {
            Ok(reading) => {
                self.consecutive_errors = 0;
                self.phase = Phase::Sampling;
                if channel.try_send(reading) {
                    LoopAction::Published { delay_ms: self.interval_ms }
                } else {
                    LoopAction::Dropped { delay_ms: self.interval_ms }
                }
            },
            Err(_) => {
                self.consecutive_errors = self.consecutive_errors.saturating_add(1);
                if self.consecutive_errors > LOOP_ERROR_THRESHOLD {
                    self.phase = Phase::Backoff;
                    LoopAction::BackOff { delay_ms: LOOP_BACKOFF_MS, consecutive_errors: self.consecutive_errors }
                } else {
                    self.phase = Phase::Sampling;
                    LoopAction::Failed { delay_ms: self.interval_ms, consecutive_errors: self.consecutive_errors }
                }
            },
        }
    }
}

/// Whether the aggregator reports a reading: an environmental record with all
/// three values, an air-quality record with both values, a gas record with a
/// CO value; every other kind always.
pub open spec fn reportable(d: SensorData) -> bool {
    match d {
        SensorData::Environmental { temperature, humidity, pressure, .. } =>
            temperature is Some && humidity is Some && pressure is Some,
        SensorData::AirQuality { pm25, pm10 } => pm25 is Some && pm10 is Some,
        SensorData::Gas { co_ppm, .. } => co_ppm is Some,
        _ => true,
    }
}

/// The aggregator's per-variant check of a received reading.
pub fn is_reportable(d: &SensorData) -> (r: bool)
    ensures
        r == reportable(*d),
{
    match d {
        SensorData::Environmental { temperature, humidity, pressure, .. } =>
            temperature.is_some() && humidity.is_some() && pressure.is_some(),
        SensorData::AirQuality { pm25, pm10 } => pm25.is_some() && pm10.is_some(),
        SensorData::Gas { co_ppm, .. } => co_ppm.is_some(),
        _ => true,
    }
}

} // verus!
