//! Sensor abstraction framework for a multi-sensor environmental monitoring node:
//! the common reading record, the wire-protocol decoders of the BME280, ME2-CO and
//! SDS011 drivers, the bounded reading channel, the sensor registry, and the
//! decisions of the per-sensor acquisition loop.
pub mod acquisition;
pub mod bme280;
pub mod channel;
pub mod manager;
pub mod me2co;
pub mod sds011;
pub mod sensor;

pub use acquisition::{is_reportable, AcquisitionLoop, LoopAction, Phase};
pub use bme280::{Bme280Sensor, Calibration, RawSample};
pub use channel::ReadingChannel;
pub use manager::{SensorManager, SensorRegistry};
pub use me2co::Me2CoSensorWrapper;
pub use sds011::{FrameScanner, Sds011Sensor};
pub use sensor::{Quality, Sensor, SensorData, SensorError, SensorInfo, SensorReading, SensorType};
