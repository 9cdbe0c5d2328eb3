//! The data model shared by every driver: sensor identities, the normalised
//! reading record, its quality grade, static metadata and the error set.
//!
//! Physical quantities are held as integers in fixed-point units, named on each
//! field, so that every value the drivers compute is exact.
use vstd::prelude::*;

verus! {

/// Every kind of sensor the framework knows; the identity key of the registry.
#[derive(Debug, Clone, Copy, PartialEq, Eq, Structural)]
pub enum SensorType {
    BME280,
    BME680,
    SHT30,
    SDS011,
    PMS7003,
    ME2CO,
    SCD4X,
    SGP30,
    RadSens,
    ICS43434,
    GPS,
    AnalogSensor,
}

/// Coarse reliability label attached to each reading.
#[derive(Debug, Clone, Copy, PartialEq, Eq, Structural)]
pub enum Quality {
    /// Sensor operating normally, data is reliable.
    Good,
    /// Usable, but out of the nominal comfort range.
    Degraded,
    /// Unreliable: downstream treats it like missing data.
    Bad,
}

/// One variant per class of physical quantity. A field that is `None` was
/// invalid or unavailable although the read as a whole succeeded.
#[derive(Debug, Clone, Copy)]
pub enum SensorData {
    /// Temperature in 0.01 °C, relative humidity in 1/1024 %RH, pressure in
    /// 1/256 Pa, gas resistance in ohms.
    Environmental {
        temperature: Option<i32>,
        humidity: Option<u32>,
        pressure: Option<u32>,
        gas_resistance: Option<u32>,
    },
    /// Particulate matter in 0.1 µg/m³.
    AirQuality { pm25: Option<u16>, pm10: Option<u16> },
    /// Carbon monoxide in 0.1 ppm, carbon dioxide in ppm, VOC index.
    Gas { co_ppm: Option<u16>, co2_ppm: Option<u16>, voc_index: Option<u16> },
    /// Dose rate and total dose in nSv/h and nSv.
    Radiation { dose_rate: u32, total_dose: Option<u32> },
    /// Sound levels in 0.1 dB, with optional frequency bands in 0.1 dB.
    Noise { db_a: u16, db_c: Option<u16>, frequency_data: Option<[u16; 8]> },
    /// Latitude and longitude in 1e-7 degrees, altitude in centimetres.
    Location { latitude: i32, longitude: i32, altitude: Option<i32>, satellites: Option<u8> },
    /// Voltage in millivolts, with the raw ADC value and a converted value.
    Analog { voltage: i32, raw_value: u16, converted_value: Option<i32>, units: &'static str },
}

/// The normalised record that flows from the drivers to the aggregator.
#[derive(Debug, Clone, Copy)]
pub struct SensorReading {
    pub sensor_type: SensorType,
    pub data: SensorData,
    /// Milliseconds since boot.
    pub timestamp: u64,
    pub quality: Quality,
}

/// Static metadata of a driver.
#[derive(Debug, Clone, Copy)]
pub struct SensorInfo {
    pub name: &'static str,
    pub sensor_type: SensorType,
    pub version: &'static str,
    pub manufacturer: &'static str,
}

/// The closed set of failures a driver reports.
#[derive(Debug, Clone, Copy, PartialEq, Eq, Structural)]
pub enum SensorError {
    /// Read called before initialisation completed.
    NotInitialized,
    /// Bus-level failure.
    CommunicationError,
    /// Checksum failure, bad header, or a value out of range.
    InvalidData,
    /// The operation did not complete in its time budget.
    Timeout,
    /// The sensor needs calibration before use.
    CalibrationRequired,
    /// The device could not be found or identified.
    HardwareFailure,
    /// The sensor is warming up.
    WarmingUp,
    /// Duplicate registration or exhausted capacity.
    ConfigError,
}

/// The metadata and timing hints every driver exposes. Times are milliseconds.
pub trait Sensor {
    /// Static information about this sensor.
    fn info(&self) -> SensorInfo;

    /// How long the sensor needs to settle after its first initialisation.
    fn warm_up_time(&self) -> u64 {
        0
    }

    /// Recommended interval between readings.
    fn reading_interval(&self) -> u64 {
        30_000
    }

    /// Whether the sensor needs calibration.
    fn needs_calibration(&self) -> bool {
        false
    }
}

impl SensorReading {
    /// A reading stamped with time zero: no clock is consulted.
    pub fn new(sensor_type: SensorType, data: SensorData, quality: Quality) -> (r: SensorReading)
        ensures
            r.sensor_type == sensor_type,
            r.data == data,
            r.quality == quality,
            r.timestamp == 0,
    {
        SensorReading::new_at(sensor_type, data, quality, 0)
    }

    /// A reading stamped with the caller's clock.
    pub fn new_at(sensor_type: SensorType, data: SensorData, quality: Quality, timestamp: u64) -> (r: SensorReading)
        ensures
            r.sensor_type == sensor_type,
            r.data == data,
            r.quality == quality,
            r.timestamp == timestamp,
    {
        SensorReading { sensor_type, data, timestamp, quality }
    }

    /// Whether downstream may treat the numeric fields as ground truth.
    pub fn is_valid(&self) -> (r: bool)
        ensures
            r == (self.quality != Quality::Bad),
    {
        match self.quality {
            Quality::Bad => false,
            _ => true,
        }
    }
}

/// The display name of each sensor type.
pub open spec fn display_name(t: SensorType) -> Seq<char> {
    match t {
        SensorType::BME280 => "BME280"@,
        SensorType::BME680 => "BME680"@,
        SensorType::SHT30 => "SHT30"@,
        SensorType::SDS011 => "SDS011"@,
        SensorType::PMS7003 => "PMS7003"@,
        SensorType::ME2CO => "ME2-CO"@,
        SensorType::SCD4X => "SCD4x"@,
        SensorType::SGP30 => "SGP30"@,
        SensorType::RadSens => "RadSens"@,
        SensorType::ICS43434 => "ICS43434"@,
        SensorType::GPS => "GPS"@,
        SensorType::AnalogSensor => "Analog"@,
    }
}

/// The name of the `SensorData` variant each sensor type produces.
pub open spec fn data_kind(t: SensorType) -> Seq<char> {
    match t {
        SensorType::BME280 | SensorType::BME680 | SensorType::SHT30 => "Environmental"@,
        SensorType::SDS011 | SensorType::PMS7003 => "AirQuality"@,
        SensorType::ME2CO | SensorType::SCD4X | SensorType::SGP30 => "Gas"@,
        SensorType::RadSens => "Radiation"@,
        SensorType::ICS43434 => "Noise"@,
        SensorType::GPS => "Location"@,
        SensorType::AnalogSensor => "Analog"@,
    }
}

impl SensorType {
    /// Human-readable name of this sensor type.
    pub fn name(&self) -> (r: &'static str)
        ensures
            r@ == display_name(*self),
    {
        match self {
            SensorType::BME280 => "BME280",
            SensorType::BME680 => "BME680",
            SensorType::SHT30 => "SHT30",
            SensorType::SDS011 => "SDS011",
            SensorType::PMS7003 => "PMS7003",
            SensorType::ME2CO => "ME2-CO",
            SensorType::SCD4X => "SCD4x",
            SensorType::SGP30 => "SGP30",
            SensorType::RadSens => "RadSens",
            SensorType::ICS43434 => "ICS43434",
            SensorType::GPS => "GPS",
            SensorType::AnalogSensor => "Analog",
        }
    }

    /// Name of the data variant this sensor type produces.
    pub fn expected_data_type(&self) -> (r: &'static str)
        ensures
            r@ == data_kind(*self),
    {
        match self {
            SensorType::BME280 | SensorType::BME680 | SensorType::SHT30 => "Environmental",
            SensorType::SDS011 | SensorType::PMS7003 => "AirQuality",
            SensorType::ME2CO | SensorType::SCD4X | SensorType::SGP30 => "Gas",
            SensorType::RadSens => "Radiation",
            SensorType::ICS43434 => "Noise",
            SensorType::GPS => "Location",
            SensorType::AnalogSensor => "Analog",
        }
    }
}

impl SensorError {
    /// The human-readable description of this error.
    pub fn message(&self) -> (r: &'static str)
        ensures
            r@ == error_text(*self),
    {
        match self {
            SensorError::NotInitialized => "Sensor not initialized",
            SensorError::CommunicationError => "Communication error",
            SensorError::InvalidData => "Invalid data received",
            SensorError::Timeout => "Operation timed out",
            SensorError::CalibrationRequired => "Calibration required",
            SensorError::HardwareFailure => "Hardware failure",
            SensorError::WarmingUp => "Sensor warming up",
            SensorError::ConfigError => "Configuration error",
        }
    }
}

/// The description of each error.
pub open spec fn error_text(e: SensorError) -> Seq<char> {
    match e {
        SensorError::NotInitialized => "Sensor not initialized"@,
        SensorError::CommunicationError => "Communication error"@,
        SensorError::InvalidData => "Invalid data received"@,
        SensorError::Timeout => "Operation timed out"@,
        SensorError::CalibrationRequired => "Calibration required"@,
        SensorError::HardwareFailure => "Hardware failure"@,
        SensorError::WarmingUp => "Sensor warming up"@,
        SensorError::ConfigError => "Configuration error"@,
    }
}

} // verus!
