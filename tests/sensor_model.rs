use altruist::{Quality, SensorData, SensorError, SensorReading, SensorType};

#[test]
fn test_sensor_reading_creation() {
    let reading = SensorReading::new(
        SensorType::BME280,
        SensorData::Environmental {
            temperature: Some(2500),
            humidity: Some(60 * 1024),
            pressure: Some(101325 * 256),
            gas_resistance: None,
        },
        Quality::Good,
    );

    assert_eq!(reading.sensor_type, SensorType::BME280);
    assert!(reading.is_valid());
}

#[test]
fn test_invalid_reading() {
    let reading = SensorReading::new(
        SensorType::SDS011,
        SensorData::AirQuality { pm25: None, pm10: None },
        Quality::Bad,
    );

    assert!(!reading.is_valid());
}

#[test]
fn degraded_reading_is_still_valid() {
    let reading = SensorReading::new_at(
        SensorType::ME2CO,
        SensorData::Gas { co_ppm: Some(12), co2_ppm: None, voc_index: None },
        Quality::Degraded,
        1234,
    );
    assert!(reading.is_valid());
    assert_eq!(reading.timestamp, 1234);
}

#[test]
fn new_reading_is_stamped_zero() {
    let reading = SensorReading::new(
        SensorType::GPS,
        SensorData::Location { latitude: 1, longitude: 2, altitude: None, satellites: Some(7) },
        Quality::Good,
    );
    assert_eq!(reading.timestamp, 0);
    assert_eq!(reading.quality, Quality::Good);
}

#[test]
fn sensor_type_names() {
    assert_eq!(SensorType::BME280.name(), "BME280");
    assert_eq!(SensorType::ME2CO.name(), "ME2-CO");
    assert_eq!(SensorType::SCD4X.name(), "SCD4x");
    assert_eq!(SensorType::AnalogSensor.name(), "Analog");
    assert_eq!(SensorType::ICS43434.name(), "ICS43434");
}

#[test]
fn sensor_type_expected_data() {
    assert_eq!(SensorType::SHT30.expected_data_type(), "Environmental");
    assert_eq!(SensorType::PMS7003.expected_data_type(), "AirQuality");
    assert_eq!(SensorType::SGP30.expected_data_type(), "Gas");
    assert_eq!(SensorType::RadSens.expected_data_type(), "Radiation");
    assert_eq!(SensorType::ICS43434.expected_data_type(), "Noise");
    assert_eq!(SensorType::GPS.expected_data_type(), "Location");
    assert_eq!(SensorType::AnalogSensor.expected_data_type(), "Analog");
}

#[test]
fn error_messages() {
    assert_eq!(SensorError::NotInitialized.message(), "Sensor not initialized");
    assert_eq!(SensorError::Timeout.message(), "Operation timed out");
    assert_eq!(SensorError::ConfigError.message(), "Configuration error");
    assert_eq!(SensorError::InvalidData.message(), "Invalid data received");
}
