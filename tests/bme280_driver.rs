use altruist::bme280::{environmental_record, parse_measurement, BME280_ADDRESS_PRIMARY, BME280_ADDRESS_SECONDARY, BME280_CHIP_ID};
use altruist::{Bme280Sensor, Calibration, Quality, Sensor, SensorData, SensorError, SensorType};

const TP_BLOCK: [u8; 24] = [
    0x70, 0x6b, 0x43, 0x67, 0x18, 0xfc, 0x7d, 0x8e, 0x43, 0xd6, 0xd0, 0x0b,
    0x27, 0x0b, 0x8c, 0x00, 0xf9, 0xff, 0x8c, 0x3c, 0xf8, 0xc6, 0x70, 0x17,
];
const H1: u8 = 75;
// H2 = 362, H3 = 0, H4 = 313, H5 = 50, H6 = 30
const H_BLOCK: [u8; 7] = [0x6a, 0x01, 0x00, 0x13, 0x29, 0x03, 0x1e];
// adc_P = 415148, adc_T = 519888, adc_H = 30000
const SAMPLE_BLOCK: [u8; 8] = [0x65, 0x5a, 0xc0, 0x7e, 0xed, 0x00, 0x75, 0x30];

fn ready_sensor() -> Bme280Sensor {
    let mut s = Bme280Sensor::new();
    s.complete_init(&TP_BLOCK, H1, &H_BLOCK);
    s
}

#[test]
fn calibration_unpacks_datasheet_constants() {
    let c = Calibration::from_registers(&TP_BLOCK, H1, &H_BLOCK);
    assert_eq!(c.dig_t1, 27504);
    assert_eq!(c.dig_t2, 26435);
    assert_eq!(c.dig_t3, -1000);
    assert_eq!(c.dig_p1, 36477);
    assert_eq!(c.dig_p2, -10685);
    assert_eq!(c.dig_p6, -7);
    assert_eq!(c.dig_p8, -14600);
    assert_eq!(c.dig_p9, 6000);
    assert_eq!(c.dig_h1, 75);
    assert_eq!(c.dig_h2, 362);
    assert_eq!(c.dig_h4, 313);
    assert_eq!(c.dig_h5, 50);
    assert_eq!(c.dig_h6, 30);
}

#[test]
fn calibration_humidity_nibbles_are_signed() {
    let c = Calibration::from_registers(&TP_BLOCK, 0, &[0, 0, 0, 0xF0, 0x5A, 0xFF, 0x80]);
    assert_eq!(c.dig_h4, -256 + 0xA);
    assert_eq!(c.dig_h5, -16 + 5);
    assert_eq!(c.dig_h6, -128);
}

#[test]
fn measurement_block_unpacks() {
    let raw = parse_measurement(&SAMPLE_BLOCK);
    assert_eq!(raw.adc_p, 415148);
    assert_eq!(raw.adc_t, 519888);
    assert_eq!(raw.adc_h, 30000);
}

#[test]
fn datasheet_reference_compensation() {
    let c = Calibration::from_registers(&TP_BLOCK, H1, &H_BLOCK);
    let (t, t_fine) = c.compensate_temperature(519888);
    assert_eq!(t_fine, 128422);
    assert_eq!(t, 2508);
    let p = c.compensate_pressure(t_fine, 415148).unwrap();
    assert_eq!(p, 25767233);
    let pa = p as f64 / 256.0;
    assert!((pa - 100653.27).abs() < 0.1);
    assert_eq!(c.compensate_humidity(t_fine, 30000), 56317);
}

#[test]
fn datasheet_reference_reading() {
    let mut s = ready_sensor();
    let reading = s.read(&SAMPLE_BLOCK, 77).unwrap();
    assert_eq!(reading.sensor_type, SensorType::BME280);
    assert_eq!(reading.quality, Quality::Good);
    assert_eq!(reading.timestamp, 77);
    match reading.data {
        SensorData::Environmental { temperature, humidity, pressure, gas_resistance } => {
            assert_eq!(temperature, Some(2508));
            assert_eq!(humidity, Some(56317));
            assert_eq!(pressure, Some(25767233));
            assert_eq!(gas_resistance, None);
        }
        _ => panic!("wrong variant"),
    }
}

#[test]
fn out_of_range_temperature_is_dropped() {
    let (data, quality) = environmental_record(9500, 56317, Some(25767233));
    assert_eq!(quality, Quality::Bad);
    match data {
        SensorData::Environmental { temperature, humidity, pressure, .. } => {
            assert_eq!(temperature, None);
            assert_eq!(humidity, Some(56317));
            assert_eq!(pressure, Some(25767233));
        }
        _ => panic!("wrong variant"),
    }
}

#[test]
fn range_edges() {
    let (_, q) = environmental_record(-4000, 0, Some(7680000));
    assert_eq!(q, Quality::Good);
    let (_, q) = environmental_record(8500, 102400, Some(28160000));
    assert_eq!(q, Quality::Good);
    let (data, q) = environmental_record(8501, 102401, Some(28160001));
    assert_eq!(q, Quality::Bad);
    match data {
        SensorData::Environmental { temperature, humidity, pressure, .. } => {
            assert_eq!((temperature, humidity, pressure), (None, None, None));
        }
        _ => panic!("wrong variant"),
    }
    let (_, q) = environmental_record(2000, 50000, None);
    assert_eq!(q, Quality::Bad);
}

#[test]
fn pressure_zero_denominator_gives_zero() {
    let mut tp = TP_BLOCK;
    tp[6] = 0;
    tp[7] = 0;
    let c = Calibration::from_registers(&tp, H1, &H_BLOCK);
    assert_eq!(c.compensate_pressure(128422, 415148), Some(0));
}

#[test]
fn humidity_is_clamped() {
    let c = Calibration::from_registers(&TP_BLOCK, H1, &H_BLOCK);
    assert_eq!(c.compensate_humidity(128422, 0), 0);
    assert!(c.compensate_humidity(128422, 65535) <= 102400);
}

#[test]
fn read_before_init_fails() {
    let mut s = Bme280Sensor::new();
    assert_eq!(s.read(&SAMPLE_BLOCK, 0).unwrap_err(), SensorError::NotInitialized);
}

#[test]
fn probe_primary_address() {
    let mut s = Bme280Sensor::new();
    s.begin_probe();
    assert_eq!(s.address(), BME280_ADDRESS_PRIMARY);
    assert_eq!(s.probe_result(Ok(BME280_CHIP_ID)), Ok(true));
    assert_eq!(s.address(), BME280_ADDRESS_PRIMARY);
}

#[test]
fn probe_falls_back_to_secondary() {
    let mut s = Bme280Sensor::new();
    s.begin_probe();
    assert_eq!(s.probe_result(Err(SensorError::Timeout)), Ok(false));
    assert_eq!(s.address(), BME280_ADDRESS_SECONDARY);
    assert_eq!(s.probe_result(Ok(BME280_CHIP_ID)), Ok(true));
    assert_eq!(s.address(), BME280_ADDRESS_SECONDARY);
}

#[test]
fn probe_exhausted_is_hardware_failure() {
    let mut s = Bme280Sensor::new();
    s.begin_probe();
    assert_eq!(s.probe_result(Ok(0x58)), Ok(false));
    assert_eq!(s.probe_result(Err(SensorError::CommunicationError)), Err(SensorError::HardwareFailure));
}

#[test]
fn bme280_metadata() {
    let s = Bme280Sensor::new();
    assert_eq!(s.info().name, "BME280");
    assert_eq!(s.info().manufacturer, "Bosch");
    assert_eq!(s.warm_up_time(), 2000);
    assert_eq!(s.reading_interval(), 30_000);
    assert!(!s.needs_calibration());
    assert!(!s.is_initialized());
}

#[test]
fn hot_reading_drops_temperature_only() {
    // adc_P = 450000, adc_T = 744864 (95.00 °C), adc_H = 30000
    let block = [0x6d, 0xdd, 0x00, 0xb5, 0xda, 0x00, 0x75, 0x30];
    let mut s = ready_sensor();
    let reading = s.read(&block, 9).unwrap();
    assert_eq!(reading.quality, Quality::Bad);
    assert!(!reading.is_valid());
    match reading.data {
        SensorData::Environmental { temperature, humidity, pressure, .. } => {
            assert_eq!(temperature, None);
            assert_eq!(humidity, Some(57864));
            assert_eq!(pressure, Some(26829421));
        }
        _ => panic!("wrong variant"),
    }
    let c = s.calibration();
    assert_eq!(c.compensate_temperature(744864).0, 9500);
}
