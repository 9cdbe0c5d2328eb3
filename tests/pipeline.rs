use altruist::manager::REGISTRY_CAPACITY;
use altruist::{
    is_reportable, AcquisitionLoop, LoopAction, Phase, Quality, ReadingChannel, Sds011Sensor, SensorData, SensorError,
    SensorManager, SensorReading, SensorType,
};

fn reading(ts: u64) -> SensorReading {
    SensorReading::new_at(SensorType::SDS011, SensorData::AirQuality { pm25: Some(1), pm10: Some(2) }, Quality::Good, ts)
}

#[test]
fn channel_backpressure_keeps_first_32() {
    let mut c = ReadingChannel::new();
    for ts in 0..32u64 {
        assert!(c.try_send(reading(ts)));
    }
    assert!(!c.try_send(reading(32)));
    assert_eq!(c.len(), 32);
    assert_eq!(c.capacity(), 32);
    for ts in 0..32u64 {
        assert_eq!(c.try_receive().unwrap().timestamp, ts);
    }
    assert!(c.try_receive().is_none());
}

#[test]
fn channel_accepts_after_drain() {
    let mut c = ReadingChannel::new();
    for ts in 0..32u64 {
        c.try_send(reading(ts));
    }
    assert_eq!(c.try_receive().unwrap().timestamp, 0);
    assert!(c.try_send(reading(99)));
    assert_eq!(c.len(), 32);
}

#[test]
fn registry_duplicate_is_config_error() {
    let mut m = SensorManager::new();
    assert_eq!(m.register_sensor(SensorType::BME280), Ok(()));
    assert_eq!(m.register_sensor(SensorType::BME280), Err(SensorError::ConfigError));
    assert_eq!(m.get_registered_sensors().len(), 1);
}

#[test]
fn registry_update_unregistered_is_noop() {
    let mut m = SensorManager::new();
    m.register_sensor(SensorType::SDS011).unwrap();
    m.update_sensor_stats(SensorType::ME2CO, 500, true);
    m.mark_task_spawned(SensorType::ME2CO);
    assert!(!m.is_sensor_registered(SensorType::ME2CO));
    assert!(m.get_sensor_stats(SensorType::ME2CO).is_none());
    let e = m.get_sensor_stats(SensorType::SDS011).unwrap();
    assert_eq!((e.task_spawned, e.last_reading_time, e.error_count), (false, 0, 0));
}

#[test]
fn registry_stats_and_spawn() {
    let mut m = SensorManager::new();
    m.register_sensor(SensorType::ME2CO).unwrap();
    m.register_sensor(SensorType::SDS011).unwrap();
    m.mark_task_spawned(SensorType::SDS011);
    m.update_sensor_stats(SensorType::SDS011, 100, true);
    m.update_sensor_stats(SensorType::SDS011, 200, true);
    m.update_sensor_stats(SensorType::SDS011, 300, false);
    let e = m.get_sensor_stats(SensorType::SDS011).unwrap();
    assert!(e.task_spawned);
    assert_eq!(e.last_reading_time, 300);
    assert_eq!(e.error_count, 2);
    let other = m.get_sensor_stats(SensorType::ME2CO).unwrap();
    assert!(!other.task_spawned);
    assert_eq!(m.get_registered_sensors()[0].sensor_type, SensorType::ME2CO);
}

#[test]
fn registry_capacity_is_config_error() {
    let all = [
        SensorType::BME280, SensorType::BME680, SensorType::SHT30, SensorType::SDS011,
        SensorType::PMS7003, SensorType::ME2CO, SensorType::SCD4X, SensorType::SGP30,
        SensorType::RadSens, SensorType::ICS43434, SensorType::GPS, SensorType::AnalogSensor,
    ];
    let mut m = SensorManager::new();
    for t in all {
        assert_eq!(m.register_sensor(t), Ok(()));
    }
    assert_eq!(m.get_registered_sensors().len(), 12);
    assert!(all.len() <= REGISTRY_CAPACITY);
}

#[test]
fn loop_init_retry_and_warm_up() {
    let mut l = AcquisitionLoop::new(15_000, 30_000);
    assert_eq!(l.on_init(Err(SensorError::HardwareFailure)), LoopAction::RetryInit { delay_ms: 5000 });
    assert_eq!(l.phase, Phase::Initializing);
    assert_eq!(l.on_init(Ok(())), LoopAction::WarmUp { delay_ms: 15_000 });
    assert_eq!(l.phase, Phase::WarmingUp);
    l.warm_up_done();
    assert_eq!(l.phase, Phase::Sampling);
}

#[test]
fn loop_backs_off_after_four_failures() {
    let mut c = ReadingChannel::new();
    let mut l = AcquisitionLoop::new(0, 30_000);
    for n in 1..=3u32 {
        assert_eq!(
            l.on_read(Err(SensorError::Timeout), &mut c),
            LoopAction::Failed { delay_ms: 30_000, consecutive_errors: n }
        );
    }
    assert_eq!(
        l.on_read(Err(SensorError::InvalidData), &mut c),
        LoopAction::BackOff { delay_ms: 60_000, consecutive_errors: 4 }
    );
    assert_eq!(l.phase, Phase::Backoff);
    assert_eq!(l.on_read(Ok(reading(1)), &mut c), LoopAction::Published { delay_ms: 30_000 });
    assert_eq!(l.consecutive_errors, 0);
    assert_eq!(c.len(), 1);
}

#[test]
fn loop_drops_when_channel_full() {
    let mut c = ReadingChannel::new();
    let mut l = AcquisitionLoop::new(0, 1000);
    for ts in 0..32u64 {
        assert_eq!(l.on_read(Ok(reading(ts)), &mut c), LoopAction::Published { delay_ms: 1000 });
    }
    assert_eq!(l.on_read(Ok(reading(32)), &mut c), LoopAction::Dropped { delay_ms: 1000 });
    assert_eq!(c.len(), 32);
}

#[test]
fn sds011_timeout_counts_in_loop() {
    let mut sds = Sds011Sensor::new();
    sds.complete_init();
    let mut c = ReadingChannel::new();
    let mut l = AcquisitionLoop::new(15_000, 30_000);
    l.warm_up_done();
    assert_eq!(sds.begin_read(1000), Ok(()));
    assert_eq!(sds.start_result(Ok(()), 1000), Ok(()));
    let r = sds.measurement_result(Err(SensorError::Timeout), 6000, 6000);
    assert_eq!(r.clone().unwrap_err(), SensorError::Timeout);
    let action = l.on_read(r, &mut c);
    assert_eq!(action, LoopAction::Failed { delay_ms: 30_000, consecutive_errors: 1 });
    assert_eq!(l.consecutive_errors, 1);
    assert_eq!(sds.error_count(), 1);
    assert_eq!(c.len(), 0);
}

#[test]
fn aggregator_reportable() {
    assert!(is_reportable(&SensorData::AirQuality { pm25: Some(1), pm10: Some(2) }));
    assert!(!is_reportable(&SensorData::AirQuality { pm25: Some(1), pm10: None }));
    assert!(!is_reportable(&SensorData::Environmental {
        temperature: None,
        humidity: Some(1),
        pressure: Some(1),
        gas_resistance: None
    }));
    assert!(is_reportable(&SensorData::Gas { co_ppm: Some(5), co2_ppm: None, voc_index: None }));
    assert!(!is_reportable(&SensorData::Gas { co_ppm: None, co2_ppm: Some(400), voc_index: None }));
    assert!(is_reportable(&SensorData::Radiation { dose_rate: 100, total_dose: None }));
}
