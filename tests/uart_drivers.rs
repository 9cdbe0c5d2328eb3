use altruist::me2co::{frame_checksum_of, parse_response};
use altruist::sds011::{checksum_valid, decode_payload};
use altruist::{FrameScanner, Me2CoSensorWrapper, Quality, Sds011Sensor, Sensor, SensorData, SensorError, SensorType};

const CO_FRAME: [u8; 9] = [0xFF, 0x86, 0x00, 0x32, 0x00, 0x00, 0x00, 0x00, 0x48];
const PM_PAYLOAD: [u8; 8] = [0x7B, 0x00, 0xC8, 0x01, 0x12, 0x34, 0x8A, 0xAB];

#[test]
fn me2co_valid_frame() {
    assert_eq!(frame_checksum_of(&CO_FRAME), 0x48);
    assert_eq!(parse_response(&CO_FRAME), Ok(50));
}

#[test]
fn me2co_single_byte_flip_rejected() {
    for i in 1..8 {
        let mut f = CO_FRAME;
        f[i] ^= 0x01;
        assert_eq!(parse_response(&f), Err(SensorError::InvalidData), "position {}", i);
    }
}

#[test]
fn me2co_bad_header_rejected() {
    let mut f = CO_FRAME;
    f[0] = 0xFE;
    assert_eq!(parse_response(&f), Err(SensorError::InvalidData));
}

#[test]
fn me2co_range_limit() {
    // 1000.0 ppm is accepted, 1000.1 ppm is not
    let mut f = [0xFF, 0x86, 0x27, 0x10, 0, 0, 0, 0, 0];
    f[8] = frame_checksum_of(&f);
    assert_eq!(parse_response(&f), Ok(10000));
    let mut g = [0xFF, 0x86, 0x27, 0x11, 0, 0, 0, 0, 0];
    g[8] = frame_checksum_of(&g);
    assert_eq!(parse_response(&g), Err(SensorError::InvalidData));
}

#[test]
fn me2co_read_flow() {
    let mut s = Me2CoSensorWrapper::new();
    assert_eq!(s.read(&CO_FRAME, 9, 5).unwrap_err(), SensorError::NotInitialized);
    assert_eq!(s.init_result(Err(SensorError::Timeout)), Err(SensorError::Timeout));
    assert!(!s.is_initialized());
    assert_eq!(s.init_result(Ok(())), Ok(()));
    assert!(s.is_initialized());
    assert_eq!(s.read(&CO_FRAME, 8, 5).unwrap_err(), SensorError::Timeout);
    let r = s.read(&CO_FRAME, 9, 5).unwrap();
    assert_eq!(r.sensor_type, SensorType::ME2CO);
    assert_eq!(r.quality, Quality::Good);
    match r.data {
        SensorData::Gas { co_ppm, co2_ppm, voc_index } => {
            assert_eq!(co_ppm, Some(50));
            assert_eq!(co2_ppm, None);
            assert_eq!(voc_index, None);
        }
        _ => panic!("wrong variant"),
    }
    assert_eq!(s.warm_up_time(), 10_000);
    assert_eq!(s.info().manufacturer, "Winsen Electronics");
}

#[test]
fn sds011_valid_payload() {
    assert!(checksum_valid(&PM_PAYLOAD));
    assert_eq!(decode_payload(&PM_PAYLOAD), (123, 456));
}

#[test]
fn sds011_altered_payload_rejected() {
    for i in 0..8 {
        let mut p = PM_PAYLOAD;
        p[i] = p[i].wrapping_add(1);
        assert!(!checksum_valid(&p), "position {}", i);
    }
}

fn feed_all(s: &mut FrameScanner, bytes: &[u8]) -> Vec<(u16, u16)> {
    let mut out = Vec::new();
    for &b in bytes {
        if let Some(v) = s.feed(b) {
            out.push(v);
        }
    }
    out
}

#[test]
fn sds011_scanner_finds_frame_in_noise() {
    let mut s = FrameScanner::new();
    let mut stream = vec![0x00, 0xAA, 0x13, 0xAA, 0xC0];
    stream.extend_from_slice(&PM_PAYLOAD);
    assert_eq!(feed_all(&mut s, &stream), vec![(123, 456)]);
    assert!(!s.in_frame());
}

#[test]
fn sds011_scanner_skips_corrupt_frame_and_keeps_scanning() {
    let mut s = FrameScanner::new();
    let mut bad = PM_PAYLOAD;
    bad[2] = 0xC9;
    let mut stream = vec![0xAA, 0xC0];
    stream.extend_from_slice(&bad);
    stream.extend_from_slice(&[0xAA, 0xC0]);
    stream.extend_from_slice(&PM_PAYLOAD);
    assert_eq!(feed_all(&mut s, &stream), vec![(123, 456)]);
}

#[test]
fn sds011_scanner_abandon_frame() {
    let mut s = FrameScanner::new();
    assert_eq!(feed_all(&mut s, &[0xAA, 0xC0, 0x01, 0x02]), vec![]);
    assert!(s.in_frame());
    s.abandon_frame();
    assert!(!s.in_frame());
    let mut stream = vec![0xAA, 0xC0];
    stream.extend_from_slice(&PM_PAYLOAD);
    assert_eq!(feed_all(&mut s, &stream), vec![(123, 456)]);
}

#[test]
fn sds011_read_flow() {
    let mut s = Sds011Sensor::new();
    assert_eq!(s.begin_read(0), Err(SensorError::NotInitialized));
    s.complete_init();
    assert!(!s.is_running());
    assert_eq!(s.begin_read(0), Ok(()));
    assert_eq!(s.start_result(Ok(()), 0), Ok(()));
    assert!(s.is_running());
    let r = s.measurement_result(Ok((123, 456)), 10, 10).unwrap();
    assert_eq!(r.sensor_type, SensorType::SDS011);
    match r.data {
        SensorData::AirQuality { pm25, pm10 } => assert_eq!((pm25, pm10), (Some(123), Some(456))),
        _ => panic!("wrong variant"),
    }
    assert_eq!(s.measurement_result(Ok((10000, 5)), 20, 20).unwrap_err(), SensorError::InvalidData);
    assert_eq!(s.error_count(), 1);
    assert_eq!(s.measurement_result(Ok((9999, 9999)), 30, 30).unwrap().quality, Quality::Good);
    assert_eq!(s.error_count(), 0);
}

#[test]
fn sds011_error_gate_cooldown() {
    let mut s = Sds011Sensor::new();
    s.complete_init();
    for k in 0..5u64 {
        assert_eq!(s.begin_read(k * 1000), Ok(()));
        assert_eq!(s.measurement_result(Err(SensorError::Timeout), k * 1000, 0).unwrap_err(), SensorError::Timeout);
    }
    assert_eq!(s.error_count(), 5);
    // last error at 4000 ms: refused until a minute has passed
    assert_eq!(s.begin_read(63_999), Err(SensorError::Timeout));
    assert_eq!(s.error_count(), 5);
    assert_eq!(s.begin_read(64_000), Ok(()));
    assert_eq!(s.error_count(), 0);
}

#[test]
fn sds011_start_failure_counts() {
    let mut s = Sds011Sensor::new();
    s.complete_init();
    assert_eq!(s.start_result(Err(SensorError::CommunicationError), 5), Err(SensorError::CommunicationError));
    assert!(!s.is_running());
    assert_eq!(s.error_count(), 1);
    assert_eq!(s.warm_up_time(), 15_000);
}
