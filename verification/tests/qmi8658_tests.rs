use waveshare_s3_3p::bme280_sensor::Bme280;
use waveshare_s3_3p::qmi8658::{init_sequence, parse_burst, raw_to_i16, ImuReading};

#[test]
fn register_pairs_are_twos_complement() {
    assert_eq!(raw_to_i16(0x00, 0x00), 0);
    assert_eq!(raw_to_i16(0x01, 0x00), 1);
    assert_eq!(raw_to_i16(0x00, 0x10), 4096);
    assert_eq!(raw_to_i16(0xFF, 0x7F), i16::MAX);
    assert_eq!(raw_to_i16(0x00, 0x80), i16::MIN);
    assert_eq!(raw_to_i16(0xFF, 0xFF), -1);
    assert_eq!(raw_to_i16(0x00, 0xF0), -4096);
    for low in [0u8, 1, 127, 128, 255] {
        for high in [0u8, 1, 127, 128, 255] {
            assert_eq!(raw_to_i16(low, high), i16::from_le_bytes([low, high]));
        }
    }
}

#[test]
fn burst_is_decoded_field_by_field() {
    let burst: [u8; 14] =
        [0x00, 0x19, 0x00, 0x10, 0x00, 0xF0, 0x34, 0x12, 0x40, 0x00, 0xC0, 0xFF, 0x01, 0x80];
    assert_eq!(
        parse_burst(&burst),
        ImuReading {
            temp: 0x1900,
            accel_x: 4096,
            accel_y: -4096,
            accel_z: 0x1234,
            gyro_x: 64,
            gyro_y: -64,
            gyro_z: -32767,
        }
    );
}

#[test]
fn sensor_configuration_writes() {
    assert_eq!(init_sequence(), [(0x02, 0x60), (0x03, 0x24), (0x04, 0x54), (0x08, 0x03)]);
}

#[test]
fn uncalibrated_sensor_has_zero_calibration() {
    let s = Bme280::new_uncalibrated(0x76);
    assert_eq!(s.addr, 0x76);
    assert_eq!((s.dig_t1, s.dig_t2, s.dig_t3), (0, 0, 0));
    assert_eq!((s.dig_p1, s.dig_p9), (0, 0));
    assert_eq!((s.dig_h1, s.dig_h2, s.dig_h6), (0, 0, 0));
}
