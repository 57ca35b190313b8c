//! Fixed-point round trips: a physical value encoded as
//! `round(value / 2^-Q)` and decoded as `raw * 2^-Q` comes back within
//! one quantization step, for each exponent the report table uses.

use bno080::bno_sensor_parsing::field_exponent;

fn roundtrip_within_one_step(value: f32, q: u8) {
    let scale = (1i32 << q) as f32;
    let raw = (value * scale).round();
    assert!(raw >= i16::MIN as f32 && raw <= i16::MAX as f32);
    let raw = raw as i16;
    let decoded = (raw as f32) / scale;
    let step = 1.0f32 / scale;
    assert!(
        (decoded - value).abs() <= step,
        "q={} value={} decoded={}",
        q,
        value,
        decoded
    );
}

#[test]
fn quantization_roundtrip_per_report_kind() {
    // accel, linear accel, gravity: Q8
    assert_eq!(field_exponent(0x01, 0), 8);
    assert_eq!(field_exponent(0x04, 2), 8);
    assert_eq!(field_exponent(0x06, 0), 8);
    // gyro: Q9, mag: Q4
    assert_eq!(field_exponent(0x02, 1), 9);
    assert_eq!(field_exponent(0x03, 1), 4);
    // rotation vector: quaternion components Q14, accuracy estimate Q12
    assert_eq!(field_exponent(0x05, 0), 14);
    assert_eq!(field_exponent(0x05, 3), 14);
    assert_eq!(field_exponent(0x05, 4), 12);

    for &q in [4u8, 8, 9, 12, 14].iter() {
        roundtrip_within_one_step(1.5, q);
        roundtrip_within_one_step(-0.73, q);
        roundtrip_within_one_step(0.0, q);
        roundtrip_within_one_step(0.9997, q);
    }
    // coarser exponents leave room for larger magnitudes
    roundtrip_within_one_step(-1000.25, 4);
    roundtrip_within_one_step(100.33, 8);
}
