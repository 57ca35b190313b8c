use bno080::bno_packet::{BnoPacket, BnoPacketParseError, SensorReportData};
use bno080::bno_sensor_parsing::{field_exponent, parse_sensor_reports, read_i16_at_cursor, read_u8_at_cursor};

/// Frame bytes: 4-byte header, 5-byte timestamp region, then records,
/// zero-padded to `total` bytes.
fn frame(records: &[u8], total: usize) -> Vec<u8> {
    let mut f: Vec<u8> = vec![(total & 0xFF) as u8, (total >> 8) as u8, 3, 0];
    f.extend_from_slice(&[0, 0, 0, 0, 0]);
    f.extend_from_slice(records);
    assert!(f.len() <= total);
    f.resize(total, 0);
    f
}

#[test]
fn cursor_readers_advance() {
    let data: [u8; 4] = [0x12, 0x00, 0x08, 0xFF];
    let mut cursor: usize = 0;
    assert_eq!(read_u8_at_cursor(&data, &mut cursor), 0x12);
    assert_eq!(cursor, 1);
    assert_eq!(read_i16_at_cursor(&data, &mut cursor), 0x0800);
    assert_eq!(cursor, 3);
    let mut c2: usize = 2;
    // 0xFF08 as a signed little-endian 16-bit value
    assert_eq!(read_i16_at_cursor(&data, &mut c2), -248);
}

#[test]
fn too_short_frame_is_parse_error() {
    // length 10 frame: 6 payload bytes past the header, short of the
    // 14-byte minimum batch payload
    let f: Vec<u8> = vec![0x0A, 0x00, 0x03, 0x00, 0, 0, 0, 0, 0, 0];
    assert!(matches!(parse_sensor_reports(&f), Err(BnoPacketParseError::Unknown)));
    // shorter than even the header-plus-timestamp region
    let tiny: Vec<u8> = vec![0x05, 0x00, 0x03, 0x00, 0];
    assert!(matches!(parse_sensor_reports(&tiny), Err(BnoPacketParseError::Unknown)));
}

#[test]
fn gravity_record_decodes() {
    // one gravity record, raw value 2048 -> 2048 / 2^8 = 8.0
    let f = frame(&[0x06, 1, 0, 0, 0x00, 0x08], 23);
    let p = parse_sensor_reports(&f).unwrap();
    match p {
        BnoPacket::SensorReports(v) => {
            assert_eq!(v.len(), 1);
            match &v[0] {
                SensorReportData::Gravity(d) => {
                    assert_eq!(d.id, 0x06);
                    assert_eq!(d.seq_number, 1);
                    assert_eq!(d.status, 0);
                    assert_eq!(d.get_vec(), vec![2048i16]);
                    let q = field_exponent(d.id, 0);
                    let value = (d.values[0] as f32) / ((1i32 << q) as f32);
                    assert_eq!(value, 8.0);
                }
                other => panic!("expected a gravity record, got {:?}", other),
            }
        }
        other => panic!("expected sensor reports, got {:?}", other),
    }
}

#[test]
fn acceleration_record_decodes() {
    // raw (256, -256, 128) -> (1.0, -1.0, 0.5) at Q8
    let f = frame(&[0x01, 2, 3, 0, 0x00, 0x01, 0x00, 0xFF, 0x80, 0x00], 23);
    let p = parse_sensor_reports(&f).unwrap();
    match p {
        BnoPacket::SensorReports(v) => {
            assert_eq!(v.len(), 1);
            match &v[0] {
                SensorReportData::Acceleration(d) => {
                    assert_eq!(d.id, 0x01);
                    assert_eq!(d.seq_number, 2);
                    assert_eq!(d.status, 3);
                    assert_eq!(d.get_vec(), vec![256i16, -256, 128]);
                }
                other => panic!("expected an acceleration record, got {:?}", other),
            }
        }
        other => panic!("expected sensor reports, got {:?}", other),
    }
}

#[test]
fn rotation_record_decodes() {
    // quaternion (16384, 0, 0, 16384) at Q14, accuracy 4096 at Q12
    let f = frame(
        &[0x05, 7, 2, 0, 0x00, 0x40, 0x00, 0x00, 0x00, 0x00, 0x00, 0x40, 0x00, 0x10],
        23,
    );
    let p = parse_sensor_reports(&f).unwrap();
    match p {
        BnoPacket::SensorReports(v) => {
            assert_eq!(v.len(), 1);
            match &v[0] {
                SensorReportData::Rotation(d) => {
                    assert_eq!(d.get_vec(), vec![16384i16, 0, 0, 16384, 4096]);
                    let unit = (d.values[0] as f32) / ((1i32 << field_exponent(0x05, 0)) as f32);
                    assert_eq!(unit, 1.0);
                    let acc = (d.values[4] as f32) / ((1i32 << field_exponent(0x05, 4)) as f32);
                    assert_eq!(acc, 1.0);
                }
                other => panic!("expected a rotation record, got {:?}", other),
            }
        }
        other => panic!("expected sensor reports, got {:?}", other),
    }
}

#[test]
fn unknown_report_id_is_kept_not_fatal() {
    // an unrecognized ID advances by its 4-byte record header only, so
    // the zero padding that follows decodes as a second, unknown record
    let f = frame(&[0x77, 1, 2, 3], 23);
    let p = parse_sensor_reports(&f).unwrap();
    match p {
        BnoPacket::SensorReports(v) => {
            assert_eq!(v.len(), 2);
            assert!(matches!(v[0], SensorReportData::Unknown(0x77)));
            assert!(matches!(v[1], SensorReportData::Unknown(0x00)));
        }
        other => panic!("expected sensor reports, got {:?}", other),
    }
}

#[test]
fn record_running_past_buffer_is_parse_error() {
    // an unknown record advances the cursor to 13, still before the
    // batching bound; the rotation record started there would need bytes
    // up to offset 27 of a 23-byte frame
    let f = frame(&[0x99, 0, 0, 0, 0x05, 0, 0, 0], 23);
    assert!(matches!(parse_sensor_reports(&f), Err(BnoPacketParseError::Unknown)));
}
