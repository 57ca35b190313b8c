//! Sensor-reports channel decoding: a frame's payload, after the header
//! and the report-batch timestamp region, is a back-to-back sequence of
//! fixed-format records, each tagged by report ID. Fields are raw
//! little-endian signed 16-bit quantized values; the exponent that scales
//! each to physical units is a closed function of the report ID.

use vstd::prelude::*;
use vstd::assert_seqs_equal;
use crate::bno_constants::{
    PACKET_HEADER_LENGTH, SENSOR_REPORTID_ACCEL, SENSOR_REPORTID_GRAVITY,
    SENSOR_REPORTID_GYRO_CALIBRATED, SENSOR_REPORTID_LINEAR_ACCEL,
    SENSOR_REPORTID_MAG_CALIBRATED, SENSOR_REPORTID_ROTATION_VECTOR,
};
use crate::bno_packet::{
    BnoPacket, BnoPacketParseError, SensorData, SensorReportData, SpecReport,
    report_consistent,
};

verus! {

/// Bytes skipped before the first record: frame header plus the
/// report-batch timestamp region.
pub const RECORD_REGION_SKIP: usize = PACKET_HEADER_LENGTH + 5;

/// Smallest payload (bytes past the skip region) accepted as a batch.
pub const MIN_BATCH_PAYLOAD: usize = 14;

/// Report IDs whose record layout this decoder knows.
pub open spec fn known_report_id(id: u8) -> bool {
    SENSOR_REPORTID_ACCEL <= id <= SENSOR_REPORTID_GRAVITY
}

/// Number of quantized 16-bit fields in a record of the given kind.
pub open spec fn spec_field_count(id: u8) -> int {
    if id == SENSOR_REPORTID_ROTATION_VECTOR {
        5
    } else if id == SENSOR_REPORTID_GRAVITY {
        1
    } else {
        3
    }
}

/// The quantization exponent of a field: the raw value scaled by
/// `2^-exponent` is the physical value. The rotation vector's first four
/// fields (quaternion components) use a finer exponent than its last
/// (accuracy estimate).
pub open spec fn spec_field_exponent(id: u8, idx: int) -> int {
    if id == SENSOR_REPORTID_MAG_CALIBRATED {
        4
    } else if id == SENSOR_REPORTID_GYRO_CALIBRATED {
        9
    } else if id == SENSOR_REPORTID_ROTATION_VECTOR {
        if idx < 4 {
            14
        } else {
            12
        }
    } else {
        8
    }
}

/// The signed 16-bit value encoded little-endian by two bytes.
pub open spec fn spec_i16_le(lo: u8, hi: u8) -> i16 {
    (if lo + 256 * hi < 32768 {
        lo + 256 * hi
    } else {
        lo + 256 * hi - 65536
    }) as i16
}

/// The record region's loop bound: how far the record cursor may start a
/// new record. It mirrors the driver's batching loop, whose terminal
/// condition compares the cursor against the received length less the
/// skip amount.
pub open spec fn records_bound(data: Seq<u8>) -> int {
    data.len() - RECORD_REGION_SKIP
}

/// Bytes of headroom the record cursor has before the loop bound.
pub open spec fn remaining(data: Seq<u8>, cursor: int) -> int {
    if records_bound(data) >= cursor {
        records_bound(data) - cursor
    } else {
        0
    }
}

/// The batch of records encoded from `cursor` on: `None` when a record
/// starting before the loop bound would run past the end of the buffer,
/// else the decoded records in order. A record is 4 header bytes (ID,
/// sequence, status, delay) followed by its fields; an unrecognized ID
/// contributes an unknown marker and advances by the header alone.
pub open spec fn spec_parse_records(data: Seq<u8>, cursor: int) -> Option<Seq<SpecReport>>
    decreases remaining(data, cursor),
{
    if cursor >= records_bound(data) {
        Some(Seq::empty())
    } else if cursor + 4 > data.len() {
        None
    } else if !known_report_id(data[cursor]) {
        match spec_parse_records(data, cursor + 4) {
            Some(rest) => Some(seq![SpecReport::Unknown(data[cursor])] + rest),
            None => None,
        }
    } else {
        let id = data[cursor];
        let n = spec_field_count(id);
        if cursor + 4 + 2 * n > data.len() {
            None
        } else {
            let rec = SpecReport::Known {
                id,
                seq_num: data[cursor + 1],
                status: data[cursor + 2],
                values: Seq::new(
                    n as nat,
                    |i: int| spec_i16_le(data[cursor + 4 + 2 * i], data[cursor + 5 + 2 * i]),
                ),
            };
            match spec_parse_records(data, cursor + 4 + 2 * n) {
                Some(rest) => Some(seq![rec] + rest),
                None => None,
            }
        }
    }
}

/// A sensor-reports frame is well formed when it covers the skip region,
/// meets the minimum batch payload, and every record fits the buffer.
pub open spec fn sensor_frame_ok(s: Seq<u8>) -> bool {
    &&& s.len() >= RECORD_REGION_SKIP + MIN_BATCH_PAYLOAD
    &&& spec_parse_records(s, RECORD_REGION_SKIP as int) is Some
}

/// The models of a sequence of decoded records, in order.
pub open spec fn reports_view(rs: Seq<SensorReportData>) -> Seq<SpecReport> {
    rs.map_values(|x: SensorReportData| x@)
}

/// `p` is the decoded batch of the sensor-reports frame `s`.
pub open spec fn sensor_reports_match(s: Seq<u8>, p: BnoPacket) -> bool {
    &&& p matches BnoPacket::SensorReports(v)
    &&& Some(reports_view(v@)) == spec_parse_records(s, RECORD_REGION_SKIP as int)
    &&& forall|i: int| 0 <= i < v@.len() ==> report_consistent(#[trigger] v@[i])
}

/// One unfolding of `spec_parse_records` at a known record whose fields
/// fit the buffer, with the field values given elementwise.
proof fn lemma_parse_step_known(data: Seq<u8>, cursor: int, vals: Seq<i16>)
    requires
        cursor < records_bound(data),
        cursor + 4 <= data.len(),
        known_report_id(data[cursor]),
        cursor + 4 + 2 * spec_field_count(data[cursor]) <= data.len(),
        vals.len() == spec_field_count(data[cursor]),
        forall|i: int| 0 <= i < vals.len() ==> vals[i] == spec_i16_le(
            data[cursor + 4 + 2 * i],
            data[cursor + 5 + 2 * i],
        ),
    ensures
        spec_parse_records(data, cursor) == (match spec_parse_records(
            data,
            cursor + 4 + 2 * spec_field_count(data[cursor]),
        ) {
            Some(rest) => Some(
                seq![
                    SpecReport::Known {
                        id: data[cursor],
                        seq_num: data[cursor + 1],
                        status: data[cursor + 2],
                        values: vals,
                    },
                ] + rest,
            ),
            None => None,
        }),
{
    let n = spec_field_count(data[cursor]);
    let specvals = Seq::new(
        n as nat,
        |i: int| spec_i16_le(data[cursor + 4 + 2 * i], data[cursor + 5 + 2 * i]),
    );
    assert_seqs_equal!(vals, specvals);
}

/// One unfolding of `spec_parse_records` at an unrecognized record.
proof fn lemma_parse_step_unknown(data: Seq<u8>, cursor: int)
    requires
        cursor < records_bound(data),
        cursor + 4 <= data.len(),
        !known_report_id(data[cursor]),
    ensures
        spec_parse_records(data, cursor) == (match spec_parse_records(data, cursor + 4) {
            Some(rest) => Some(seq![SpecReport::Unknown(data[cursor])] + rest),
            None => None,
        }),
{
}

/// Read one byte at the cursor and advance it.
pub fn read_u8_at_cursor(msg: &[u8], cursor: &mut usize) -> (val: u8)
    requires
        *old(cursor) < msg@.len(),
    ensures
        *final(cursor) == *old(cursor) + 1,
        val == msg@[*old(cursor) as int],
{
    // taking the length as a usize bounds the cursor arithmetic below
    let _msg_len: usize = msg.len();
    let val = *vstd::slice::slice_index_get(msg, *cursor);
    *cursor += 1;
    val
}

/// Read a little-endian signed 16-bit value at the cursor and advance it.
pub fn read_i16_at_cursor(msg: &[u8], cursor: &mut usize) -> (val: i16)
    requires
        *old(cursor) + 2 <= msg@.len(),
    ensures
        *final(cursor) == *old(cursor) + 2,
        val == spec_i16_le(msg@[*old(cursor) as int], msg@[*old(cursor) + 1]),
{
    // taking the length as a usize bounds the cursor arithmetic below
    let _msg_len: usize = msg.len();
    let lo = *vstd::slice::slice_index_get(msg, *cursor) as u16;
    let hi = *vstd::slice::slice_index_get(msg, *cursor + 1) as u16;
    *cursor += 2;
    let w: u16 = lo + 256 * hi;
    if w < 32768 {
        w as i16
    } else {
        ((w as i32) - 65536) as i16
    }
}

/// The quantization exponent of field `field_index` of a known report.
pub fn field_exponent(report_id: u8, field_index: usize) -> (q: u8)
    requires
        known_report_id(report_id),
        field_index < spec_field_count(report_id),
    ensures
        q == spec_field_exponent(report_id, field_index as int),
{
    if report_id == SENSOR_REPORTID_MAG_CALIBRATED {
        4
    } else if report_id == SENSOR_REPORTID_GYRO_CALIBRATED {
        9
    } else if report_id == SENSOR_REPORTID_ROTATION_VECTOR {
        if field_index < 4 {
            14
        } else {
            12
        }
    } else {
        8
    }
}

/// Read `n` consecutive little-endian signed 16-bit fields at the cursor.
fn read_fields(msg: &[u8], cursor: &mut usize, n: usize) -> (vals: Vec<i16>)
    requires
        *old(cursor) + 2 * n <= msg@.len(),
    ensures
        *final(cursor) == *old(cursor) + 2 * n,
        vals@ == Seq::new(
            n as nat,
            |i: int| spec_i16_le(msg@[*old(cursor) + 2 * i], msg@[*old(cursor) + 2 * i + 1]),
        ),
{
    let ghost start = *cursor;
    let mut vals: Vec<i16> = Vec::new();
    let mut k: usize = 0;
    while k < n
        invariant
            k <= n,
            *cursor == start + 2 * k,
            start + 2 * n <= msg@.len(),
            vals@.len() == k,
            forall|i: int| 0 <= i < k ==> vals@[i] == spec_i16_le(
                msg@[start + 2 * i],
                msg@[start + 2 * i + 1],
            ),
        decreases n - k,
    {
        let v = read_i16_at_cursor(msg, cursor);
        vals.push(v);
        k += 1;
    }
    proof {
        assert_seqs_equal!(
            vals@,
            Seq::new(n as nat,
                |i: int| spec_i16_le(msg@[start + 2 * i], msg@[start + 2 * i + 1]))
        );
    }
    vals
}

/// Decode a received sensor-reports frame (header included) into its
/// batch of records. Fails when the frame does not cover the skip region
/// plus the minimum batch payload, or when a record promised by the
/// batching loop runs past the end of the received bytes.
pub fn parse_sensor_reports(data: &[u8]) -> (r: Result<BnoPacket, BnoPacketParseError>)
    ensures
        r is Err <==> !sensor_frame_ok(data@),
        r matches Err(e) ==> e == BnoPacketParseError::Unknown,
        r matches Ok(p) ==> sensor_reports_match(data@, p),
{
    let received_len = data.len();
    if received_len < RECORD_REGION_SKIP {
        return Err(BnoPacketParseError::Unknown);
    }
    let payload_len = received_len - RECORD_REGION_SKIP;
    if payload_len < MIN_BATCH_PAYLOAD {
        return Err(BnoPacketParseError::Unknown);
    }

    let mut reports: Vec<SensorReportData> = Vec::new();
    let mut cursor: usize = RECORD_REGION_SKIP;
    // Batching queue: one record per iteration.
    while cursor < payload_len
        invariant
            RECORD_REGION_SKIP <= cursor,
            received_len == data@.len(),
            payload_len == records_bound(data@),
            payload_len + RECORD_REGION_SKIP == data@.len(),
            (match spec_parse_records(data@, cursor as int) {
                Some(rest) => spec_parse_records(data@, RECORD_REGION_SKIP as int) == Some(
                    reports_view(reports@) + rest,
                ),
                None => spec_parse_records(data@, RECORD_REGION_SKIP as int) is None,
            }),
            forall|i: int| 0 <= i < reports@.len() ==> report_consistent(#[trigger] reports@[i]),
        decreases remaining(data@, cursor as int),
    {
        let ghost prev = reports@;
        let ghost c0 = cursor as int;
        if received_len - cursor < 4 {
            // the record header itself runs past the received bytes
            return Err(BnoPacketParseError::Unknown);
        }
        let id = read_u8_at_cursor(data, &mut cursor);
        let seq_num = read_u8_at_cursor(data, &mut cursor);
        let status = read_u8_at_cursor(data, &mut cursor);
        let _delay = read_u8_at_cursor(data, &mut cursor);

        let rec: SensorReportData;
        if SENSOR_REPORTID_ACCEL <= id && id <= SENSOR_REPORTID_GRAVITY {
            let n: usize = if id == SENSOR_REPORTID_ROTATION_VECTOR {
                5
            } else if id == SENSOR_REPORTID_GRAVITY {
                1
            } else {
                3
            };
            proof {
                assert(n == spec_field_count(data@[c0]));
            }
            if received_len - cursor < 2 * n {
                // the record's fields run past the received bytes
                return Err(BnoPacketParseError::Unknown);
            }
            let vals = read_fields(data, &mut cursor, n);
            proof {
                lemma_parse_step_known(data@, c0, vals@);
            }
            let d = SensorData::new(id, seq_num, status, vals);
            rec = if id == SENSOR_REPORTID_ACCEL {
                SensorReportData::Acceleration(d)
            } else if id == SENSOR_REPORTID_GYRO_CALIBRATED {
                SensorReportData::GyroCalibrated(d)
            } else if id == SENSOR_REPORTID_MAG_CALIBRATED {
                SensorReportData::MagFieldCalibrated(d)
            } else if id == SENSOR_REPORTID_LINEAR_ACCEL {
                SensorReportData::LinearAcceleration(d)
            } else if id == SENSOR_REPORTID_ROTATION_VECTOR {
                SensorReportData::Rotation(d)
            } else {
                SensorReportData::Gravity(d)
            };
            proof {
                assert(rec@ == SpecReport::Known {
                    id: data@[c0],
                    seq_num: data@[c0 + 1],
                    status: data@[c0 + 2],
                    values: vals@,
                });
                assert(report_consistent(rec));
            }
        } else {
            rec = SensorReportData::Unknown(id);
            proof {
                lemma_parse_step_unknown(data@, c0);
                assert(rec@ == SpecReport::Unknown(data@[c0]));
                assert(report_consistent(rec));
            }
        }
        reports.push(rec);
        proof {
            assert_seqs_equal!(reports_view(reports@), reports_view(prev).push(rec@));
            let stepped = spec_parse_records(data@, cursor as int);
            assert(spec_parse_records(data@, c0) == (match stepped {
                Some(rest) => Some(seq![rec@] + rest),
                None => None,
            }));
            match stepped {
                Some(rest) => {
                    assert_seqs_equal!(
                        reports_view(prev) + (seq![rec@] + rest),
                        reports_view(reports@) + rest
                    );
                }
                None => {}
            }
        }
    }
    proof {
        assert_seqs_equal!(
            reports_view(reports@) + Seq::<SpecReport>::empty(),
            reports_view(reports@)
        );
    }
    Ok(BnoPacket::SensorReports(reports))
}

} // verus!
