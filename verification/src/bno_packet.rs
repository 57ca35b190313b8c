//! Decoded packet shapes: per-channel control outcomes, sensor report
//! records carrying raw quantized values, and the top-level tagged union.

use vstd::prelude::*;

verus! {

/// Outcome of decoding a command-channel frame's report-ID byte.
#[derive(Debug, PartialEq, Eq, Structural)]
pub enum ChannelCommandData {
    AdvertiseResponse,
    ErrorList,
    Unknown(u8),
}

/// Outcome of decoding an executable-channel frame's report-ID byte.
#[derive(Debug, PartialEq, Eq, Structural)]
pub enum ChannelExecutableData {
    ResetComplete,
    Unknown(u8),
}

/// Outcome of decoding a hub-control-channel frame's report-ID byte.
#[derive(Debug, PartialEq, Eq, Structural)]
pub enum ChannelHubControlData {
    CommandResponse,
    ProdIdResponse,
    GetFeatureResponse,
    Unknown(u8),
}

/// One decoded sensor report record. `values` holds the raw little-endian
/// signed 16-bit quantized fields in wire order; the quantization exponent
/// that scales them to physical units is a closed function of the report
/// ID and field index (see `bno_sensor_parsing::field_exponent`).
#[derive(Debug)]
pub struct SensorData {
    pub id: u8,
    pub seq_number: u8,
    pub status: u8,
    pub values: Vec<i16>,
}

/// Mathematical model of a sensor record: the header triad plus the raw
/// quantized field values.
pub ghost struct SpecSensorData {
    pub id: u8,
    pub seq_number: u8,
    pub status: u8,
    pub values: Seq<i16>,
}

impl View for SensorData {
    type V = SpecSensorData;

    open spec fn view(&self) -> SpecSensorData {
        SpecSensorData {
            id: self.id,
            seq_number: self.seq_number,
            status: self.status,
            values: self.values@,
        }
    }
}

impl SensorData {
    pub fn new(id: u8, seq_number: u8, status: u8, values: Vec<i16>) -> (r: Self)
        ensures
            r@ == (SpecSensorData { id, seq_number, status, values: values@ }),
    {
        SensorData { id, seq_number, status, values }
    }

    /// The raw quantized field values as a fresh vector.
    pub fn get_vec(&self) -> (r: Vec<i16>)
        ensures
            r@ == self@.values,
    {
        let mut out: Vec<i16> = Vec::new();
        let mut i: usize = 0;
        while i < self.values.len()
            invariant
                i <= self.values.len(),
                out@ == self.values@.subrange(0, i as int),
            decreases self.values.len() - i,
        {
            out.push(self.values[i]);
            i = i + 1;
        }
        proof {
            assert(self.values@.subrange(0, self.values@.len() as int) == self.values@);
        }
        out
    }
}

/// One record of a sensor-reports frame, tagged by report kind. Known
/// kinds carry their raw quantized fields; an unrecognized report ID is
/// kept as an explicit marker rather than failing the whole frame.
#[derive(Debug)]
pub enum SensorReportData {
    Acceleration(SensorData),
    GyroCalibrated(SensorData),
    MagFieldCalibrated(SensorData),
    LinearAcceleration(SensorData),
    Rotation(SensorData),
    Gravity(SensorData),
    Unknown(u8),
}

/// Mathematical model of one sensor record: either a decoded record
/// (header triad plus raw values) or the bare ID of an unrecognized one.
pub ghost enum SpecReport {
    Known { id: u8, seq_num: u8, status: u8, values: Seq<i16> },
    Unknown(u8),
}

impl View for SensorReportData {
    type V = SpecReport;

    open spec fn view(&self) -> SpecReport {
        match self {
            SensorReportData::Acceleration(d) => SpecReport::Known {
                id: d.id, seq_num: d.seq_number, status: d.status, values: d.values@,
            },
            SensorReportData::GyroCalibrated(d) => SpecReport::Known {
                id: d.id, seq_num: d.seq_number, status: d.status, values: d.values@,
            },
            SensorReportData::MagFieldCalibrated(d) => SpecReport::Known {
                id: d.id, seq_num: d.seq_number, status: d.status, values: d.values@,
            },
            SensorReportData::LinearAcceleration(d) => SpecReport::Known {
                id: d.id, seq_num: d.seq_number, status: d.status, values: d.values@,
            },
            SensorReportData::Rotation(d) => SpecReport::Known {
                id: d.id, seq_num: d.seq_number, status: d.status, values: d.values@,
            },
            SensorReportData::Gravity(d) => SpecReport::Known {
                id: d.id, seq_num: d.seq_number, status: d.status, values: d.values@,
            },
            SensorReportData::Unknown(id) => SpecReport::Unknown(*id),
        }
    }
}

/// A record's variant agrees with the report ID it carries: each known
/// report ID selects exactly one variant, and the unknown marker carries
/// only unrecognized IDs.
pub open spec fn report_consistent(r: SensorReportData) -> bool {
    match r {
        SensorReportData::Acceleration(d) => d.id == 0x01,
        SensorReportData::GyroCalibrated(d) => d.id == 0x02,
        SensorReportData::MagFieldCalibrated(d) => d.id == 0x03,
        SensorReportData::LinearAcceleration(d) => d.id == 0x04,
        SensorReportData::Rotation(d) => d.id == 0x05,
        SensorReportData::Gravity(d) => d.id == 0x06,
        SensorReportData::Unknown(id) => !(0x01 <= id <= 0x06),
    }
}

/// A fully decoded frame: one variant per channel.
#[derive(Debug)]
pub enum BnoPacket {
    ChannelCommand(ChannelCommandData),
    ChannelExec(ChannelExecutableData),
    ChannelHubControl(ChannelHubControlData),
    SensorReports(Vec<SensorReportData>),
}

/// Error for a malformed sensor-reports frame.
#[derive(Debug, PartialEq, Eq, Structural)]
pub enum BnoPacketParseError {
    Unknown,
}

} // verus!
