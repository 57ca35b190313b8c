//! Driver state: reusable receive/send buffers, one sequence counter per
//! channel, frame transmission and reception, and channel demultiplexing.

use vstd::prelude::*;
use crate::bno_common::{parse_packet_header, spec_header_len, spec_raw_len};
use crate::bno_constants::{
    CHANNEL_COMMAND, CHANNEL_EXECUTABLE, CHANNEL_HUB_CONTROL, CHANNEL_SENSOR_REPORTS,
    CMD_RESP_ADVERTISEMENT, CMD_RESP_ERROR_LIST, EXECUTABLE_DEVICE_CMD_RESET,
    EXECUTABLE_DEVICE_RESP_RESET_COMPLETE, MAX_CARGO_DATA_LENGTH, NUM_CHANNELS,
    PACKET_HEADER_LENGTH, SHUB_COMMAND_RESP, SHUB_GET_FEATURE_RESP, SHUB_PROD_ID_RESP,
    SHUB_REPORT_SET_FEATURE_CMD,
};
use crate::bno_packet::{
    BnoPacket, BnoPacketParseError, ChannelCommandData, ChannelExecutableData,
    ChannelHubControlData,
};
use crate::bno_sensor_parsing::{parse_sensor_reports, sensor_frame_ok, sensor_reports_match};
use crate::interface::ComInterface;

verus! {

/// Capacity reserved for a received frame.
pub const PACKET_RECV_BUF_LEN: usize = 32766;
/// Capacity reserved for an outgoing frame.
pub const PACKET_SEND_BUF_LEN: usize = 256;

/// Everything the driver can fail with.
#[derive(Debug)]
pub enum DriverError<E> {
    /// Communications error
    CommError(E),
    /// Invalid chip ID was read
    InvalidChipId(u8),
    /// Unsupported sensor firmware version
    InvalidFWVersion(u8),
    /// We expected some data but didn't receive any
    NoDataAvailable,
    ParseError(BnoPacketParseError),
    UnknownData,
}

/// Driver state: the transport, the reusable receive and send buffers,
/// and one sequence counter per channel.
pub struct BnoDriver<CI> {
    pub interface: CI,
    pub recv_buffer: Vec<u8>,
    pub send_buf: Vec<u8>,
    pub sequence_numbers: [u8; NUM_CHANNELS],
}

/// A sequence counter after one more send: incremented by one, wrapping
/// at the 8-bit boundary.
pub open spec fn spec_next_seq(s: u8) -> u8 {
    if s == 255 {
        0
    } else {
        (s + 1) as u8
    }
}

/// A channel's sequence counter after `n` sends on that channel, starting
/// from a fresh driver: `spec_next_seq` applied `n` times to 0.
pub open spec fn spec_seq_after(n: nat) -> u8
    decreases n,
{
    if n == 0 {
        0u8
    } else {
        spec_next_seq(spec_seq_after((n - 1) as nat))
    }
}

/// After `n` consecutive sends on one channel the channel's sequence
/// counter equals `n` modulo 256. (Sends on other channels leave it
/// unchanged: `send_packet` updates only the sent channel's entry.)
pub proof fn lemma_seq_counter_after_n_sends(n: nat)
    ensures
        spec_seq_after(n) as int == n as int % 256,
    decreases n,
{
    if n > 0 {
        lemma_seq_counter_after_n_sends((n - 1) as nat);
    }
}

/// The header of a frame whose total length (header included) is
/// `total_len`: the length little-endian over two bytes, the channel,
/// and the sender's sequence counter for that channel.
pub open spec fn spec_frame_header(total_len: int, channel: u8, seq_num: u8) -> Seq<u8> {
    seq![(total_len % 256) as u8, (total_len / 256) as u8, channel, seq_num]
}

/// A whole outgoing frame: header then body.
pub open spec fn spec_frame(channel: u8, seq_num: u8, body: Seq<u8>) -> Seq<u8> {
    spec_frame_header(body.len() + PACKET_HEADER_LENGTH, channel, seq_num) + body
}

/// Round trip: the header written for a frame of total length up to the
/// maximum cargo size parses back to that same total length.
pub proof fn lemma_frame_header_roundtrip(channel: u8, seq_num: u8, body: Seq<u8>)
    requires
        body.len() + PACKET_HEADER_LENGTH <= MAX_CARGO_DATA_LENGTH,
    ensures
        spec_header_len(spec_frame(channel, seq_num, body)) == body.len() + PACKET_HEADER_LENGTH,
{
    let len = body.len() + PACKET_HEADER_LENGTH;
    let hi = (len / 256) as u8;
    assert(hi < 128);
    assert(hi & 0x7f == hi) by (bit_vector)
        requires
            hi < 128,
    ;
    let frame = spec_frame(channel, seq_num, body);
    assert(frame[0] == (len % 256) as u8);
    assert(frame[1] == hi);
    assert(spec_raw_len(frame) == len % 256 + 256 * (len / 256));
}

/// The little-endian four-byte encoding of a 32-bit value.
pub open spec fn spec_le32(v: u32) -> Seq<u8> {
    seq![
        (v % 256) as u8,
        ((v / 256) % 256) as u8,
        ((v / 65536) % 256) as u8,
        ((v / 16777216) % 256) as u8,
    ]
}

/// The fixed-layout feature-configuration command body: command tag,
/// report ID, feature flags and change sensitivity (zero), then the
/// report interval and batching delay in microseconds, each little-endian
/// 32-bit, then reserved sensor-specific configuration bytes.
pub open spec fn spec_feature_cmd(
    report_id: u8,
    millis_between_reports: u16,
    millis_max_delay: u16,
) -> Seq<u8> {
    seq![SHUB_REPORT_SET_FEATURE_CMD, report_id, 0u8, 0u8, 0u8]
        + spec_le32((millis_between_reports * 1000) as u32)
        + spec_le32((millis_max_delay * 1000) as u32) + seq![0u8, 0u8, 0u8, 0u8]
}

/// Command-channel outcome for a report-ID byte.
pub open spec fn spec_decode_command(report_id: u8) -> ChannelCommandData {
    if report_id == CMD_RESP_ADVERTISEMENT {
        ChannelCommandData::AdvertiseResponse
    } else if report_id == CMD_RESP_ERROR_LIST {
        ChannelCommandData::ErrorList
    } else {
        ChannelCommandData::Unknown(report_id)
    }
}

/// Executable-channel outcome for a report-ID byte.
pub open spec fn spec_decode_executable(report_id: u8) -> ChannelExecutableData {
    if report_id == EXECUTABLE_DEVICE_RESP_RESET_COMPLETE {
        ChannelExecutableData::ResetComplete
    } else {
        ChannelExecutableData::Unknown(report_id)
    }
}

/// Hub-control-channel outcome for a report-ID byte.
pub open spec fn spec_decode_hub_control(report_id: u8) -> ChannelHubControlData {
    if report_id == SHUB_COMMAND_RESP {
        ChannelHubControlData::CommandResponse
    } else if report_id == SHUB_PROD_ID_RESP {
        ChannelHubControlData::ProdIdResponse
    } else if report_id == SHUB_GET_FEATURE_RESP {
        ChannelHubControlData::GetFeatureResponse
    } else {
        ChannelHubControlData::Unknown(report_id)
    }
}

/// The report-ID byte used to sub-classify control channels: the first
/// payload byte when there is one, 0 otherwise.
pub open spec fn spec_report_id(s: Seq<u8>) -> u8 {
    if s.len() > PACKET_HEADER_LENGTH {
        s[PACKET_HEADER_LENGTH as int]
    } else {
        0
    }
}

/// `p` is the decode of the received frame `s` (header included) on the
/// channel named by the frame's channel byte.
pub open spec fn spec_packet_decoded(s: Seq<u8>, p: BnoPacket) -> bool {
    let ch = s[2];
    let rid = spec_report_id(s);
    if ch == CHANNEL_COMMAND {
        p == BnoPacket::ChannelCommand(spec_decode_command(rid))
    } else if ch == CHANNEL_EXECUTABLE {
        p == BnoPacket::ChannelExec(spec_decode_executable(rid))
    } else if ch == CHANNEL_HUB_CONTROL {
        p == BnoPacket::ChannelHubControl(spec_decode_hub_control(rid))
    } else if ch == CHANNEL_SENSOR_REPORTS {
        sensor_reports_match(s, p)
    } else {
        false
    }
}

impl<CI: ComInterface> BnoDriver<CI> {
    /// A fresh driver around a transport: empty buffers, every channel's
    /// sequence counter at zero.
    pub fn new(interface: CI) -> (r: Self)
        ensures
            r.sequence_numbers@ =~= Seq::new(NUM_CHANNELS as nat, |i: int| 0u8),
            r.recv_buffer@.len() == 0,
            r.send_buf@.len() == 0,
    {
        Self {
            interface,
            recv_buffer: Vec::new(),
            send_buf: Vec::new(),
            sequence_numbers: [0, 0, 0, 0, 0, 0],
        }
    }

    /// Prepare the transport for use.
    pub fn setup(&mut self) -> (r: Result<(), DriverError<CI::ComError>>)
        ensures
            final(self).recv_buffer == old(self).recv_buffer,
            final(self).send_buf == old(self).send_buf,
            final(self).sequence_numbers == old(self).sequence_numbers,
            r matches Err(e) ==> e matches DriverError::CommError(_),
    {
        match self.interface.setup() {
            Ok(()) => Ok(()),
            Err(e) => Err(DriverError::CommError(e)),
        }
    }

    /// Build and transmit one frame: a four-byte header (little-endian
    /// total length, channel byte, the channel's current sequence
    /// counter) followed by `body_data`. The channel's counter is
    /// incremented (wrapping) whether or not the transport accepts the
    /// frame; other channels' counters are untouched.
    pub fn send_packet(&mut self, channel: u8, body_data: &[u8]) -> (r: Result<
        (),
        DriverError<CI::ComError>,
    >)
        requires
            channel < NUM_CHANNELS,
            body_data@.len() + PACKET_HEADER_LENGTH <= PACKET_SEND_BUF_LEN,
        ensures
            final(self).send_buf@ == spec_frame(
                channel,
                old(self).sequence_numbers@[channel as int],
                body_data@,
            ),
            final(self).sequence_numbers@ == old(self).sequence_numbers@.update(
                channel as int,
                spec_next_seq(old(self).sequence_numbers@[channel as int]),
            ),
            final(self).recv_buffer == old(self).recv_buffer,
            r matches Err(e) ==> e matches DriverError::CommError(_),
    {
        let body_len = body_data.len();
        let packet_length = body_len + PACKET_HEADER_LENGTH;
        let seq_num = self.sequence_numbers[channel as usize];

        self.send_buf.clear();
        self.send_buf.push((packet_length % 256) as u8);
        self.send_buf.push((packet_length / 256) as u8);
        self.send_buf.push(channel);
        self.send_buf.push(seq_num);
        let mut i: usize = 0;
        while i < body_len
            invariant
                i <= body_len,
                body_len == body_data@.len(),
                self.send_buf@ == spec_frame_header(
                    body_len + PACKET_HEADER_LENGTH,
                    channel,
                    seq_num,
                ) + body_data@.subrange(0, i as int),
                self.sequence_numbers == old(self).sequence_numbers,
                self.recv_buffer == old(self).recv_buffer,
            decreases body_len - i,
        {
            self.send_buf.push(*vstd::slice::slice_index_get(body_data, i));
            i += 1;
        }
        proof {
            assert(body_data@.subrange(0, body_data@.len() as int) == body_data@);
            assert(self.send_buf@ =~= spec_frame(channel, seq_num, body_data@));
        }

        let next = if seq_num == 255 {
            0
        } else {
            seq_num + 1
        };
        self.sequence_numbers[channel as usize] = next;

        match self.interface.write_bytes(self.send_buf.as_slice()) {
            Ok(()) => Ok(()),
            Err(e) => Err(DriverError::CommError(e)),
        }
    }

    /// Build and transmit the feature-configuration command that enables
    /// periodic reports of one kind: intervals are given in milliseconds
    /// and encoded as microsecond counts. Fire and forget: success only
    /// means the command left on the hub-control channel; acceptance
    /// arrives asynchronously as a later received frame.
    pub fn enable_report(
        &mut self,
        report_id: u8,
        millis_between_reports: u16,
        millis_max_delay: u16,
    ) -> (r: Result<(), DriverError<CI::ComError>>)
        ensures
            final(self).send_buf@ == spec_frame(
                CHANNEL_HUB_CONTROL,
                old(self).sequence_numbers@[CHANNEL_HUB_CONTROL as int],
                spec_feature_cmd(report_id, millis_between_reports, millis_max_delay),
            ),
            final(self).sequence_numbers@ == old(self).sequence_numbers@.update(
                CHANNEL_HUB_CONTROL as int,
                spec_next_seq(old(self).sequence_numbers@[CHANNEL_HUB_CONTROL as int]),
            ),
            final(self).recv_buffer == old(self).recv_buffer,
            r matches Err(e) ==> e matches DriverError::CommError(_),
    {
        let micros_between_reports: u32 = (millis_between_reports as u32) * 1000;
        let micros_max_delay: u32 = (millis_max_delay as u32) * 1000;
        let mut cmd_body: Vec<u8> = Vec::new();
        cmd_body.push(SHUB_REPORT_SET_FEATURE_CMD);
        cmd_body.push(report_id);
        cmd_body.push(0);  // feature flags
        cmd_body.push(0);  // LSB change sensitivity
        cmd_body.push(0);  // MSB change sensitivity
        cmd_body.push((micros_between_reports % 256) as u8);  // LSB report interval
        cmd_body.push(((micros_between_reports / 256) % 256) as u8);
        cmd_body.push(((micros_between_reports / 65536) % 256) as u8);
        cmd_body.push(((micros_between_reports / 16777216) % 256) as u8);  // MSB report interval
        cmd_body.push((micros_max_delay % 256) as u8);  // LSB batch interval
        cmd_body.push(((micros_max_delay / 256) % 256) as u8);
        cmd_body.push(((micros_max_delay / 65536) % 256) as u8);
        cmd_body.push(((micros_max_delay / 16777216) % 256) as u8);  // MSB batch interval
        cmd_body.push(0);  // LSB sensor-specific config
        cmd_body.push(0);
        cmd_body.push(0);
        cmd_body.push(0);  // MSB sensor-specific config
        proof {
            assert(cmd_body@ =~= spec_feature_cmd(
                report_id,
                millis_between_reports,
                millis_max_delay,
            ));
        }

        // the configuration command is simply sent off; any error or
        // success in configuration arrives some time later
        self.send_packet(CHANNEL_HUB_CONTROL, cmd_body.as_slice())
    }

    /// Transmit the single-byte reset command on the executable channel.
    pub fn soft_reset(&mut self) -> (r: Result<(), DriverError<CI::ComError>>)
        ensures
            final(self).send_buf@ == spec_frame(
                CHANNEL_EXECUTABLE,
                old(self).sequence_numbers@[CHANNEL_EXECUTABLE as int],
                seq![EXECUTABLE_DEVICE_CMD_RESET],
            ),
            final(self).sequence_numbers@ == old(self).sequence_numbers@.update(
                CHANNEL_EXECUTABLE as int,
                spec_next_seq(old(self).sequence_numbers@[CHANNEL_EXECUTABLE as int]),
            ),
            final(self).recv_buffer == old(self).recv_buffer,
            r matches Err(e) ==> e matches DriverError::CommError(_),
    {
        let mut data: Vec<u8> = Vec::new();
        data.push(EXECUTABLE_DEVICE_CMD_RESET);
        proof {
            assert(data@ =~= seq![EXECUTABLE_DEVICE_CMD_RESET]);
        }
        self.send_packet(CHANNEL_EXECUTABLE, data.as_slice())
    }

    /// Read a header-sized prefix from the transport into the receive
    /// buffer.
    pub fn read_packet_header(&mut self) -> (r: Result<(), DriverError<CI::ComError>>)
        ensures
            final(self).send_buf == old(self).send_buf,
            final(self).sequence_numbers == old(self).sequence_numbers,
            r is Ok ==> final(self).recv_buffer@.len() == PACKET_HEADER_LENGTH,
            r matches Err(e) ==> e matches DriverError::CommError(_),
    {
        match self.interface.read_bytes(PACKET_HEADER_LENGTH) {
            Ok(v) => {
                self.recv_buffer = v;
                Ok(())
            }
            Err(e) => Err(DriverError::CommError(e)),
        }
    }

    /// Dispatch the first `len` received bytes by their channel byte:
    /// control channels decode their report-ID byte, the sensor-reports
    /// channel decodes its batch of records, and an unrecognized channel
    /// is a terminal unknown-data error.
    pub fn process_packet(&mut self, len: usize) -> (r: Result<
        BnoPacket,
        DriverError<CI::ComError>,
    >)
        requires
            PACKET_HEADER_LENGTH <= len <= old(self).recv_buffer@.len(),
        ensures
            *final(self) == *old(self),
            ({
                let s = old(self).recv_buffer@.subrange(0, len as int);
                let ch = s[2];
                &&& (r matches Ok(p) ==> spec_packet_decoded(s, p))
                &&& (ch == CHANNEL_SENSOR_REPORTS && !sensor_frame_ok(s) ==> r == Err::<
                    BnoPacket,
                    DriverError<CI::ComError>,
                >(DriverError::ParseError(BnoPacketParseError::Unknown)))
                &&& (!(ch == CHANNEL_COMMAND || ch == CHANNEL_EXECUTABLE || ch
                    == CHANNEL_HUB_CONTROL || ch == CHANNEL_SENSOR_REPORTS) ==> r == Err::<
                    BnoPacket,
                    DriverError<CI::ComError>,
                >(DriverError::UnknownData))
                &&& (r is Err <==> (ch == CHANNEL_SENSOR_REPORTS && !sensor_frame_ok(s)) || !(
                ch == CHANNEL_COMMAND || ch == CHANNEL_EXECUTABLE || ch == CHANNEL_HUB_CONTROL
                    || ch == CHANNEL_SENSOR_REPORTS))
            }),
    {
        let msg: &[u8] = vstd::slice::slice_subrange(self.recv_buffer.as_slice(), 0, len);
        let channel = *vstd::slice::slice_index_get(msg, 2);
        let report_id: u8 = if len > PACKET_HEADER_LENGTH {
            *vstd::slice::slice_index_get(msg, PACKET_HEADER_LENGTH)
        } else {
            0
        };
        if channel == CHANNEL_COMMAND {
            if report_id == CMD_RESP_ADVERTISEMENT {
                Ok(BnoPacket::ChannelCommand(ChannelCommandData::AdvertiseResponse))
            } else if report_id == CMD_RESP_ERROR_LIST {
                Ok(BnoPacket::ChannelCommand(ChannelCommandData::ErrorList))
            } else {
                Ok(BnoPacket::ChannelCommand(ChannelCommandData::Unknown(report_id)))
            }
        } else if channel == CHANNEL_EXECUTABLE {
            if report_id == EXECUTABLE_DEVICE_RESP_RESET_COMPLETE {
                Ok(BnoPacket::ChannelExec(ChannelExecutableData::ResetComplete))
            } else {
                Ok(BnoPacket::ChannelExec(ChannelExecutableData::Unknown(report_id)))
            }
        } else if channel == CHANNEL_HUB_CONTROL {
            if report_id == SHUB_COMMAND_RESP {
                Ok(BnoPacket::ChannelHubControl(ChannelHubControlData::CommandResponse))
            } else if report_id == SHUB_PROD_ID_RESP {
                Ok(BnoPacket::ChannelHubControl(ChannelHubControlData::ProdIdResponse))
            } else if report_id == SHUB_GET_FEATURE_RESP {
                Ok(BnoPacket::ChannelHubControl(ChannelHubControlData::GetFeatureResponse))
            } else {
                Ok(BnoPacket::ChannelHubControl(ChannelHubControlData::Unknown(report_id)))
            }
        } else if channel == CHANNEL_SENSOR_REPORTS {
            match parse_sensor_reports(msg) {
                Ok(p) => Ok(p),
                Err(e) => Err(DriverError::ParseError(e)),
            }
        } else {
            Err(DriverError::UnknownData)
        }
    }

    /// Poll for one frame: read a header, parse its declared length (0
    /// means no data is available, the expected idle condition), read the
    /// whole frame, and decode it by channel. A declared length that is
    /// nonzero yet shorter than a header is a corrupt frame and a parse
    /// error; its bytes are still consumed from the transport. Each error
    /// is tied below to the received bytes that cause it: no-data only
    /// with a header that parses to 0, a parse error only for a frame
    /// shorter than a header or a malformed sensor-reports frame, and
    /// unknown-data only for an unrecognized channel byte.
    pub fn receive_packet(&mut self) -> (r: Result<BnoPacket, DriverError<CI::ComError>>)
        ensures
            final(self).send_buf == old(self).send_buf,
            final(self).sequence_numbers == old(self).sequence_numbers,
            r matches Ok(p) ==> {
                &&& final(self).recv_buffer@.len() >= PACKET_HEADER_LENGTH
                &&& spec_packet_decoded(final(self).recv_buffer@, p)
            },
            r == Err::<BnoPacket, DriverError<CI::ComError>>(DriverError::NoDataAvailable) ==> {
                &&& final(self).recv_buffer@.len() == PACKET_HEADER_LENGTH
                &&& spec_header_len(final(self).recv_buffer@) == 0
            },
            r matches Err(DriverError::ParseError(_)) ==> {
                ||| final(self).recv_buffer@.len() < PACKET_HEADER_LENGTH
                ||| {
                    &&& final(self).recv_buffer@.len() >= PACKET_HEADER_LENGTH
                    &&& final(self).recv_buffer@[2] == CHANNEL_SENSOR_REPORTS
                    &&& !sensor_frame_ok(final(self).recv_buffer@)
                }
            },
            r == Err::<BnoPacket, DriverError<CI::ComError>>(DriverError::UnknownData) ==> {
                &&& final(self).recv_buffer@.len() >= PACKET_HEADER_LENGTH
                &&& !(final(self).recv_buffer@[2] == CHANNEL_COMMAND
                    || final(self).recv_buffer@[2] == CHANNEL_EXECUTABLE
                    || final(self).recv_buffer@[2] == CHANNEL_HUB_CONTROL
                    || final(self).recv_buffer@[2] == CHANNEL_SENSOR_REPORTS)
            },
            r matches Err(e) ==> !(e matches DriverError::InvalidChipId(_)) && !(
            e matches DriverError::InvalidFWVersion(_)),
    {
        match self.read_packet_header() {
            Ok(()) => (),
            Err(e) => {
                return Err(e);
            }
        }
        let packet_len = parse_packet_header(
            vstd::slice::slice_subrange(self.recv_buffer.as_slice(), 0, PACKET_HEADER_LENGTH),
        );
        if packet_len == 0 {
            return Err(DriverError::NoDataAvailable);
        }

        match self.interface.read_bytes(packet_len) {
            Ok(v) => {
                self.recv_buffer = v;
            }
            Err(e) => {
                return Err(DriverError::CommError(e));
            }
        }
        if packet_len < PACKET_HEADER_LENGTH {
            return Err(DriverError::ParseError(BnoPacketParseError::Unknown));
        }

        proof {
            assert(self.recv_buffer@.subrange(0, packet_len as int) =~= self.recv_buffer@);
        }
        self.process_packet(packet_len)
    }
}

} // verus!
