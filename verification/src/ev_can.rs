//! EV-CAN frame codec: bidirectional mapping between the closed set of
//! typed vehicle message variants and raw `(11-bit arbitration id, payload
//! bytes)` pairs, with CRC8 (polynomial 0x85) validation on the variants
//! that carry a checksum byte.
//!
//! Decoding is fail-closed: a frame that fails any check yields no parsed
//! value. Multi-byte numeric fields use little-endian byte order.

use vstd::prelude::*;

use crate::crc8::{calc_crc8, crc8, crc8_table, generate_lookup, lemma_crc8_detects_single_byte_change};

verus! {

#[derive(Debug, PartialEq, Eq, Structural, Clone, Copy)]
pub enum EvCanError {
    /// Wrong payload length for a known arbitration id.
    BadDlc,
    /// The recomputed checksum does not match the trailing CRC byte.
    BadCrc,
    /// The frame carries no payload.
    NoData,
    /// The variant is telemetry that this controller never originates.
    ReceiveOnly,
    /// The arbitration id belongs to no known variant.
    UnknownFrame,
}

// VCM -> Inverter
pub const VCM_KEEPALIVE1_ID: u16 = 0x11a;
pub const TORQUE_REQUEST_ID: u16 = 0x14d;
pub const VCM_KEEPALIVE2_ID: u16 = 0x50b;

// Inverter -> VCM
pub const INVERTER_STATUS_ID: u16 = 0x1da;
pub const INVERTER_TEMPERATURE_ID: u16 = 0x55a;

/// The polynomial of the vehicle-specific CRC8.
pub const NISSAN_CRC_POLYNOMIAL: u8 = 0x85;

#[derive(Debug, PartialEq, Eq, Structural, Clone, Copy)]
pub enum EvCanFrame {
    VcmKeepalive1 { counter: u8 },
    VcmKeepalive2,
    TorqueRequest { torque: i16, counter: u8 },
    InverterStatus { millivolt: u32, rpm: i16, current: i16, error: u8 },
    InverterTemperature { motor_temperature: u8, inverter_temperature: u8 },
}

/// A raw CAN data frame as the codec sees it: a standard arbitration id
/// and up to 8 payload bytes. The transport driver converts between this
/// and its own frame type at the bus boundary.
#[derive(Debug)]
pub struct CanFrame {
    pub id: u16,
    pub data: Vec<u8>,
}

/// A `u16` assembled from two little-endian bytes.
pub open spec fn spec_u16_of_le(lo: u8, hi: u8) -> u16 {
    (lo as u16) | ((hi as u16) << 8)
}

/// An `i16` reinterpreted from two little-endian bytes.
pub open spec fn spec_i16_of_le(lo: u8, hi: u8) -> i16 {
    spec_u16_of_le(lo, hi) as i16
}

/// The table of the vehicle-specific CRC8 polynomial.
pub open spec fn spec_nissan_table() -> Seq<u8> {
    crc8_table(NISSAN_CRC_POLYNOMIAL)
}

/// The first 7 bytes of the torque-request payload: two header bytes, the
/// torque in little-endian order, the 2-bit counter stored pre-shifted
/// left by 6, and two fixed bytes.
pub open spec fn spec_torque_request_prefix(torque: i16, counter: u8) -> Seq<u8> {
    let t = torque as u16;
    seq![
        0x6eu8,
        0x6eu8,
        (t & 0xff) as u8,
        (t >> 8) as u8,
        counter << 6,
        0x44u8,
        0x01u8,
    ]
}

/// The 8-byte torque-request payload: the prefix followed by its CRC.
pub open spec fn spec_torque_request_payload(torque: i16, counter: u8) -> Seq<u8> {
    let prefix = spec_torque_request_prefix(torque, counter);
    prefix.push(crc8(spec_nissan_table(), prefix))
}

/// The first 7 bytes of the first keep-alive payload: fixed bytes and the
/// 8-bit counter.
pub open spec fn spec_vcm_keepalive1_prefix(counter: u8) -> Seq<u8> {
    seq![0x4eu8, 0x40u8, 0x00u8, 0xaau8, 0xc0u8, 0x00u8, counter]
}

/// The 8-byte first keep-alive payload: the prefix followed by its CRC.
pub open spec fn spec_vcm_keepalive1_payload(counter: u8) -> Seq<u8> {
    let prefix = spec_vcm_keepalive1_prefix(counter);
    prefix.push(crc8(spec_nissan_table(), prefix))
}

/// The fixed 7-byte second keep-alive payload; it carries no CRC.
pub open spec fn spec_vcm_keepalive2_payload() -> Seq<u8> {
    seq![0x00u8, 0x00u8, 0x06u8, 0xc0u8, 0x00u8, 0x00u8, 0x00u8]
}

/// What encoding a variant produces: the arbitration id and payload for
/// the three variants this controller may send, and `ReceiveOnly` for the
/// telemetry variants.
pub open spec fn spec_encode(frame: EvCanFrame) -> Result<(u16, Seq<u8>), EvCanError> {
    match frame {
        EvCanFrame::TorqueRequest { torque, counter } => Ok(
            (TORQUE_REQUEST_ID, spec_torque_request_payload(torque, counter)),
        ),
        EvCanFrame::VcmKeepalive1 { counter } => Ok(
            (VCM_KEEPALIVE1_ID, spec_vcm_keepalive1_payload(counter)),
        ),
        EvCanFrame::VcmKeepalive2 => Ok((VCM_KEEPALIVE2_ID, spec_vcm_keepalive2_payload())),
        _ => Err(EvCanError::ReceiveOnly),
    }
}

/// What decoding an 8-byte torque-request payload yields: `BadCrc` unless
/// the CRC over the first 7 bytes equals the trailing byte, else the
/// little-endian torque and the counter taken from the top 2 bits of its
/// byte.
pub open spec fn spec_decode_torque_request(data: Seq<u8>) -> Result<EvCanFrame, EvCanError>
    recommends
        data.len() == 8,
{
    if crc8(spec_nissan_table(), data.subrange(0, 7)) != data[7] {
        Err(EvCanError::BadCrc)
    } else {
        Ok(
            EvCanFrame::TorqueRequest {
                torque: spec_i16_of_le(data[2], data[3]),
                counter: data[4] >> 6,
            },
        )
    }
}

/// What decoding a 7-byte inverter-status payload yields: the raw
/// little-endian unsigned 16-bit voltage field scaled by 500 to
/// millivolts, the signed current and rpm, and the error byte.
pub open spec fn spec_decode_inverter_status(data: Seq<u8>) -> Result<EvCanFrame, EvCanError>
    recommends
        data.len() == 7,
{
    Ok(
        EvCanFrame::InverterStatus {
            millivolt: (spec_u16_of_le(data[0], data[1]) * 500) as u32,
            current: spec_i16_of_le(data[2], data[3]),
            rpm: spec_i16_of_le(data[4], data[5]),
            error: data[6],
        },
    )
}

/// What decoding an inverter-temperature payload yields: the two leading
/// temperature bytes.
pub open spec fn spec_decode_inverter_temperature(data: Seq<u8>) -> Result<EvCanFrame, EvCanError>
    recommends
        data.len() >= 2,
{
    Ok(
        EvCanFrame::InverterTemperature {
            motor_temperature: data[0],
            inverter_temperature: data[1],
        },
    )
}

/// What decoding a raw frame yields, fail-closed: unknown ids are
/// rejected first, then a missing payload, then a wrong payload length
/// for the known id, then a CRC mismatch; only then are fields extracted.
pub open spec fn spec_decode(id: u16, data: Option<Seq<u8>>) -> Result<EvCanFrame, EvCanError> {
    if id != TORQUE_REQUEST_ID && id != INVERTER_STATUS_ID && id != INVERTER_TEMPERATURE_ID {
        Err(EvCanError::UnknownFrame)
    } else {
        match data {
            None => Err(EvCanError::NoData),
            Some(d) => if id == TORQUE_REQUEST_ID {
                if d.len() != 8 {
                    Err(EvCanError::BadDlc)
                } else {
                    spec_decode_torque_request(d)
                }
            } else if id == INVERTER_STATUS_ID {
                if d.len() != 7 {
                    Err(EvCanError::BadDlc)
                } else {
                    spec_decode_inverter_status(d)
                }
            } else {
                if d.len() < 2 {
                    Err(EvCanError::BadDlc)
                } else {
                    spec_decode_inverter_temperature(d)
                }
            },
        }
    }
}

impl EvCanFrame {
    /// Build the 8-byte torque-request payload, computing and appending
    /// the CRC byte.
    pub fn to_torque_request_data(torque: i16, counter: u8) -> (data: Vec<u8>)
        ensures
            data@ == spec_torque_request_payload(torque, counter),
            data@.len() == 8,
    {
        let t: u16 = #[verifier::truncate] (torque as u16);
        let mut data: Vec<u8> = Vec::new();
        data.push(0x6e);
        data.push(0x6e);
        data.push(#[verifier::truncate] ((t & 0xff) as u8));
        data.push(#[verifier::truncate] ((t >> 8) as u8));
        data.push(counter << 6);
        data.push(0x44);
        data.push(0x01);
        proof {
            assert(data@ =~= spec_torque_request_prefix(torque, counter));
        }
        let table = generate_lookup(NISSAN_CRC_POLYNOMIAL);
        let crc = calc_crc8(data.as_slice(), table.as_slice());
        data.push(crc);
        data
    }

    /// Build the 8-byte first keep-alive payload, computing and appending
    /// the CRC byte.
    pub fn to_vcm_keepalive1_data(counter: u8) -> (data: Vec<u8>)
        ensures
            data@ == spec_vcm_keepalive1_payload(counter),
            data@.len() == 8,
    {
        let mut data: Vec<u8> = Vec::new();
        data.push(0x4e);
        data.push(0x40);
        data.push(0x00);
        data.push(0xaa);
        data.push(0xc0);
        data.push(0x00);
        data.push(counter);
        proof {
            assert(data@ =~= spec_vcm_keepalive1_prefix(counter));
        }
        let table = generate_lookup(NISSAN_CRC_POLYNOMIAL);
        let crc = calc_crc8(data.as_slice(), table.as_slice());
        data.push(crc);
        data
    }

    /// Build the fixed 7-byte second keep-alive payload (no CRC).
    pub fn to_vcm_keepalive2_data() -> (data: Vec<u8>)
        ensures
            data@ == spec_vcm_keepalive2_payload(),
            data@.len() == 7,
    {
        let mut data: Vec<u8> = Vec::new();
        data.push(0x00);
        data.push(0x00);
        data.push(0x06);
        data.push(0xc0);
        data.push(0x00);
        data.push(0x00);
        data.push(0x00);
        proof {
            assert(data@ =~= spec_vcm_keepalive2_payload());
        }
        data
    }

    /// Decode an 8-byte torque-request payload, recomputing the CRC before
    /// extracting any field.
    pub fn from_torque_request_data(data: &[u8]) -> (r: Result<EvCanFrame, EvCanError>)
        requires
            data@.len() == 8,
        ensures
            r == spec_decode_torque_request(data@),
    {
        let table = generate_lookup(NISSAN_CRC_POLYNOMIAL);
        let crc = calc_crc8(&data[0..7], table.as_slice());
        if crc != data[7] {
            Err(EvCanError::BadCrc)
        } else {
            let raw: u16 = (data[2] as u16) | ((data[3] as u16) << 8);
            let torque: i16 = #[verifier::truncate] (raw as i16);
            let counter: u8 = data[4] >> 6;
            Ok(EvCanFrame::TorqueRequest { torque, counter })
        }
    }

    /// Decode a 7-byte inverter-status payload.
    pub fn from_inverter_status_data(data: &[u8]) -> (r: Result<EvCanFrame, EvCanError>)
        requires
            data@.len() == 7,
        ensures
            r == spec_decode_inverter_status(data@),
    {
        let raw_volt: u16 = (data[0] as u16) | ((data[1] as u16) << 8);
        let millivolt: u32 = (raw_volt as u32) * 500;
        let raw_current: u16 = (data[2] as u16) | ((data[3] as u16) << 8);
        let current: i16 = #[verifier::truncate] (raw_current as i16);
        let raw_rpm: u16 = (data[4] as u16) | ((data[5] as u16) << 8);
        let rpm: i16 = #[verifier::truncate] (raw_rpm as i16);
        let error: u8 = data[6];
        Ok(EvCanFrame::InverterStatus { millivolt, rpm, current, error })
    }

    /// Decode an inverter-temperature payload of at least 2 bytes.
    pub fn from_inverter_temperature_data(data: &[u8]) -> (r: Result<EvCanFrame, EvCanError>)
        requires
            data@.len() >= 2,
        ensures
            r == spec_decode_inverter_temperature(data@),
    {
        let motor_temperature: u8 = data[0];
        let inverter_temperature: u8 = data[1];
        Ok(EvCanFrame::InverterTemperature { motor_temperature, inverter_temperature })
    }

    /// Encode this variant into a raw frame, computing the CRC fresh where
    /// the layout carries one. The telemetry variants are rejected with
    /// `ReceiveOnly`.
    pub fn encode(&self) -> (r: Result<CanFrame, EvCanError>)
        ensures
            r matches Ok(f) ==> {
                &&& spec_encode(*self) matches Ok(p)
                &&& f.id == p.0
                &&& f.data@ == p.1
                &&& f.id <= 0x7ff
                &&& f.data@.len() <= 8
            },
            r matches Err(e) ==> spec_encode(*self) == Err::<(u16, Seq<u8>), EvCanError>(e),
            r is Ok <==> spec_encode(*self) is Ok,
    {
        match self {
            EvCanFrame::TorqueRequest { torque, counter } => Ok(
                CanFrame {
                    id: TORQUE_REQUEST_ID,
                    data: EvCanFrame::to_torque_request_data(*torque, *counter),
                },
            ),
            EvCanFrame::VcmKeepalive1 { counter } => Ok(
                CanFrame { id: VCM_KEEPALIVE1_ID, data: EvCanFrame::to_vcm_keepalive1_data(*counter) },
            ),
            EvCanFrame::VcmKeepalive2 => Ok(
                CanFrame { id: VCM_KEEPALIVE2_ID, data: EvCanFrame::to_vcm_keepalive2_data() },
            ),
            _ => Err(EvCanError::ReceiveOnly),
        }
    }

    /// Decode a raw arbitration id and optional payload into a typed
    /// variant, fail-closed.
    pub fn decode(id: u16, data: Option<&[u8]>) -> (r: Result<EvCanFrame, EvCanError>)
        ensures
            data matches Some(d) ==> r == spec_decode(id, Some(d@)),
            data is None ==> r == spec_decode(id, None::<Seq<u8>>),
    {
        if id != TORQUE_REQUEST_ID && id != INVERTER_STATUS_ID && id != INVERTER_TEMPERATURE_ID {
            return Err(EvCanError::UnknownFrame);
        }
        let d = match data {
            Some(d) => d,
            None => {
                return Err(EvCanError::NoData);
            },
        };
        if id == TORQUE_REQUEST_ID {
            if d.len() != 8 {
                Err(EvCanError::BadDlc)
            } else {
                EvCanFrame::from_torque_request_data(d)
            }
        } else if id == INVERTER_STATUS_ID {
            if d.len() != 7 {
                Err(EvCanError::BadDlc)
            } else {
                EvCanFrame::from_inverter_status_data(d)
            }
        } else {
            if d.len() < 2 {
                Err(EvCanError::BadDlc)
            } else {
                EvCanFrame::from_inverter_temperature_data(d)
            }
        }
    }
}

#[verifier::external_type_specification]
#[verifier::external_body]
pub struct ExBxcanFrame(bxcan::Frame);

/// The standard arbitration id a bus frame carries, or `None` for an
/// extended-id frame: a function of the frame value alone.
pub uninterp spec fn bxcan_frame_std_id(frame: bxcan::Frame) -> Option<u16>;

/// The payload bytes a bus frame carries, or `None` for a remote frame:
/// a function of the frame value alone.
pub uninterp spec fn bxcan_frame_payload(frame: bxcan::Frame) -> Option<Seq<u8>>;

/// Whether a bus frame's stored data length fits its 8-byte payload
/// array: a function of the frame value alone. Every frame built through
/// bxcan's public constructors satisfies it; only a frame read raw from
/// the CAN peripheral's receive registers can carry a malformed 4-bit
/// data length code of 9 to 15, on which bxcan's payload accessors panic.
/// Whoever hands such register-read frames to this library owes this
/// well-formedness fact for them.
pub uninterp spec fn bxcan_frame_len_ok(frame: bxcan::Frame) -> bool;

/// Relies on bxcan::Frame::new_data, bxcan::StandardId::new and
/// bxcan::Data::new: builds a standard-id CAN data frame from a raw id of
/// at most 0x7ff and at most 8 payload bytes (both constructors accept
/// exactly those ranges). The frame stores the checked id and the given
/// bytes, and Frame::id and Frame::data recover exactly them.
#[verifier::external_body]
fn bxcan_new_standard_data_frame(id: u16, data: &[u8]) -> (r: bxcan::Frame)
    requires
        id <= 0x7ff,
        data@.len() <= 8,
    ensures
        bxcan_frame_std_id(r) == Some(id),
        bxcan_frame_payload(r) == Some(data@),
        bxcan_frame_len_ok(r),
{
    bxcan::Frame::new_data(
        bxcan::StandardId::new(id).unwrap(),
        bxcan::Data::new(data).unwrap(),
    )
}

/// Relies on bxcan::Frame::id: returns the frame's standard identifier,
/// whose raw value is an 11-bit integer of at most 0x7ff however the
/// frame was made, and `None` for an extended-id frame.
#[verifier::external_body]
fn bxcan_frame_standard_id(frame: &bxcan::Frame) -> (r: Option<u16>)
    ensures
        r == bxcan_frame_std_id(*frame),
        r matches Some(id) ==> id <= 0x7ff,
{
    match frame.id() {
        bxcan::Id::Standard(id) => Some(id.as_raw()),
        bxcan::Id::Extended(_) => None,
    }
}

/// Relies on bxcan::Frame::data: returns a data frame's 0 to 8 payload
/// bytes, and `None` for a remote frame. The well-formedness `requires`
/// excludes the one panicking input: on a frame whose stored length
/// exceeds 8 (possible only for frames read raw from the CAN
/// peripheral's receive registers), bxcan's accessor would slice past
/// its 8-byte array and panic.
#[verifier::external_body]
fn bxcan_frame_data(frame: &bxcan::Frame) -> (r: Option<Vec<u8>>)
    requires
        bxcan_frame_len_ok(*frame),
    ensures
        r matches Some(d) ==> {
            &&& bxcan_frame_payload(*frame) == Some(d@)
            &&& d@.len() <= 8
        },
        r is None ==> bxcan_frame_payload(*frame) is None,
{
    match frame.data() {
        Some(d) => Some(d.to_vec()),
        None => None,
    }
}

impl EvCanFrame {
    /// Encode this variant and hand it to the bus driver's frame type.
    /// Succeeds exactly when the variant is one this controller may send,
    /// and the returned frame carries exactly the arbitration id and
    /// payload that `encode` produces.
    pub fn to_bxcan_frame(&self) -> (r: Result<bxcan::Frame, EvCanError>)
        ensures
            r is Ok <==> spec_encode(*self) is Ok,
            r matches Ok(f) ==> {
                &&& spec_encode(*self) matches Ok(p)
                &&& bxcan_frame_std_id(f) == Some(p.0)
                &&& bxcan_frame_payload(f) == Some(p.1)
                &&& bxcan_frame_len_ok(f)
            },
            r matches Err(e) ==> spec_encode(*self) == Err::<(u16, Seq<u8>), EvCanError>(e),
    {
        match self.encode() {
            Ok(raw) => Ok(bxcan_new_standard_data_frame(raw.id, raw.data.as_slice())),
            Err(e) => Err(e),
        }
    }

    /// Decode a frame received from the bus driver: take its standard id
    /// and payload apart and run the fail-closed decoder on them, so the
    /// result is exactly what `spec_decode` says of the frame's contents.
    /// An extended-id frame is rejected as `UnknownFrame`, and a
    /// successfully decoded frame is never one of the send-only
    /// keep-alive variants.
    ///
    /// The caller owes the frame's length well-formedness: it holds of
    /// every frame bxcan's public constructors (and `to_bxcan_frame`)
    /// build, and the driver reading frames out of the CAN peripheral's
    /// registers must discard one whose data length code exceeds 8, since
    /// bxcan offers no panic-free way to inspect such a frame afterwards.
    pub fn from_bxcan_frame(frame: &bxcan::Frame) -> (r: Result<EvCanFrame, EvCanError>)
        requires
            bxcan_frame_len_ok(*frame),
        ensures
            bxcan_frame_std_id(*frame) is None ==> r == Err::<EvCanFrame, EvCanError>(
                EvCanError::UnknownFrame,
            ),
            bxcan_frame_std_id(*frame) matches Some(id) ==> r == spec_decode(
                id,
                bxcan_frame_payload(*frame),
            ),
            r matches Ok(f) ==> !(f is VcmKeepalive1 || f is VcmKeepalive2),
    {
        let id = match bxcan_frame_standard_id(frame) {
            Some(id) => id,
            None => {
                return Err(EvCanError::UnknownFrame);
            },
        };
        match bxcan_frame_data(frame) {
            Some(d) => EvCanFrame::decode(id, Some(d.as_slice())),
            None => EvCanFrame::decode(id, None),
        }
    }
}

/// Law: decoding the bytes produced by encoding a torque request yields
/// back the same torque and counter, for every torque and every counter
/// that fits its 2-bit field.
pub proof fn lemma_torque_request_round_trip(torque: i16, counter: u8)
    requires
        counter < 4,
    ensures
        spec_decode(TORQUE_REQUEST_ID, Some(spec_torque_request_payload(torque, counter)))
            == Ok::<EvCanFrame, EvCanError>(EvCanFrame::TorqueRequest { torque, counter }),
{
    let payload = spec_torque_request_payload(torque, counter);
    let t = torque as u16;
    let prefix = spec_torque_request_prefix(torque, counter);
    assert(payload.subrange(0, 7) =~= prefix);
    assert(payload[7] == crc8(spec_nissan_table(), prefix));
    let lo = (t & 0xff) as u8;
    let hi = (t >> 8) as u8;
    assert(((lo as u16) | ((hi as u16) << 8)) == t) by (bit_vector)
        requires
            lo == (t & 0xff) as u8,
            hi == (t >> 8) as u8,
    ;
    assert(((torque as u16) as i16) == torque) by (bit_vector);
    assert(((counter << 6) >> 6) == counter) by (bit_vector)
        requires
            counter < 4,
    ;
}

/// Law: corrupting any single byte (in particular, flipping any single
/// bit) of a valid encoded torque-request frame, whether in the data
/// bytes or in the CRC byte itself, makes decoding fail with `BadCrc`;
/// a coincidentally equal checksum is impossible.
pub proof fn lemma_torque_request_tamper_detected(original: Seq<u8>, tampered: Seq<u8>, k: int)
    requires
        original.len() == 8,
        spec_decode(TORQUE_REQUEST_ID, Some(original)) is Ok,
        tampered.len() == 8,
        0 <= k < 8,
        original[k] != tampered[k],
        forall|j: int| 0 <= j < 8 && j != k ==> original[j] == tampered[j],
    ensures
        spec_decode(TORQUE_REQUEST_ID, Some(tampered)) == Err::<EvCanFrame, EvCanError>(
            EvCanError::BadCrc,
        ),
{
    assert(NISSAN_CRC_POLYNOMIAL & 1 == 1) by (bit_vector);
    if k == 7 {
        assert(tampered.subrange(0, 7) =~= original.subrange(0, 7));
    } else {
        assert(original.subrange(0, 7)[k] == original[k]);
        assert(tampered.subrange(0, 7)[k] == tampered[k]);
        lemma_crc8_detects_single_byte_change(
            NISSAN_CRC_POLYNOMIAL,
            original.subrange(0, 7),
            tampered.subrange(0, 7),
            k,
        );
        assert(tampered[7] == original[7]);
    }
}

} // verus!
