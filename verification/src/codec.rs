//! Packet codec: builds outbound frames and parses inbound datagrams into
//! typed messages.
//!
//! A framed packet is a 9-byte header `[0xCC, length_field (2, LE),
//! header crc8 (1), packet type (1), command id (2, LE), sequence (2, LE)]`,
//! followed by the payload, followed by a 2-byte little-endian trailer
//! checksum over everything before it.  The length field is
//! `(payload_len + 11) << 3`; the low three bits are reserved and always
//! zero.  The header checksum covers only the first three bytes.

use vstd::prelude::*;

use crate::checksum::{crc16, crc16_of, crc8, crc8_of};
use crate::protocol::{
    spec_command_code, spec_command_from_code, spec_packet_type_code, CommandIds, PackageTypes,
    START_OF_PACKET,
};
use crate::telemetry::{
    spec_flight_data, spec_log_id, spec_log_message_bytes, spec_trim_nul,
    bytes_to_string, trim_nul, FlightData, LightInfo, LogMessage, WifiInfo,
};

verus! {

/// The largest payload a frame can carry: the length field must hold
/// `(payload_len + 11) << 3` in 16 bits.
pub const MAX_PAYLOAD: usize = 8180;

/// The two bytes of a 16-bit value in little-endian order.
pub open spec fn spec_u16_le(v: u16) -> Seq<u8> {
    seq![(v & 0xff) as u8, ((v >> 8) & 0xff) as u8]
}

/// The 16-bit value read from two bytes in little-endian order.
pub open spec fn spec_u16_from_le(lo: u8, hi: u8) -> u16 {
    ((lo as u16) + (hi as u16) * 256) as u16
}

/// The eight bytes of a 64-bit value in little-endian order.
pub open spec fn spec_u64_le(v: u64) -> Seq<u8> {
    seq![
        (v & 0xff) as u8,
        ((v >> 8) & 0xff) as u8,
        ((v >> 16) & 0xff) as u8,
        ((v >> 24) & 0xff) as u8,
        ((v >> 32) & 0xff) as u8,
        ((v >> 40) & 0xff) as u8,
        ((v >> 48) & 0xff) as u8,
        ((v >> 56) & 0xff) as u8,
    ]
}

/// Reading the two little-endian bytes of a value gives the value back.
pub proof fn lemma_u16_le_roundtrip(v: u16)
    by (bit_vector)
    ensures
        (((v & 0xff) as u8) as u16) + ((((v >> 8) & 0xff) as u8) as u16) * 256 == v,
{
}

/// The length field written for a payload of `plen` bytes.
pub open spec fn spec_len_field(plen: u16) -> u16 {
    (((plen + 11) as u16) << 3) as u16
}

/// The length field decodes back to the payload length for every payload
/// that fits a frame.
pub proof fn lemma_len_field_roundtrip(plen: u16)
    by (bit_vector)
    requires
        plen <= 8180,
    ensures
        ((((plen + 11) as u16) << 3) as u16) >> 3 == plen + 11,
{
}

/// The header bytes of a frame: start marker, length field, header checksum,
/// packet type, command code, sequence number.
pub open spec fn spec_header(ptype: u8, code: u16, seq: u16, plen: u16) -> Seq<u8> {
    let first3 = seq![START_OF_PACKET] + spec_u16_le(spec_len_field(plen));
    first3 + seq![crc8_of(first3), ptype] + spec_u16_le(code) + spec_u16_le(seq)
}

/// The complete wire image of a command: header, payload and the 16-bit
/// trailer checksum over both.
pub open spec fn spec_frame(cmd: CommandIds, ptype: PackageTypes, seq: u16, payload: Seq<u8>) -> Seq<
    u8,
> {
    let body = spec_header(
        spec_packet_type_code(ptype),
        spec_command_code(cmd),
        seq,
        payload.len() as u16,
    ) + payload;
    body + spec_u16_le(crc16_of(body))
}

/// An outbound command before serialization: command id, packet-type tag,
/// the zero-sequence mark, and the payload accumulated by the typed writers.
#[derive(Debug, Clone)]
pub struct UdpCommand {
    pub cmd: CommandIds,
    pub pkt_type: PackageTypes,
    pub zero_sqn: bool,
    pub inner: Vec<u8>,
}

impl UdpCommand {
    /// A new command with an empty payload, sequenced from the engine's
    /// counter when serialized.
    pub fn new(cmd: CommandIds, pkt_type: PackageTypes) -> (r: UdpCommand)
        ensures
            r.cmd == cmd,
            r.pkt_type == pkt_type,
            !r.zero_sqn,
            r.inner@ == Seq::<u8>::empty(),
    {
        UdpCommand { cmd, pkt_type, zero_sqn: false, inner: Vec::new() }
    }

    /// A new command with an empty payload whose sequence field is always
    /// written as zero.
    pub fn new_with_zero_sqn(cmd: CommandIds, pkt_type: PackageTypes) -> (r: UdpCommand)
        ensures
            r.cmd == cmd,
            r.pkt_type == pkt_type,
            r.zero_sqn,
            r.inner@ == Seq::<u8>::empty(),
    {
        UdpCommand { cmd, pkt_type, zero_sqn: true, inner: Vec::new() }
    }

    /// Appends raw bytes to the payload.
    pub fn write(&mut self, bytes: &[u8])
        ensures
            final(self).inner@ == old(self).inner@ + bytes@,
            final(self).cmd == old(self).cmd,
            final(self).pkt_type == old(self).pkt_type,
            final(self).zero_sqn == old(self).zero_sqn,
    {
        self.inner.extend_from_slice(bytes);
    }

    /// Appends one byte to the payload.
    pub fn write_u8(&mut self, byte: u8)
        ensures
            final(self).inner@ == old(self).inner@.push(byte),
            final(self).cmd == old(self).cmd,
            final(self).pkt_type == old(self).pkt_type,
            final(self).zero_sqn == old(self).zero_sqn,
    {
        self.inner.push(byte);
    }

    /// Appends a 16-bit value to the payload in little-endian order.
    pub fn write_u16(&mut self, value: u16)
        ensures
            final(self).inner@ == old(self).inner@ + spec_u16_le(value),
            final(self).cmd == old(self).cmd,
            final(self).pkt_type == old(self).pkt_type,
            final(self).zero_sqn == old(self).zero_sqn,
    {
        self.inner.push((value & 0xff) as u8);
        self.inner.push(((value >> 8) & 0xff) as u8);
        proof {
            assert(final(self).inner@ =~= old(self).inner@ + spec_u16_le(value));
        }
    }

    /// Appends a 64-bit value to the payload in little-endian order.
    pub fn write_u64(&mut self, value: u64)
        ensures
            final(self).inner@ == old(self).inner@ + spec_u64_le(value),
            final(self).cmd == old(self).cmd,
            final(self).pkt_type == old(self).pkt_type,
            final(self).zero_sqn == old(self).zero_sqn,
    {
        self.inner.push((value & 0xff) as u8);
        self.inner.push(((value >> 8) & 0xff) as u8);
        self.inner.push(((value >> 16) & 0xff) as u8);
        self.inner.push(((value >> 24) & 0xff) as u8);
        self.inner.push(((value >> 32) & 0xff) as u8);
        self.inner.push(((value >> 40) & 0xff) as u8);
        self.inner.push(((value >> 48) & 0xff) as u8);
        self.inner.push(((value >> 56) & 0xff) as u8);
        proof {
            assert(final(self).inner@ =~= old(self).inner@ + spec_u64_le(value));
        }
    }

    /// Serializes the command with the given sequence number: header,
    /// payload, and the trailer checksum appended last.
    pub fn serialize(&self, seq: u16) -> (r: Vec<u8>)
        requires
            self.inner@.len() <= MAX_PAYLOAD as nat,
        ensures
            r@ == spec_frame(self.cmd, self.pkt_type, seq, self.inner@),
    {
        let plen: u16 = self.inner.len() as u16;
        let lf: u16 = (plen + 11) << 3;
        let mut data: Vec<u8> = Vec::new();
        data.push(START_OF_PACKET);
        data.push((lf & 0xff) as u8);
        data.push(((lf >> 8) & 0xff) as u8);
        proof {
            assert(data@ =~= seq![START_OF_PACKET] + spec_u16_le(spec_len_field(plen)));
        }
        let c8 = crc8(&data);
        data.push(c8);
        data.push(self.pkt_type.code());
        let code = self.cmd.code();
        data.push((code & 0xff) as u8);
        data.push(((code >> 8) & 0xff) as u8);
        data.push((seq & 0xff) as u8);
        data.push(((seq >> 8) & 0xff) as u8);
        data.extend_from_slice(self.inner.as_slice());
        proof {
            assert(data@ =~= spec_header(
                spec_packet_type_code(self.pkt_type),
                spec_command_code(self.cmd),
                seq,
                self.inner@.len() as u16,
            ) + self.inner@);
        }
        let c16 = crc16(&data);
        data.push((c16 & 0xff) as u8);
        data.push(((c16 >> 8) & 0xff) as u8);
        proof {
            assert(data@ =~= spec_frame(self.cmd, self.pkt_type, seq, self.inner@));
        }
        data
    }
}

/// Framing round-trip: the wire image of a command splits back into a frame
/// whose announced size equals the payload length, with the same command
/// code, the same sequence number and the same payload bytes, for every
/// payload that fits a frame.
pub proof fn lemma_frame_roundtrip(
    cmd: CommandIds,
    ptype: PackageTypes,
    seq: u16,
    payload: Seq<u8>,
)
    requires
        payload.len() <= MAX_PAYLOAD as nat,
    ensures
        ({
            let f = spec_frame(cmd, ptype, seq, payload);
            &&& spec_frame_header_ok(f)
            &&& spec_frame_size(f) == payload.len()
            &&& spec_u16_from_le(f[5], f[6]) == spec_command_code(cmd)
            &&& spec_u16_from_le(f[7], f[8]) == seq
            &&& spec_frame_payload(f) == payload
        }),
{
    let plen = payload.len() as u16;
    let lf = spec_len_field(plen);
    let code = spec_command_code(cmd);
    let f = spec_frame(cmd, ptype, seq, payload);
    assert(f.len() == 11 + payload.len());
    assert(f[0] == START_OF_PACKET);
    assert(f[1] == (lf & 0xff) as u8);
    assert(f[2] == ((lf >> 8) & 0xff) as u8);
    assert(f[5] == (code & 0xff) as u8);
    assert(f[6] == ((code >> 8) & 0xff) as u8);
    assert(f[7] == (seq & 0xff) as u8);
    assert(f[8] == ((seq >> 8) & 0xff) as u8);
    lemma_u16_le_roundtrip(lf);
    lemma_u16_le_roundtrip(code);
    lemma_u16_le_roundtrip(seq);
    lemma_len_field_roundtrip(plen);
    assert(spec_u16_from_le(f[1], f[2]) == lf);
    assert(lf >> 3 == plen + 11);
    assert(spec_frame_size(f) == plen);
    assert(spec_frame_payload(f) =~= payload);
}

/// The header checksum is invariant under packet type, command id, sequence
/// and payload content: it is computed over the first three bytes alone, so
/// two frames with equal payload lengths carry the same checksum byte.
pub proof fn lemma_header_crc_depends_on_length_only(
    cmd1: CommandIds,
    ptype1: PackageTypes,
    seq1: u16,
    payload1: Seq<u8>,
    cmd2: CommandIds,
    ptype2: PackageTypes,
    seq2: u16,
    payload2: Seq<u8>,
)
    requires
        payload1.len() == payload2.len(),
    ensures
        spec_frame(cmd1, ptype1, seq1, payload1)[3] == spec_frame(cmd2, ptype2, seq2, payload2)[3],
{
    let first3 = seq![START_OF_PACKET] + spec_u16_le(spec_len_field(payload1.len() as u16));
    assert(spec_frame(cmd1, ptype1, seq1, payload1)[3] == crc8_of(first3));
    assert(spec_frame(cmd2, ptype2, seq2, payload2)[3] == crc8_of(first3));
}

/// Why a datagram failed to decode.
#[derive(Debug, Clone, Copy, PartialEq, Eq, Structural)]
pub enum DecodeError {
    /// Too few bytes for the layout its leading bytes announce.
    Truncated,
    /// The datagram matches no recognised framing.
    InvalidPackage,
    /// A text field is not valid UTF-8.
    InvalidText,
}

/// The header fields and raw payload of a framed packet, before the payload
/// is interpreted.
#[derive(Debug, Clone)]
pub struct RawPackage {
    pub cmd_code: u16,
    pub size: u16,
    pub sq_nr: u16,
    pub payload: Vec<u8>,
}

/// Whether a datagram opens like a framed packet: the start marker followed
/// by a complete header whose length field is at least the fixed overhead.
pub open spec fn spec_frame_header_ok(d: Seq<u8>) -> bool {
    d.len() >= 9 && d[0] == START_OF_PACKET && spec_u16_from_le(d[1], d[2]) >> 3 >= 11
}

/// The size announced by the header: the length field shifted down, minus
/// the 11 bytes of header and trailer.
pub open spec fn spec_frame_size(d: Seq<u8>) -> u16 {
    ((spec_u16_from_le(d[1], d[2]) >> 3) - 11) as u16
}

/// The raw payload bytes of a framed packet: everything after the header,
/// with the two trailer bytes stripped when they are present.
pub open spec fn spec_frame_payload(d: Seq<u8>) -> Seq<u8> {
    if d.len() >= 11 {
        d.subrange(9, d.len() - 2)
    } else {
        d.subrange(9, d.len() as int)
    }
}

impl RawPackage {
    /// Splits a framed datagram into its header fields and raw payload.  The
    /// checksum bytes are stripped and discarded, not re-verified.  Returns
    /// `None` when the datagram is shorter than a header or its length field
    /// is below the fixed overhead.
    pub fn split(data: &Vec<u8>) -> (r: Option<RawPackage>)
        requires
            data@.len() >= 1,
            data@[0] == START_OF_PACKET,
        ensures
            r is Some <==> spec_frame_header_ok(data@),
            r is Some ==> r->0.cmd_code == spec_u16_from_le(data@[5], data@[6]),
            r is Some ==> r->0.size == spec_frame_size(data@),
            r is Some ==> r->0.sq_nr == spec_u16_from_le(data@[7], data@[8]),
            r is Some ==> r->0.payload@ == spec_frame_payload(data@),
    {
        if data.len() < 9 {
            return None;
        }
        let lf: u16 = (data[1] as u16) + (data[2] as u16) * 256;
        let shifted: u16 = lf >> 3;
        if shifted < 11 {
            return None;
        }
        let size: u16 = shifted - 11;
        let cmd_code: u16 = (data[5] as u16) + (data[6] as u16) * 256;
        let sq_nr: u16 = (data[7] as u16) + (data[8] as u16) * 256;
        let end: usize = if data.len() >= 11 {
            data.len() - 2
        } else {
            data.len()
        };
        let mut payload: Vec<u8> = Vec::new();
        let mut i: usize = 9;
        while i < end
            invariant
                9 <= i <= end <= data@.len(),
                payload@ =~= data@.subrange(9, i as int),
            decreases end - i,
        {
            payload.push(data[i]);
            i = i + 1;
        }
        proof {
            assert(payload@ =~= spec_frame_payload(data@));
        }
        Some(RawPackage { cmd_code, size, sq_nr, payload })
    }
}

/// Parsed payload of a data package, dispatched by command id.  Unknown but
/// well-framed command ids decode to `Unknown`, never to an error.
#[derive(Debug, Clone)]
pub enum PackageData {
    NoData,
    AtlInfo(u16),
    FlightData(FlightData),
    LightInfo(LightInfo),
    LogMessage(LogMessage),
    Version(String),
    WifiInfo(WifiInfo),
    Unknown(Vec<u8>),
}

/// A data package received from the vehicle, with its payload decoded where
/// the command id is known.
#[derive(Debug, Clone)]
pub struct Package {
    pub cmd: CommandIds,
    pub size: u16,
    pub sq_nr: u16,
    pub data: PackageData,
}

/// A free-text acknowledgement from the vehicle.
#[derive(Debug, Clone)]
pub enum ResponseMsg {
    Connected(String),
    UnknownCommand(CommandIds),
}

/// An incoming message: a data package, a free-text response, or a completed
/// video frame.
#[derive(Debug, Clone)]
pub enum Message {
    Data(Package),
    Response(ResponseMsg),
    Frame(u32, Vec<u8>),
}

/// Whether a payload decodes successfully for a command id: known ids need
/// their documented minimum length (and valid UTF-8 where they carry text);
/// unknown ids always decode, to an opaque byte record.
pub open spec fn spec_decode_ok(cmd: CommandIds, p: Seq<u8>) -> bool {
    match cmd {
        CommandIds::FlightMsg => p.len() >= 24,
        CommandIds::WifiMsg => p.len() >= 2,
        CommandIds::LightMsg => p.len() >= 1,
        CommandIds::VersionMsg => p.len() >= 1 && vstd::utf8::valid_utf8(spec_trim_nul(p.skip(1))),
        CommandIds::AltLimitMsg => p.len() >= 3,
        CommandIds::LogHeaderMsg => p.len() >= 11 && vstd::utf8::valid_utf8(
            spec_log_message_bytes(p),
        ),
        _ => true,
    }
}

/// The decode failure reported for a payload that does not decode: too few
/// bytes, or invalid UTF-8 in a text field.
pub open spec fn spec_decode_err(cmd: CommandIds, p: Seq<u8>) -> DecodeError {
    match cmd {
        CommandIds::VersionMsg => if p.len() < 1 {
            DecodeError::Truncated
        } else {
            DecodeError::InvalidText
        },
        CommandIds::LogHeaderMsg => if p.len() < 11 {
            DecodeError::Truncated
        } else {
            DecodeError::InvalidText
        },
        _ => DecodeError::Truncated,
    }
}

/// What a successfully decoded payload holds, field by field, for each
/// command id.
pub open spec fn spec_data_matches(cmd: CommandIds, p: Seq<u8>, d: PackageData) -> bool {
    match cmd {
        CommandIds::FlightMsg => d matches PackageData::FlightData(fd) && fd == spec_flight_data(
            p,
        ),
        CommandIds::WifiMsg => d matches PackageData::WifiInfo(w) && w.strength == p[0]
            && w.disturb == p[1],
        CommandIds::LightMsg => d matches PackageData::LightInfo(l) && l.good == p[0],
        CommandIds::VersionMsg => d matches PackageData::Version(s) && s@
            == vstd::utf8::decode_utf8(spec_trim_nul(p.skip(1))),
        CommandIds::AltLimitMsg => d matches PackageData::AtlInfo(h) && h == spec_u16_from_le(
            p[1],
            p[2],
        ),
        CommandIds::LogHeaderMsg => d matches PackageData::LogMessage(lm) && lm.id == spec_log_id(
            p,
        ) && lm.message@ == vstd::utf8::decode_utf8(spec_log_message_bytes(p)),
        _ => d matches PackageData::Unknown(raw) && raw@ == p,
    }
}

/// Copies the bytes of `data` from index `from` to the end.
pub fn copy_from(data: &Vec<u8>, from: usize) -> (r: Vec<u8>)
    requires
        from <= data@.len(),
    ensures
        r@ == data@.skip(from as int),
{
    let mut out: Vec<u8> = Vec::new();
    let mut i: usize = from;
    while i < data.len()
        invariant
            from <= i <= data@.len(),
            out@ =~= data@.subrange(from as int, i as int),
        decreases data@.len() - i,
    {
        out.push(data[i]);
        i = i + 1;
    }
    proof {
        assert(out@ =~= data@.skip(from as int));
    }
    out
}

/// Interprets the raw payload of a framed packet for a command id.
pub fn decode_payload(cmd: CommandIds, payload: Vec<u8>) -> (r: Result<PackageData, DecodeError>)
    ensures
        r is Ok <==> spec_decode_ok(cmd, payload@),
        r is Ok ==> spec_data_matches(cmd, payload@, r->Ok_0),
        r is Err ==> r->Err_0 == spec_decode_err(cmd, payload@),
{
    match cmd {
        CommandIds::FlightMsg => match FlightData::from_bytes(&payload) {
            Some(fd) => Ok(PackageData::FlightData(fd)),
            None => Err(DecodeError::Truncated),
        },
        CommandIds::WifiMsg => match WifiInfo::from_bytes(&payload) {
            Some(w) => Ok(PackageData::WifiInfo(w)),
            None => Err(DecodeError::Truncated),
        },
        CommandIds::LightMsg => match LightInfo::from_bytes(&payload) {
            Some(l) => Ok(PackageData::LightInfo(l)),
            None => Err(DecodeError::Truncated),
        },
        CommandIds::VersionMsg => {
            if payload.len() < 1 {
                return Err(DecodeError::Truncated);
            }
            let tail = copy_from(&payload, 1);
            let trimmed = trim_nul(&tail);
            match bytes_to_string(trimmed) {
                Some(s) => Ok(PackageData::Version(s)),
                None => Err(DecodeError::InvalidText),
            }
        },
        CommandIds::AltLimitMsg => {
            if payload.len() < 3 {
                return Err(DecodeError::Truncated);
            }
            let h: u16 = (payload[1] as u16) + (payload[2] as u16) * 256;
            Ok(PackageData::AtlInfo(h))
        },
        CommandIds::LogHeaderMsg => {
            if payload.len() < 11 {
                return Err(DecodeError::Truncated);
            }
            match LogMessage::from_bytes(&payload) {
                Some(lm) => Ok(PackageData::LogMessage(lm)),
                None => Err(DecodeError::InvalidText),
            }
        },
        _ => Ok(PackageData::Unknown(payload)),
    }
}

/// The bytes of the `conn_ack:` acknowledgement prefix.
pub open spec fn spec_conn_ack_prefix() -> Seq<u8> {
    seq![0x63u8, 0x6fu8, 0x6eu8, 0x6eu8, 0x5fu8, 0x61u8, 0x63u8, 0x6bu8, 0x3au8]
}

/// The bytes of the `unknown command:` reply prefix.
pub open spec fn spec_unknown_cmd_prefix() -> Seq<u8> {
    seq![
        0x75u8,
        0x6eu8,
        0x6bu8,
        0x6eu8,
        0x6fu8,
        0x77u8,
        0x6eu8,
        0x20u8,
        0x63u8,
        0x6fu8,
        0x6du8,
        0x6du8,
        0x61u8,
        0x6eu8,
        0x64u8,
        0x3au8,
    ]
}

/// Whether a datagram is a connection acknowledgement: it opens with
/// `conn_ack:`.
pub open spec fn spec_is_conn_ack(d: Seq<u8>) -> bool {
    d.len() >= 9 && d.subrange(0, 9) == spec_conn_ack_prefix()
}

/// Whether a datagram is an unknown-command reply: it opens with
/// `unknown command:`.
pub open spec fn spec_is_unknown_cmd(d: Seq<u8>) -> bool {
    d.len() >= 16 && d.subrange(0, 16) == spec_unknown_cmd_prefix()
}

fn conn_ack_prefix() -> (r: Vec<u8>)
    ensures
        r@ == spec_conn_ack_prefix(),
{
    let mut v: Vec<u8> = Vec::new();
    v.push(0x63);
    v.push(0x6f);
    v.push(0x6e);
    v.push(0x6e);
    v.push(0x5f);
    v.push(0x61);
    v.push(0x63);
    v.push(0x6b);
    v.push(0x3a);
    proof {
        assert(v@ =~= spec_conn_ack_prefix());
    }
    v
}

fn unknown_cmd_prefix() -> (r: Vec<u8>)
    ensures
        r@ == spec_unknown_cmd_prefix(),
{
    let mut v: Vec<u8> = Vec::new();
    v.push(0x75);
    v.push(0x6e);
    v.push(0x6b);
    v.push(0x6e);
    v.push(0x6f);
    v.push(0x77);
    v.push(0x6e);
    v.push(0x20);
    v.push(0x63);
    v.push(0x6f);
    v.push(0x6d);
    v.push(0x6d);
    v.push(0x61);
    v.push(0x6e);
    v.push(0x64);
    v.push(0x3a);
    proof {
        assert(v@ =~= spec_unknown_cmd_prefix());
    }
    v
}

/// Whether `data` begins with the bytes of `prefix`.
fn has_prefix(data: &Vec<u8>, prefix: &Vec<u8>) -> (r: bool)
    ensures
        r <==> (data@.len() >= prefix@.len() && data@.subrange(0, prefix@.len() as int)
            == prefix@),
{
    if data.len() < prefix.len() {
        return false;
    }
    let mut i: usize = 0;
    while i < prefix.len()
        invariant
            0 <= i <= prefix@.len() <= data@.len(),
            forall|k: int| 0 <= k < i ==> data@[k] == prefix@[k],
        decreases prefix@.len() - i,
    {
        if data[i] != prefix[i] {
            proof {
                let sub = data@.subrange(0, prefix@.len() as int);
                assert(sub[i as int] == data@[i as int]);
            }
            return false;
        }
        i = i + 1;
    }
    proof {
        assert(data@.subrange(0, prefix@.len() as int) =~= prefix@);
    }
    true
}

/// Whether a datagram parses to a message at all: a well-framed packet whose
/// payload decodes for its command id, or one of the two free-text
/// acknowledgement forms with enough bytes (and valid UTF-8 where text is
/// kept).
pub open spec fn spec_parse_ok(d: Seq<u8>) -> bool {
    if d.len() >= 1 && d[0] == START_OF_PACKET {
        spec_frame_header_ok(d) && (spec_frame_size(d) == 0 || spec_decode_ok(
            spec_command_from_code(spec_u16_from_le(d[5], d[6])),
            spec_frame_payload(d),
        ))
    } else if spec_is_conn_ack(d) {
        vstd::utf8::valid_utf8(d)
    } else if spec_is_unknown_cmd(d) {
        d.len() >= 19
    } else {
        false
    }
}

/// The full relation between a datagram and its parse: which branch of the
/// wire grammar applies, what message it yields, and which failure it
/// reports otherwise.
pub open spec fn spec_parse_result_matches(d: Seq<u8>, r: Result<Message, DecodeError>) -> bool {
    if d.len() >= 1 && d[0] == START_OF_PACKET {
        if !spec_frame_header_ok(d) {
            r matches Err(e) && e == (if d.len() < 9 {
                DecodeError::Truncated
            } else {
                DecodeError::InvalidPackage
            })
        } else {
            let cmd = spec_command_from_code(spec_u16_from_le(d[5], d[6]));
            let size = spec_frame_size(d);
            let p = spec_frame_payload(d);
            if size == 0 {
                r matches Ok(m) && m matches Message::Data(pkg) && pkg.cmd == cmd && pkg.size
                    == size && pkg.sq_nr == spec_u16_from_le(d[7], d[8])
                    && pkg.data matches PackageData::NoData
            } else if spec_decode_ok(cmd, p) {
                r matches Ok(m) && m matches Message::Data(pkg) && pkg.cmd == cmd && pkg.size
                    == size && pkg.sq_nr == spec_u16_from_le(d[7], d[8]) && spec_data_matches(
                    cmd,
                    p,
                    pkg.data,
                )
            } else {
                r matches Err(e) && e == spec_decode_err(cmd, p)
            }
        }
    } else if spec_is_conn_ack(d) {
        if vstd::utf8::valid_utf8(d) {
            r matches Ok(m) && m matches Message::Response(ResponseMsg::Connected(s)) && s@
                == vstd::utf8::decode_utf8(d)
        } else {
            r matches Err(e) && e == DecodeError::InvalidText
        }
    } else if spec_is_unknown_cmd(d) {
        if d.len() >= 19 {
            r matches Ok(m) && m matches Message::Response(ResponseMsg::UnknownCommand(c)) && c
                == spec_command_from_code(spec_u16_from_le(d[17], d[18]))
        } else {
            r matches Err(e) && e == DecodeError::Truncated
        }
    } else {
        r matches Err(e) && e == DecodeError::InvalidPackage
    }
}

impl Message {
    /// Parses one datagram from the command channel into a typed message.
    ///
    /// A datagram opening with the start marker is split as a framed packet
    /// and its payload interpreted by command id; anything else is read as
    /// one of the two free-text acknowledgement forms, and any other content
    /// is a decode failure, never a crash.
    pub fn parse(data: Vec<u8>) -> (r: Result<Message, DecodeError>)
        ensures
            r is Ok <==> spec_parse_ok(data@),
            spec_parse_result_matches(data@, r),
    {
        if data.len() >= 1 && data[0] == START_OF_PACKET {
            match RawPackage::split(&data) {
                None => {
                    if data.len() < 9 {
                        Err(DecodeError::Truncated)
                    } else {
                        Err(DecodeError::InvalidPackage)
                    }
                },
                Some(raw) => {
                    let cmd = CommandIds::from_code(raw.cmd_code);
                    if raw.size == 0 {
                        Ok(
                            Message::Data(
                                Package {
                                    cmd,
                                    size: raw.size,
                                    sq_nr: raw.sq_nr,
                                    data: PackageData::NoData,
                                },
                            ),
                        )
                    } else {
                        match decode_payload(cmd, raw.payload) {
                            Ok(pd) => Ok(
                                Message::Data(
                                    Package { cmd, size: raw.size, sq_nr: raw.sq_nr, data: pd },
                                ),
                            ),
                            Err(e) => Err(e),
                        }
                    }
                },
            }
        } else {
            let ca = conn_ack_prefix();
            if has_prefix(&data, &ca) {
                match bytes_to_string(data) {
                    Some(s) => Ok(Message::Response(ResponseMsg::Connected(s))),
                    None => Err(DecodeError::InvalidText),
                }
            } else {
                let uc = unknown_cmd_prefix();
                if has_prefix(&data, &uc) {
                    if data.len() >= 19 {
                        let code: u16 = (data[17] as u16) + (data[18] as u16) * 256;
                        Ok(Message::Response(ResponseMsg::UnknownCommand(CommandIds::from_code(code))))
                    } else {
                        Err(DecodeError::Truncated)
                    }
                } else {
                    Err(DecodeError::InvalidPackage)
                }
            }
        }
    }
}

} // verus!
