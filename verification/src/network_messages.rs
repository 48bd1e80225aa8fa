//! The two handshake wire messages and their binary envelope.
//!
//! Every message travels in a fixed-layout envelope: the network magic, a
//! 12-byte NUL-padded ASCII command name, the payload length (32-bit
//! little-endian), a checksum (the first four bytes of the double-SHA256
//! digest of the payload) and the payload itself. The Version payload
//! advertises protocol version, service flags, a timestamp, both endpoint
//! addresses, a fresh random nonce, a user-agent string and a start height;
//! the Verack payload is empty — its presence alone carries meaning.

use vstd::prelude::*;
use vstd::bytes::{
    lemma_auto_spec_u32_to_from_le_bytes, lemma_auto_spec_u64_to_from_le_bytes,
    spec_u32_from_le_bytes, spec_u32_to_le_bytes, spec_u64_from_le_bytes, spec_u64_to_le_bytes,
};

use crate::codec::{
    copy_range, bytes_eq, i32_to_u32, i64_to_u64, push_compact_size, push_u16_be, push_u32_le,
    push_u64_be, push_u64_le, read_compact_size, read_u16_be, read_u32_le, read_u64_be,
    read_u64_le, spec_compact_size, spec_decode_compact_size, spec_i32_to_u32, spec_i64_to_u64,
    spec_u16_from_be_bytes, spec_u16_to_be_bytes, spec_u32_to_i32, spec_u64_from_be_bytes,
    spec_u64_to_be_bytes, spec_u64_to_i64, u32_to_i32, u64_to_i64,
};
use crate::peer::PeerAddr;

verus! {

/// The protocol version this node advertises.
pub const PROTOCOL_VERSION: u32 = 70001;

/// Service flags advertised by this node: none.
pub const SERVICES_NONE: u64 = 0;

// ---------------------------------------------------------------------------
// Wire constants
// ---------------------------------------------------------------------------

/// The network magic of the target network's main net.
pub open spec fn spec_magic() -> Seq<u8> {
    seq![0xF9u8, 0xBEu8, 0xB4u8, 0xD9u8]
}

/// The 12-byte command name of the Version message.
pub open spec fn spec_version_command() -> Seq<u8> {
    seq![0x76u8, 0x65u8, 0x72u8, 0x73u8, 0x69u8, 0x6Fu8, 0x6Eu8, 0u8, 0u8, 0u8, 0u8, 0u8]
}

/// The 12-byte command name of the Verack (acknowledgment) message.
pub open spec fn spec_verack_command() -> Seq<u8> {
    seq![0x76u8, 0x65u8, 0x72u8, 0x61u8, 0x63u8, 0x6Bu8, 0u8, 0u8, 0u8, 0u8, 0u8, 0u8]
}

/// The fixed user-agent string this node advertises, as bytes.
pub open spec fn spec_user_agent() -> Seq<u8> {
    seq![
        0x75u8, 0x73u8, 0x65u8, 0x72u8, 0x2Du8, 0x61u8, 0x67u8, 0x65u8, 0x6Eu8, 0x74u8,
        0x2Du8, 0x62u8, 0x69u8, 0x74u8, 0x63u8, 0x6Fu8, 0x69u8, 0x6Eu8, 0x2Du8, 0x70u8,
        0x32u8, 0x70u8, 0x2Du8, 0x68u8, 0x61u8, 0x6Eu8, 0x64u8, 0x73u8, 0x68u8, 0x61u8,
        0x6Bu8, 0x65u8,
    ]
}

pub fn magic_bytes() -> (r: Vec<u8>)
    ensures
        r@ == spec_magic(),
{
    let mut v: Vec<u8> = Vec::new();
    v.push(0xF9);
    v.push(0xBE);
    v.push(0xB4);
    v.push(0xD9);
    assert(v@ =~= spec_magic());
    v
}

pub fn version_command() -> (r: Vec<u8>)
    ensures
        r@ == spec_version_command(),
{
    let mut v: Vec<u8> = Vec::new();
    v.push(0x76);
    v.push(0x65);
    v.push(0x72);
    v.push(0x73);
    v.push(0x69);
    v.push(0x6F);
    v.push(0x6E);
    let mut i: usize = 0;
    while i < 5
        invariant
            i <= 5,
            v@ =~= spec_version_command().take(7 + i as int),
        decreases 5 - i,
    {
        v.push(0u8);
        i = i + 1;
        assert(v@ =~= spec_version_command().take(7 + i as int));
    }
    assert(v@ =~= spec_version_command());
    v
}

pub fn verack_command() -> (r: Vec<u8>)
    ensures
        r@ == spec_verack_command(),
{
    let mut v: Vec<u8> = Vec::new();
    v.push(0x76);
    v.push(0x65);
    v.push(0x72);
    v.push(0x61);
    v.push(0x63);
    v.push(0x6B);
    let mut i: usize = 0;
    while i < 6
        invariant
            i <= 6,
            v@ =~= spec_verack_command().take(6 + i as int),
        decreases 6 - i,
    {
        v.push(0u8);
        i = i + 1;
        assert(v@ =~= spec_verack_command().take(6 + i as int));
    }
    assert(v@ =~= spec_verack_command());
    v
}

/// The user-agent string this node advertises in its Version message.
pub fn default_user_agent() -> (r: Vec<u8>)
    ensures
        r@ == spec_user_agent(),
{
    let mut v: Vec<u8> = Vec::new();
    v.push(0x75);
    v.push(0x73);
    v.push(0x65);
    v.push(0x72);
    v.push(0x2D);
    v.push(0x61);
    v.push(0x67);
    v.push(0x65);
    v.push(0x6E);
    v.push(0x74);
    v.push(0x2D);
    v.push(0x62);
    v.push(0x69);
    v.push(0x74);
    v.push(0x63);
    v.push(0x6F);
    v.push(0x69);
    v.push(0x6E);
    v.push(0x2D);
    v.push(0x70);
    v.push(0x32);
    v.push(0x70);
    v.push(0x2D);
    v.push(0x68);
    v.push(0x61);
    v.push(0x6E);
    v.push(0x64);
    v.push(0x73);
    v.push(0x68);
    v.push(0x61);
    v.push(0x6B);
    v.push(0x65);
    assert(v@ =~= spec_user_agent());
    v
}

// ---------------------------------------------------------------------------
// Trusted items: the payload digest, the clock and the nonce source
// ---------------------------------------------------------------------------

/// The double-SHA256 digest of a byte sequence, as the outside hash
/// implementation computes it. The digest is a function of the bytes alone.
pub uninterp spec fn sha256d_of(data: Seq<u8>) -> Seq<u8>;

/// Relies on bitcoin::hashes::sha256d::Hash::hash: the 32-byte double-SHA256
/// digest of the input, a function of the input bytes alone.
#[verifier::external_body]
fn sha256d(data: &Vec<u8>) -> (r: Vec<u8>)
    ensures
        r@ == sha256d_of(data@),
        r@.len() == 32,
{
    let h = <bitcoin::hashes::sha256d::Hash as bitcoin::hashes::Hash>::hash(data.as_slice());
    <bitcoin::hashes::sha256d::Hash as bitcoin::hashes::Hash>::into_inner(h).to_vec()
}

/// Relies on rand::thread_rng and rand::Rng::gen: a fresh random 64-bit
/// value; nothing can be promised of it.
#[verifier::external_body]
fn random_nonce() -> u64 {
    rand::Rng::gen(&mut rand::thread_rng())
}

/// Relies on chrono::Utc::now and DateTime::timestamp: the wall clock as
/// seconds since the epoch; nothing can be promised of the clock's reading.
#[verifier::external_body]
fn unix_time_now() -> i64 {
    chrono::Utc::now().timestamp()
}

// ---------------------------------------------------------------------------
// Typed messages and their mathematical model
// ---------------------------------------------------------------------------

/// The fields of a Version message, as mathematical values.
#[verifier::ext_equal]
pub ghost struct VersionFields {
    pub version: u32,
    pub services: u64,
    pub timestamp: i64,
    pub receiver: PeerAddr,
    pub sender: PeerAddr,
    pub nonce: u64,
    pub user_agent: Seq<u8>,
    pub start_height: i32,
}

/// The Version message payload: the advertisement each side sends first.
/// All fields are advisory negotiation data; none is validated beyond
/// structural decoding.
pub struct VersionPayload {
    pub version: u32,
    pub services: u64,
    pub timestamp: i64,
    pub receiver: PeerAddr,
    pub sender: PeerAddr,
    pub nonce: u64,
    pub user_agent: Vec<u8>,
    pub start_height: i32,
}

impl View for VersionPayload {
    type V = VersionFields;

    open spec fn view(&self) -> VersionFields {
        VersionFields {
            version: self.version,
            services: self.services,
            timestamp: self.timestamp,
            receiver: self.receiver,
            sender: self.sender,
            nonce: self.nonce,
            user_agent: self.user_agent@,
            start_height: self.start_height,
        }
    }
}

/// A decoded wire message.
pub enum Message {
    Version(VersionPayload),
    Verack,
}

/// The mathematical model of a decoded wire message.
#[verifier::ext_equal]
pub ghost enum MessageModel {
    Version(VersionFields),
    Verack,
}

impl View for Message {
    type V = MessageModel;

    open spec fn view(&self) -> MessageModel {
        match self {
            Message::Version(p) => MessageModel::Version(p@),
            Message::Verack => MessageModel::Verack,
        }
    }
}

/// Why parsing an envelope failed.
#[derive(Clone, Copy, Debug, PartialEq, Eq, Structural)]
pub enum DecodeError {
    /// The bytes end before the envelope does: the truncated-stream case.
    Truncated,
    /// The first four bytes are not the network magic.
    BadMagic,
    /// The checksum field does not match the payload digest.
    BadChecksum,
    /// The command name is neither Version nor Verack.
    UnknownCommand,
    /// The payload does not decode as the command requires.
    BadPayload,
}

// ---------------------------------------------------------------------------
// Encoding
// ---------------------------------------------------------------------------

/// A network address as embedded in the Version payload: service flags,
/// the 16-byte IP and the big-endian port.
pub open spec fn spec_net_addr(services: u64, addr: PeerAddr) -> Seq<u8> {
    spec_u64_to_le_bytes(services) + spec_u64_to_be_bytes(addr.ip_hi) + spec_u64_to_be_bytes(
        addr.ip_lo,
    ) + spec_u16_to_be_bytes(addr.port)
}

/// The Version payload encoding: each field in wire order, signed fields as
/// their two's-complement unsigned value, the user agent prefixed with its
/// compact-size length.
pub open spec fn spec_encode_version(v: VersionFields) -> Seq<u8> {
    spec_u32_to_le_bytes(v.version) + spec_u64_to_le_bytes(v.services) + spec_u64_to_le_bytes(
        spec_i64_to_u64(v.timestamp),
    ) + spec_net_addr(v.services, v.receiver) + spec_net_addr(v.services, v.sender)
        + spec_u64_to_le_bytes(v.nonce) + spec_compact_size(v.user_agent.len() as u64)
        + v.user_agent + spec_u32_to_le_bytes(spec_i32_to_u32(v.start_height))
}

/// The checksum field: the first four bytes of the payload digest.
pub open spec fn spec_checksum(payload: Seq<u8>) -> Seq<u8> {
    Seq::new(4, |i: int| sha256d_of(payload)[i])
}

/// A full envelope: magic, command, payload length, checksum, payload.
pub open spec fn spec_envelope(command: Seq<u8>, payload: Seq<u8>) -> Seq<u8>
    recommends
        command.len() == 12,
        payload.len() <= 0xFFFF_FFFF,
{
    spec_magic() + command + spec_u32_to_le_bytes(payload.len() as u32) + spec_checksum(payload)
        + payload
}

fn checksum4(payload: &Vec<u8>) -> (r: Vec<u8>)
    ensures
        r@ == spec_checksum(payload@),
{
    let h = sha256d(payload);
    let mut out: Vec<u8> = Vec::new();
    out.push(h[0]);
    out.push(h[1]);
    out.push(h[2]);
    out.push(h[3]);
    assert(out@ =~= spec_checksum(payload@));
    out
}

/// Wraps a payload in its envelope.
fn seal_envelope(command: Vec<u8>, payload: Vec<u8>) -> (r: Vec<u8>)
    requires
        command@.len() == 12,
        payload@.len() <= 0xFFFF_FFFF,
    ensures
        r@ == spec_envelope(command@, payload@),
{
    let mut command = command;
    let mut payload = payload;
    let ghost command_view = command@;
    let ghost payload_view = payload@;
    let mut out = magic_bytes();
    out.append(&mut command);
    push_u32_le(&mut out, payload.len() as u32);
    let mut ck = checksum4(&payload);
    out.append(&mut ck);
    out.append(&mut payload);
    assert(out@ =~= spec_envelope(command_view, payload_view));
    out
}

fn push_net_addr(out: &mut Vec<u8>, services: u64, addr: PeerAddr)
    ensures
        final(out)@ == old(out)@ + spec_net_addr(services, addr),
{
    push_u64_le(out, services);
    push_u64_be(out, addr.ip_hi);
    push_u64_be(out, addr.ip_lo);
    push_u16_be(out, addr.port);
    assert(out@ =~= old(out)@ + spec_net_addr(services, addr));
}

/// Encodes a Version payload (the envelope is added by
/// [`serialize_version`]).
pub fn encode_version_payload(p: &VersionPayload) -> (r: Vec<u8>)
    ensures
        r@ == spec_encode_version(p@),
{
    let mut out: Vec<u8> = Vec::new();
    push_u32_le(&mut out, p.version);
    push_u64_le(&mut out, p.services);
    push_u64_le(&mut out, i64_to_u64(p.timestamp));
    push_net_addr(&mut out, p.services, p.receiver);
    push_net_addr(&mut out, p.services, p.sender);
    push_u64_le(&mut out, p.nonce);
    push_compact_size(&mut out, p.user_agent.len() as u64);
    let mut ua = copy_range(p.user_agent.as_slice(), 0, p.user_agent.len());
    assert(ua@ == p.user_agent@);
    out.append(&mut ua);
    push_u32_le(&mut out, i32_to_u32(p.start_height));
    assert(out@ =~= spec_encode_version(p@));
    out
}

/// How long each piece of the compact-size encoding is.
pub proof fn lemma_compact_size_len(n: u64)
    ensures
        1 <= spec_compact_size(n).len() <= 9,
{
    vstd::bytes::lemma_auto_spec_u16_to_from_le_bytes();
    lemma_auto_spec_u32_to_from_le_bytes();
    lemma_auto_spec_u64_to_from_le_bytes();
}

/// The length of an encoded Version payload: the 84 fixed bytes plus the
/// user agent and its length prefix.
pub proof fn lemma_encode_version_len(v: VersionFields)
    ensures
        spec_encode_version(v).len() == 84 + spec_compact_size(v.user_agent.len() as u64).len()
            + v.user_agent.len(),
{
    vstd::bytes::lemma_auto_spec_u16_to_from_le_bytes();
    lemma_auto_spec_u32_to_from_le_bytes();
    lemma_auto_spec_u64_to_from_le_bytes();
}

/// Serialises a Version message into its envelope. The user agent is
/// bounded so that the payload length fits the envelope's 32-bit length
/// field.
pub fn serialize_version(p: &VersionPayload) -> (r: Vec<u8>)
    requires
        p.user_agent@.len() + 93 <= 0xFFFF_FFFF,
    ensures
        r@ == spec_envelope(spec_version_command(), spec_encode_version(p@)),
{
    let payload = encode_version_payload(p);
    proof {
        lemma_compact_size_len(p.user_agent@.len() as u64);
        lemma_encode_version_len(p@);
    }
    seal_envelope(version_command(), payload)
}

/// Builds the serialised Verack message: an envelope around the empty
/// payload.
pub fn make_verack_message_serialised() -> (r: Vec<u8>)
    ensures
        r@ == spec_envelope(spec_verack_command(), Seq::<u8>::empty()),
{
    let payload: Vec<u8> = Vec::new();
    assert(payload@ =~= Seq::<u8>::empty());
    seal_envelope(verack_command(), payload)
}

// ---------------------------------------------------------------------------
// Decoding
// ---------------------------------------------------------------------------

/// Decodes the peer address out of a 26-byte embedded network address. The
/// service-flag bytes are advisory and are not kept.
pub open spec fn spec_decode_net_addr(b: Seq<u8>) -> PeerAddr
    recommends
        b.len() == 26,
{
    PeerAddr {
        ip_hi: spec_u64_from_be_bytes(b.subrange(8, 16)),
        ip_lo: spec_u64_from_be_bytes(b.subrange(16, 24)),
        port: spec_u16_from_be_bytes(b.subrange(24, 26)),
    }
}

/// Decodes a Version payload; `None` unless the bytes are exactly one
/// well-formed payload.
pub open spec fn spec_decode_version(b: Seq<u8>) -> Option<VersionFields> {
    if b.len() < 85 {
        None
    } else {
        match spec_decode_compact_size(b.skip(80)) {
            None => None,
            Some((ua_len, csn)) => {
                if b.len() == 84 + csn + ua_len {
                    Some(
                        VersionFields {
                            version: spec_u32_from_le_bytes(b.subrange(0, 4)),
                            services: spec_u64_from_le_bytes(b.subrange(4, 12)),
                            timestamp: spec_u64_to_i64(
                                spec_u64_from_le_bytes(b.subrange(12, 20)),
                            ),
                            receiver: spec_decode_net_addr(b.subrange(20, 46)),
                            sender: spec_decode_net_addr(b.subrange(46, 72)),
                            nonce: spec_u64_from_le_bytes(b.subrange(72, 80)),
                            user_agent: b.subrange(80 + csn, 80 + csn + ua_len),
                            start_height: spec_u32_to_i32(
                                spec_u32_from_le_bytes(b.subrange(b.len() - 4, b.len() as int)),
                            ),
                        },
                    )
                } else {
                    None
                }
            },
        }
    }
}

/// Parses one envelope from the front of `b`: the value of
/// [`parse_next`], stated over byte sequences. On success the consumed
/// length is returned beside the message.
pub open spec fn spec_parse_next(b: Seq<u8>) -> Result<(MessageModel, int), DecodeError> {
    if b.len() < 24 {
        Err(DecodeError::Truncated)
    } else if b.subrange(0, 4) != spec_magic() {
        Err(DecodeError::BadMagic)
    } else {
        let command = b.subrange(4, 16);
        let payload_len = spec_u32_from_le_bytes(b.subrange(16, 20)) as int;
        if b.len() < 24 + payload_len {
            Err(DecodeError::Truncated)
        } else {
            let payload = b.subrange(24, 24 + payload_len);
            if b.subrange(20, 24) != spec_checksum(payload) {
                Err(DecodeError::BadChecksum)
            } else if command == spec_version_command() {
                match spec_decode_version(payload) {
                    Some(v) => Ok((MessageModel::Version(v), 24 + payload_len)),
                    None => Err(DecodeError::BadPayload),
                }
            } else if command == spec_verack_command() {
                if payload_len == 0 {
                    Ok((MessageModel::Verack, 24))
                } else {
                    Err(DecodeError::BadPayload)
                }
            } else {
                Err(DecodeError::UnknownCommand)
            }
        }
    }
}

fn read_net_addr(b: &[u8], off: usize) -> (r: PeerAddr)
    requires
        off + 26 <= b@.len(),
    ensures
        r == spec_decode_net_addr(b@.subrange(off as int, off + 26)),
{
    let n = b.len();
    let ip_hi = read_u64_be(b, off + 8);
    let ip_lo = read_u64_be(b, off + 16);
    let port = read_u16_be(b, off + 24);
    let ghost whole = b@.subrange(off as int, off + 26);
    assert(b@.subrange(off + 8, off + 16) =~= whole.subrange(8, 16));
    assert(b@.subrange(off + 16, off + 24) =~= whole.subrange(16, 24));
    assert(b@.subrange(off + 24, off + 26) =~= whole.subrange(24, 26));
    PeerAddr { ip_hi, ip_lo, port }
}

/// Decodes a Version payload; mirrors [`spec_decode_version`].
pub fn decode_version_payload(b: &Vec<u8>) -> (r: Option<VersionPayload>)
    ensures
        match r {
            Some(p) => spec_decode_version(b@) == Some(p@),
            None => spec_decode_version(b@) is None,
        },
{
    let n = b.len();
    if n < 85 {
        return None;
    }
    let bs = b.as_slice();
    let cs = read_compact_size(bs, 80);
    match cs {
        None => None,
        Some((ua_len, csn)) => {
            let rem = n - 84;
            if csn > rem {
                return None;
            }
            if ua_len != (rem - csn) as u64 {
                return None;
            }
            let ua_len_usize = rem - csn;
            let version = read_u32_le(bs, 0);
            let services = read_u64_le(bs, 4);
            let timestamp = u64_to_i64(read_u64_le(bs, 12));
            let receiver = read_net_addr(bs, 20);
            let sender = read_net_addr(bs, 46);
            let nonce = read_u64_le(bs, 72);
            let user_agent = copy_range(bs, 80 + csn, 80 + csn + ua_len_usize);
            let start_height = u32_to_i32(read_u32_le(bs, n - 4));
            let p = VersionPayload {
                version,
                services,
                timestamp,
                receiver,
                sender,
                nonce,
                user_agent,
                start_height,
            };
            assert(p@ =~= spec_decode_version(b@)->Some_0);
            Some(p)
        },
    }
}

/// Relates the value [`parse_next`] returns to the parse of the same bytes
/// stated over sequences.
pub open spec fn parse_result_matches(
    r: Result<(Message, usize), DecodeError>,
    s: Result<(MessageModel, int), DecodeError>,
) -> bool {
    match r {
        Ok((m, n)) => s is Ok && s->Ok_0.0 == m@ && s->Ok_0.1 == n as int,
        Err(e) => s is Err && s->Err_0 == e,
    }
}

/// Reads one envelope from the front of `bytes`, validates magic and
/// checksum, and decodes the payload according to the command name. On
/// success the number of bytes consumed is returned beside the message, so
/// a caller holding a buffered stream knows where the next envelope starts.
pub fn parse_next(bytes: &[u8]) -> (r: Result<(Message, usize), DecodeError>)
    ensures
        parse_result_matches(r, spec_parse_next(bytes@)),
{
    let n = bytes.len();
    if n < 24 {
        return Err(DecodeError::Truncated);
    }
    if !(bytes[0] == 0xF9 && bytes[1] == 0xBE && bytes[2] == 0xB4 && bytes[3] == 0xD9) {
        assert(bytes@.subrange(0, 4)[0] == bytes@[0]);
        assert(bytes@.subrange(0, 4)[1] == bytes@[1]);
        assert(bytes@.subrange(0, 4)[2] == bytes@[2]);
        assert(bytes@.subrange(0, 4)[3] == bytes@[3]);
        return Err(DecodeError::BadMagic);
    }
    assert(bytes@.subrange(0, 4) =~= spec_magic());
    let payload_len = read_u32_le(bytes, 16);
    let plen = payload_len as usize;
    if n - 24 < plen {
        return Err(DecodeError::Truncated);
    }
    let payload = copy_range(bytes, 24, 24 + plen);
    let ck = checksum4(&payload);
    let ck_expected = copy_range(bytes, 20, 24);
    if !bytes_eq(ck_expected.as_slice(), ck.as_slice()) {
        return Err(DecodeError::BadChecksum);
    }
    let cmd = copy_range(bytes, 4, 16);
    let vc = version_command();
    if bytes_eq(cmd.as_slice(), vc.as_slice()) {
        match decode_version_payload(&payload) {
            Some(p) => Ok((Message::Version(p), 24 + plen)),
            None => Err(DecodeError::BadPayload),
        }
    } else {
        let ac = verack_command();
        if bytes_eq(cmd.as_slice(), ac.as_slice()) {
            if plen == 0 {
                Ok((Message::Verack, 24))
            } else {
                Err(DecodeError::BadPayload)
            }
        } else {
            Err(DecodeError::UnknownCommand)
        }
    }
}

// ---------------------------------------------------------------------------
// Building the local messages
// ---------------------------------------------------------------------------

/// The Version fields this node advertises for a connection from
/// `local_peer` to `remote_peer`, with the given clock and nonce readings.
pub open spec fn spec_version_fields(
    local_peer: PeerAddr,
    remote_peer: PeerAddr,
    timestamp: i64,
    nonce: u64,
) -> VersionFields {
    VersionFields {
        version: PROTOCOL_VERSION,
        services: SERVICES_NONE,
        timestamp: timestamp,
        receiver: remote_peer,
        sender: local_peer,
        nonce: nonce,
        user_agent: spec_user_agent(),
        start_height: 0,
    }
}

/// Builds the local Version message: protocol version and user agent are
/// fixed, no services are advertised, the start height is zero, the
/// timestamp is the wall clock's reading and the nonce is drawn fresh from
/// the random source. Returns the advertised protocol version beside the
/// message.
pub fn new_version_message(local_peer: PeerAddr, remote_peer: PeerAddr) -> (r: (u32, Message))
    ensures
        r.0 == PROTOCOL_VERSION,
        exists|timestamp: i64, nonce: u64|
            r.1@ == MessageModel::Version(
                spec_version_fields(local_peer, remote_peer, timestamp, nonce),
            ),
{
    let timestamp = unix_time_now();
    let nonce = random_nonce();
    let payload = VersionPayload {
        version: PROTOCOL_VERSION,
        services: SERVICES_NONE,
        timestamp,
        receiver: remote_peer,
        sender: local_peer,
        nonce,
        user_agent: default_user_agent(),
        start_height: 0,
    };
    assert(payload@ =~= spec_version_fields(local_peer, remote_peer, timestamp, nonce));
    let message = Message::Version(payload);
    assert(message@ == MessageModel::Version(
        spec_version_fields(local_peer, remote_peer, timestamp, nonce),
    ));
    (PROTOCOL_VERSION, message)
}

/// Builds the local Version message and serialises it into its envelope.
/// Returns the advertised protocol version beside the bytes.
pub fn new_version_message_serialised(local_peer: PeerAddr, remote_peer: PeerAddr) -> (r: (
    u32,
    Vec<u8>,
))
    ensures
        r.0 == PROTOCOL_VERSION,
        exists|timestamp: i64, nonce: u64|
            r.1@ == spec_envelope(
                spec_version_command(),
                spec_encode_version(
                    spec_version_fields(local_peer, remote_peer, timestamp, nonce),
                ),
            ),
{
    let (version, message) = new_version_message(local_peer, remote_peer);
    match message {
        Message::Version(p) => {
            let ghost (timestamp, nonce) = choose|timestamp: i64, nonce: u64|
                p@ == spec_version_fields(local_peer, remote_peer, timestamp, nonce);
            assert(p.user_agent@.len() == 32);
            let bytes = serialize_version(&p);
            assert(bytes@ == spec_envelope(
                spec_version_command(),
                spec_encode_version(
                    spec_version_fields(local_peer, remote_peer, timestamp, nonce),
                ),
            ));
            (version, bytes)
        },
        Message::Verack => vstd::pervasive::unreached(),
    }
}

// ---------------------------------------------------------------------------
// Round-trip laws
// ---------------------------------------------------------------------------

/// Decoding an embedded network address reads back the address that was
/// encoded.
pub proof fn lemma_net_addr_round_trip(services: u64, addr: PeerAddr)
    ensures
        spec_net_addr(services, addr).len() == 26,
        spec_decode_net_addr(spec_net_addr(services, addr)) == addr,
{
    lemma_auto_spec_u64_to_from_le_bytes();
    crate::codec::lemma_u64_be_round_trip(addr.ip_hi);
    crate::codec::lemma_u64_be_round_trip(addr.ip_lo);
    crate::codec::lemma_u16_be_round_trip(addr.port);
    let b = spec_net_addr(services, addr);
    assert(b.subrange(8, 16) =~= spec_u64_to_be_bytes(addr.ip_hi));
    assert(b.subrange(16, 24) =~= spec_u64_to_be_bytes(addr.ip_lo));
    assert(b.subrange(24, 26) =~= spec_u16_to_be_bytes(addr.port));
}

/// Decoding an encoded Version payload reads back exactly the fields that
/// were encoded. The user agent is bounded so that the payload fits one
/// envelope.
pub proof fn lemma_decode_version_round_trip(v: VersionFields)
    requires
        v.user_agent.len() + 93 <= 0xFFFF_FFFF,
    ensures
        spec_decode_version(spec_encode_version(v)) == Some(v),
{
    vstd::bytes::lemma_auto_spec_u16_to_from_le_bytes();
    lemma_auto_spec_u32_to_from_le_bytes();
    lemma_auto_spec_u64_to_from_le_bytes();
    lemma_compact_size_len(v.user_agent.len() as u64);
    lemma_encode_version_len(v);
    let b = spec_encode_version(v);
    let ua_len = v.user_agent.len() as u64;
    let cs = spec_compact_size(ua_len);
    let csn = cs.len() as int;
    assert(b.skip(80) =~= cs + (v.user_agent + spec_u32_to_le_bytes(
        spec_i32_to_u32(v.start_height),
    )));
    crate::codec::lemma_compact_size_round_trip(
        ua_len,
        v.user_agent + spec_u32_to_le_bytes(spec_i32_to_u32(v.start_height)),
    );
    assert(spec_decode_compact_size(b.skip(80)) == Some((ua_len, csn)));
    assert(b.len() == 84 + csn + ua_len);
    assert(b.subrange(0, 4) =~= spec_u32_to_le_bytes(v.version));
    assert(b.subrange(4, 12) =~= spec_u64_to_le_bytes(v.services));
    assert(b.subrange(12, 20) =~= spec_u64_to_le_bytes(spec_i64_to_u64(v.timestamp)));
    assert(b.subrange(20, 46) =~= spec_net_addr(v.services, v.receiver));
    assert(b.subrange(46, 72) =~= spec_net_addr(v.services, v.sender));
    assert(b.subrange(72, 80) =~= spec_u64_to_le_bytes(v.nonce));
    assert(b.subrange(80 + csn, 80 + csn + ua_len) =~= v.user_agent);
    assert(b.subrange(b.len() - 4, b.len() as int) =~= spec_u32_to_le_bytes(
        spec_i32_to_u32(v.start_height),
    ));
    lemma_net_addr_round_trip(v.services, v.receiver);
    lemma_net_addr_round_trip(v.services, v.sender);
    crate::codec::lemma_i64_u64_round_trip(v.timestamp);
    crate::codec::lemma_i32_u32_round_trip(v.start_height);
    assert(spec_decode_version(b)->Some_0 =~= v);
}

/// Parsing an envelope sealed around an encoded Version payload yields that
/// payload back and consumes the whole envelope.
pub proof fn lemma_parse_version_envelope(v: VersionFields)
    requires
        v.user_agent.len() + 93 <= 0xFFFF_FFFF,
    ensures
        spec_parse_next(spec_envelope(spec_version_command(), spec_encode_version(v))) == Ok::<
            (MessageModel, int),
            DecodeError,
        >((MessageModel::Version(v), 24 + spec_encode_version(v).len() as int)),
{
    lemma_auto_spec_u32_to_from_le_bytes();
    lemma_compact_size_len(v.user_agent.len() as u64);
    lemma_encode_version_len(v);
    let payload = spec_encode_version(v);
    let b = spec_envelope(spec_version_command(), payload);
    assert(spec_checksum(payload).len() == 4);
    assert(b.len() == 24 + payload.len());
    assert(b.subrange(0, 4) =~= spec_magic());
    assert(b.subrange(4, 16) =~= spec_version_command());
    assert(b.subrange(16, 20) =~= spec_u32_to_le_bytes(payload.len() as u32));
    assert(b.subrange(20, 24) =~= spec_checksum(payload));
    assert(spec_u32_from_le_bytes(b.subrange(16, 20)) == payload.len());
    assert(b.subrange(24, 24 + payload.len() as int) =~= payload);
    lemma_decode_version_round_trip(v);
}

/// Parsing the sealed Verack envelope yields the Verack message and
/// consumes its 24 bytes.
pub proof fn lemma_parse_verack_envelope()
    ensures
        spec_parse_next(spec_envelope(spec_verack_command(), Seq::<u8>::empty())) == Ok::<
            (MessageModel, int),
            DecodeError,
        >((MessageModel::Verack, 24)),
{
    lemma_auto_spec_u32_to_from_le_bytes();
    let payload = Seq::<u8>::empty();
    let b = spec_envelope(spec_verack_command(), payload);
    assert(spec_checksum(payload).len() == 4);
    assert(b.len() == 24);
    assert(b.subrange(0, 4) =~= spec_magic());
    assert(b.subrange(4, 16) =~= spec_verack_command());
    assert(b.subrange(16, 20) =~= spec_u32_to_le_bytes(0u32));
    assert(b.subrange(20, 24) =~= spec_checksum(payload));
    assert(spec_u32_from_le_bytes(b.subrange(16, 20)) == 0);
    assert(b.subrange(24, 24) =~= payload);
    assert(spec_verack_command()[3] != spec_version_command()[3]);
    assert(spec_verack_command() != spec_version_command());
}

/// Round-trip law: for any pair of endpoint addresses and any clock and
/// nonce readings, parsing the serialised local Version message yields a
/// Version message structurally equal to the one that was built — in
/// particular the receiver is the remote address and the sender the local
/// one, whatever the timestamp and nonce were.
pub proof fn lemma_version_round_trip(
    local_peer: PeerAddr,
    remote_peer: PeerAddr,
    timestamp: i64,
    nonce: u64,
)
    ensures
        spec_parse_next(
            spec_envelope(
                spec_version_command(),
                spec_encode_version(
                    spec_version_fields(local_peer, remote_peer, timestamp, nonce),
                ),
            ),
        ) == Ok::<(MessageModel, int), DecodeError>(
            (
                MessageModel::Version(
                    spec_version_fields(local_peer, remote_peer, timestamp, nonce),
                ),
                24 + spec_encode_version(
                    spec_version_fields(local_peer, remote_peer, timestamp, nonce),
                ).len() as int,
            ),
        ),
{
    assert(spec_user_agent().len() == 32);
    lemma_parse_version_envelope(spec_version_fields(local_peer, remote_peer, timestamp, nonce));
}


} // verus!
