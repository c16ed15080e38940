use vstd::prelude::*;

use crate::device::{Hsbk, Payload};
use lifx_core::{Error as E, Message as M};

verus! {

#[verifier::external_type_specification]
#[verifier::external_body]
pub struct ExRawMessage(lifx_core::RawMessage);

#[verifier::external_type_specification]
#[verifier::external_body]
pub struct ExLifxError(lifx_core::Error);

/// Length of the frame, frame-address and protocol headers together.
pub const HEADER_LEN: usize = 36;

/// Why a message payload could not be decoded.
#[derive(Clone, Debug, PartialEq, Eq)]
pub enum CodecError {
    /// The message type is not one the codec knows.
    UnknownMessageType(u16),
    /// A field holds a value the protocol does not allow.
    Protocol(String),
    /// The payload ended before its fields did.
    Io,
}

/// The little-endian integer held in `n` bytes of `b` from `start` on.
pub open spec fn le(b: Seq<u8>, start: int, n: nat) -> int
    decreases n,
{
    if n == 0 {
        0
    } else {
        b[start] as int + 256 * le(b, start + 1, (n - 1) as nat)
    }
}

/// The total message size that the frame header declares.
pub open spec fn frame_size(b: Seq<u8>) -> int {
    le(b, 0, 2)
}

/// The 16-bit field after the size: origin, tagged and addressable bits and
/// the protocol number.
pub open spec fn frame_flags(b: Seq<u8>) -> int {
    le(b, 2, 2)
}

/// Whether `b` holds complete headers for protocol 1024 with the
/// addressable bit set, and a declared size that fits in `b`.
pub open spec fn well_framed(b: Seq<u8>) -> bool {
    &&& b.len() >= HEADER_LEN
    &&& frame_flags(b) % 4096 == 1024
    &&& (frame_flags(b) / 4096) % 2 == 1
    &&& HEADER_LEN <= frame_size(b) <= b.len()
}

/// The source (session) identifier of a framed message.
pub open spec fn header_session(b: Seq<u8>) -> u32 {
    le(b, 4, 4) as u32
}

/// The target device identifier of a framed message.
pub open spec fn header_target(b: Seq<u8>) -> u64 {
    le(b, 8, 8) as u64
}

/// The four little-endian bytes of `x`.
pub open spec fn le32_bytes(x: u32) -> Seq<u8> {
    seq![
        (x % 256) as u8,
        ((x / 256) % 256) as u8,
        ((x / 65536) % 256) as u8,
        (x / 16777216) as u8,
    ]
}

/// The packed "get service" request from `session`, addressed to all devices:
/// size 36, tagged and addressable for protocol 1024, the session, a zero
/// target, no acknowledgement or response flags, sequence 0 and message
/// type 2.
pub open spec fn get_service_bytes(session: u32) -> Seq<u8> {
    seq![36u8, 0u8, 0u8, 0x34u8] + le32_bytes(session) + Seq::new(24, |i: int| 0u8) + seq![
        2u8,
        0u8,
        0u8,
        0u8,
    ]
}

/// A datagram whose headers were read: its session and target, and the
/// message for later payload decoding.
pub struct Datagram {
    pub session: u32,
    pub target: u64,
    pub raw: lifx_core::RawMessage,
}

/// Relies on lifx_core::RawMessage::unpack: on a well-framed datagram every
/// header read succeeds and the payload slice lies within the input, so it
/// returns `Ok`, with the frame source and the target read little-endian from
/// bytes 4..8 and 8..16. (It panics on a clear addressable bit or on a size
/// outside 36..=len, which `requires` rules out.)
#[verifier::external_body]
pub(crate) fn unpack(b: &[u8]) -> (r: Result<Datagram, lifx_core::Error>)
    requires
        well_framed(b@),
    ensures
        r is Ok,
        r is Ok ==> r->Ok_0.session == header_session(b@),
        r is Ok ==> r->Ok_0.target == header_target(b@),
{
    let raw = lifx_core::RawMessage::unpack(b)?;
    Ok(Datagram { session: raw.frame.source, target: raw.frame_addr.target, raw })
}

/// Relies on lifx_core::Message::from_raw, which parses the payload by the
/// message type; service announcements and state reports are moved into
/// the library's payload, other kinds become `Other`.
#[verifier::external_body]
pub(crate) fn decode_payload(d: &Datagram) -> (r: Result<Payload, CodecError>) {
    match M::from_raw(&d.raw) {
        Ok(M::StateService { service, port }) => Ok(Payload::StateService { service: service as u8, port }),
        Ok(M::LightState { color: c, power, label, .. }) => Ok(Payload::LightState {
            color: Hsbk { hue: c.hue, saturation: c.saturation, brightness: c.brightness, kelvin: c.kelvin },
            power,
            label: label.to_string(),
        }),
        Ok(_) => Ok(Payload::Other),
        Err(E::UnknownMessageType(t)) => Err(CodecError::UnknownMessageType(t)),
        Err(E::ProtocolError(s)) => Err(CodecError::Protocol(s)),
        Err(E::Io(_)) => Err(CodecError::Io),
    }
}

/// Relies on lifx_core::RawMessage::build and RawMessage::pack: a
/// `GetService` message with default options but the source has no payload,
/// builds without error, and packs (writes into a `Vec`, which cannot fail)
/// to the 36 header bytes of `get_service_bytes`.
#[verifier::external_body]
fn pack_get_service(session: u32) -> (r: Result<Vec<u8>, lifx_core::Error>)
    ensures
        r is Ok,
        r is Ok ==> r->Ok_0@ == get_service_bytes(session),
{
    let options = lifx_core::BuildOptions { source: session, ..Default::default() };
    lifx_core::RawMessage::build(&options, lifx_core::Message::GetService)?.pack()
}

/// Whether `b` can be handed to the header decoder: complete headers, the
/// protocol number 1024, the addressable bit, and a declared size between the
/// header length and the length of `b`.
pub fn frame_is_well_formed(b: &[u8]) -> (r: bool)
    ensures
        r == well_framed(b@),
{
    if b.len() < HEADER_LEN {
        return false;
    }
    let size: u32 = b[0] as u32 + 256 * (b[1] as u32);
    let flags: u32 = b[2] as u32 + 256 * (b[3] as u32);
    proof {
        reveal_with_fuel(le, 3);
    }
    flags % 4096 == 1024 && (flags / 4096) % 2 == 1 && HEADER_LEN as u32 <= size && size as usize
        <= b.len()
}

/// The bytes of the discovery request that `session` broadcasts: a
/// "get service" message tagged with the session and addressed to all
/// devices.
pub fn discovery_request(session: u32) -> (r: Vec<u8>)
    ensures
        r@ == get_service_bytes(session),
{
    match pack_get_service(session) {
        Ok(v) => v,
        Err(_) => {
            proof {
                assert(false);
            }
            Vec::new()
        },
    }
}

} // verus!
