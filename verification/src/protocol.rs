//! The private frame protocol spoken between the library and the renderer host.
//!
//! A frame is a fixed 24-byte little-endian header followed by its payload:
//! the magic `PHIR`, the protocol version (2 bytes), the message type (2 bytes),
//! the request id (8 bytes), the payload length (4 bytes) and the flags (4 bytes).
use vstd::prelude::*;
use vstd::string::{StringExecFns, StringSliceAdditionalSpecFns};

use crate::decimal::{decimal, push_decimal};
use crate::le_bytes::{
    le_decode, le_encode, lemma_le_decode_bound, lemma_le_decode_encode, lemma_le_encode_decode,
    lemma_le_encode_len, lemma_pow256_values, push_le, read_le,
};

verus! {

pub const PROTOCOL_VERSION: u16 = 1;

/// The ASCII bytes `PHIR`.
pub const FRAME_MAGIC: [u8; 4] = [0x50u8, 0x48u8, 0x49u8, 0x52u8];

pub const FRAME_HEADER_SIZE: usize = 24;

pub const MAX_PAYLOAD_SIZE: usize = 64 * 1024 * 1024;

pub const JSON_SCHEMA_VERSION: u16 = 1;

#[derive(Debug, Clone, Copy, PartialEq, Eq, Structural)]
pub enum MessageType {
    Hello,
    HelloAck,
    RenderRequest,
    Control,
    Event,
    Shutdown,
    ShutdownAck,
    Error,
    CapabilityProbe,
    CapabilityResult,
}

impl MessageType {
    /// The number that stands for this message type on the wire.
    pub open spec fn spec_raw(self) -> u16 {
        match self {
            MessageType::Hello => 1,
            MessageType::HelloAck => 2,
            MessageType::RenderRequest => 3,
            MessageType::Control => 4,
            MessageType::Event => 5,
            MessageType::Shutdown => 6,
            MessageType::ShutdownAck => 7,
            MessageType::Error => 8,
            MessageType::CapabilityProbe => 9,
            MessageType::CapabilityResult => 10,
        }
    }

    /// The message type that a wire number stands for, if any.
    pub open spec fn spec_from_raw(value: u16) -> Option<MessageType> {
        if value == 1 {
            Some(MessageType::Hello)
        } else if value == 2 {
            Some(MessageType::HelloAck)
        } else if value == 3 {
            Some(MessageType::RenderRequest)
        } else if value == 4 {
            Some(MessageType::Control)
        } else if value == 5 {
            Some(MessageType::Event)
        } else if value == 6 {
            Some(MessageType::Shutdown)
        } else if value == 7 {
            Some(MessageType::ShutdownAck)
        } else if value == 8 {
            Some(MessageType::Error)
        } else if value == 9 {
            Some(MessageType::CapabilityProbe)
        } else if value == 10 {
            Some(MessageType::CapabilityResult)
        } else {
            None
        }
    }

    /// The wire number of this message type.
    pub fn as_u16(self) -> (r: u16)
        ensures
            r == self.spec_raw(),
    {
        match self {
            MessageType::Hello => 1,
            MessageType::HelloAck => 2,
            MessageType::RenderRequest => 3,
            MessageType::Control => 4,
            MessageType::Event => 5,
            MessageType::Shutdown => 6,
            MessageType::ShutdownAck => 7,
            MessageType::Error => 8,
            MessageType::CapabilityProbe => 9,
            MessageType::CapabilityResult => 10,
        }
    }

    /// The message type of a wire number; an unknown number is refused.
    pub fn from_raw(value: u16) -> (r: Result<Self, ProtocolError>)
        ensures
            match MessageType::spec_from_raw(value) {
                Some(t) => r == Ok::<MessageType, ProtocolError>(t),
                None => r == Err::<MessageType, ProtocolError>(
                    ProtocolError::UnknownMessageType(value),
                ),
            },
    {
        match value {
            1 => Ok(MessageType::Hello),
            2 => Ok(MessageType::HelloAck),
            3 => Ok(MessageType::RenderRequest),
            4 => Ok(MessageType::Control),
            5 => Ok(MessageType::Event),
            6 => Ok(MessageType::Shutdown),
            7 => Ok(MessageType::ShutdownAck),
            8 => Ok(MessageType::Error),
            9 => Ok(MessageType::CapabilityProbe),
            10 => Ok(MessageType::CapabilityResult),
            _ => Err(ProtocolError::UnknownMessageType(value)),
        }
    }
}

/// An I/O failure met while a frame was read or written.
#[derive(Debug)]
pub enum IoError {
    /// The input ended in the middle of a frame.
    UnexpectedEof,
    /// Any other failure, with its description.
    Other(String),
}

#[derive(Debug)]
pub enum ProtocolError {
    Io(IoError),
    InvalidMagic([u8; 4]),
    UnsupportedVersion(u16),
    UnknownMessageType(u16),
    PayloadTooLarge(usize),
    InvalidPayload(&'static str),
    Json(String),
}

#[derive(Debug, Clone, PartialEq, Eq)]
pub struct Frame {
    pub message_type: MessageType,
    pub request_id: u64,
    pub flags: u32,
    pub payload: Vec<u8>,
}

/// A frame as a mathematical value.
pub struct FrameView {
    pub message_type: MessageType,
    pub request_id: u64,
    pub flags: u32,
    pub payload: Seq<u8>,
}

impl View for Frame {
    type V = FrameView;

    open spec fn view(&self) -> FrameView {
        FrameView {
            message_type: self.message_type,
            request_id: self.request_id,
            flags: self.flags,
            payload: self.payload@,
        }
    }
}

impl Frame {
    /// A frame with the given fields; a payload over the size limit is refused.
    pub fn new(message_type: MessageType, request_id: u64, flags: u32, payload: Vec<u8>) -> (r:
        Result<Self, ProtocolError>)
        ensures
            payload@.len() <= MAX_PAYLOAD_SIZE ==> (r matches Ok(f) && f.message_type
                == message_type && f.request_id == request_id && f.flags == flags && f.payload@
                == payload@),
            payload@.len() > MAX_PAYLOAD_SIZE ==> (r matches Err(ProtocolError::PayloadTooLarge(
                n,
            )) && n == payload@.len()),
    {
        if payload.len() > MAX_PAYLOAD_SIZE {
            return Err(ProtocolError::PayloadTooLarge(payload.len()));
        }
        Ok(Frame { message_type, request_id, flags, payload })
    }
}

/// The 24 header bytes of a frame.
pub open spec fn header_bytes(f: FrameView) -> Seq<u8> {
    FRAME_MAGIC@ + le_encode(PROTOCOL_VERSION as nat, 2) + le_encode(
        f.message_type.spec_raw() as nat,
        2,
    ) + le_encode(f.request_id as nat, 8) + le_encode(f.payload.len(), 4) + le_encode(
        f.flags as nat,
        4,
    )
}

/// The bytes of a whole frame: its header, then its payload.
pub open spec fn frame_bytes(f: FrameView) -> Seq<u8> {
    header_bytes(f) + f.payload
}

/// A frame fits the protocol when its payload is within the size limit.
pub open spec fn frame_fits(f: FrameView) -> bool {
    f.payload.len() <= MAX_PAYLOAD_SIZE
}

/// The value of the `n` bytes of `input` at `at`, read little-endian.
pub open spec fn field(input: Seq<u8>, at: int, n: int) -> nat {
    le_decode(input.subrange(at, at + n))
}

/// The fields of a frame header.
#[derive(Debug, Clone, Copy, PartialEq, Eq, Structural)]
pub struct FrameHeader {
    pub message_type: MessageType,
    pub request_id: u64,
    pub payload_size: usize,
    pub flags: u32,
}

/// What the 24 header bytes at the front of `input` say, or the first fault in them, in the
/// order in which they are checked: magic, version, message type, payload size.
pub open spec fn spec_frame_header(input: Seq<u8>) -> Result<FrameHeader, ProtocolError> {
    if input.subrange(0, 4) != FRAME_MAGIC@ {
        Err(ProtocolError::InvalidMagic([input[0], input[1], input[2], input[3]]))
    } else if field(input, 4, 2) != PROTOCOL_VERSION {
        Err(ProtocolError::UnsupportedVersion(field(input, 4, 2) as u16))
    } else {
        match MessageType::spec_from_raw(field(input, 6, 2) as u16) {
            None => Err(ProtocolError::UnknownMessageType(field(input, 6, 2) as u16)),
            Some(message_type) => {
                let size = field(input, 16, 4);
                if size > MAX_PAYLOAD_SIZE {
                    Err(ProtocolError::PayloadTooLarge(size as usize))
                } else {
                    Ok(
                        FrameHeader {
                            message_type,
                            request_id: field(input, 8, 8) as u64,
                            payload_size: size as usize,
                            flags: field(input, 20, 4) as u32,
                        },
                    )
                }
            },
        }
    }
}

/// What reading one frame from the front of `input` yields: nothing at a clean end of
/// input, the frame, or the first error met. A header or payload cut short is an unexpected
/// end of input.
pub open spec fn spec_read_frame(input: Seq<u8>) -> Result<Option<FrameView>, ProtocolError> {
    if input.len() == 0 {
        Ok(None)
    } else if input.len() < FRAME_HEADER_SIZE {
        Err(ProtocolError::Io(IoError::UnexpectedEof))
    } else {
        match spec_frame_header(input) {
            Err(e) => Err(e),
            Ok(h) => if input.len() < FRAME_HEADER_SIZE + h.payload_size {
                Err(ProtocolError::Io(IoError::UnexpectedEof))
            } else {
                Ok(
                    Some(
                        FrameView {
                            message_type: h.message_type,
                            request_id: h.request_id,
                            flags: h.flags,
                            payload: input.subrange(
                                FRAME_HEADER_SIZE as int,
                                FRAME_HEADER_SIZE + h.payload_size,
                            ),
                        },
                    ),
                )
            },
        }
    }
}

/// An executable read result agrees with the specified one.
pub open spec fn read_agrees(
    r: Result<Option<Frame>, ProtocolError>,
    s: Result<Option<FrameView>, ProtocolError>,
) -> bool {
    match (r, s) {
        (Ok(None), Ok(None)) => true,
        (Ok(Some(f)), Ok(Some(v))) => f@ == v,
        (Err(e1), Err(e2)) => e1 == e2,
        _ => false,
    }
}


/// Every message type survives the trip to its wire number and back.
pub proof fn lemma_message_type_raw_round_trip(t: MessageType)
    ensures
        MessageType::spec_from_raw(t.spec_raw()) == Some(t),
{
}

/// A wire number that names a message type is that type's number.
pub proof fn lemma_message_type_from_raw_inverse(value: u16)
    ensures
        MessageType::spec_from_raw(value) matches Some(t) ==> t.spec_raw() == value,
{
}

/// Reads the header at the front of `input`, which holds at least the 24 header bytes.
pub fn decode_frame_header(input: &[u8]) -> (r: Result<FrameHeader, ProtocolError>)
    requires
        input@.len() >= FRAME_HEADER_SIZE,
    ensures
        r == spec_frame_header(input@),
{
    let magic: [u8; 4] = [input[0], input[1], input[2], input[3]];
    if input[0] != FRAME_MAGIC[0] || input[1] != FRAME_MAGIC[1] || input[2] != FRAME_MAGIC[2]
        || input[3] != FRAME_MAGIC[3] {
        proof {
            assert(input@.subrange(0, 4) != FRAME_MAGIC@) by {
                let m = input@.subrange(0, 4);
                if m == FRAME_MAGIC@ {
                    assert(m[0] == input@[0] && m[1] == input@[1] && m[2] == input@[2] && m[3]
                        == input@[3]);
                }
            }
        }
        return Err(ProtocolError::InvalidMagic(magic));
    }
    proof {
        assert(input@.subrange(0, 4) =~= FRAME_MAGIC@);
        lemma_pow256_values();
        lemma_le_decode_bound(input@.subrange(4, 6));
        lemma_le_decode_bound(input@.subrange(6, 8));
        lemma_le_decode_bound(input@.subrange(16, 20));
        lemma_le_decode_bound(input@.subrange(20, 24));
    }
    let version = read_le(input, 4, 2);
    if version != PROTOCOL_VERSION as u64 {
        return Err(ProtocolError::UnsupportedVersion(version as u16));
    }
    let raw_type = read_le(input, 6, 2) as u16;
    let message_type = match MessageType::from_raw(raw_type) {
        Ok(t) => t,
        Err(e) => return Err(e),
    };
    let request_id = read_le(input, 8, 8);
    let payload_size = read_le(input, 16, 4);
    let flags = read_le(input, 20, 4) as u32;
    if payload_size > MAX_PAYLOAD_SIZE as u64 {
        return Err(ProtocolError::PayloadTooLarge(payload_size as usize));
    }
    Ok(FrameHeader { message_type, request_id, payload_size: payload_size as usize, flags })
}

/// Reads one frame from the front of `input`; bytes after the frame are left unread.
pub fn read_frame(input: &[u8]) -> (r: Result<Option<Frame>, ProtocolError>)
    ensures
        read_agrees(r, spec_read_frame(input@)),
{
    if input.len() == 0 {
        return Ok(None);
    }
    if input.len() < FRAME_HEADER_SIZE {
        return Err(ProtocolError::Io(IoError::UnexpectedEof));
    }
    let header = match decode_frame_header(input) {
        Ok(h) => h,
        Err(e) => return Err(e),
    };
    let size = header.payload_size;
    if input.len() - FRAME_HEADER_SIZE < size {
        return Err(ProtocolError::Io(IoError::UnexpectedEof));
    }
    let mut payload: Vec<u8> = Vec::new();
    let mut i: usize = 0;
    while i < size
        invariant
            i <= size,
            FRAME_HEADER_SIZE + size <= input@.len(),
            input@.len() == input.len(),
            payload@ == input@.subrange(FRAME_HEADER_SIZE as int, FRAME_HEADER_SIZE + i),
        decreases size - i,
    {
        payload.push(input[FRAME_HEADER_SIZE + i]);
        i = i + 1;
        assert(payload@ =~= input@.subrange(FRAME_HEADER_SIZE as int, FRAME_HEADER_SIZE + i));
    }
    Ok(
        Some(
            Frame {
                message_type: header.message_type,
                request_id: header.request_id,
                flags: header.flags,
                payload,
            },
        ),
    )
}

/// Appends the bytes of `frame` to `out`; a payload over the size limit is refused and
/// nothing is written.
pub fn write_frame(out: &mut Vec<u8>, frame: &Frame) -> (r: Result<(), ProtocolError>)
    ensures
        frame_fits(frame@) ==> r is Ok && final(out)@ == old(out)@ + frame_bytes(frame@),
        !frame_fits(frame@) ==> (r matches Err(ProtocolError::PayloadTooLarge(n)) && n
            == frame@.payload.len() && final(out)@ == old(out)@),
{
    if frame.payload.len() > MAX_PAYLOAD_SIZE {
        return Err(ProtocolError::PayloadTooLarge(frame.payload.len()));
    }
    proof {
        lemma_pow256_values();
    }
    let ghost start = out@;
    out.push(FRAME_MAGIC[0]);
    out.push(FRAME_MAGIC[1]);
    out.push(FRAME_MAGIC[2]);
    out.push(FRAME_MAGIC[3]);
    assert(out@ =~= start + FRAME_MAGIC@);
    push_le(out, PROTOCOL_VERSION as u64, 2);
    push_le(out, frame.message_type.as_u16() as u64, 2);
    push_le(out, frame.request_id, 8);
    push_le(out, frame.payload.len() as u64, 4);
    push_le(out, frame.flags as u64, 4);
    let ghost with_header = out@;
    let mut i: usize = 0;
    while i < frame.payload.len()
        invariant
            i <= frame.payload@.len(),
            out@ == with_header + frame.payload@.take(i as int),
        decreases frame.payload@.len() - i,
    {
        out.push(frame.payload[i]);
        i = i + 1;
        assert(out@ =~= with_header + frame.payload@.take(i as int));
    }
    assert(frame.payload@.take(i as int) =~= frame.payload@);
    assert(out@ =~= start + frame_bytes(frame@));
    Ok(())
}

/// The header of a frame is 24 bytes long.
pub proof fn lemma_header_len(f: FrameView)
    ensures
        header_bytes(f).len() == FRAME_HEADER_SIZE,
{
    lemma_le_encode_len(PROTOCOL_VERSION as nat, 2);
    lemma_le_encode_len(f.message_type.spec_raw() as nat, 2);
    lemma_le_encode_len(f.request_id as nat, 8);
    lemma_le_encode_len(f.payload.len(), 4);
    lemma_le_encode_len(f.flags as nat, 4);
}

/// Reading back what was written gives the written frame, whatever follows it in the input.
pub proof fn lemma_frame_round_trip(f: FrameView, rest: Seq<u8>)
    requires
        frame_fits(f),
    ensures
        spec_read_frame(frame_bytes(f) + rest) == Ok::<Option<FrameView>, ProtocolError>(Some(f)),
{
    lemma_pow256_values();
    lemma_header_len(f);
    let b = frame_bytes(f) + rest;
    let v = le_encode(PROTOCOL_VERSION as nat, 2);
    let t = le_encode(f.message_type.spec_raw() as nat, 2);
    let id = le_encode(f.request_id as nat, 8);
    let n = le_encode(f.payload.len(), 4);
    let fl = le_encode(f.flags as nat, 4);
    lemma_le_encode_len(PROTOCOL_VERSION as nat, 2);
    lemma_le_encode_len(f.message_type.spec_raw() as nat, 2);
    lemma_le_encode_len(f.request_id as nat, 8);
    lemma_le_encode_len(f.payload.len(), 4);
    lemma_le_encode_len(f.flags as nat, 4);
    assert(b.subrange(0, 4) =~= FRAME_MAGIC@);
    assert(b.subrange(4, 6) =~= v);
    assert(b.subrange(6, 8) =~= t);
    assert(b.subrange(8, 16) =~= id);
    assert(b.subrange(16, 20) =~= n);
    assert(b.subrange(20, 24) =~= fl);
    assert(b.subrange(24, 24 + f.payload.len() as int) =~= f.payload);
    lemma_le_decode_encode(PROTOCOL_VERSION as nat, 2);
    lemma_le_decode_encode(f.message_type.spec_raw() as nat, 2);
    lemma_le_decode_encode(f.request_id as nat, 8);
    lemma_le_decode_encode(f.payload.len(), 4);
    lemma_le_decode_encode(f.flags as nat, 4);
    lemma_message_type_raw_round_trip(f.message_type);
}

/// A clean end of input before a frame is no error, but any cut through a frame, in its
/// header or in its payload, is an unexpected end of input.
pub proof fn lemma_truncated_frame_is_an_error(f: FrameView, k: int)
    requires
        frame_fits(f),
        0 <= k < frame_bytes(f).len(),
    ensures
        spec_read_frame(frame_bytes(f).subrange(0, k)) == if k == 0 {
            Ok::<Option<FrameView>, ProtocolError>(None)
        } else {
            Err::<Option<FrameView>, ProtocolError>(ProtocolError::Io(IoError::UnexpectedEof))
        },
{
    lemma_header_len(f);
    let cut = frame_bytes(f).subrange(0, k);
    if k >= FRAME_HEADER_SIZE {
        let rest = Seq::<u8>::empty();
        lemma_frame_round_trip(f, rest);
        let whole = frame_bytes(f) + rest;
        assert(whole =~= frame_bytes(f));
        assert(cut.subrange(0, 4) =~= whole.subrange(0, 4));
        assert(cut.subrange(4, 6) =~= whole.subrange(4, 6));
        assert(cut.subrange(6, 8) =~= whole.subrange(6, 8));
        assert(cut.subrange(16, 20) =~= whole.subrange(16, 20));
    }
}

/// A frame that was read from `input` is written back as exactly the bytes it was read from.
pub proof fn lemma_frame_read_then_write(input: Seq<u8>)
    ensures
        spec_read_frame(input) matches Ok(Some(v)) ==> frame_fits(v) && frame_bytes(v)
            == input.subrange(0, FRAME_HEADER_SIZE + v.payload.len()),
{
    if let Ok(Some(v)) = spec_read_frame(input) {
        lemma_pow256_values();
        lemma_le_decode_bound(input.subrange(4, 6));
        lemma_le_decode_bound(input.subrange(6, 8));
        lemma_le_decode_bound(input.subrange(8, 16));
        lemma_le_decode_bound(input.subrange(16, 20));
        lemma_le_decode_bound(input.subrange(20, 24));
        lemma_le_encode_decode(input.subrange(4, 6));
        lemma_le_encode_decode(input.subrange(6, 8));
        lemma_le_encode_decode(input.subrange(8, 16));
        lemma_le_encode_decode(input.subrange(16, 20));
        lemma_le_encode_decode(input.subrange(20, 24));
        lemma_message_type_from_raw_inverse(field(input, 6, 2) as u16);
        assert(frame_bytes(v) =~= input.subrange(0, FRAME_HEADER_SIZE + v.payload.len()));
    }
}


/// The payload of a hello message: the protocol version, little-endian.
pub fn encode_protocol_version() -> (r: Vec<u8>)
    ensures
        r@ == le_encode(PROTOCOL_VERSION as nat, 2),
{
    proof {
        lemma_pow256_values();
    }
    let mut r: Vec<u8> = Vec::new();
    push_le(&mut r, PROTOCOL_VERSION as u64, 2);
    assert(r@ =~= le_encode(PROTOCOL_VERSION as nat, 2));
    r
}

/// The protocol version carried by a hello payload, which must be exactly two bytes.
pub fn decode_protocol_version(payload: &[u8]) -> (r: Result<u16, ProtocolError>)
    ensures
        payload@.len() == 2 ==> r == Ok::<u16, ProtocolError>(le_decode(payload@) as u16),
        payload@.len() != 2 ==> r == Err::<u16, ProtocolError>(
            ProtocolError::InvalidPayload("protocol version must be two bytes"),
        ),
{
    if payload.len() != 2 {
        return Err(ProtocolError::InvalidPayload("protocol version must be two bytes"));
    }
    proof {
        lemma_pow256_values();
        lemma_le_decode_bound(payload@);
        assert(payload@.subrange(0, 2) =~= payload@);
    }
    let v = read_le(payload, 0, 2);
    Ok(v as u16)
}

/// The payload of an error message: the UTF-8 bytes of its text.
pub fn encode_error(message: &str) -> (r: Vec<u8>)
    ensures
        r@ == message.spec_bytes(),
{
    let bytes = message.as_bytes();
    let mut r: Vec<u8> = Vec::new();
    let mut i: usize = 0;
    while i < bytes.len()
        invariant
            i <= bytes@.len(),
            r@ == bytes@.take(i as int),
        decreases bytes@.len() - i,
    {
        r.push(bytes[i]);
        i = i + 1;
        assert(r@ =~= bytes@.take(i as int));
    }
    assert(bytes@.take(i as int) =~= bytes@);
    r
}

#[derive(Debug, Clone, PartialEq, Eq)]
pub struct ResourceRootsPayload {
    pub assets_dir: String,
    pub fonts_dir: String,
    pub resource_pack_dir: String,
    pub ffmpeg_path: String,
    pub temp_dir: String,
    pub renderer_host_path: String,
}

#[derive(Debug, Clone, PartialEq, Eq)]
pub struct RenderRequestPayload {
    pub schema_version: u16,
    pub chart_path: String,
    pub output_path: String,
    pub resource_roots: ResourceRootsPayload,
    pub render_config_json: String,
    pub chart_info_json: Option<String>,
}

/// The first fault of a render request, in the order in which it is checked: the schema,
/// then both paths, then the render configuration.
pub open spec fn request_fault(p: RenderRequestPayload) -> Option<ProtocolError> {
    if p.schema_version != JSON_SCHEMA_VERSION {
        Some(ProtocolError::InvalidPayload("unsupported render request schema"))
    } else if p.chart_path@.len() == 0 || p.output_path@.len() == 0 {
        Some(ProtocolError::InvalidPayload("render request paths cannot be empty"))
    } else if p.render_config_json@.len() == 0 {
        Some(ProtocolError::InvalidPayload("render config cannot be empty"))
    } else {
        None
    }
}

impl RenderRequestPayload {
    /// A render request is accepted when it has the current schema, both paths and a
    /// render configuration; otherwise its first fault is reported.
    pub fn validate(&self) -> (r: Result<(), ProtocolError>)
        ensures
            match request_fault(*self) {
                None => r is Ok,
                Some(e) => r == Err::<(), ProtocolError>(e),
            },
    {
        if self.schema_version != JSON_SCHEMA_VERSION {
            return Err(ProtocolError::InvalidPayload("unsupported render request schema"));
        }
        if self.chart_path.as_str().is_empty() || self.output_path.as_str().is_empty() {
            return Err(ProtocolError::InvalidPayload("render request paths cannot be empty"));
        }
        if self.render_config_json.as_str().is_empty() {
            return Err(ProtocolError::InvalidPayload("render config cannot be empty"));
        }
        Ok(())
    }
}

#[derive(Debug, Clone, Copy, PartialEq, Eq, Structural)]
pub enum ControlCommand {
    Pause,
    Resume,
    Cancel,
}

#[derive(Debug, Clone, Copy, PartialEq, Eq, Structural)]
pub struct ControlPayload {
    pub schema_version: u16,
    pub job_id: u64,
    pub command: ControlCommand,
}

/// The text of an I/O failure.
pub open spec fn io_error_text(e: IoError) -> Seq<char> {
    match e {
        IoError::UnexpectedEof => "failed to fill whole buffer"@,
        IoError::Other(m) => m@,
    }
}

/// The four bytes of a bad magic, printed as a list.
pub open spec fn magic_text(m: [u8; 4]) -> Seq<char> {
    "["@ + decimal(m[0] as nat) + ", "@ + decimal(m[1] as nat) + ", "@ + decimal(m[2] as nat)
        + ", "@ + decimal(m[3] as nat) + "]"@
}

/// The human-readable text of a protocol error.
pub open spec fn protocol_error_text(e: ProtocolError) -> Seq<char> {
    match e {
        ProtocolError::Io(io) => "I/O error: "@ + io_error_text(io),
        ProtocolError::InvalidMagic(m) => "invalid frame magic: "@ + magic_text(m),
        ProtocolError::UnsupportedVersion(v) => "unsupported protocol version: "@ + decimal(
            v as nat,
        ),
        ProtocolError::UnknownMessageType(t) => "unknown message type: "@ + decimal(t as nat),
        ProtocolError::PayloadTooLarge(n) => "payload is too large: "@ + decimal(n as nat),
        ProtocolError::InvalidPayload(m) => "invalid payload: "@ + m@,
        ProtocolError::Json(m) => "JSON payload error: "@ + m@,
    }
}

impl ProtocolError {
    /// The human-readable text of this error.
    pub fn to_string(&self) -> (s: String)
        ensures
            s@ == protocol_error_text(*self),
    {
        let mut s = String::new();
        match self {
            ProtocolError::Io(io) => {
                s.append("I/O error: ");
                match io {
                    IoError::UnexpectedEof => s.append("failed to fill whole buffer"),
                    IoError::Other(m) => s.append(m.as_str()),
                }
            },
            ProtocolError::InvalidMagic(m) => {
                s.append("invalid frame magic: ");
                s.append("[");
                push_decimal(&mut s, m[0] as u64);
                s.append(", ");
                push_decimal(&mut s, m[1] as u64);
                s.append(", ");
                push_decimal(&mut s, m[2] as u64);
                s.append(", ");
                push_decimal(&mut s, m[3] as u64);
                s.append("]");
            },
            ProtocolError::UnsupportedVersion(v) => {
                s.append("unsupported protocol version: ");
                push_decimal(&mut s, *v as u64);
            },
            ProtocolError::UnknownMessageType(t) => {
                s.append("unknown message type: ");
                push_decimal(&mut s, *t as u64);
            },
            ProtocolError::PayloadTooLarge(n) => {
                s.append("payload is too large: ");
                push_decimal(&mut s, *n as u64);
            },
            ProtocolError::InvalidPayload(m) => {
                s.append("invalid payload: ");
                s.append(m);
            },
            ProtocolError::Json(m) => {
                s.append("JSON payload error: ");
                s.append(m.as_str());
            },
        }
        assert(s@ =~= protocol_error_text(*self));
        s
    }
}

/// The wire numbers of the message types are 1 to 10 in declaration order, as the protocol
/// fixes them, and each number names one type.
pub proof fn lemma_message_type_wire_numbers(t: MessageType, u: MessageType)
    ensures
        MessageType::Hello.spec_raw() == 1,
        MessageType::HelloAck.spec_raw() == 2,
        MessageType::RenderRequest.spec_raw() == 3,
        MessageType::Control.spec_raw() == 4,
        MessageType::Event.spec_raw() == 5,
        MessageType::Shutdown.spec_raw() == 6,
        MessageType::ShutdownAck.spec_raw() == 7,
        MessageType::Error.spec_raw() == 8,
        MessageType::CapabilityProbe.spec_raw() == 9,
        MessageType::CapabilityResult.spec_raw() == 10,
        t.spec_raw() == u.spec_raw() ==> t == u,
{
}

} // verus!
