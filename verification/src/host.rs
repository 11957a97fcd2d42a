//! The library's side of a renderer host connection: the frames it sends and how it reads
//! the host's answers.
use vstd::prelude::*;

use crate::le_bytes::{le_decode, le_encode};
use crate::protocol::{
    decode_protocol_version, encode_protocol_version, Frame, FrameView, MessageType,
    ProtocolError, PROTOCOL_VERSION,
};

verus! {

/// A frame of the given type that carries this protocol version.
pub open spec fn version_frame(message_type: MessageType, request_id: u64) -> FrameView {
    FrameView {
        message_type,
        request_id,
        flags: 0,
        payload: le_encode(PROTOCOL_VERSION as nat, 2),
    }
}

/// A frame of the given type whose payload reads as this protocol version.
pub open spec fn carries_version(f: FrameView, message_type: MessageType) -> bool {
    f.message_type == message_type && f.payload.len() == 2 && le_decode(f.payload)
        == PROTOCOL_VERSION
}

/// The hello that opens a connection for job `job_id`, carrying this protocol version.
pub fn hello_frame(job_id: u64) -> (f: Frame)
    ensures
        f@ == version_frame(MessageType::Hello, job_id),
{
    Frame {
        message_type: MessageType::Hello,
        request_id: job_id,
        flags: 0,
        payload: encode_protocol_version(),
    }
}

/// The frame that asks the host to shut down.
pub fn shutdown_frame(job_id: u64) -> (f: Frame)
    ensures
        f@ == (FrameView {
            message_type: MessageType::Shutdown,
            request_id: job_id,
            flags: 0,
            payload: Seq::empty(),
        }),
{
    Frame { message_type: MessageType::Shutdown, request_id: job_id, flags: 0, payload: Vec::new() }
}

/// The answer to a hello must be an acknowledgement carrying this protocol version. A version
/// that cannot be read is reported as such.
pub fn check_hello_ack(ack: Option<&Frame>) -> (r: Result<(), ProtocolError>)
    ensures
        match ack {
            None => r == Err::<(), ProtocolError>(ProtocolError::InvalidPayload("missing hello ack")),
            Some(f) => if f.message_type != MessageType::HelloAck {
                r == Err::<(), ProtocolError>(ProtocolError::InvalidPayload("unexpected hello ack"))
            } else if f.payload@.len() != 2 {
                r == Err::<(), ProtocolError>(
                    ProtocolError::InvalidPayload("protocol version must be two bytes"),
                )
            } else if le_decode(f.payload@) != PROTOCOL_VERSION {
                r == Err::<(), ProtocolError>(ProtocolError::InvalidPayload("unexpected hello ack"))
            } else {
                r is Ok
            },
        },
        r is Ok <==> (ack matches Some(f) && carries_version(f@, MessageType::HelloAck)),
{
    let f = match ack {
        None => return Err(ProtocolError::InvalidPayload("missing hello ack")),
        Some(f) => f,
    };
    if f.message_type != MessageType::HelloAck {
        return Err(ProtocolError::InvalidPayload("unexpected hello ack"));
    }
    let version = match decode_protocol_version(f.payload.as_slice()) {
        Ok(v) => v,
        Err(e) => return Err(e),
    };
    proof {
        crate::le_bytes::lemma_le_decode_bound(f.payload@);
        crate::le_bytes::lemma_pow256_values();
    }
    if version != PROTOCOL_VERSION {
        return Err(ProtocolError::InvalidPayload("unexpected hello ack"));
    }
    Ok(())
}

/// The answer to a shutdown must be its acknowledgement.
pub fn check_shutdown_ack(ack: Option<&Frame>) -> (r: Result<(), ProtocolError>)
    ensures
        match ack {
            None => r == Err::<(), ProtocolError>(ProtocolError::InvalidPayload("missing shutdown ack")),
            Some(f) => if f.message_type != MessageType::ShutdownAck {
                r == Err::<(), ProtocolError>(ProtocolError::InvalidPayload("unexpected shutdown ack"))
            } else {
                r is Ok
            },
        },
{
    match ack {
        None => Err(ProtocolError::InvalidPayload("missing shutdown ack")),
        Some(f) => if f.message_type != MessageType::ShutdownAck {
            Err(ProtocolError::InvalidPayload("unexpected shutdown ack"))
        } else {
            Ok(())
        },
    }
}

/// How the library treats a frame from the host while a job runs.
#[derive(Debug, Clone, Copy, PartialEq, Eq, Structural)]
pub enum HostFrameKind {
    /// A job event, whose payload is decoded.
    Event,
    /// An error, whose payload text fails the job.
    Error,
    /// Anything else, which is ignored.
    Ignored,
}

pub fn classify_host_frame(message_type: MessageType) -> (k: HostFrameKind)
    ensures
        message_type == MessageType::Event ==> k == HostFrameKind::Event,
        message_type == MessageType::Error ==> k == HostFrameKind::Error,
        message_type != MessageType::Event && message_type != MessageType::Error ==> k
            == HostFrameKind::Ignored,
{
    match message_type {
        MessageType::Event => HostFrameKind::Event,
        MessageType::Error => HostFrameKind::Error,
        _ => HostFrameKind::Ignored,
    }
}

/// The two sides of the handshake agree: the hello that the library sends is one that the
/// host accepts, and the acknowledgement that the host sends is one that the library accepts.
pub proof fn lemma_handshake_agrees(request_id: u64)
    ensures
        carries_version(version_frame(MessageType::Hello, request_id), MessageType::Hello),
        carries_version(version_frame(MessageType::HelloAck, request_id), MessageType::HelloAck),
{
    crate::le_bytes::lemma_pow256_values();
    crate::le_bytes::lemma_le_decode_encode(PROTOCOL_VERSION as nat, 2);
    crate::le_bytes::lemma_le_encode_len(PROTOCOL_VERSION as nat, 2);
}

} // verus!
