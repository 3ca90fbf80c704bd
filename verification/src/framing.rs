//! Length-prefixed frames, and the life of an inbound stream.
//!
//! Every message travels as a frame: four bytes that give the payload's length
//! in big-endian order, then the payload. A frame may carry at most one
//! mebibyte.

use crate::error::ErrorView;
use crate::error::NetworkingError;
use vstd::prelude::*;

verus! {

/// Largest payload, in bytes, that a frame may carry.
pub const MAX_MESSAGE_SIZE: usize = 1_048_576;

/// Length in bytes of a frame's length prefix.
pub const LENGTH_PREFIX_SIZE: usize = 4;

/// The error for a frame that declares or would carry too large a payload.
pub open spec fn too_large_error() -> ErrorView {
    ErrorView::Protocol("Message too large"@)
}

/// The four bytes that announce a payload of `len` bytes.
pub open spec fn length_prefix(len: nat) -> Seq<u8> {
    seq![
        ((len / 16_777_216) % 256) as u8,
        ((len / 65_536) % 256) as u8,
        ((len / 256) % 256) as u8,
        (len % 256) as u8,
    ]
}

/// The payload length that four prefix bytes declare.
pub open spec fn declared_length(prefix: Seq<u8>) -> nat {
    (prefix[0] as nat) * 16_777_216 + (prefix[1] as nat) * 65_536 + (prefix[2] as nat) * 256
        + prefix[3] as nat
}

/// The frame that carries a payload.
pub open spec fn frame(payload: Seq<u8>) -> Seq<u8> {
    length_prefix(payload.len()) + payload
}

/// What the start of a byte stream holds.
pub enum FrameStatus {
    /// More bytes are needed before the first frame is whole.
    Incomplete,
    /// The first frame is whole: its payload, and the bytes it took in all.
    Complete { payload: Vec<u8>, consumed: usize },
}

/// What the start of a byte stream holds, in the mathematical sense. `None`
/// stands for a first frame that declares too large a payload.
pub open spec fn first_frame(buffer: Seq<u8>) -> Option<Option<Seq<u8>>> {
    if buffer.len() < LENGTH_PREFIX_SIZE {
        Some(None)
    } else if declared_length(buffer.subrange(0, 4)) > MAX_MESSAGE_SIZE {
        None
    } else if buffer.len() < LENGTH_PREFIX_SIZE + declared_length(buffer.subrange(0, 4)) {
        Some(None)
    } else {
        Some(Some(buffer.subrange(4, 4 + declared_length(buffer.subrange(0, 4)) as int)))
    }
}

/// The length that a prefix declares is the length that the prefix was made
/// for, for every length that four bytes can hold.
pub proof fn law_length_prefix_round_trip(len: nat)
    requires
        len <= u32::MAX,
    ensures
        length_prefix(len).len() == 4,
        declared_length(length_prefix(len)) == len,
{
}

/// Reading a frame back gives the payload that was framed, whatever follows
/// the frame.
pub proof fn law_frame_round_trip(payload: Seq<u8>, rest: Seq<u8>)
    requires
        payload.len() <= MAX_MESSAGE_SIZE,
    ensures
        first_frame(frame(payload) + rest) == Some(Some(payload)),
{
    let buffer = frame(payload) + rest;
    law_length_prefix_round_trip(payload.len());
    assert(buffer.subrange(0, 4) =~= length_prefix(payload.len()));
    assert(buffer.subrange(4, 4 + payload.len() as int) =~= payload);
}

/// The four bytes that announce a payload of `len` bytes.
pub fn encode_length(len: u32) -> (prefix: [u8; 4])
    ensures
        prefix@ == length_prefix(len as nat),
{
    let prefix: [u8; 4] = [
        ((len / 16_777_216) % 256) as u8,
        ((len / 65_536) % 256) as u8,
        ((len / 256) % 256) as u8,
        (len % 256) as u8,
    ];
    assert(prefix@ =~= length_prefix(len as nat));
    prefix
}

/// Reads a length prefix. A declared length above the frame size limit is an
/// error: the stream that sent it must be closed.
pub fn decode_frame_length(prefix: &[u8; 4]) -> (r: Result<usize, NetworkingError>)
    ensures
        declared_length(prefix@) <= MAX_MESSAGE_SIZE ==> r == Ok::<usize, NetworkingError>(
            declared_length(prefix@) as usize,
        ),
        declared_length(prefix@) > MAX_MESSAGE_SIZE ==> (r matches Err(e) && e@ == too_large_error()),
{
    let len: u64 = (prefix[0] as u64) * 16_777_216 + (prefix[1] as u64) * 65_536 + (
    prefix[2] as u64) * 256 + (prefix[3] as u64);
    if len > MAX_MESSAGE_SIZE as u64 {
        Err(NetworkingError::protocol("Message too large"))
    } else {
        Ok(len as usize)
    }
}

/// Frames a payload. A payload above the frame size limit is refused.
pub fn encode_frame(payload: &[u8]) -> (r: Result<Vec<u8>, NetworkingError>)
    ensures
        payload@.len() <= MAX_MESSAGE_SIZE ==> (r matches Ok(f) && f@ == frame(payload@)),
        payload@.len() > MAX_MESSAGE_SIZE ==> (r matches Err(e) && e@ == too_large_error()),
{
    if payload.len() > MAX_MESSAGE_SIZE {
        return Err(NetworkingError::protocol("Message too large"));
    }
    let prefix = encode_length(payload.len() as u32);
    let mut out: Vec<u8> = Vec::new();
    out.push(prefix[0]);
    out.push(prefix[1]);
    out.push(prefix[2]);
    out.push(prefix[3]);
    assert(out@ =~= length_prefix(payload@.len()));
    out.extend_from_slice(payload);
    assert(out@ =~= frame(payload@));
    Ok(out)
}

/// Looks for a whole frame at the start of a buffer.
pub fn decode_frame(buffer: &[u8]) -> (r: Result<FrameStatus, NetworkingError>)
    ensures
        match first_frame(buffer@) {
            None => r matches Err(e) && e@ == too_large_error(),
            Some(None) => r matches Ok(FrameStatus::Incomplete),
            Some(Some(p)) => r matches Ok(FrameStatus::Complete { payload, consumed })
                && payload@ == p && consumed == 4 + p.len(),
        },
{
    if buffer.len() < LENGTH_PREFIX_SIZE {
        return Ok(FrameStatus::Incomplete);
    }
    let prefix: [u8; 4] = [buffer[0], buffer[1], buffer[2], buffer[3]];
    assert(prefix@ =~= buffer@.subrange(0, 4));
    let len = match decode_frame_length(&prefix) {
        Ok(len) => len,
        Err(e) => {
            return Err(e);
        },
    };
    if buffer.len() - LENGTH_PREFIX_SIZE < len {
        return Ok(FrameStatus::Incomplete);
    }
    let mut payload: Vec<u8> = Vec::new();
    let mut i: usize = 0;
    while i < len
        invariant
            i <= len,
            4 + len <= buffer.len(),
            payload@ == buffer@.subrange(4, 4 + i as int),
        decreases len - i,
    {
        payload.push(buffer[4 + i]);
        assert(payload@ =~= buffer@.subrange(4, 4 + i as int + 1));
        i += 1;
    }
    Ok(FrameStatus::Complete { payload, consumed: 4 + len })
}

/// Where an inbound stream stands.
#[derive(Clone, Copy, Debug, PartialEq, Eq, Structural)]
pub enum StreamPhase {
    /// The next bytes are a length prefix.
    AwaitingHeader,
    /// The next bytes are a payload of the given length.
    AwaitingBody { len: usize },
    /// A message was handed to the handler; its outcome is awaited.
    Handling,
    /// The stream is closed, and stays so.
    Closed,
}

/// What happened on an inbound stream.
#[derive(Clone, Copy, Debug, PartialEq, Eq)]
pub enum StreamEvent {
    /// Four bytes were read where a length prefix was due.
    HeaderRead { prefix: [u8; 4] },
    /// A payload was read, and was or was not a well-formed message.
    BodyRead { decoded: bool },
    /// The handler is done with a message: whether it succeeded, whether the
    /// reply, if there was one, was written, and whether the message was a
    /// completion.
    Handled { ok: bool, reply_written: bool, was_completion: bool },
    /// The stream ended or failed while bytes were due.
    ReadFailed,
}

/// What to do next on an inbound stream.
#[derive(Clone, Copy, Debug, PartialEq, Eq, Structural)]
pub enum StreamAction {
    /// Read a length prefix.
    ReadHeader,
    /// Read a payload of the given length.
    ReadBody { len: usize },
    /// Hand the message that was read to the handler.
    Dispatch,
    /// Close the stream.
    Close,
}

/// The phase and the action that follow an event. A stream is closed by a
/// failed read, an oversized frame, a payload that is no message, a handler
/// error, a reply that could not be written, a completion message, and any
/// event that its phase does not expect.
pub open spec fn spec_stream_step(phase: StreamPhase, event: StreamEvent) -> (StreamPhase, StreamAction) {
    match (phase, event) {
        (StreamPhase::AwaitingHeader, StreamEvent::HeaderRead { prefix }) => {
            if declared_length(prefix@) > MAX_MESSAGE_SIZE {
                (StreamPhase::Closed, StreamAction::Close)
            } else {
                (
                    StreamPhase::AwaitingBody { len: declared_length(prefix@) as usize },
                    StreamAction::ReadBody { len: declared_length(prefix@) as usize },
                )
            }
        },
        (StreamPhase::AwaitingBody { len }, StreamEvent::BodyRead { decoded }) => {
            if decoded {
                (StreamPhase::Handling, StreamAction::Dispatch)
            } else {
                (StreamPhase::Closed, StreamAction::Close)
            }
        },
        (StreamPhase::Handling, StreamEvent::Handled { ok, reply_written, was_completion }) => {
            if ok && reply_written && !was_completion {
                (StreamPhase::AwaitingHeader, StreamAction::ReadHeader)
            } else {
                (StreamPhase::Closed, StreamAction::Close)
            }
        },
        _ => (StreamPhase::Closed, StreamAction::Close),
    }
}

/// Decides what follows an event on an inbound stream.
pub fn stream_step(phase: StreamPhase, event: &StreamEvent) -> (r: (StreamPhase, StreamAction))
    ensures
        r == spec_stream_step(phase, *event),
{
    match (phase, event) {
        (StreamPhase::AwaitingHeader, StreamEvent::HeaderRead { prefix }) => {
            match decode_frame_length(prefix) {
                Ok(len) => (StreamPhase::AwaitingBody { len }, StreamAction::ReadBody { len }),
                Err(_) => (StreamPhase::Closed, StreamAction::Close),
            }
        },
        (StreamPhase::AwaitingBody { len }, StreamEvent::BodyRead { decoded }) => {
            if *decoded {
                (StreamPhase::Handling, StreamAction::Dispatch)
            } else {
                (StreamPhase::Closed, StreamAction::Close)
            }
        },
        (StreamPhase::Handling, StreamEvent::Handled { ok, reply_written, was_completion }) => {
            if *ok && *reply_written && !*was_completion {
                (StreamPhase::AwaitingHeader, StreamAction::ReadHeader)
            } else {
                (StreamPhase::Closed, StreamAction::Close)
            }
        },
        _ => (StreamPhase::Closed, StreamAction::Close),
    }
}

/// A length prefix that declares more than the frame size limit closes the
/// stream, whatever the stream's phase; and a closed stream stays closed. The
/// step looks at the stream alone, so no session is touched by it.
pub proof fn law_oversized_frame_closes_stream(phase: StreamPhase, prefix: [u8; 4], event: StreamEvent)
    requires
        declared_length(prefix@) > MAX_MESSAGE_SIZE,
    ensures
        spec_stream_step(phase, StreamEvent::HeaderRead { prefix }) == (
            StreamPhase::Closed,
            StreamAction::Close,
        ),
        spec_stream_step(StreamPhase::Closed, event) == (StreamPhase::Closed, StreamAction::Close),
{
}

} // verus!
