//! Frames as the payload assembler sees them, and the wire format of the two
//! stream-limit frames.

use crate::varint::{decode, decoding, encode, encoded_len, encoding, encoding_size};
use crate::varint::{lemma_decode_encode, MAX_VARINT_VALUE};
use vstd::prelude::*;

verus! {

/// The largest stream limit a MAX_STREAMS frame may carry, 2^60.
pub const MAX_STREAM_LIMIT: u64 = 1_152_921_504_606_846_976;

/// A frame of the application packet space. Frames whose content belongs to
/// another component carry only their size on the wire.
#[derive(Clone, Copy, Debug, PartialEq, Eq)]
pub enum Frame {
    Padding { len: usize },
    Ping,
    Ack { len: usize },
    Crypto { len: usize },
    NewConnectionId { len: usize },
    MaxStreams { bidirectional: bool, limit: u64 },
    StreamsBlocked { bidirectional: bool, limit: u64 },
    PathChallenge { data: [u8; 8] },
    PathResponse { data: [u8; 8] },
    HandshakeDone,
    Stream { len: usize },
    Datagram { len: usize },
    DcStatelessResetTokens { len: usize },
}

impl Frame {
    /// Bytes the frame takes in a packet.
    pub open spec fn size(self) -> nat {
        match self {
            Frame::Ping | Frame::HandshakeDone => 1,
            Frame::PathChallenge { .. } | Frame::PathResponse { .. } => 9,
            Frame::MaxStreams { limit, .. } | Frame::StreamsBlocked { limit, .. } => 1
                + encoded_len(limit),
            Frame::Padding { len }
            | Frame::Ack { len }
            | Frame::Crypto { len }
            | Frame::NewConnectionId { len }
            | Frame::Stream { len }
            | Frame::Datagram { len }
            | Frame::DcStatelessResetTokens { len } => len as nat,
        }
    }

    /// A frame elicits an acknowledgement unless it is an ACK or padding.
    pub open spec fn ack_eliciting(self) -> bool {
        !(self is Ack || self is Padding)
    }

    pub fn encoding_size(&self) -> (n: usize)
        ensures
            n == self.size(),
    {
        match self {
            Frame::Ping | Frame::HandshakeDone => 1,
            Frame::PathChallenge { .. } | Frame::PathResponse { .. } => 9,
            Frame::MaxStreams { limit, .. } | Frame::StreamsBlocked { limit, .. } => 1
                + encoding_size(*limit),
            Frame::Padding { len }
            | Frame::Ack { len }
            | Frame::Crypto { len }
            | Frame::NewConnectionId { len }
            | Frame::Stream { len }
            | Frame::Datagram { len }
            | Frame::DcStatelessResetTokens { len } => *len,
        }
    }

    pub fn is_ack_eliciting(&self) -> (r: bool)
        ensures
            r == self.ack_eliciting(),
    {
        match self {
            Frame::Ack { .. } | Frame::Padding { .. } => false,
            _ => true,
        }
    }
}

/// Total size of a run of frames.
pub open spec fn total_size(frames: Seq<Frame>) -> nat
    decreases frames.len(),
{
    if frames.len() == 0 {
        0
    } else {
        total_size(frames.drop_last()) + frames.last().size()
    }
}

/// Whether any frame of the run elicits an acknowledgement.
pub open spec fn any_ack_eliciting(frames: Seq<Frame>) -> bool {
    exists|i: int| 0 <= i < frames.len() && (#[trigger] frames[i]).ack_eliciting()
}

/// Why bytes could not be read as a stream-limit frame.
#[derive(Clone, Copy, Debug, PartialEq, Eq, Structural)]
pub enum DecodeError {
    /// The bytes end before the frame does.
    UnexpectedEnd,
    /// The first byte is not the type of a stream-limit frame.
    UnknownType,
    /// A MAX_STREAMS frame carries a limit above 2^60.
    StreamLimit,
}

/// The frames that have a wire format here: MAX_STREAMS with a limit of 2^60
/// at most, and STREAMS_BLOCKED with any limit in range.
pub open spec fn is_stream_limit_frame(frame: Frame) -> bool {
    match frame {
        Frame::MaxStreams { limit, .. } => limit <= MAX_STREAM_LIMIT,
        Frame::StreamsBlocked { limit, .. } => limit <= MAX_VARINT_VALUE,
        _ => false,
    }
}

/// The type byte of a stream-limit frame.
pub open spec fn frame_type(frame: Frame) -> u8 {
    match frame {
        Frame::MaxStreams { bidirectional, .. } => if bidirectional {
            0x12
        } else {
            0x13
        },
        Frame::StreamsBlocked { bidirectional, .. } => if bidirectional {
            0x16
        } else {
            0x17
        },
        _ => 0,
    }
}

/// The limit a stream-limit frame carries.
pub open spec fn frame_limit(frame: Frame) -> u64 {
    match frame {
        Frame::MaxStreams { limit, .. } => limit,
        Frame::StreamsBlocked { limit, .. } => limit,
        _ => 0,
    }
}

/// The bytes of a stream-limit frame: its type, then its limit.
pub open spec fn wire(frame: Frame) -> Seq<u8> {
    seq![frame_type(frame)] + encoding(frame_limit(frame))
}

/// What the front of `bytes` reads as: a frame and the bytes it took.
pub open spec fn parse(bytes: Seq<u8>) -> Result<(Frame, nat), DecodeError> {
    if bytes.len() == 0 {
        Err(DecodeError::UnexpectedEnd)
    } else if !(bytes[0] == 0x12 || bytes[0] == 0x13 || bytes[0] == 0x16 || bytes[0] == 0x17) {
        Err(DecodeError::UnknownType)
    } else {
        match decoding(bytes.skip(1)) {
            None => Err(DecodeError::UnexpectedEnd),
            Some((limit, n)) => {
                let bidirectional = bytes[0] == 0x12 || bytes[0] == 0x16;
                if bytes[0] == 0x12 || bytes[0] == 0x13 {
                    if limit > MAX_STREAM_LIMIT {
                        Err(DecodeError::StreamLimit)
                    } else {
                        Ok((Frame::MaxStreams { bidirectional, limit }, n + 1))
                    }
                } else {
                    Ok((Frame::StreamsBlocked { bidirectional, limit }, n + 1))
                }
            },
        }
    }
}

/// Appends a stream-limit frame to `out`. Any other frame, or a limit out of
/// range, leaves `out` as it was and returns `false`.
pub fn encode_stream_limit(frame: &Frame, out: &mut Vec<u8>) -> (written: bool)
    ensures
        written == is_stream_limit_frame(*frame),
        written ==> final(out)@ == old(out)@ + wire(*frame),
        !written ==> final(out)@ == old(out)@,
{
    let ghost before = out@;
    match frame {
        Frame::MaxStreams { bidirectional, limit } => {
            if *limit > MAX_STREAM_LIMIT {
                return false;
            }
            out.push(if *bidirectional { 0x12 } else { 0x13 });
            encode(*limit, out);
            assert(out@ =~= before + wire(*frame));
            true
        },
        Frame::StreamsBlocked { bidirectional, limit } => {
            if *limit > MAX_VARINT_VALUE {
                return false;
            }
            out.push(if *bidirectional { 0x16 } else { 0x17 });
            encode(*limit, out);
            assert(out@ =~= before + wire(*frame));
            true
        },
        _ => false,
    }
}

/// Reads a stream-limit frame from the front of `bytes`.
pub fn decode_stream_limit(bytes: &[u8]) -> (r: Result<(Frame, usize), DecodeError>)
    ensures
        match r {
            Ok((frame, n)) => parse(bytes@) == Ok::<(Frame, nat), DecodeError>((frame, n as nat))
                && n <= bytes@.len() && is_stream_limit_frame(frame),
            Err(e) => parse(bytes@) == Err::<(Frame, nat), DecodeError>(e),
        },
{
    if bytes.len() == 0 {
        return Err(DecodeError::UnexpectedEnd);
    }
    let ty: u8 = bytes[0];
    if !(ty == 0x12 || ty == 0x13 || ty == 0x16 || ty == 0x17) {
        return Err(DecodeError::UnknownType);
    }
    let body = vstd::slice::slice_subrange(bytes, 1, bytes.len());
    assert(body@ =~= bytes@.skip(1));
    match decode(body) {
        None => Err(DecodeError::UnexpectedEnd),
        Some((limit, n)) => {
            let bidirectional = ty == 0x12 || ty == 0x16;
            if ty == 0x12 || ty == 0x13 {
                if limit > MAX_STREAM_LIMIT {
                    Err(DecodeError::StreamLimit)
                } else {
                    Ok((Frame::MaxStreams { bidirectional, limit }, n + 1))
                }
            } else {
                Ok((Frame::StreamsBlocked { bidirectional, limit }, n + 1))
            }
        },
    }
}

/// Reading back what `encode_stream_limit` wrote gives the same frame and
/// takes exactly the bytes written, whatever follows them.
pub proof fn lemma_frame_round_trip(frame: Frame, rest: Seq<u8>)
    requires
        is_stream_limit_frame(frame),
    ensures
        parse(wire(frame) + rest) == Ok::<(Frame, nat), DecodeError>((frame, wire(frame).len())),
{
    let limit = frame_limit(frame);
    lemma_decode_encode(limit, rest);
    let bytes = wire(frame) + rest;
    assert(bytes.skip(1) =~= encoding(limit) + rest);
    assert(bytes[0] == frame_type(frame));
    assert(wire(frame).len() == encoded_len(limit) + 1);
}

} // verus!
