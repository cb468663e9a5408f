//! Stream types and stream ids.

use crate::varint::MAX_VARINT_VALUE;
use vstd::prelude::*;

verus! {

/// Which side of the connection an endpoint is.
#[derive(Clone, Copy, Debug, PartialEq, Eq, Structural)]
pub enum Endpoint {
    Client,
    Server,
}

/// Whether data flows both ways on a stream or one way only.
#[derive(Clone, Copy, Debug, PartialEq, Eq, Structural)]
pub enum Direction {
    Bidirectional,
    Unidirectional,
}

/// The four kinds of stream a connection counts separately.
#[derive(Clone, Copy, Debug, PartialEq, Eq, Structural)]
pub enum StreamType {
    BidiLocal,
    UniLocal,
    BidiRemote,
    UniRemote,
}

impl Endpoint {
    pub open spec fn peer_spec(self) -> Endpoint {
        match self {
            Endpoint::Client => Endpoint::Server,
            Endpoint::Server => Endpoint::Client,
        }
    }

    /// The other side of the connection.
    pub fn peer(self) -> (r: Endpoint)
        ensures
            r == self.peer_spec(),
    {
        match self {
            Endpoint::Client => Endpoint::Server,
            Endpoint::Server => Endpoint::Client,
        }
    }
}

impl Direction {
    pub open spec fn bidirectional(self) -> bool {
        self == Direction::Bidirectional
    }

    pub fn is_bidirectional(self) -> (r: bool)
        ensures
            r == self.bidirectional(),
    {
        match self {
            Direction::Bidirectional => true,
            Direction::Unidirectional => false,
        }
    }
}

/// The two low bits of the ids of one kind of stream.
pub open spec fn quadrant_tag(initiator: Endpoint, direction: Direction) -> nat {
    match (direction, initiator) {
        (Direction::Bidirectional, Endpoint::Client) => 0,
        (Direction::Bidirectional, Endpoint::Server) => 1,
        (Direction::Unidirectional, Endpoint::Client) => 2,
        (Direction::Unidirectional, Endpoint::Server) => 3,
    }
}

/// The id of the `n`th stream of a kind, counting from zero: `n` above the
/// tag. There is none where it would pass the largest 62-bit value.
pub open spec fn stream_id(initiator: Endpoint, direction: Direction, n: u64) -> Option<u64> {
    let id = 4 * n + quadrant_tag(initiator, direction);
    if id <= MAX_VARINT_VALUE {
        Some(id as u64)
    } else {
        None
    }
}

/// `s2n_quic_core::stream::StreamId::nth`, with the id handed back as a
/// number: the contract claims that it is four times `n` plus the tag of the
/// kind, and that there is none where that passes 2^62 - 1.
#[verifier::external_body]
pub(crate) fn nth_stream_id(initiator: Endpoint, direction: Direction, n: u64) -> (id: Option<u64>)
    ensures
        id == stream_id(initiator, direction, n),
{
    let initiator = match initiator {
        Endpoint::Client => s2n_quic_core::endpoint::Type::Client,
        Endpoint::Server => s2n_quic_core::endpoint::Type::Server,
    };
    let direction = match direction {
        Direction::Bidirectional => s2n_quic_core::stream::StreamType::Bidirectional,
        Direction::Unidirectional => s2n_quic_core::stream::StreamType::Unidirectional,
    };
    s2n_quic_core::stream::StreamId::nth(initiator, direction, n).map(|id| id.as_varint().as_u64())
}

/// The id of the `n`th stream of a kind, if there is one.
pub fn nth_id(initiator: Endpoint, direction: Direction, n: u64) -> (id: Option<u64>)
    ensures
        id == stream_id(initiator, direction, n),
{
    nth_stream_id(initiator, direction, n)
}

} // verus!
