//! Credit for the streams that the peer opens.

use crate::context::{Packet, WriteContext};
use crate::frame::{Frame, MAX_STREAM_LIMIT};
use crate::interest::Interest;
use crate::local_controller::TransportError;
use crate::stream::Direction;
use crate::sync::{above, greatest_acked, outside, IncrementalValueSync, PacketRange};
use crate::varint::{saturating_sum, varint_saturating_add, MAX_VARINT_VALUE};
use vstd::prelude::*;

verus! {

/// Counts the streams of one direction that the peer opened, and advertises
/// a higher limit as they close.
pub struct RemoteInitiatedStreamController {
    pub max_local_limit: u64,
    pub max_streams_sync: IncrementalValueSync,
    pub opened_streams: u64,
    pub closed_streams: u64,
    pub direction: Direction,
}

/// The limit to advertise once `closed_streams` streams have ended: the
/// configured ceiling plus the streams closed, held at 2^60, the most that a
/// MAX_STREAMS frame may carry.
pub open spec fn advertised_limit(max_local_limit: u64, closed_streams: u64) -> u64 {
    let sum = saturating_sum(max_local_limit, closed_streams);
    if sum > MAX_STREAM_LIMIT {
        MAX_STREAM_LIMIT
    } else {
        sum
    }
}

/// Computes the limit to advertise.
pub fn limit_to_advertise(max_local_limit: u64, closed_streams: u64) -> (limit: u64)
    requires
        max_local_limit <= MAX_VARINT_VALUE,
        closed_streams <= MAX_VARINT_VALUE,
    ensures
        limit == advertised_limit(max_local_limit, closed_streams),
        limit <= MAX_STREAM_LIMIT,
{
    let sum = varint_saturating_add(max_local_limit, closed_streams);
    if sum > MAX_STREAM_LIMIT {
        MAX_STREAM_LIMIT
    } else {
        sum
    }
}

impl RemoteInitiatedStreamController {
    /// The limit to advertise is the configured ceiling plus the streams
    /// closed, and 2^60 at most; the peer has opened no more than that, and
    /// no stream is closed that was not opened.
    pub open spec fn wf(self) -> bool {
        &&& self.max_streams_sync.wf()
        &&& self.max_local_limit <= MAX_STREAM_LIMIT
        &&& self.max_streams_sync.latest_value == advertised_limit(
            self.max_local_limit,
            self.closed_streams,
        )
        &&& self.closed_streams <= self.opened_streams
        &&& self.opened_streams <= self.max_streams_sync.latest_value
    }

    /// Ceiling, direction and counters are as in `other`.
    pub open spec fn same_counters(self, other: RemoteInitiatedStreamController) -> bool {
        &&& self.max_local_limit == other.max_local_limit
        &&& self.direction == other.direction
        &&& self.opened_streams == other.opened_streams
        &&& self.closed_streams == other.closed_streams
        &&& self.max_streams_sync.latest_value == other.max_streams_sync.latest_value
    }

    /// `after` is this controller with one more stream opened.
    pub open spec fn opened(self, after: RemoteInitiatedStreamController) -> bool {
        &&& after.max_local_limit == self.max_local_limit
        &&& after.direction == self.direction
        &&& after.closed_streams == self.closed_streams
        &&& after.max_streams_sync == self.max_streams_sync
        &&& after.opened_streams == self.opened_streams + 1
    }

    /// `after` is this controller after one of the peer's streams ended:
    /// the stream is counted and the limit to advertise rises with it, as
    /// far as 2^60, unless no stream was open.
    pub open spec fn stream_closed(self, after: RemoteInitiatedStreamController) -> bool {
        &&& after.max_local_limit == self.max_local_limit
        &&& after.direction == self.direction
        &&& after.opened_streams == self.opened_streams
        &&& after.closed_streams == if self.closed_streams < self.opened_streams {
            (self.closed_streams + 1) as u64
        } else {
            self.closed_streams
        }
        &&& after.max_streams_sync.latest_value == advertised_limit(
            self.max_local_limit,
            after.closed_streams,
        )
        &&& after.max_streams_sync.last_acked_value == self.max_streams_sync.last_acked_value
        &&& after.max_streams_sync.in_flight@ == self.max_streams_sync.in_flight@
    }

    /// `after` is this controller after its turn on `packet` of number
    /// `packet_number`: a frame written is in flight.
    pub open spec fn transmitted(
        self,
        after: RemoteInitiatedStreamController,
        packet: Packet,
        packet_number: u64,
    ) -> bool {
        &&& after.same_counters(self)
        &&& after.max_streams_sync.last_acked_value == self.max_streams_sync.last_acked_value
        &&& after.max_streams_sync.in_flight@ == self.in_flight_after(packet, packet_number)
    }

    /// `after` is this controller after the packets of `range` were
    /// acknowledged: the acknowledged limit is the greatest that they
    /// carried, if that is more than before, and what is in flight at or
    /// below it is dropped.
    pub open spec fn acked(self, after: RemoteInitiatedStreamController, range: PacketRange)
        -> bool {
        &&& after.same_counters(self)
        &&& after.max_streams_sync.last_acked_value == greatest_acked(
            self.max_streams_sync.in_flight@,
            range,
            self.max_streams_sync.last_acked_value,
        )
        &&& after.max_streams_sync.last_acked_value >= self.max_streams_sync.last_acked_value
        &&& after.max_streams_sync.in_flight@ == above(
            self.max_streams_sync.in_flight@,
            after.max_streams_sync.last_acked_value,
        )
    }

    /// `after` is this controller after the packets of `range` were lost:
    /// what they carried is in flight no more.
    pub open spec fn lost(self, after: RemoteInitiatedStreamController, range: PacketRange)
        -> bool {
        &&& after.same_counters(self)
        &&& after.max_streams_sync.last_acked_value == self.max_streams_sync.last_acked_value
        &&& after.max_streams_sync.in_flight@ == outside(self.max_streams_sync.in_flight@, range)
    }

    /// Tests the invariant of the controller.
    pub fn is_well_formed(&self) -> (ok: bool)
        ensures
            ok == self.wf(),
    {
        if !self.max_streams_sync.is_well_formed() || self.max_local_limit > MAX_STREAM_LIMIT
            || self.closed_streams > self.opened_streams || self.opened_streams
            > self.max_streams_sync.latest_value || self.closed_streams > MAX_VARINT_VALUE {
            return false;
        }
        let target = limit_to_advertise(self.max_local_limit, self.closed_streams);
        self.max_streams_sync.latest_value == target
    }

    /// A controller with no stream opened; the peer knows the ceiling from
    /// the handshake. A ceiling above 2^60 is refused.
    pub fn new(direction: Direction, max_local_limit: u64) -> (r: Result<
        RemoteInitiatedStreamController,
        TransportError,
    >)
        ensures
            match r {
                Ok(c) => max_local_limit <= MAX_STREAM_LIMIT && c.wf() && c.max_local_limit
                    == max_local_limit && c.direction == direction && c.opened_streams == 0
                    && c.closed_streams == 0 && c.max_streams_sync.latest_value == max_local_limit
                    && c.max_streams_sync.last_acked_value == max_local_limit
                    && c.max_streams_sync.in_flight@ == Seq::<(u64, u64)>::empty(),
                Err(e) => max_local_limit > MAX_STREAM_LIMIT && e == TransportError::StreamLimit,
            },
    {
        if max_local_limit > MAX_STREAM_LIMIT {
            return Err(TransportError::StreamLimit);
        }
        Ok(
            RemoteInitiatedStreamController {
                max_local_limit,
                max_streams_sync: IncrementalValueSync::new(max_local_limit),
                opened_streams: 0,
                closed_streams: 0,
                direction,
            },
        )
    }

    /// The peer opened a stream. One beyond the advertised limit is a
    /// protocol violation and is not counted.
    pub fn on_open_stream(&mut self) -> (r: Result<(), TransportError>)
        requires
            old(self).wf(),
        ensures
            final(self).wf(),
            match r {
                Ok(_) => old(self).opened_streams < old(self).max_streams_sync.latest_value
                    && old(self).opened(*final(self)),
                Err(e) => old(self).opened_streams == old(self).max_streams_sync.latest_value
                    && e == TransportError::ProtocolViolation && *final(self) == *old(self),
            },
    {
        if self.opened_streams >= self.max_streams_sync.latest_value {
            return Err(TransportError::ProtocolViolation);
        }
        self.opened_streams = self.opened_streams + 1;
        Ok(())
    }

    /// A stream of the peer ended: it is counted, and the limit to advertise
    /// rises with it, as far as 2^60. With no stream open nothing changes.
    pub fn on_close_stream(&mut self)
        requires
            old(self).wf(),
        ensures
            final(self).wf(),
            old(self).stream_closed(*final(self)),
    {
        if self.closed_streams < self.opened_streams {
            self.closed_streams = self.closed_streams + 1;
            let target = limit_to_advertise(self.max_local_limit, self.closed_streams);
            self.max_streams_sync.update_latest_value(target);
        }
    }

    /// The packet after this controller's turn.
    pub open spec fn packet_after(self, packet: Packet) -> Packet {
        self.max_streams_sync.packet_after(self.direction.bidirectional(), packet)
    }

    /// The frames that this controller's turn appends to `packet`.
    pub open spec fn written_into(self, packet: Packet) -> Seq<Frame> {
        self.max_streams_sync.written_into(self.direction.bidirectional(), packet)
    }

    /// What is in flight after this controller's turn on `packet`.
    pub open spec fn in_flight_after(self, packet: Packet, packet_number: u64) -> Seq<(u64, u64)> {
        self.max_streams_sync.in_flight_after(
            self.direction.bidirectional(),
            packet,
            packet_number,
        )
    }

    /// Writes a MAX_STREAMS frame if the limit to advertise is neither
    /// acknowledged nor in flight, and the frame fits.
    pub fn on_transmit(&mut self, context: &mut WriteContext)
        requires
            old(self).wf(),
            old(context).wf(),
        ensures
            final(self).wf(),
            final(context).carries(*old(context), old(self).packet_after(old(context)@)),
            old(self).transmitted(*final(self), old(context)@, old(context).packet_number),
    {
        let bidirectional = self.direction.is_bidirectional();
        self.max_streams_sync.on_transmit(bidirectional, context);
    }

    pub fn on_packet_ack(&mut self, range: &PacketRange)
        requires
            old(self).wf(),
        ensures
            final(self).wf(),
            old(self).acked(*final(self), *range),
    {
        self.max_streams_sync.on_packet_ack(range);
    }

    pub fn on_packet_loss(&mut self, range: &PacketRange)
        requires
            old(self).wf(),
        ensures
            final(self).wf(),
            old(self).lost(*final(self), *range),
    {
        self.max_streams_sync.on_packet_loss(range);
    }

    /// New data is due while the limit to advertise is dirty.
    pub fn transmission_interest(&self) -> (r: Interest)
        ensures
            r == if self.max_streams_sync.dirty() {
                Interest::NewData
            } else {
                Interest::Nothing
            },
    {
        if self.max_streams_sync.is_dirty() {
            Interest::NewData
        } else {
            Interest::Nothing
        }
    }
}

/// The MAX_STREAMS frame of a well-formed controller carries 2^60 at most,
/// so it has a wire format.
pub proof fn lemma_advertised_limit_has_wire_format(c: RemoteInitiatedStreamController)
    requires
        c.wf(),
    ensures
        c.max_streams_sync.latest_value <= MAX_STREAM_LIMIT,
        crate::frame::is_stream_limit_frame(
            Frame::MaxStreams {
                bidirectional: c.direction.bidirectional(),
                limit: c.max_streams_sync.latest_value,
            },
        ),
{
}

} // verus!
