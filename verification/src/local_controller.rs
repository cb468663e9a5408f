//! Counter of the streams that this endpoint opens.

use crate::context::{Packet, WriteContext};
use crate::frame::{Frame, MAX_STREAM_LIMIT};
use crate::interest::Interest;
use crate::stream::{nth_stream_id, stream_id, Direction, Endpoint};
use crate::sync::{BlockedState, PacketRange, PeriodicSync};
use crate::waiters::{waiters_len, waiters_new, waiters_push, waiters_take, waiting_tokens};
use crate::waiters::WaiterList;
use vstd::prelude::*;

verus! {

/// An error that closes the connection.
#[derive(Clone, Copy, Debug, PartialEq, Eq, Structural)]
pub enum TransportError {
    /// A stream limit above 2^60 was received or configured.
    StreamLimit,
    /// The peer opened a stream beyond the limit advertised to it.
    ProtocolViolation,
}

/// Outcome of an attempt to open a stream.
#[derive(Clone, Copy, Debug, PartialEq, Eq, Structural)]
pub enum OpenPoll {
    /// The stream is open and has this id.
    Ready(u64),
    /// No room: the token is registered and will be woken.
    Pending,
    /// The connection closed after the token was issued.
    Cancelled,
}

/// Counts the streams of one direction that this endpoint opened, and limits
/// further opens by the local ceiling and the peer's cumulative limit.
pub struct LocalInitiatedStreamController {
    pub max_local_limit: u64,
    pub peer_stream_limit: u64,
    pub opened_streams: u64,
    pub closed_streams: u64,
    pub streams_blocked_sync: PeriodicSync,
    pub wakers: WaiterList,
    pub token_counter: u64,
    pub expired_token: u64,
    pub direction: Direction,
    pub local_endpoint: Endpoint,
}

impl LocalInitiatedStreamController {
    /// No more streams are open than the peer and the local ceiling allow,
    /// none is closed that was not opened, and an announcement of being
    /// blocked speaks of the current peer limit, at which opens stand.
    pub open spec fn wf(self) -> bool {
        &&& self.peer_stream_limit <= MAX_STREAM_LIMIT
        &&& self.opened_streams <= self.peer_stream_limit
        &&& self.opened_streams <= self.max_local_limit
        &&& self.closed_streams <= self.opened_streams
        &&& self.expired_token <= self.token_counter
        &&& self.streams_blocked_sync.wf()
        &&& match self.streams_blocked_sync.state {
            BlockedState::Idle => true,
            BlockedState::Requested { value } => value == self.peer_stream_limit
                && self.opened_streams == self.peer_stream_limit,
            BlockedState::InFlight { value, .. } => value == self.peer_stream_limit
                && self.opened_streams == self.peer_stream_limit,
            BlockedState::Acked { value } => value == self.peer_stream_limit,
        }
    }

    /// The tokens that wait for room, oldest first.
    pub open spec fn waiting(self) -> Seq<u64> {
        waiting_tokens(self.wakers)
    }

    /// One more stream may be opened.
    pub open spec fn has_room(self) -> bool {
        self.opened_streams < self.max_local_limit && self.opened_streams < self.peer_stream_limit
    }

    /// What an attempt to open a stream with `token` returns.
    pub open spec fn poll_outcome(self, token: u64) -> OpenPoll {
        if token <= self.expired_token {
            OpenPoll::Cancelled
        } else if self.has_room() {
            OpenPoll::Ready((4 * self.opened_streams + crate::stream::quadrant_tag(
                self.local_endpoint,
                self.direction,
            )) as u64)
        } else {
            OpenPoll::Pending
        }
    }

    /// `self` is a later state of `other`: ceiling, direction and endpoint
    /// are the same, and tokens, the peer's limit and the counts of streams
    /// opened and closed are not smaller.
    pub open spec fn continues(self, other: LocalInitiatedStreamController) -> bool {
        &&& self.max_local_limit == other.max_local_limit
        &&& self.direction == other.direction
        &&& self.local_endpoint == other.local_endpoint
        &&& self.token_counter >= other.token_counter
        &&& self.expired_token >= other.expired_token
        &&& self.peer_stream_limit >= other.peer_stream_limit
        &&& self.opened_streams >= other.opened_streams
        &&& self.closed_streams >= other.closed_streams
    }

    /// `after` is this controller with one more token issued, `token`.
    pub open spec fn token_issued(self, after: LocalInitiatedStreamController, token: u64) -> bool {
        &&& after.same_but_sync(LocalInitiatedStreamController { token_counter: token, ..self })
        &&& after.streams_blocked_sync == self.streams_blocked_sync
        &&& after.token_counter == token
        &&& token == if self.token_counter < u64::MAX {
            (self.token_counter + 1) as u64
        } else {
            u64::MAX
        }
    }

    /// `after` is this controller after an attempt to open with `token`: a
    /// stream more is open where the attempt succeeded; where it has to
    /// wait, the token is registered behind those that wait, and an
    /// announcement is requested if opens stand at the peer's limit.
    pub open spec fn polled(self, after: LocalInitiatedStreamController, token: u64) -> bool {
        let r = self.poll_outcome(token);
        &&& after.continues(self)
        &&& after.peer_stream_limit == self.peer_stream_limit
        &&& after.closed_streams == self.closed_streams
        &&& after.token_counter == self.token_counter
        &&& after.expired_token == self.expired_token
        &&& after.opened_streams == if r is Ready {
            (self.opened_streams + 1) as u64
        } else {
            self.opened_streams
        }
        &&& after.waiting() == if r is Pending {
            self.waiting().push(token)
        } else {
            self.waiting()
        }
        &&& after.streams_blocked_sync.follows(self.streams_blocked_sync)
        &&& after.streams_blocked_sync.state == if r is Pending && self.opened_streams
            == self.peer_stream_limit {
            self.streams_blocked_sync.requested(self.peer_stream_limit)
        } else {
            self.streams_blocked_sync.state
        }
    }

    /// `after` is this controller with nothing changed.
    pub open spec fn untouched(self, after: LocalInitiatedStreamController) -> bool {
        after.same_but_sync(self) && after.streams_blocked_sync == self.streams_blocked_sync
    }

    /// `after` is this controller after the peer's limit `new_limit`, of
    /// 2^60 at most, arrived, and `woken` are the waiters handed back: a
    /// greater limit is taken over, drops the announcement and releases
    /// every waiter; any other changes nothing.
    pub open spec fn limit_received(
        self,
        after: LocalInitiatedStreamController,
        new_limit: u64,
        woken: Seq<u64>,
    ) -> bool {
        if new_limit > self.peer_stream_limit {
            &&& after.continues(self)
            &&& after.opened_streams == self.opened_streams
            &&& after.closed_streams == self.closed_streams
            &&& after.token_counter == self.token_counter
            &&& after.expired_token == self.expired_token
            &&& after.peer_stream_limit == new_limit
            &&& after.streams_blocked_sync.follows(self.streams_blocked_sync)
            &&& after.streams_blocked_sync.state == BlockedState::Idle
            &&& woken == self.waiting()
            &&& after.waiting() == Seq::<u64>::empty()
        } else {
            self.untouched(after) && woken == Seq::<u64>::empty()
        }
    }

    /// `after` is this controller after one of its streams ended, and
    /// `woken` are the waiters handed back: the stream is counted and every
    /// waiter released, unless no stream was open.
    pub open spec fn stream_closed(
        self,
        after: LocalInitiatedStreamController,
        woken: Seq<u64>,
    ) -> bool {
        if self.closed_streams < self.opened_streams {
            &&& after.continues(self)
            &&& after.opened_streams == self.opened_streams
            &&& after.peer_stream_limit == self.peer_stream_limit
            &&& after.token_counter == self.token_counter
            &&& after.expired_token == self.expired_token
            &&& after.streams_blocked_sync == self.streams_blocked_sync
            &&& after.closed_streams == self.closed_streams + 1
            &&& woken == self.waiting()
            &&& after.waiting() == Seq::<u64>::empty()
        } else {
            self.untouched(after) && woken == Seq::<u64>::empty()
        }
    }

    /// `after` is this controller after the connection closed, and `woken`
    /// are the waiters handed back: every token issued so far is expired,
    /// and every waiter released.
    pub open spec fn connection_closed(
        self,
        after: LocalInitiatedStreamController,
        woken: Seq<u64>,
    ) -> bool {
        &&& after.continues(self)
        &&& after.opened_streams == self.opened_streams
        &&& after.closed_streams == self.closed_streams
        &&& after.peer_stream_limit == self.peer_stream_limit
        &&& after.token_counter == self.token_counter
        &&& after.streams_blocked_sync == self.streams_blocked_sync
        &&& after.expired_token == self.token_counter
        &&& woken == self.waiting()
        &&& after.waiting() == Seq::<u64>::empty()
    }

    /// Tests the invariant of the controller.
    pub fn is_well_formed(&self) -> (ok: bool)
        ensures
            ok == self.wf(),
    {
        let announced = match self.streams_blocked_sync.state {
            BlockedState::Idle => true,
            BlockedState::Requested { value } => value == self.peer_stream_limit
                && self.opened_streams == self.peer_stream_limit,
            BlockedState::InFlight { value, .. } => value == self.peer_stream_limit
                && self.opened_streams == self.peer_stream_limit,
            BlockedState::Acked { value } => value == self.peer_stream_limit,
        };
        self.peer_stream_limit <= MAX_STREAM_LIMIT && self.opened_streams <= self.peer_stream_limit
            && self.opened_streams <= self.max_local_limit && self.closed_streams
            <= self.opened_streams && self.expired_token <= self.token_counter
            && self.streams_blocked_sync.is_well_formed() && announced
    }

    /// A controller with no stream opened. A peer limit above 2^60 is
    /// refused.
    pub fn new(
        local_endpoint: Endpoint,
        direction: Direction,
        max_local_limit: u64,
        peer_stream_limit: u64,
        retransmit_period: u64,
    ) -> (r: Result<LocalInitiatedStreamController, TransportError>)
        ensures
            match r {
                Ok(c) => peer_stream_limit <= MAX_STREAM_LIMIT && c.wf() && c.max_local_limit
                    == max_local_limit && c.peer_stream_limit == peer_stream_limit
                    && c.opened_streams == 0 && c.closed_streams == 0 && c.direction == direction
                    && c.local_endpoint == local_endpoint && c.streams_blocked_sync.state
                    == BlockedState::Idle && c.streams_blocked_sync.period == retransmit_period
                    && c.streams_blocked_sync.now == 0 && c.waiting() == Seq::<u64>::empty()
                    && c.token_counter
                    == 0 && c.expired_token == 0,
                Err(e) => peer_stream_limit > MAX_STREAM_LIMIT && e == TransportError::StreamLimit,
            },
    {
        if peer_stream_limit > MAX_STREAM_LIMIT {
            return Err(TransportError::StreamLimit);
        }
        Ok(
            LocalInitiatedStreamController {
                max_local_limit,
                peer_stream_limit,
                opened_streams: 0,
                closed_streams: 0,
                streams_blocked_sync: PeriodicSync::new(retransmit_period),
                wakers: waiters_new(),
                token_counter: 0,
                expired_token: 0,
                direction,
                local_endpoint,
            },
        )
    }

    /// Issues the token for a new attempt to open a stream: one above the
    /// last, so that it outlives every close of the connection before it.
    pub fn open_token(&mut self) -> (token: u64)
        requires
            old(self).wf(),
        ensures
            final(self).wf(),
            old(self).token_issued(*final(self), token),
    {
        if self.token_counter < u64::MAX {
            self.token_counter = self.token_counter + 1;
        }
        self.token_counter
    }

    /// Opens the next stream if there is room. Without room the token is
    /// registered, and where the peer's limit is what stands in the way an
    /// announcement of being blocked at that limit is requested. A token
    /// issued before the connection closed is cancelled.
    pub fn poll_open_stream(&mut self, token: u64) -> (r: OpenPoll)
        requires
            old(self).wf(),
        ensures
            final(self).wf(),
            r == old(self).poll_outcome(token),
            old(self).polled(*final(self), token),
    {
        if token <= self.expired_token {
            return OpenPoll::Cancelled;
        }
        if self.opened_streams < self.max_local_limit && self.opened_streams
            < self.peer_stream_limit {
            let id = nth_stream_id(self.local_endpoint, self.direction, self.opened_streams);
            assert(stream_id(self.local_endpoint, self.direction, self.opened_streams) is Some);
            match id {
                Some(id) => {
                    self.opened_streams = self.opened_streams + 1;
                    OpenPoll::Ready(id)
                },
                None => OpenPoll::Pending,
            }
        } else {
            waiters_push(&mut self.wakers, token);
            if self.opened_streams == self.peer_stream_limit {
                self.streams_blocked_sync.request(self.peer_stream_limit);
            }
            OpenPoll::Pending
        }
    }

    /// The peer raised its limit to `new_limit`: the limit rises, an
    /// announcement of being blocked is dropped, and every waiter is handed
    /// back to be woken. A limit that is not greater changes nothing; one
    /// above 2^60 is an error and changes nothing.
    pub fn on_max_streams_frame(&mut self, new_limit: u64) -> (r: Result<Vec<u64>, TransportError>)
        requires
            old(self).wf(),
        ensures
            final(self).wf(),
            match r {
                Ok(woken) => new_limit <= MAX_STREAM_LIMIT && old(self).limit_received(
                    *final(self),
                    new_limit,
                    woken@,
                ),
                Err(e) => new_limit > MAX_STREAM_LIMIT && e == TransportError::StreamLimit
                    && old(self).untouched(*final(self)),
            },
    {
        if new_limit > MAX_STREAM_LIMIT {
            return Err(TransportError::StreamLimit);
        }
        if new_limit > self.peer_stream_limit {
            self.peer_stream_limit = new_limit;
            self.streams_blocked_sync.stop();
            Ok(waiters_take(&mut self.wakers))
        } else {
            Ok(Vec::new())
        }
    }

    /// A stream of this kind ended: it is counted, and every waiter is
    /// handed back to be woken. With no stream open nothing changes.
    pub fn on_close_stream(&mut self) -> (woken: Vec<u64>)
        requires
            old(self).wf(),
        ensures
            final(self).wf(),
            old(self).stream_closed(*final(self), woken@),
    {
        if self.closed_streams < self.opened_streams {
            self.closed_streams = self.closed_streams + 1;
            waiters_take(&mut self.wakers)
        } else {
            Vec::new()
        }
    }

    /// The connection closes: every token issued so far expires, and every
    /// waiter is handed back once, to be woken with the cancellation.
    pub fn on_close(&mut self) -> (woken: Vec<u64>)
        requires
            old(self).wf(),
        ensures
            final(self).wf(),
            old(self).connection_closed(*final(self), woken@),
    {
        self.expired_token = self.token_counter;
        waiters_take(&mut self.wakers)
    }

    /// Number of parties that wait for room.
    pub fn waiter_count(&self) -> (n: usize)
        ensures
            n == self.waiting().len(),
    {
        waiters_len(&self.wakers)
    }

    /// The packet after this controller's turn.
    pub open spec fn packet_after(self, packet: Packet) -> Packet {
        self.streams_blocked_sync.packet_after(self.direction.bidirectional(), packet)
    }

    /// The frames that this controller's turn appends to `packet`.
    pub open spec fn written_into(self, packet: Packet) -> Seq<Frame> {
        self.streams_blocked_sync.written_into(self.direction.bidirectional(), packet)
    }

    /// The announcement after this controller's turn on `packet`.
    pub open spec fn sync_after(self, packet: Packet, packet_number: u64) -> BlockedState {
        self.streams_blocked_sync.state_after(
            self.direction.bidirectional(),
            packet,
            packet_number,
        )
    }

    /// Everything but the announcement is as in `other`.
    pub open spec fn same_but_sync(self, other: LocalInitiatedStreamController) -> bool {
        &&& self.continues(other)
        &&& self.peer_stream_limit == other.peer_stream_limit
        &&& self.opened_streams == other.opened_streams
        &&& self.closed_streams == other.closed_streams
        &&& self.token_counter == other.token_counter
        &&& self.expired_token == other.expired_token
        &&& self.waiting() == other.waiting()
    }

    /// `after` is this controller after its turn on `packet` of number
    /// `packet_number`: only the announcement moved.
    pub open spec fn transmitted(
        self,
        after: LocalInitiatedStreamController,
        packet: Packet,
        packet_number: u64,
    ) -> bool {
        &&& after.same_but_sync(self)
        &&& after.streams_blocked_sync.follows(self.streams_blocked_sync)
        &&& after.streams_blocked_sync.state == self.sync_after(packet, packet_number)
    }

    /// `after` is this controller after the packets of `range` were
    /// acknowledged.
    pub open spec fn acked(self, after: LocalInitiatedStreamController, range: PacketRange)
        -> bool {
        &&& after.same_but_sync(self)
        &&& after.streams_blocked_sync.follows(self.streams_blocked_sync)
        &&& after.streams_blocked_sync.state == self.streams_blocked_sync.acked(range)
    }

    /// `after` is this controller after the packets of `range` were lost.
    pub open spec fn lost(self, after: LocalInitiatedStreamController, range: PacketRange) -> bool {
        &&& after.same_but_sync(self)
        &&& after.streams_blocked_sync.follows(self.streams_blocked_sync)
        &&& after.streams_blocked_sync.state == self.streams_blocked_sync.lost(range)
    }

    /// `after` is this controller after it was told the time `now`: only
    /// its clock moved, and never back.
    pub open spec fn clock_moved(self, after: LocalInitiatedStreamController, now: u64) -> bool {
        &&& after.same_but_sync(self)
        &&& after.streams_blocked_sync.state == self.streams_blocked_sync.state
        &&& after.streams_blocked_sync.period == self.streams_blocked_sync.period
        &&& after.streams_blocked_sync.retransmit_at == self.streams_blocked_sync.retransmit_at
        &&& after.streams_blocked_sync.now == if now > self.streams_blocked_sync.now {
            now
        } else {
            self.streams_blocked_sync.now
        }
    }

    /// Writes a STREAMS_BLOCKED frame if one is requested and fits.
    pub fn on_transmit(&mut self, context: &mut WriteContext)
        requires
            old(self).wf(),
            old(context).wf(),
        ensures
            final(self).wf(),
            final(context).carries(*old(context), old(self).packet_after(old(context)@)),
            old(self).transmitted(*final(self), old(context)@, old(context).packet_number),
    {
        let bidirectional = self.direction.is_bidirectional();
        self.streams_blocked_sync.on_transmit(bidirectional, context);
    }

    pub fn on_packet_ack(&mut self, range: &PacketRange)
        requires
            old(self).wf(),
        ensures
            final(self).wf(),
            old(self).acked(*final(self), *range),
    {
        self.streams_blocked_sync.on_packet_ack(range);
    }

    pub fn on_packet_loss(&mut self, range: &PacketRange)
        requires
            old(self).wf(),
        ensures
            final(self).wf(),
            old(self).lost(*final(self), *range),
    {
        self.streams_blocked_sync.on_packet_loss(range);
    }

    /// The clock moved to `now`: the announcement's machine is told.
    pub fn on_timeout(&mut self, now: u64)
        requires
            old(self).wf(),
        ensures
            final(self).wf(),
            old(self).clock_moved(*final(self), now),
    {
        self.streams_blocked_sync.on_timeout(now);
    }

    /// When the connection is to be woken for this controller, if at all.
    pub fn next_expiration(&self) -> (at: Option<u64>)
        ensures
            at == self.streams_blocked_sync.retransmit_at,
    {
        self.streams_blocked_sync.next_expiration()
    }

    /// New data is due while an announcement waits to be written.
    pub fn transmission_interest(&self) -> (r: Interest)
        ensures
            r == if self.streams_blocked_sync.state is Requested {
                Interest::NewData
            } else {
                Interest::Nothing
            },
    {
        if self.streams_blocked_sync.is_requested() {
            Interest::NewData
        } else {
            Interest::Nothing
        }
    }
}

} // verus!
