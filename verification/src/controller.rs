//! The stream-concurrency controller of a connection: one counter for each of
//! the four kinds of stream.

use crate::context::{Packet, WriteContext};
use crate::frame::{Frame, MAX_STREAM_LIMIT};
use crate::interest::Interest;
use crate::local_controller::{LocalInitiatedStreamController, OpenPoll, TransportError};
use crate::remote_controller::RemoteInitiatedStreamController;
use crate::stream::{Direction, Endpoint, StreamType};
use crate::sync::PacketRange;
use vstd::prelude::*;

verus! {

pub struct Controller {
    pub bidi_local: LocalInitiatedStreamController,
    pub uni_local: LocalInitiatedStreamController,
    pub bidi_remote: RemoteInitiatedStreamController,
    pub uni_remote: RemoteInitiatedStreamController,
    /// Count of the refusals that started an announcement of being blocked.
    pub refusals: u64,
    /// The count at which the bidirectional announcement started.
    pub bidi_blocked_at: u64,
    /// The count at which the unidirectional announcement started.
    pub uni_blocked_at: u64,
}

/// The limits a controller starts with.
#[derive(Clone, Copy, Debug, PartialEq, Eq, Structural)]
pub struct Limits {
    pub max_local_bidi: u64,
    pub max_local_uni: u64,
    pub peer_bidi: u64,
    pub peer_uni: u64,
    pub max_remote_bidi: u64,
    pub max_remote_uni: u64,
    /// Period of the timer of a STREAMS_BLOCKED announcement.
    pub streams_blocked_retransmit_period: u64,
}

impl Controller {
    /// Each counter is well formed and stands for its own kind of stream.
    pub open spec fn wf(self) -> bool {
        &&& self.bidi_local.wf()
        &&& self.uni_local.wf()
        &&& self.bidi_remote.wf()
        &&& self.uni_remote.wf()
        &&& self.bidi_local.direction == Direction::Bidirectional
        &&& self.uni_local.direction == Direction::Unidirectional
        &&& self.bidi_remote.direction == Direction::Bidirectional
        &&& self.uni_remote.direction == Direction::Unidirectional
        &&& self.bidi_local.local_endpoint == self.uni_local.local_endpoint
    }

    /// The counter for the streams of `direction` that this endpoint opens.
    pub open spec fn local(self, direction: Direction) -> LocalInitiatedStreamController {
        match direction {
            Direction::Bidirectional => self.bidi_local,
            Direction::Unidirectional => self.uni_local,
        }
    }

    /// The counter for the streams of `direction` that the peer opens.
    pub open spec fn remote(self, direction: Direction) -> RemoteInitiatedStreamController {
        match direction {
            Direction::Bidirectional => self.bidi_remote,
            Direction::Unidirectional => self.uni_remote,
        }
    }

    /// The counters for the other direction, and those of the peer's streams,
    /// are as in `other`.
    pub open spec fn same_but_local(self, other: Controller, direction: Direction) -> bool {
        &&& self.bidi_remote == other.bidi_remote
        &&& self.uni_remote == other.uni_remote
        &&& match direction {
            Direction::Bidirectional => self.uni_local == other.uni_local,
            Direction::Unidirectional => self.bidi_local == other.bidi_local,
        }
    }

    /// The counters for the other direction, and those of this endpoint's
    /// streams, are as in `other`, and so is the order of refusals.
    pub open spec fn same_but_remote(self, other: Controller, direction: Direction) -> bool {
        &&& self.bidi_local == other.bidi_local
        &&& self.uni_local == other.uni_local
        &&& self.same_refusals(other)
        &&& match direction {
            Direction::Bidirectional => self.uni_remote == other.uni_remote,
            Direction::Unidirectional => self.bidi_remote == other.bidi_remote,
        }
    }

    pub open spec fn same_refusals(self, other: Controller) -> bool {
        &&& self.refusals == other.refusals
        &&& self.bidi_blocked_at == other.bidi_blocked_at
        &&& self.uni_blocked_at == other.uni_blocked_at
    }

    /// Nothing that only grows is smaller in `self` than in `before`: the
    /// peer's limits, the limits that the peer acknowledged, the limits to
    /// advertise, and the counts of streams opened and closed.
    pub open spec fn not_behind(self, before: Controller) -> bool {
        &&& self.bidi_local.peer_stream_limit >= before.bidi_local.peer_stream_limit
        &&& self.uni_local.peer_stream_limit >= before.uni_local.peer_stream_limit
        &&& self.bidi_remote.max_streams_sync.last_acked_value
            >= before.bidi_remote.max_streams_sync.last_acked_value
        &&& self.uni_remote.max_streams_sync.last_acked_value
            >= before.uni_remote.max_streams_sync.last_acked_value
        &&& self.bidi_remote.max_streams_sync.latest_value
            >= before.bidi_remote.max_streams_sync.latest_value
        &&& self.uni_remote.max_streams_sync.latest_value
            >= before.uni_remote.max_streams_sync.latest_value
        &&& self.bidi_local.opened_streams >= before.bidi_local.opened_streams
        &&& self.uni_local.opened_streams >= before.uni_local.opened_streams
        &&& self.bidi_remote.opened_streams >= before.bidi_remote.opened_streams
        &&& self.uni_remote.opened_streams >= before.uni_remote.opened_streams
        &&& self.bidi_local.closed_streams >= before.bidi_local.closed_streams
        &&& self.uni_local.closed_streams >= before.uni_local.closed_streams
        &&& self.bidi_remote.closed_streams >= before.bidi_remote.closed_streams
        &&& self.uni_remote.closed_streams >= before.uni_remote.closed_streams
    }

    /// Tests the invariant of the controller.
    pub fn is_well_formed(&self) -> (ok: bool)
        ensures
            ok == self.wf(),
    {
        self.bidi_local.is_well_formed() && self.uni_local.is_well_formed()
            && self.bidi_remote.is_well_formed() && self.uni_remote.is_well_formed()
            && self.bidi_local.direction.is_bidirectional()
            && !self.uni_local.direction.is_bidirectional()
            && self.bidi_remote.direction.is_bidirectional()
            && !self.uni_remote.direction.is_bidirectional() && self.bidi_local.local_endpoint
            == self.uni_local.local_endpoint
    }

    /// A controller with no stream opened. A limit above 2^60 is refused.
    pub fn new(local_endpoint: Endpoint, limits: Limits) -> (r: Result<Controller, TransportError>)
        ensures
            match r {
                Ok(c) => c.wf() && c.bidi_local.peer_stream_limit == limits.peer_bidi
                    && c.uni_local.peer_stream_limit == limits.peer_uni
                    && c.bidi_local.max_local_limit == limits.max_local_bidi
                    && c.uni_local.max_local_limit == limits.max_local_uni
                    && c.bidi_remote.max_local_limit == limits.max_remote_bidi
                    && c.uni_remote.max_local_limit == limits.max_remote_uni
                    && c.bidi_local.local_endpoint == local_endpoint && c.bidi_local.opened_streams
                    == 0 && c.uni_local.opened_streams == 0 && c.bidi_remote.opened_streams == 0
                    && c.uni_remote.opened_streams == 0,
                Err(e) => e == TransportError::StreamLimit,
            },
            r is Ok == (limits.peer_bidi <= MAX_STREAM_LIMIT && limits.peer_uni
                <= MAX_STREAM_LIMIT && limits.max_remote_bidi
                <= MAX_STREAM_LIMIT && limits.max_remote_uni
                <= MAX_STREAM_LIMIT),
    {
        let bidi_local = match LocalInitiatedStreamController::new(
            local_endpoint,
            Direction::Bidirectional,
            limits.max_local_bidi,
            limits.peer_bidi,
            limits.streams_blocked_retransmit_period,
        ) {
            Ok(c) => c,
            Err(e) => { return Err(e); },
        };
        let uni_local = match LocalInitiatedStreamController::new(
            local_endpoint,
            Direction::Unidirectional,
            limits.max_local_uni,
            limits.peer_uni,
            limits.streams_blocked_retransmit_period,
        ) {
            Ok(c) => c,
            Err(e) => { return Err(e); },
        };
        let bidi_remote = match RemoteInitiatedStreamController::new(
            Direction::Bidirectional,
            limits.max_remote_bidi,
        ) {
            Ok(c) => c,
            Err(e) => { return Err(e); },
        };
        let uni_remote = match RemoteInitiatedStreamController::new(
            Direction::Unidirectional,
            limits.max_remote_uni,
        ) {
            Ok(c) => c,
            Err(e) => { return Err(e); },
        };
        Ok(
            Controller {
                bidi_local,
                uni_local,
                bidi_remote,
                uni_remote,
                refusals: 0,
                bidi_blocked_at: 0,
                uni_blocked_at: 0,
            },
        )
    }

    /// Issues an open token for a stream of `direction`: one above the last
    /// issued for it.
    pub fn open_token(&mut self, direction: Direction) -> (token: u64)
        requires
            old(self).wf(),
        ensures
            final(self).wf(),
            final(self).not_behind(*old(self)),
            final(self).same_but_local(*old(self), direction),
            final(self).same_refusals(*old(self)),
            old(self).local(direction).token_issued(final(self).local(direction), token),
    {
        match direction {
            Direction::Bidirectional => self.bidi_local.open_token(),
            Direction::Unidirectional => self.uni_local.open_token(),
        }
    }

    /// The order of refusals after an attempt to open: a refusal that
    /// starts an announcement takes the next place in it.
    pub open spec fn stamped(self, after: LocalInitiatedStreamController, direction: Direction)
        -> (u64, u64, u64) {
        if !self.local(direction).streams_blocked_sync.active()
            && after.streams_blocked_sync.active() {
            let next = if self.refusals < u64::MAX {
                (self.refusals + 1) as u64
            } else {
                self.refusals
            };
            match direction {
                Direction::Bidirectional => (next, self.refusals, self.uni_blocked_at),
                Direction::Unidirectional => (next, self.bidi_blocked_at, self.refusals),
            }
        } else {
            (self.refusals, self.bidi_blocked_at, self.uni_blocked_at)
        }
    }

    /// Attempts to open a stream of `direction` for the holder of `token`:
    /// see the counter's own `poll_open_stream`.
    pub fn poll_open_stream(&mut self, direction: Direction, token: u64) -> (r: OpenPoll)
        requires
            old(self).wf(),
        ensures
            final(self).wf(),
            final(self).not_behind(*old(self)),
            final(self).same_but_local(*old(self), direction),
            r == old(self).local(direction).poll_outcome(token),
            old(self).local(direction).polled(final(self).local(direction), token),
            (final(self).refusals, final(self).bidi_blocked_at, final(self).uni_blocked_at)
                == old(self).stamped(final(self).local(direction), direction),
    {
        match direction {
            Direction::Bidirectional => {
                let was_active = self.bidi_local.streams_blocked_sync.is_active();
                let r = self.bidi_local.poll_open_stream(token);
                if !was_active && self.bidi_local.streams_blocked_sync.is_active() {
                    self.bidi_blocked_at = self.refusals;
                    if self.refusals < u64::MAX {
                        self.refusals = self.refusals + 1;
                    }
                }
                r
            },
            Direction::Unidirectional => {
                let was_active = self.uni_local.streams_blocked_sync.is_active();
                let r = self.uni_local.poll_open_stream(token);
                if !was_active && self.uni_local.streams_blocked_sync.is_active() {
                    self.uni_blocked_at = self.refusals;
                    if self.refusals < u64::MAX {
                        self.refusals = self.refusals + 1;
                    }
                }
                r
            },
        }
    }

    /// The peer opened a stream of `direction`.
    pub fn on_open_stream(&mut self, direction: Direction) -> (r: Result<(), TransportError>)
        requires
            old(self).wf(),
        ensures
            final(self).wf(),
            final(self).not_behind(*old(self)),
            final(self).same_but_remote(*old(self), direction),
            match r {
                Ok(_) => old(self).remote(direction).opened_streams < old(self).remote(
                    direction,
                ).max_streams_sync.latest_value && old(self).remote(direction).opened(
                    final(self).remote(direction),
                ),
                Err(e) => old(self).remote(direction).opened_streams == old(self).remote(
                    direction,
                ).max_streams_sync.latest_value && e == TransportError::ProtocolViolation
                    && final(self).remote(direction) == old(self).remote(direction),
            },
    {
        match direction {
            Direction::Bidirectional => self.bidi_remote.on_open_stream(),
            Direction::Unidirectional => self.uni_remote.on_open_stream(),
        }
    }

    /// A stream of `stream_type` ended. For a stream of this endpoint the
    /// waiters of its counter are handed back to be woken.
    pub fn on_close_stream(&mut self, stream_type: StreamType) -> (woken: Vec<u64>)
        requires
            old(self).wf(),
        ensures
            final(self).wf(),
            final(self).not_behind(*old(self)),
            final(self).same_refusals(*old(self)),
            match stream_type {
                StreamType::BidiLocal => final(self).same_but_local(
                    *old(self),
                    Direction::Bidirectional,
                ) && old(self).bidi_local.stream_closed(final(self).bidi_local, woken@),
                StreamType::UniLocal => final(self).same_but_local(
                    *old(self),
                    Direction::Unidirectional,
                ) && old(self).uni_local.stream_closed(final(self).uni_local, woken@),
                StreamType::BidiRemote => final(self).same_but_remote(
                    *old(self),
                    Direction::Bidirectional,
                ) && old(self).bidi_remote.stream_closed(final(self).bidi_remote) && woken@
                    == Seq::<u64>::empty(),
                StreamType::UniRemote => final(self).same_but_remote(
                    *old(self),
                    Direction::Unidirectional,
                ) && old(self).uni_remote.stream_closed(final(self).uni_remote) && woken@
                    == Seq::<u64>::empty(),
            },
    {
        match stream_type {
            StreamType::BidiLocal => self.bidi_local.on_close_stream(),
            StreamType::UniLocal => self.uni_local.on_close_stream(),
            StreamType::BidiRemote => {
                self.bidi_remote.on_close_stream();
                Vec::new()
            },
            StreamType::UniRemote => {
                self.uni_remote.on_close_stream();
                Vec::new()
            },
        }
    }

    /// The peer's MAX_STREAMS frame for `direction` arrived: see the counter's
    /// own `on_max_streams_frame`.
    pub fn on_max_streams_frame(&mut self, direction: Direction, new_limit: u64) -> (r: Result<
        Vec<u64>,
        TransportError,
    >)
        requires
            old(self).wf(),
        ensures
            final(self).wf(),
            final(self).not_behind(*old(self)),
            final(self).same_but_local(*old(self), direction),
            final(self).same_refusals(*old(self)),
            match r {
                Ok(woken) => new_limit <= MAX_STREAM_LIMIT && old(self).local(
                    direction,
                ).limit_received(final(self).local(direction), new_limit, woken@),
                Err(e) => new_limit > MAX_STREAM_LIMIT && e == TransportError::StreamLimit
                    && old(self).local(direction).untouched(final(self).local(direction)),
            },
    {
        match direction {
            Direction::Bidirectional => self.bidi_local.on_max_streams_frame(new_limit),
            Direction::Unidirectional => self.uni_local.on_max_streams_frame(new_limit),
        }
    }

    /// The peer says that it is blocked at `at` streams of `direction`.
    /// That is for information only: nothing changes.
    pub fn on_streams_blocked_received(&mut self, direction: Direction, at: u64)
        ensures
            *final(self) == *old(self),
    {
    }

    /// The connection closes: every open token issued so far expires, and
    /// the waiters of both counters are handed back, bidirectional first.
    pub fn on_close(&mut self) -> (woken: (Vec<u64>, Vec<u64>))
        requires
            old(self).wf(),
        ensures
            final(self).wf(),
            final(self).not_behind(*old(self)),
            final(self).bidi_remote == old(self).bidi_remote,
            final(self).uni_remote == old(self).uni_remote,
            final(self).same_refusals(*old(self)),
            old(self).bidi_local.connection_closed(final(self).bidi_local, woken.0@),
            old(self).uni_local.connection_closed(final(self).uni_local, woken.1@),
    {
        let bidi = self.bidi_local.on_close();
        let uni = self.uni_local.on_close();
        (bidi, uni)
    }

    /// Of two announcements of being blocked the older is written first;
    /// this says whether that is the unidirectional one.
    pub open spec fn uni_first(self) -> bool {
        self.uni_blocked_at < self.bidi_blocked_at
    }

    /// The packet after the counters of the peer's streams had their turn,
    /// bidirectional first.
    pub open spec fn packet_after_remote(self, packet: Packet) -> Packet {
        self.uni_remote.packet_after(self.bidi_remote.packet_after(packet))
    }

    /// The packet after the first of this endpoint's counters had its turn.
    pub open spec fn packet_after_first_local(self, packet: Packet) -> Packet {
        if self.uni_first() {
            self.uni_local.packet_after(self.packet_after_remote(packet))
        } else {
            self.bidi_local.packet_after(self.packet_after_remote(packet))
        }
    }

    /// The packet after the controller's turn.
    pub open spec fn packet_after(self, packet: Packet) -> Packet {
        if self.uni_first() {
            self.bidi_local.packet_after(self.packet_after_first_local(packet))
        } else {
            self.uni_local.packet_after(self.packet_after_first_local(packet))
        }
    }

    /// The frames that the controller's turn appends to `packet`: MAX_STREAMS
    /// for the peer's bidirectional streams, then for its unidirectional
    /// ones, then the two STREAMS_BLOCKED, the older refusal first; each as
    /// far as it is due and fits.
    pub open spec fn written_into(self, packet: Packet) -> Seq<Frame> {
        let credit = self.bidi_remote.written_into(packet) + self.uni_remote.written_into(
            self.bidi_remote.packet_after(packet),
        );
        let second = self.packet_after_remote(packet);
        let third = self.packet_after_first_local(packet);
        if self.uni_first() {
            credit + self.uni_local.written_into(second) + self.bidi_local.written_into(third)
        } else {
            credit + self.bidi_local.written_into(second) + self.uni_local.written_into(third)
        }
    }

    /// `after` is this controller after its turn on `packet` of number
    /// `packet_number`: each of the four had its turn, on the packet as it
    /// stood then.
    pub open spec fn transmitted(self, after: Controller, packet: Packet, packet_number: u64)
        -> bool {
        &&& after.same_refusals(self)
        &&& self.bidi_remote.transmitted(after.bidi_remote, packet, packet_number)
        &&& self.uni_remote.transmitted(
            after.uni_remote,
            self.bidi_remote.packet_after(packet),
            packet_number,
        )
        &&& self.bidi_local.transmitted(
            after.bidi_local,
            if self.uni_first() {
                self.packet_after_first_local(packet)
            } else {
                self.packet_after_remote(packet)
            },
            packet_number,
        )
        &&& self.uni_local.transmitted(
            after.uni_local,
            if self.uni_first() {
                self.packet_after_remote(packet)
            } else {
                self.packet_after_first_local(packet)
            },
            packet_number,
        )
    }

    /// Writes MAX_STREAMS frames, bidirectional first, then STREAMS_BLOCKED
    /// frames, the older refusal first; each as far as it is due and fits.
    pub fn on_transmit(&mut self, context: &mut WriteContext)
        requires
            old(self).wf(),
            old(context).wf(),
        ensures
            final(self).wf(),
            final(self).not_behind(*old(self)),
            final(context).carries(*old(context), old(self).packet_after(old(context)@)),
            old(self).transmitted(*final(self), old(context)@, old(context).packet_number),
    {
        self.bidi_remote.on_transmit(context);
        self.uni_remote.on_transmit(context);
        if self.uni_blocked_at < self.bidi_blocked_at {
            self.uni_local.on_transmit(context);
            self.bidi_local.on_transmit(context);
        } else {
            self.bidi_local.on_transmit(context);
            self.uni_local.on_transmit(context);
        }
    }

    /// The peer acknowledged the packets of `range`.
    pub fn on_packet_ack(&mut self, range: &PacketRange)
        requires
            old(self).wf(),
        ensures
            final(self).wf(),
            final(self).not_behind(*old(self)),
            final(self).same_refusals(*old(self)),
            old(self).bidi_local.acked(final(self).bidi_local, *range),
            old(self).uni_local.acked(final(self).uni_local, *range),
            old(self).bidi_remote.acked(final(self).bidi_remote, *range),
            old(self).uni_remote.acked(final(self).uni_remote, *range),
    {
        self.bidi_local.on_packet_ack(range);
        self.uni_local.on_packet_ack(range);
        self.bidi_remote.on_packet_ack(range);
        self.uni_remote.on_packet_ack(range);
    }

    /// The packets of `range` were declared lost.
    pub fn on_packet_loss(&mut self, range: &PacketRange)
        requires
            old(self).wf(),
        ensures
            final(self).wf(),
            final(self).not_behind(*old(self)),
            final(self).same_refusals(*old(self)),
            old(self).bidi_local.lost(final(self).bidi_local, *range),
            old(self).uni_local.lost(final(self).uni_local, *range),
            old(self).bidi_remote.lost(final(self).bidi_remote, *range),
            old(self).uni_remote.lost(final(self).uni_remote, *range),
    {
        self.bidi_local.on_packet_loss(range);
        self.uni_local.on_packet_loss(range);
        self.bidi_remote.on_packet_loss(range);
        self.uni_remote.on_packet_loss(range);
    }

    /// The clock moved to `now`: the announcements' machines are told.
    /// Nothing else changes.
    pub fn on_timeout(&mut self, now: u64)
        requires
            old(self).wf(),
        ensures
            final(self).wf(),
            final(self).not_behind(*old(self)),
            final(self).same_refusals(*old(self)),
            final(self).bidi_remote == old(self).bidi_remote,
            final(self).uni_remote == old(self).uni_remote,
            old(self).bidi_local.clock_moved(final(self).bidi_local, now),
            old(self).uni_local.clock_moved(final(self).uni_local, now),
    {
        self.bidi_local.on_timeout(now);
        self.uni_local.on_timeout(now);
    }

    /// The earlier of the two timers that run, if one does.
    pub open spec fn earliest_timer(self) -> Option<u64> {
        match (
            self.bidi_local.streams_blocked_sync.retransmit_at,
            self.uni_local.streams_blocked_sync.retransmit_at,
        ) {
            (Some(a), Some(b)) => if a <= b {
                Some(a)
            } else {
                Some(b)
            },
            (Some(a), None) => Some(a),
            (None, other) => other,
        }
    }

    /// When the connection is to be woken for the controller, if at all.
    pub fn next_expiration(&self) -> (at: Option<u64>)
        ensures
            at == self.earliest_timer(),
    {
        match (self.bidi_local.next_expiration(), self.uni_local.next_expiration()) {
            (Some(a), Some(b)) => if a <= b {
                Some(a)
            } else {
                Some(b)
            },
            (Some(a), None) => Some(a),
            (None, other) => other,
        }
    }

    /// What the controller has to send: the supremum over its four counters.
    pub open spec fn interest(self) -> Interest {
        if self.bidi_remote.max_streams_sync.dirty() || self.uni_remote.max_streams_sync.dirty()
            || self.bidi_local.streams_blocked_sync.state is Requested
            || self.uni_local.streams_blocked_sync.state is Requested {
            Interest::NewData
        } else {
            Interest::Nothing
        }
    }

    pub fn transmission_interest(&self) -> (r: Interest)
        ensures
            r == self.interest(),
    {
        self.bidi_remote.transmission_interest().join(
            self.uni_remote.transmission_interest(),
        ).join(self.bidi_local.transmission_interest()).join(
            self.uni_local.transmission_interest(),
        )
    }
}

/// In every well-formed controller no more streams are open than the peer
/// allows, no stream is closed that was not opened, the limit to advertise
/// is not below the one acknowledged, and an announcement of being blocked
/// is requested or in flight only while opens stand at the peer's limit,
/// of which it speaks.
pub proof fn lemma_counters_in_bounds(c: Controller)
    requires
        c.wf(),
    ensures
        c.bidi_local.opened_streams <= c.bidi_local.peer_stream_limit,
        c.uni_local.opened_streams <= c.uni_local.peer_stream_limit,
        c.bidi_local.closed_streams <= c.bidi_local.opened_streams,
        c.uni_local.closed_streams <= c.uni_local.opened_streams,
        c.bidi_remote.closed_streams <= c.bidi_remote.opened_streams,
        c.uni_remote.closed_streams <= c.uni_remote.opened_streams,
        c.bidi_remote.max_streams_sync.latest_value
            >= c.bidi_remote.max_streams_sync.last_acked_value,
        c.uni_remote.max_streams_sync.latest_value
            >= c.uni_remote.max_streams_sync.last_acked_value,
        c.bidi_local.streams_blocked_sync.active() ==> c.bidi_local.opened_streams
            == c.bidi_local.peer_stream_limit,
        c.uni_local.streams_blocked_sync.active() ==> c.uni_local.opened_streams
            == c.uni_local.peer_stream_limit,
        c.bidi_local.streams_blocked_sync.state is Requested
            ==> c.bidi_local.streams_blocked_sync.due(true) == Some(
            Frame::StreamsBlocked { bidirectional: true, limit: c.bidi_local.peer_stream_limit },
        ),
        c.uni_local.streams_blocked_sync.state is Requested
            ==> c.uni_local.streams_blocked_sync.due(false) == Some(
            Frame::StreamsBlocked { bidirectional: false, limit: c.uni_local.peer_stream_limit },
        ),
{
}

/// What only grows keeps growing over any two steps taken one after the
/// other.
pub proof fn lemma_not_behind_transitive(a: Controller, b: Controller, c: Controller)
    requires
        b.not_behind(a),
        c.not_behind(b),
    ensures
        c.not_behind(a),
        a.not_behind(a),
{
}

/// Four runs of frames appended one after the other are appended as one
/// run.
proof fn lemma_four_runs(
    start: Seq<Frame>,
    a: Seq<Frame>,
    b: Seq<Frame>,
    c: Seq<Frame>,
    d: Seq<Frame>,
)
    ensures
        start + a + b + c + d == start + (a + b + c + d),
{
    assert(start + a + b + c + d =~= start + (a + b + c + d));
}

/// The controller's turn keeps the frames that the packet holds and appends
/// its own, in the order of `written_into`.
pub proof fn lemma_controller_appends(c: Controller, packet: Packet)
    ensures
        c.packet_after(packet).frames == packet.frames + c.written_into(packet),
{
    let first = c.bidi_remote.packet_after(packet);
    let second = c.packet_after_remote(packet);
    let third = c.packet_after_first_local(packet);
    let a = c.bidi_remote.written_into(packet);
    let b = c.uni_remote.written_into(first);
    crate::sync::lemma_limit_appends(
        c.bidi_remote.max_streams_sync,
        c.bidi_remote.direction.bidirectional(),
        packet,
    );
    crate::sync::lemma_limit_appends(
        c.uni_remote.max_streams_sync,
        c.uni_remote.direction.bidirectional(),
        first,
    );
    assert(first.frames == packet.frames + a);
    assert(second.frames == first.frames + b);
    if c.uni_first() {
        crate::sync::lemma_blocked_appends(
            c.uni_local.streams_blocked_sync,
            c.uni_local.direction.bidirectional(),
            second,
        );
        crate::sync::lemma_blocked_appends(
            c.bidi_local.streams_blocked_sync,
            c.bidi_local.direction.bidirectional(),
            third,
        );
        let x = c.uni_local.written_into(second);
        let y = c.bidi_local.written_into(third);
        assert(third.frames == second.frames + x);
        assert(c.packet_after(packet).frames == third.frames + y);
        lemma_four_runs(packet.frames, a, b, x, y);
    } else {
        crate::sync::lemma_blocked_appends(
            c.bidi_local.streams_blocked_sync,
            c.bidi_local.direction.bidirectional(),
            second,
        );
        crate::sync::lemma_blocked_appends(
            c.uni_local.streams_blocked_sync,
            c.uni_local.direction.bidirectional(),
            third,
        );
        let x = c.bidi_local.written_into(second);
        let y = c.uni_local.written_into(third);
        assert(third.frames == second.frames + x);
        assert(c.packet_after(packet).frames == third.frames + y);
        lemma_four_runs(packet.frames, a, b, x, y);
    }
}

} // verus!
