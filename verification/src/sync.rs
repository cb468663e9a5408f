//! Retransmission state machines for control frames: one for a frame that
//! repeats while a condition lasts, one for a value that only grows.

use crate::context::{Packet, WriteContext};
use crate::frame::Frame;
use vstd::prelude::*;

verus! {

/// A closed range of packet numbers that the peer acknowledged, or that was
/// declared lost.
#[derive(Clone, Copy, Debug, PartialEq, Eq, Structural)]
pub struct PacketRange {
    pub smallest: u64,
    pub largest: u64,
}

impl PacketRange {
    pub open spec fn includes(self, packet_number: u64) -> bool {
        self.smallest <= packet_number <= self.largest
    }

    pub fn contains(&self, packet_number: u64) -> (r: bool)
        ensures
            r == self.includes(packet_number),
    {
        self.smallest <= packet_number && packet_number <= self.largest
    }
}

/// Where a STREAMS_BLOCKED announcement stands.
#[derive(Clone, Copy, Debug, PartialEq, Eq, Structural)]
pub enum BlockedState {
    Idle,
    Requested { value: u64 },
    InFlight { packet_number: u64, value: u64 },
    Acked { value: u64 },
}

/// Announces that opens are blocked at a value until the peer has
/// acknowledged it. While an announcement waits to be written a timer
/// runs, so that the connection is woken to write it.
#[derive(Clone, Copy, Debug, PartialEq, Eq, Structural)]
pub struct PeriodicSync {
    pub state: BlockedState,
    /// Time between a request and the moment the timer expires.
    pub period: u64,
    /// The latest time this machine was told of.
    pub now: u64,
    /// When the timer expires, while it runs.
    pub retransmit_at: Option<u64>,
}

/// The retransmit period used where none is configured: 100 ms, in
/// microseconds.
pub const DEFAULT_RETRANSMIT_PERIOD: u64 = 100_000;

impl PeriodicSync {
    /// The timer runs exactly while an announcement is requested.
    pub open spec fn wf(self) -> bool {
        self.retransmit_at is Some <==> self.state is Requested
    }

    /// The timer as it stands once the state is `next`: entering
    /// `Requested` starts it, one period from now; staying there keeps it;
    /// every other state stops it.
    pub open spec fn timer_after(self, next: BlockedState) -> Option<u64> {
        if next is Requested {
            if self.state is Requested {
                self.retransmit_at
            } else if self.now + self.period > u64::MAX {
                Some(u64::MAX)
            } else {
                Some((self.now + self.period) as u64)
            }
        } else {
            None
        }
    }

    /// `self` came from `before` by a change of state: period and clock
    /// are the same, and the timer went along with the state.
    pub open spec fn follows(self, before: PeriodicSync) -> bool {
        &&& self.period == before.period
        &&& self.now == before.now
        &&& self.retransmit_at == before.timer_after(self.state)
    }

    /// The state after a refusal at `value`: an announcement is requested
    /// unless one is already requested or in flight, or the peer has
    /// acknowledged one at `value` or above.
    pub open spec fn requested(self, value: u64) -> BlockedState {
        match self.state {
            BlockedState::Idle => BlockedState::Requested { value },
            BlockedState::Acked { value: acked } => if value > acked {
                BlockedState::Requested { value }
            } else {
                self.state
            },
            _ => self.state,
        }
    }

    /// An announcement waits to be written or for its acknowledgement.
    pub open spec fn active(self) -> bool {
        self.state is Requested || self.state is InFlight
    }

    /// The frame that the next transmission writes, if any.
    pub open spec fn due(self, bidirectional: bool) -> Option<Frame> {
        match self.state {
            BlockedState::Requested { value } => Some(
                Frame::StreamsBlocked { bidirectional, limit: value },
            ),
            _ => None,
        }
    }

    /// The packet after this machine's turn.
    pub open spec fn packet_after(self, bidirectional: bool, packet: Packet) -> Packet {
        match self.due(bidirectional) {
            Some(frame) => packet.write(frame),
            None => packet,
        }
    }

    /// The frames that this machine's turn appends to `packet`.
    pub open spec fn written_into(self, bidirectional: bool, packet: Packet) -> Seq<Frame> {
        match self.due(bidirectional) {
            Some(frame) => packet.takes(frame),
            None => Seq::<Frame>::empty(),
        }
    }

    /// The state after this machine's turn on `packet` of number
    /// `packet_number`.
    pub open spec fn state_after(self, bidirectional: bool, packet: Packet, packet_number: u64)
        -> BlockedState {
        match self.state {
            BlockedState::Requested { value } => if packet.fits(
                Frame::StreamsBlocked { bidirectional, limit: value },
            ) {
                BlockedState::InFlight { packet_number, value }
            } else {
                self.state
            },
            _ => self.state,
        }
    }

    /// The state after the packets of `range` were acknowledged.
    pub open spec fn acked(self, range: PacketRange) -> BlockedState {
        match self.state {
            BlockedState::InFlight { packet_number, value } => if range.includes(packet_number) {
                BlockedState::Acked { value }
            } else {
                self.state
            },
            _ => self.state,
        }
    }

    /// The state after the packets of `range` were lost.
    pub open spec fn lost(self, range: PacketRange) -> BlockedState {
        match self.state {
            BlockedState::InFlight { packet_number, value } => if range.includes(packet_number) {
                BlockedState::Requested { value }
            } else {
                self.state
            },
            _ => self.state,
        }
    }

    /// Tests the invariant of the machine.
    pub fn is_well_formed(&self) -> (ok: bool)
        ensures
            ok == self.wf(),
    {
        self.retransmit_at.is_some() == self.is_requested()
    }

    /// An idle machine whose timer runs for `period`; its clock stands at
    /// zero.
    pub fn new(period: u64) -> (s: PeriodicSync)
        ensures
            s.wf(),
            s.state == BlockedState::Idle,
            s.period == period,
            s.now == 0,
            s.retransmit_at is None,
    {
        PeriodicSync { state: BlockedState::Idle, period, now: 0, retransmit_at: None }
    }

    fn enter(&mut self, next: BlockedState)
        requires
            old(self).wf(),
        ensures
            final(self).wf(),
            final(self).state == next,
            final(self).follows(*old(self)),
    {
        match next {
            BlockedState::Requested { .. } => {
                match self.state {
                    BlockedState::Requested { .. } => {},
                    _ => {
                        let at = if self.now > u64::MAX - self.period {
                            u64::MAX
                        } else {
                            self.now + self.period
                        };
                        self.retransmit_at = Some(at);
                    },
                }
            },
            _ => {
                self.retransmit_at = None;
            },
        }
        self.state = next;
    }

    /// The clock moved to `now`; it never moves back.
    pub fn on_timeout(&mut self, now: u64)
        requires
            old(self).wf(),
        ensures
            final(self).wf(),
            final(self).state == old(self).state,
            final(self).period == old(self).period,
            final(self).retransmit_at == old(self).retransmit_at,
            final(self).now == if now > old(self).now {
                now
            } else {
                old(self).now
            },
    {
        if now > self.now {
            self.now = now;
        }
    }

    /// When the timer expires, while it runs.
    pub fn next_expiration(&self) -> (at: Option<u64>)
        ensures
            at == self.retransmit_at,
    {
        self.retransmit_at
    }

    /// Whether the timer ran out by the time the clock shows.
    pub fn is_overdue(&self) -> (r: bool)
        ensures
            r == (self.retransmit_at is Some && self.retransmit_at->0 <= self.now),
    {
        match self.retransmit_at {
            Some(at) => at <= self.now,
            None => false,
        }
    }

    /// Records a refusal at `value`.
    pub fn request(&mut self, value: u64)
        requires
            old(self).wf(),
        ensures
            final(self).wf(),
            final(self).state == old(self).requested(value),
            final(self).follows(*old(self)),
    {
        match self.state {
            BlockedState::Idle => {
                self.enter(BlockedState::Requested { value });
            },
            BlockedState::Acked { value: acked } => {
                if value > acked {
                    self.enter(BlockedState::Requested { value });
                }
            },
            _ => {},
        }
    }

    /// Forgets the announcement: the condition it spoke of is gone.
    pub fn stop(&mut self)
        requires
            old(self).wf(),
        ensures
            final(self).wf(),
            final(self).state == BlockedState::Idle,
            final(self).follows(*old(self)),
    {
        self.enter(BlockedState::Idle);
    }

    pub fn is_active(&self) -> (r: bool)
        ensures
            r == self.active(),
    {
        match self.state {
            BlockedState::Requested { .. } | BlockedState::InFlight { .. } => true,
            _ => false,
        }
    }

    /// Whether the next transmission has a frame to write.
    pub fn is_requested(&self) -> (r: bool)
        ensures
            r == self.state is Requested,
    {
        match self.state {
            BlockedState::Requested { .. } => true,
            _ => false,
        }
    }

    /// Writes the requested announcement, if there is one and it fits.
    pub fn on_transmit(&mut self, bidirectional: bool, context: &mut WriteContext)
        requires
            old(self).wf(),
            old(context).wf(),
        ensures
            final(self).wf(),
            final(context).carries(
                *old(context),
                old(self).packet_after(bidirectional, old(context)@),
            ),
            final(self).state == old(self).state_after(
                bidirectional,
                old(context)@,
                old(context).packet_number,
            ),
            final(self).follows(*old(self)),
    {
        match self.state {
            BlockedState::Requested { value } => {
                let frame = Frame::StreamsBlocked { bidirectional, limit: value };
                match context.write_frame(frame) {
                    Some(packet_number) => {
                        self.enter(BlockedState::InFlight { packet_number, value });
                    },
                    None => {},
                }
            },
            _ => {},
        }
    }

    pub fn on_packet_ack(&mut self, range: &PacketRange)
        requires
            old(self).wf(),
        ensures
            final(self).wf(),
            final(self).state == old(self).acked(*range),
            final(self).follows(*old(self)),
    {
        match self.state {
            BlockedState::InFlight { packet_number, value } => {
                if range.contains(packet_number) {
                    self.enter(BlockedState::Acked { value });
                }
            },
            _ => {},
        }
    }

    pub fn on_packet_loss(&mut self, range: &PacketRange)
        requires
            old(self).wf(),
        ensures
            final(self).wf(),
            final(self).state == old(self).lost(*range),
            final(self).follows(*old(self)),
    {
        match self.state {
            BlockedState::InFlight { packet_number, value } => {
                if range.contains(packet_number) {
                    self.enter(BlockedState::Requested { value });
                }
            },
            _ => {},
        }
    }
}

/// At most one announcement is under way: while one is in flight no frame
/// is written and a further refusal requests none, and once the peer has
/// acknowledged one, a refusal at the same value or below requests none.
pub proof fn lemma_one_announcement_at_a_time(
    sync: PeriodicSync,
    bidirectional: bool,
    packet: Packet,
    packet_number: u64,
    value: u64,
)
    ensures
        sync.state is InFlight ==> sync.packet_after(bidirectional, packet) == packet
            && sync.state_after(bidirectional, packet, packet_number) == sync.state
            && sync.requested(value) == sync.state,
        sync.state is Requested ==> sync.requested(value) == sync.state,
        sync.state is Acked && value <= sync.state->Acked_value ==> sync.requested(value)
            == sync.state && sync.packet_after(bidirectional, packet) == packet,
        sync.state_after(bidirectional, packet, packet_number) is InFlight && !(sync.state
            is InFlight) ==> sync.state is Requested && sync.packet_after(
            bidirectional,
            packet,
        ).frames == packet.frames.push(sync.due(bidirectional)->0),
{
}

/// Whether an entry of `in_flight` carries `value`.
pub open spec fn carries_value(in_flight: Seq<(u64, u64)>, value: u64) -> bool {
    exists|i: int| 0 <= i < in_flight.len() && (#[trigger] in_flight[i]).1 == value
}

/// The greatest of `floor` and the values that packets of `range` carry.
pub open spec fn greatest_acked(in_flight: Seq<(u64, u64)>, range: PacketRange, floor: u64) -> u64
    decreases in_flight.len(),
{
    if in_flight.len() == 0 {
        floor
    } else {
        let rest = greatest_acked(in_flight.drop_last(), range, floor);
        let (packet_number, value) = in_flight.last();
        if range.includes(packet_number) && value > rest {
            value
        } else {
            rest
        }
    }
}

/// The entries with a value above `floor`, in order.
pub open spec fn above(in_flight: Seq<(u64, u64)>, floor: u64) -> Seq<(u64, u64)>
    decreases in_flight.len(),
{
    if in_flight.len() == 0 {
        in_flight
    } else if in_flight.last().1 > floor {
        above(in_flight.drop_last(), floor).push(in_flight.last())
    } else {
        above(in_flight.drop_last(), floor)
    }
}

/// The entries whose packet is not in `range`, in order.
pub open spec fn outside(in_flight: Seq<(u64, u64)>, range: PacketRange) -> Seq<(u64, u64)>
    decreases in_flight.len(),
{
    if in_flight.len() == 0 {
        in_flight
    } else if !range.includes(in_flight.last().0) {
        outside(in_flight.drop_last(), range).push(in_flight.last())
    } else {
        outside(in_flight.drop_last(), range)
    }
}

/// All values in flight are at most `bound`.
pub open spec fn bounded(in_flight: Seq<(u64, u64)>, bound: u64) -> bool {
    forall|i: int| 0 <= i < in_flight.len() ==> (#[trigger] in_flight[i]).1 <= bound
}

pub proof fn lemma_greatest_acked_bounds(
    in_flight: Seq<(u64, u64)>,
    range: PacketRange,
    floor: u64,
    bound: u64,
)
    requires
        bounded(in_flight, bound),
        floor <= bound,
    ensures
        floor <= greatest_acked(in_flight, range, floor) <= bound,
    decreases in_flight.len(),
{
    if in_flight.len() > 0 {
        assert(in_flight.last() == in_flight[in_flight.len() - 1]);
        lemma_greatest_acked_bounds(in_flight.drop_last(), range, floor, bound);
    }
}

pub proof fn lemma_kept_entries_bounded(
    in_flight: Seq<(u64, u64)>,
    range: PacketRange,
    floor: u64,
    bound: u64,
)
    requires
        bounded(in_flight, bound),
    ensures
        bounded(above(in_flight, floor), bound),
        bounded(outside(in_flight, range), bound),
    decreases in_flight.len(),
{
    if in_flight.len() > 0 {
        assert(in_flight.last() == in_flight[in_flight.len() - 1]);
        lemma_kept_entries_bounded(in_flight.drop_last(), range, floor, bound);
    }
}

/// Advertises a value that only grows, again and again until the peer has
/// acknowledged it.
pub struct IncrementalValueSync {
    pub latest_value: u64,
    pub last_acked_value: u64,
    /// Packet number and value of each frame that is neither acknowledged
    /// nor lost.
    pub in_flight: Vec<(u64, u64)>,
}

impl IncrementalValueSync {
    /// The acknowledged value never passes the latest one, nor does a value
    /// in flight.
    pub open spec fn wf(self) -> bool {
        &&& self.last_acked_value <= self.latest_value
        &&& bounded(self.in_flight@, self.latest_value)
    }

    /// The latest value is neither acknowledged nor in flight.
    pub open spec fn dirty(self) -> bool {
        self.latest_value > self.last_acked_value && !carries_value(
            self.in_flight@,
            self.latest_value,
        )
    }

    /// The packet after this machine's turn.
    pub open spec fn packet_after(self, bidirectional: bool, packet: Packet) -> Packet {
        if self.dirty() {
            packet.write(Frame::MaxStreams { bidirectional, limit: self.latest_value })
        } else {
            packet
        }
    }

    /// The frames that this machine's turn appends to `packet`.
    pub open spec fn written_into(self, bidirectional: bool, packet: Packet) -> Seq<Frame> {
        if self.dirty() {
            packet.takes(Frame::MaxStreams { bidirectional, limit: self.latest_value })
        } else {
            Seq::<Frame>::empty()
        }
    }

    /// What is in flight after this machine's turn on `packet`.
    pub open spec fn in_flight_after(
        self,
        bidirectional: bool,
        packet: Packet,
        packet_number: u64,
    ) -> Seq<(u64, u64)> {
        if self.dirty() && packet.fits(
            Frame::MaxStreams { bidirectional, limit: self.latest_value },
        ) {
            self.in_flight@.push((packet_number, self.latest_value))
        } else {
            self.in_flight@
        }
    }

    /// Tests the invariant of the machine.
    pub fn is_well_formed(&self) -> (ok: bool)
        ensures
            ok == self.wf(),
    {
        if self.last_acked_value > self.latest_value {
            return false;
        }
        let mut i: usize = 0;
        while i < self.in_flight.len()
            invariant
                i <= self.in_flight.len(),
                forall|j: int|
                    0 <= j < i ==> (#[trigger] self.in_flight@[j]).1 <= self.latest_value,
            decreases self.in_flight.len() - i,
        {
            if self.in_flight[i].1 > self.latest_value {
                return false;
            }
            i += 1;
        }
        true
    }

        pub fn new(initial_value: u64) -> (s: IncrementalValueSync)
        ensures
            s.wf(),
            s.latest_value == initial_value,
            s.last_acked_value == initial_value,
            s.in_flight@ == Seq::<(u64, u64)>::empty(),
    {
        IncrementalValueSync {
            latest_value: initial_value,
            last_acked_value: initial_value,
            in_flight: Vec::new(),
        }
    }

    /// Raises the value to advertise; a value that is not greater changes
    /// nothing.
    pub fn update_latest_value(&mut self, value: u64)
        requires
            old(self).wf(),
        ensures
            final(self).wf(),
            final(self).latest_value == if value > old(self).latest_value {
                value
            } else {
                old(self).latest_value
            },
            final(self).last_acked_value == old(self).last_acked_value,
            final(self).in_flight@ == old(self).in_flight@,
    {
        if value > self.latest_value {
            self.latest_value = value;
        }
    }

    pub fn is_dirty(&self) -> (r: bool)
        ensures
            r == self.dirty(),
    {
        if self.latest_value <= self.last_acked_value {
            return false;
        }
        let mut i: usize = 0;
        while i < self.in_flight.len()
            invariant
                i <= self.in_flight.len(),
                forall|j: int|
                    0 <= j < i ==> (#[trigger] self.in_flight@[j]).1 != self.latest_value,
            decreases self.in_flight.len() - i,
        {
            if self.in_flight[i].1 == self.latest_value {
                return false;
            }
            i += 1;
        }
        true
    }

    /// Writes the latest value if it is dirty and the frame fits.
    pub fn on_transmit(&mut self, bidirectional: bool, context: &mut WriteContext)
        requires
            old(self).wf(),
            old(context).wf(),
        ensures
            final(self).wf(),
            final(context).carries(
                *old(context),
                old(self).packet_after(bidirectional, old(context)@),
            ),
            final(self).latest_value == old(self).latest_value,
            final(self).last_acked_value == old(self).last_acked_value,
            final(self).in_flight@ == old(self).in_flight_after(
                bidirectional,
                old(context)@,
                old(context).packet_number,
            ),
    {
        if self.is_dirty() {
            let frame = Frame::MaxStreams { bidirectional, limit: self.latest_value };
            match context.write_frame(frame) {
                Some(packet_number) => {
                    self.in_flight.push((packet_number, self.latest_value));
                },
                None => {},
            }
        }
    }

    /// The peer acknowledged the packets of `range`: the acknowledged value
    /// rises to the greatest value they carried, and what is in flight at or
    /// below it is dropped.
    pub fn on_packet_ack(&mut self, range: &PacketRange)
        requires
            old(self).wf(),
        ensures
            final(self).wf(),
            final(self).latest_value == old(self).latest_value,
            final(self).last_acked_value == greatest_acked(
                old(self).in_flight@,
                *range,
                old(self).last_acked_value,
            ),
            final(self).last_acked_value >= old(self).last_acked_value,
            final(self).in_flight@ == above(old(self).in_flight@, final(self).last_acked_value),
    {
        let ghost before = self.in_flight@;
        let mut acked: u64 = self.last_acked_value;
        let mut i: usize = 0;
        while i < self.in_flight.len()
            invariant
                i <= self.in_flight.len(),
                self.in_flight@ == before,
                acked == greatest_acked(before.take(i as int), *range, self.last_acked_value),
            decreases self.in_flight.len() - i,
        {
            let (packet_number, value) = self.in_flight[i];
            proof {
                assert(before.take(i + 1).drop_last() =~= before.take(i as int));
            }
            if range.contains(packet_number) && value > acked {
                acked = value;
            }
            i += 1;
        }
        proof {
            assert(before.take(i as int) =~= before);
            lemma_greatest_acked_bounds(before, *range, self.last_acked_value, self.latest_value);
            lemma_kept_entries_bounded(before, *range, acked, self.latest_value);
        }
        let mut kept: Vec<(u64, u64)> = Vec::new();
        let mut k: usize = 0;
        while k < self.in_flight.len()
            invariant
                k <= self.in_flight.len(),
                self.in_flight@ == before,
                kept@ == above(before.take(k as int), acked),
            decreases self.in_flight.len() - k,
        {
            let entry = self.in_flight[k];
            proof {
                assert(before.take(k + 1).drop_last() =~= before.take(k as int));
            }
            if entry.1 > acked {
                kept.push(entry);
            }
            k += 1;
        }
        proof {
            assert(before.take(k as int) =~= before);
        }
        self.last_acked_value = acked;
        self.in_flight = kept;
    }

    /// The packets of `range` were lost: their entries leave, so that the
    /// latest value can be written again.
    pub fn on_packet_loss(&mut self, range: &PacketRange)
        requires
            old(self).wf(),
        ensures
            final(self).wf(),
            final(self).latest_value == old(self).latest_value,
            final(self).last_acked_value == old(self).last_acked_value,
            final(self).in_flight@ == outside(old(self).in_flight@, *range),
    {
        let ghost before = self.in_flight@;
        let mut kept: Vec<(u64, u64)> = Vec::new();
        let mut k: usize = 0;
        while k < self.in_flight.len()
            invariant
                k <= self.in_flight.len(),
                self.in_flight@ == before,
                kept@ == outside(before.take(k as int), *range),
            decreases self.in_flight.len() - k,
        {
            let entry = self.in_flight[k];
            proof {
                assert(before.take(k + 1).drop_last() =~= before.take(k as int));
            }
            if !range.contains(entry.0) {
                kept.push(entry);
            }
            k += 1;
        }
        proof {
            assert(before.take(k as int) =~= before);
            lemma_kept_entries_bounded(before, *range, 0, self.latest_value);
        }
        self.in_flight = kept;
    }
}

/// The turn of the announcing machine keeps the frames that the packet
/// holds and appends what the machine writes.
pub proof fn lemma_blocked_appends(sync: PeriodicSync, bidirectional: bool, packet: Packet)
    ensures
        sync.packet_after(bidirectional, packet).frames == packet.frames + sync.written_into(
            bidirectional,
            packet,
        ),
{
    if sync.due(bidirectional) is Some {
        crate::context::lemma_write_appends(packet, sync.due(bidirectional)->0);
    }
    assert(packet.frames + Seq::<Frame>::empty() =~= packet.frames);
}

/// The turn of the advertising machine keeps the frames that the packet
/// holds and appends what the machine writes.
pub proof fn lemma_limit_appends(sync: IncrementalValueSync, bidirectional: bool, packet: Packet)
    ensures
        sync.packet_after(bidirectional, packet).frames == packet.frames + sync.written_into(
            bidirectional,
            packet,
        ),
{
    crate::context::lemma_write_appends(
        packet,
        Frame::MaxStreams { bidirectional, limit: sync.latest_value },
    );
    assert(packet.frames + Seq::<Frame>::empty() =~= packet.frames);
}

} // verus!
