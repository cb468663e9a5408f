//! Frame producers of the application packet space that hold frames of
//! other components, or a single flag.

use crate::context::{Packet, WriteContext};
use crate::frame::Frame;
use crate::interest::Interest;
use vstd::prelude::*;

verus! {

/// What is left of `pending`, and what becomes of `packet`, when the frames
/// are written in order until one does not fit.
pub open spec fn drain(pending: Seq<Frame>, packet: Packet) -> (Seq<Frame>, Packet)
    decreases pending.len(),
{
    if pending.len() == 0 || !packet.fits(pending[0]) {
        (pending, packet)
    } else {
        drain(pending.skip(1), packet.write(pending[0]))
    }
}

/// Frames that wait for room in a packet, oldest first. It stands for the
/// crypto stream, the datagram queue, the connection-id registry and the
/// like: whoever owns the frames puts them in, and the assembler takes them
/// out.
pub struct FrameQueue {
    pub pending: Vec<Frame>,
}

impl FrameQueue {
    pub open spec fn packet_after(self, packet: Packet) -> Packet {
        drain(self.pending@, packet).1
    }

    /// The frames that the queue's turn appends to `packet`: those at its
    /// head, as many as fit one after the other.
    pub open spec fn written_into(self, packet: Packet) -> Seq<Frame> {
        self.pending@.take(drained(self.pending@, packet) as int)
    }

    /// `after` is this queue after its turn on `packet`.
    pub open spec fn transmitted(self, after: FrameQueue, packet: Packet) -> bool {
        after.pending@ == drain(self.pending@, packet).0
    }

    pub open spec fn interest(self) -> Interest {
        if self.pending@.len() > 0 {
            Interest::NewData
        } else {
            Interest::Nothing
        }
    }

    pub fn new() -> (q: FrameQueue)
        ensures
            q.pending@ == Seq::<Frame>::empty(),
    {
        FrameQueue { pending: Vec::new() }
    }

    /// Puts `frame` behind the frames that wait.
    pub fn push(&mut self, frame: Frame)
        ensures
            final(self).pending@ == old(self).pending@.push(frame),
    {
        self.pending.push(frame);
    }

    pub fn len(&self) -> (n: usize)
        ensures
            n == self.pending@.len(),
    {
        self.pending.len()
    }

    /// Writes the waiting frames in order, and stops at the first that does
    /// not fit.
    pub fn on_transmit(&mut self, context: &mut WriteContext)
        requires
            old(context).wf(),
        ensures
            final(context).carries(*old(context), old(self).packet_after(old(context)@)),
            old(self).transmitted(*final(self), old(context)@),
    {
        let ghost start = self.pending@;
        let ghost first = context@;
        let ghost entry = *context;
        let mut blocked = false;
        while !blocked && self.pending.len() > 0
            invariant
                context.wf(),
                context.same_packet(entry),
                drain(self.pending@, context@) == drain(start, first),
                blocked ==> self.pending@.len() > 0 && !context@.fits(self.pending@[0]),
            decreases self.pending@.len() + if blocked { 0int } else { 1int },
        {
            let frame = self.pending[0];
            match context.write_frame(frame) {
                Some(_) => {
                    let ghost before = self.pending@;
                    self.pending.remove(0);
                    assert(self.pending@ =~= before.skip(1));
                },
                None => {
                    blocked = true;
                },
            }
        }
    }

    pub fn transmission_interest(&self) -> (r: Interest)
        ensures
            r == self.interest(),
    {
        if self.pending.len() > 0 {
            Interest::NewData
        } else {
            Interest::Nothing
        }
    }
}

/// A frame without content that is due once, such as HANDSHAKE_DONE.
#[derive(Clone, Copy, Debug, PartialEq, Eq)]
pub struct Flag {
    pub frame: Frame,
    pub requested: bool,
}

impl Flag {
    pub open spec fn packet_after(self, packet: Packet) -> Packet {
        if self.requested {
            packet.write(self.frame)
        } else {
            packet
        }
    }

    /// The frames that the flag's turn appends to `packet`.
    pub open spec fn written_into(self, packet: Packet) -> Seq<Frame> {
        if self.requested {
            packet.takes(self.frame)
        } else {
            Seq::<Frame>::empty()
        }
    }

    /// `after` is this flag after its turn on `packet`: the request is met
    /// once the frame is written.
    pub open spec fn transmitted(self, after: Flag, packet: Packet) -> bool {
        &&& after.frame == self.frame
        &&& after.requested == (self.requested && !packet.fits(self.frame))
    }

    pub open spec fn interest(self) -> Interest {
        if self.requested {
            Interest::NewData
        } else {
            Interest::Nothing
        }
    }

    pub fn new(frame: Frame) -> (f: Flag)
        ensures
            f.frame == frame,
            !f.requested,
    {
        Flag { frame, requested: false }
    }

    pub fn request(&mut self)
        ensures
            final(self).frame == old(self).frame,
            final(self).requested,
    {
        self.requested = true;
    }

    /// Writes the frame if it is requested and fits.
    pub fn on_transmit(&mut self, context: &mut WriteContext)
        requires
            old(context).wf(),
        ensures
            final(context).carries(*old(context), old(self).packet_after(old(context)@)),
            old(self).transmitted(*final(self), old(context)@),
    {
        if self.requested {
            match context.write_frame(self.frame) {
                Some(_) => {
                    self.requested = false;
                },
                None => {},
            }
        }
    }

    pub fn transmission_interest(&self) -> (r: Interest)
        ensures
            r == self.interest(),
    {
        if self.requested {
            Interest::NewData
        } else {
            Interest::Nothing
        }
    }
}

/// A demand that the next packet elicit an acknowledgement. It writes a
/// PING only into a packet that no other frame has made ack-eliciting.
#[derive(Clone, Copy, Debug, PartialEq, Eq, Structural)]
pub struct Ping {
    pub requested: bool,
}

impl Ping {
    /// A PING is written exactly when one is demanded, no frame of the
    /// packet elicits an acknowledgement yet, and there is room for it.
    pub open spec fn writes(self, packet: Packet) -> bool {
        self.requested && !packet.ack_eliciting() && packet.fits(Frame::Ping)
    }

    pub open spec fn packet_after(self, packet: Packet) -> Packet {
        if self.requested && !packet.ack_eliciting() {
            packet.write(Frame::Ping)
        } else {
            packet
        }
    }

    /// The frames that the demand's turn appends to `packet`.
    pub open spec fn written_into(self, packet: Packet) -> Seq<Frame> {
        if self.requested && !packet.ack_eliciting() {
            packet.takes(Frame::Ping)
        } else {
            Seq::<Frame>::empty()
        }
    }

    /// `after` is this demand after its turn on `packet`: it is met once
    /// the packet elicits an acknowledgement.
    pub open spec fn transmitted(self, after: Ping, packet: Packet) -> bool {
        after.requested == (self.requested && !packet.ack_eliciting() && !packet.fits(
            Frame::Ping,
        ))
    }

    pub open spec fn interest(self) -> Interest {
        if self.requested {
            Interest::Forced
        } else {
            Interest::Nothing
        }
    }

    pub fn new() -> (p: Ping)
        ensures
            !p.requested,
    {
        Ping { requested: false }
    }

    pub fn request(&mut self)
        ensures
            final(self).requested,
    {
        self.requested = true;
    }

    pub fn on_transmit(&mut self, context: &mut WriteContext)
        requires
            old(context).wf(),
        ensures
            final(context).carries(*old(context), old(self).packet_after(old(context)@)),
            old(self).transmitted(*final(self), old(context)@),
            final(context)@.frames.len() == old(context)@.frames.len() + if old(self).writes(
                old(context)@,
            ) {
                1int
            } else {
                0int
            },
    {
        if self.requested {
            if context.ack_elicitation() {
                self.requested = false;
            } else {
                match context.write_frame(Frame::Ping) {
                    Some(_) => {
                        self.requested = false;
                    },
                    None => {},
                }
            }
        }
    }

    pub fn transmission_interest(&self) -> (r: Interest)
        ensures
            r == self.interest(),
    {
        if self.requested {
            Interest::Forced
        } else {
            Interest::Nothing
        }
    }
}

/// The acknowledgements that this endpoint owes the peer.
#[derive(Clone, Copy, Debug, PartialEq, Eq)]
pub struct AckManager {
    /// Size of the ACK frame that is due, if one is.
    pub pending: Option<usize>,
    /// Number of the last packet that carried an ACK frame.
    pub last_sent_in: Option<u64>,
}

impl AckManager {
    /// An ACK frame is due and fits into `packet`.
    pub open spec fn sends(self, packet: Packet) -> bool {
        match self.pending {
            Some(len) => packet.fits(Frame::Ack { len }),
            None => false,
        }
    }

    pub open spec fn packet_after(self, packet: Packet) -> Packet {
        match self.pending {
            Some(len) => packet.write(Frame::Ack { len }),
            None => packet,
        }
    }

    /// The frames that the manager's turn appends to `packet`.
    pub open spec fn written_into(self, packet: Packet) -> Seq<Frame> {
        match self.pending {
            Some(len) => packet.takes(Frame::Ack { len }),
            None => Seq::<Frame>::empty(),
        }
    }

    pub open spec fn interest(self) -> Interest {
        if self.pending is Some {
            Interest::NewData
        } else {
            Interest::Nothing
        }
    }

    pub fn new() -> (a: AckManager)
        ensures
            a.pending is None,
            a.last_sent_in is None,
    {
        AckManager { pending: None, last_sent_in: None }
    }

    /// An ACK frame of `len` bytes is due.
    pub fn request(&mut self, len: usize)
        ensures
            final(self).pending == Some(len),
            final(self).last_sent_in == old(self).last_sent_in,
    {
        self.pending = Some(len);
    }

    /// Writes the ACK frame that is due, if it fits, and says whether it
    /// did. The frame stays due until the packet is complete.
    pub fn on_transmit(&self, context: &mut WriteContext) -> (did_send_ack: bool)
        requires
            old(context).wf(),
        ensures
            final(context).carries(*old(context), self.packet_after(old(context)@)),
            did_send_ack == self.sends(old(context)@),
    {
        match self.pending {
            Some(len) => context.write_frame(Frame::Ack { len }).is_some(),
            None => false,
        }
    }

    /// The packet that carries the ACK frame is populated: nothing is due
    /// any more, and the packet's number is kept.
    pub fn on_transmit_complete(&mut self, context: &WriteContext)
        ensures
            final(self).pending is None,
            final(self).last_sent_in == Some(context.packet_number),
    {
        self.pending = None;
        self.last_sent_in = Some(context.packet_number);
    }

    pub fn transmission_interest(&self) -> (r: Interest)
        ensures
            r == self.interest(),
    {
        if self.pending.is_some() {
            Interest::NewData
        } else {
            Interest::Nothing
        }
    }
}

/// How many of the frames of `pending` are written into `packet`.
pub open spec fn drained(pending: Seq<Frame>, packet: Packet) -> nat
    decreases pending.len(),
{
    if pending.len() == 0 || !packet.fits(pending[0]) {
        0
    } else {
        1 + drained(pending.skip(1), packet.write(pending[0]))
    }
}

/// A queue's turn appends the frames at its head, in their order, and keeps
/// the rest; it stops only at the end of the queue or at a frame for which
/// the room that is left is too small. No other frame is written.
pub proof fn lemma_drain_takes_head(pending: Seq<Frame>, packet: Packet)
    ensures
        drained(pending, packet) <= pending.len(),
        drain(pending, packet).0 == pending.skip(drained(pending, packet) as int),
        drain(pending, packet).1.frames == packet.frames + pending.take(
            drained(pending, packet) as int,
        ),
        drained(pending, packet) < pending.len() ==> !drain(pending, packet).1.fits(
            pending[drained(pending, packet) as int],
        ),
    decreases pending.len(),
{
    if pending.len() == 0 || !packet.fits(pending[0]) {
        assert(pending.skip(0) =~= pending);
        assert(packet.frames + pending.take(0) =~= packet.frames);
    } else {
        let rest = pending.skip(1);
        let next = packet.write(pending[0]);
        lemma_drain_takes_head(rest, next);
        let k = drained(rest, next) as int;
        assert(rest.skip(k) =~= pending.skip(k + 1));
        assert(next.frames + rest.take(k) =~= packet.frames + pending.take(k + 1));
        if k < rest.len() {
            assert(rest[k] == pending[k + 1]);
        }
    }
}

/// A PING is written exactly when one is demanded, no frame before it made
/// the packet ack-eliciting, and there is room for it; nothing else is ever
/// written in its turn. Where one is demanded and there is room, the packet
/// elicits an acknowledgement afterwards.
pub proof fn lemma_ping_written_iff_needed(ping: Ping, packet: Packet)
    ensures
        ping.packet_after(packet).frames == if ping.writes(packet) {
            packet.frames.push(Frame::Ping)
        } else {
            packet.frames
        },
        ping.writes(packet) <==> ping.requested && !packet.ack_eliciting() && packet.remaining >= 1,
        ping.requested && packet.remaining >= 1 ==> ping.packet_after(packet).ack_eliciting(),
{
    crate::context::lemma_write_accounts(packet, Frame::Ping);
}

/// A queue's turn keeps the frames that the packet holds and appends what
/// the queue writes.
pub proof fn lemma_queue_appends(queue: FrameQueue, packet: Packet)
    ensures
        queue.packet_after(packet).frames == packet.frames + queue.written_into(packet),
{
    lemma_drain_takes_head(queue.pending@, packet);
}

/// A flag's turn keeps the frames that the packet holds and appends what
/// the flag writes.
pub proof fn lemma_flag_appends(flag: Flag, packet: Packet)
    ensures
        flag.packet_after(packet).frames == packet.frames + flag.written_into(packet),
{
    crate::context::lemma_write_appends(packet, flag.frame);
    assert(packet.frames + Seq::<Frame>::empty() =~= packet.frames);
}

/// The turn of a PING demand keeps the frames that the packet holds and
/// appends what the demand writes.
pub proof fn lemma_ping_appends(ping: Ping, packet: Packet)
    ensures
        ping.packet_after(packet).frames == packet.frames + ping.written_into(packet),
{
    crate::context::lemma_write_appends(packet, Frame::Ping);
    assert(packet.frames + Seq::<Frame>::empty() =~= packet.frames);
}

/// The ACK manager's turn keeps the frames that the packet holds and
/// appends what the manager writes.
pub proof fn lemma_ack_appends(acks: AckManager, packet: Packet)
    ensures
        acks.packet_after(packet).frames == packet.frames + acks.written_into(packet),
{
    if acks.pending is Some {
        crate::context::lemma_write_appends(packet, Frame::Ack { len: acks.pending->0 });
    }
    assert(packet.frames + Seq::<Frame>::empty() =~= packet.frames);
}

} // verus!
