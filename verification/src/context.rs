//! The write context of one outgoing packet: what may be sent, how much room
//! is left, and the frames written so far.

use crate::frame::{any_ack_eliciting, total_size, Frame};
use vstd::prelude::*;

verus! {

/// What the congestion controller and the path allow in this packet.
#[derive(Clone, Copy, Debug, PartialEq, Eq, Structural)]
pub enum Constraint {
    Unconstrained,
    AmplificationLimited,
    CongestionLimited,
    RetransmissionOnly,
}

impl Constraint {
    pub open spec fn allows_new_data(self) -> bool {
        self == Constraint::Unconstrained
    }

    pub open spec fn allows_retransmission(self) -> bool {
        self == Constraint::Unconstrained || self == Constraint::RetransmissionOnly
    }

    /// New data may be sent.
    pub fn can_transmit(self) -> (r: bool)
        ensures
            r == self.allows_new_data(),
    {
        match self {
            Constraint::Unconstrained => true,
            _ => false,
        }
    }

    /// Lost data may be sent again.
    pub fn can_retransmit(self) -> (r: bool)
        ensures
            r == self.allows_retransmission(),
    {
        match self {
            Constraint::Unconstrained | Constraint::RetransmissionOnly => true,
            _ => false,
        }
    }

    pub fn is_congestion_limited(self) -> (r: bool)
        ensures
            r == (self == Constraint::CongestionLimited),
    {
        match self {
            Constraint::CongestionLimited => true,
            _ => false,
        }
    }
}

/// Why the connection transmits this packet.
#[derive(Clone, Copy, Debug, PartialEq, Eq, Structural)]
pub enum Mode {
    Normal,
    LossRecoveryProbing,
    MtuProbing,
    PathValidationOnly,
}

/// The part of a packet that frame producers change: its frames in order,
/// and the room that is left.
pub struct Packet {
    pub frames: Seq<Frame>,
    pub remaining: nat,
}

impl Packet {
    pub open spec fn fits(self, frame: Frame) -> bool {
        frame.size() <= self.remaining
    }

    /// The packet after an attempt to write `frame`: a frame that does not
    /// fit leaves it as it is.
    pub open spec fn write(self, frame: Frame) -> Packet {
        if self.fits(frame) {
            Packet {
                frames: self.frames.push(frame),
                remaining: (self.remaining - frame.size()) as nat,
            }
        } else {
            self
        }
    }

    /// What an attempt to write `frame` appends: the frame if it fits,
    /// else nothing.
    pub open spec fn takes(self, frame: Frame) -> Seq<Frame> {
        if self.fits(frame) {
            seq![frame]
        } else {
            Seq::<Frame>::empty()
        }
    }

    pub open spec fn ack_eliciting(self) -> bool {
        any_ack_eliciting(self.frames)
    }

    /// Bytes written so far.
    pub open spec fn written(self) -> nat {
        total_size(self.frames)
    }
}

pub proof fn lemma_total_size_push(frames: Seq<Frame>, frame: Frame)
    ensures
        total_size(frames.push(frame)) == total_size(frames) + frame.size(),
{
    assert(frames.push(frame).drop_last() =~= frames);
}

pub proof fn lemma_ack_eliciting_push(frames: Seq<Frame>, frame: Frame)
    ensures
        any_ack_eliciting(frames.push(frame)) == (any_ack_eliciting(frames)
            || frame.ack_eliciting()),
{
    let pushed = frames.push(frame);
    if any_ack_eliciting(frames) {
        let i = choose|i: int| 0 <= i < frames.len() && (#[trigger] frames[i]).ack_eliciting();
        assert(pushed[i].ack_eliciting());
    }
    if frame.ack_eliciting() {
        assert(pushed[frames.len() as int].ack_eliciting());
    }
    if any_ack_eliciting(pushed) {
        let i = choose|i: int| 0 <= i < pushed.len() && (#[trigger] pushed[i]).ack_eliciting();
        if i < frames.len() {
            assert(frames[i].ack_eliciting());
        }
    }
}

/// A write makes the packet ack-eliciting exactly when it was so before, or
/// the frame is ack-eliciting and fits; and it takes the frame's size from
/// the room, if the frame fits.
pub proof fn lemma_write_accounts(packet: Packet, frame: Frame)
    ensures
        packet.write(frame).ack_eliciting() == (packet.ack_eliciting() || (packet.fits(frame)
            && frame.ack_eliciting())),
        packet.write(frame).written() + packet.write(frame).remaining == packet.written()
            + packet.remaining,
{
    lemma_total_size_push(packet.frames, frame);
    lemma_ack_eliciting_push(packet.frames, frame);
}

/// The write context handed to the frame producers of one packet.
pub struct WriteContext {
    pub capacity: usize,
    pub remaining: usize,
    pub constraint: Constraint,
    pub mode: Mode,
    pub packet_number: u64,
    pub frames: Vec<Frame>,
    pub ack_eliciting: bool,
}

impl View for WriteContext {
    type V = Packet;

    open spec fn view(&self) -> Packet {
        Packet { frames: self.frames@, remaining: self.remaining as nat }
    }
}

impl WriteContext {
    /// The frames written account for the room that is gone, and the
    /// ack-elicitation flag says whether one of them elicits an ACK.
    pub open spec fn wf(self) -> bool {
        &&& total_size(self.frames@) + self.remaining == self.capacity
        &&& self.ack_eliciting == any_ack_eliciting(self.frames@)
    }

    /// Both contexts are for the same packet: only frames and room differ.
    pub open spec fn same_packet(self, other: WriteContext) -> bool {
        &&& self.capacity == other.capacity
        &&& self.constraint == other.constraint
        &&& self.mode == other.mode
        &&& self.packet_number == other.packet_number
    }

    /// `self` is a well-formed context of the same packet as `before`, and
    /// holds `packet`.
    pub open spec fn carries(self, before: WriteContext, packet: Packet) -> bool {
        &&& self.wf()
        &&& self.same_packet(before)
        &&& self@ == packet
    }

    /// An empty packet with room for `capacity` bytes.
    pub fn new(capacity: usize, constraint: Constraint, mode: Mode, packet_number: u64) -> (ctx:
        WriteContext)
        ensures
            ctx.wf(),
            ctx.capacity == capacity,
            ctx.remaining == capacity,
            ctx.constraint == constraint,
            ctx.mode == mode,
            ctx.packet_number == packet_number,
            ctx.frames@ == Seq::<Frame>::empty(),
            !ctx.ack_eliciting,
    {
        WriteContext {
            capacity,
            remaining: capacity,
            constraint,
            mode,
            packet_number,
            frames: Vec::new(),
            ack_eliciting: false,
        }
    }

    pub fn remaining_capacity(&self) -> (n: usize)
        ensures
            n == self.remaining,
    {
        self.remaining
    }

    pub fn transmission_constraint(&self) -> (c: Constraint)
        ensures
            c == self.constraint,
    {
        self.constraint
    }

    pub fn transmission_mode(&self) -> (m: Mode)
        ensures
            m == self.mode,
    {
        self.mode
    }

    /// Whether a frame written so far elicits an acknowledgement.
    pub fn ack_elicitation(&self) -> (r: bool)
        ensures
            r == self.ack_eliciting,
    {
        self.ack_eliciting
    }

    /// Writes `frame` if it fits, and returns the packet's number then. A
    /// frame that does not fit changes nothing.
    pub fn write_frame(&mut self, frame: Frame) -> (pn: Option<u64>)
        requires
            old(self).wf(),
        ensures
            final(self).carries(*old(self), old(self)@.write(frame)),
            pn == if old(self)@.fits(frame) {
                Some(old(self).packet_number)
            } else {
                None
            },
    {
        let size = frame.encoding_size();
        if size > self.remaining {
            return None;
        }
        proof {
            lemma_total_size_push(self.frames@, frame);
            lemma_ack_eliciting_push(self.frames@, frame);
        }
        let eliciting = frame.is_ack_eliciting();
        self.remaining = self.remaining - size;
        self.frames.push(frame);
        self.ack_eliciting = self.ack_eliciting || eliciting;
        Some(self.packet_number)
    }
}

/// A write keeps the frames that the packet holds and appends what it takes.
pub proof fn lemma_write_appends(packet: Packet, frame: Frame)
    ensures
        packet.write(frame).frames == packet.frames + packet.takes(frame),
{
    assert(packet.write(frame).frames =~= packet.frames + packet.takes(frame));
}

} // verus!
