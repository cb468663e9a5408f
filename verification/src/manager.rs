//! The stream manager as the payload assembler sees it: the concurrency
//! controller and the stream frames that wait for room.

use crate::context::{Packet, WriteContext};
use crate::controller::Controller;
use crate::frame::Frame;
use crate::interest::Interest;
use crate::producer::FrameQueue;
use vstd::prelude::*;

verus! {

pub struct StreamManager {
    pub controller: Controller,
    /// Frames of the streams themselves, oldest first.
    pub data: FrameQueue,
}

impl StreamManager {
    pub open spec fn wf(self) -> bool {
        self.controller.wf()
    }

    /// The controller's frames come first, the streams' own behind them.
    pub open spec fn packet_after(self, packet: Packet) -> Packet {
        self.data.packet_after(self.controller.packet_after(packet))
    }

    /// The frames that the manager's turn appends to `packet`: the
    /// controller's, then stream frames from the head of their queue.
    pub open spec fn written_into(self, packet: Packet) -> Seq<Frame> {
        self.controller.written_into(packet) + self.data.written_into(
            self.controller.packet_after(packet),
        )
    }

    pub open spec fn interest(self) -> Interest {
        self.controller.interest().join_spec(self.data.interest())
    }

    /// Tests the invariant of the manager.
    pub fn is_well_formed(&self) -> (ok: bool)
        ensures
            ok == self.wf(),
    {
        self.controller.is_well_formed()
    }

        pub fn new(controller: Controller) -> (m: StreamManager)
        ensures
            m.controller == controller,
            m.data.pending@ == Seq::<crate::frame::Frame>::empty(),
    {
        StreamManager { controller, data: FrameQueue::new() }
    }

    /// `after` is this manager after its turn on `packet` of number
    /// `packet_number`.
    pub open spec fn transmitted(self, after: StreamManager, packet: Packet, packet_number: u64)
        -> bool {
        &&& self.controller.transmitted(after.controller, packet, packet_number)
        &&& self.data.transmitted(after.data, self.controller.packet_after(packet))
    }

    /// Writes the controller's frames, then stream frames until one does
    /// not fit.
    pub fn on_transmit(&mut self, context: &mut WriteContext)
        requires
            old(self).wf(),
            old(context).wf(),
        ensures
            final(self).wf(),
            final(context).carries(*old(context), old(self).packet_after(old(context)@)),
            old(self).transmitted(*final(self), old(context)@, old(context).packet_number),
    {
        self.controller.on_transmit(context);
        self.data.on_transmit(context);
    }

    pub fn transmission_interest(&self) -> (r: Interest)
        ensures
            r == self.interest(),
    {
        self.controller.transmission_interest().join(self.data.transmission_interest())
    }
}

/// The manager's turn keeps the frames that the packet holds and appends
/// its own, in the order of `written_into`.
pub proof fn lemma_stream_manager_appends(m: StreamManager, packet: Packet)
    ensures
        m.packet_after(packet).frames == packet.frames + m.written_into(packet),
{
    crate::controller::lemma_controller_appends(m.controller, packet);
    crate::producer::lemma_drain_takes_head(m.data.pending@, m.controller.packet_after(packet));
    assert(m.packet_after(packet).frames =~= packet.frames + m.written_into(packet));
}

} // verus!
