//! Network paths of a connection: their validation frames and MTU probes.

use crate::context::{Packet, WriteContext};
use crate::frame::Frame;
use crate::interest::Interest;
use crate::producer::FrameQueue;
use vstd::prelude::*;

verus! {

/// Probes whether a path carries packets of a larger size.
#[derive(Clone, Copy, Debug, PartialEq, Eq)]
pub struct MtuController {
    /// Size of the probe that is due, if one is.
    pub probe: Option<usize>,
}

impl MtuController {
    /// A probe of at least one byte is due and fits into `packet`.
    pub open spec fn probes(self, packet: Packet) -> bool {
        match self.probe {
            Some(size) => 1 <= size <= packet.remaining,
            None => false,
        }
    }

    /// A probe is a PING padded to the probe size.
    pub open spec fn packet_after(self, packet: Packet) -> Packet {
        if self.probes(packet) {
            packet.write(Frame::Ping).write(Frame::Padding { len: (self.probe->0 - 1) as usize })
        } else {
            packet
        }
    }

    /// `after` is this controller after its turn on `packet`.
    pub open spec fn transmitted(self, after: MtuController, packet: Packet) -> bool {
        after.probe == if self.probes(packet) {
            None
        } else {
            self.probe
        }
    }

    pub open spec fn interest(self) -> Interest {
        if self.probe is Some {
            Interest::NewData
        } else {
            Interest::Nothing
        }
    }

    pub fn new() -> (m: MtuController)
        ensures
            m.probe is None,
    {
        MtuController { probe: None }
    }

    /// A probe of `size` bytes is due.
    pub fn request_probe(&mut self, size: usize)
        ensures
            final(self).probe == Some(size),
    {
        self.probe = Some(size);
    }

    /// Writes the probe that is due if the whole of it fits.
    pub fn on_transmit(&mut self, context: &mut WriteContext)
        requires
            old(context).wf(),
        ensures
            final(context).carries(*old(context), old(self).packet_after(old(context)@)),
            old(self).transmitted(*final(self), old(context)@),
    {
        match self.probe {
            Some(size) => {
                if 1 <= size && size <= context.remaining_capacity() {
                    let _ = context.write_frame(Frame::Ping);
                    let _ = context.write_frame(Frame::Padding { len: size - 1 });
                    self.probe = None;
                }
            },
            None => {},
        }
    }

    pub fn transmission_interest(&self) -> (r: Interest)
        ensures
            r == self.interest(),
    {
        if self.probe.is_some() {
            Interest::NewData
        } else {
            Interest::Nothing
        }
    }
}

/// One network path to the peer.
#[derive(Clone, Copy, Debug, PartialEq, Eq)]
pub struct Path {
    /// The token that this endpoint challenges the path with.
    pub challenge: [u8; 8],
    /// A PATH_CHALLENGE with the token is due.
    pub challenge_pending: bool,
    /// The token of the peer's challenge that is to be answered, if any.
    pub response: Option<[u8; 8]>,
    pub mtu_controller: MtuController,
}

impl Path {
    /// The packet after the answer to the peer's challenge had its turn.
    pub open spec fn packet_after_response(self, packet: Packet) -> Packet {
        match self.response {
            Some(data) => packet.write(Frame::PathResponse { data }),
            None => packet,
        }
    }

    /// The answer comes first, the challenge second.
    pub open spec fn packet_after(self, packet: Packet) -> Packet {
        let answered = self.packet_after_response(packet);
        if self.challenge_pending {
            answered.write(Frame::PathChallenge { data: self.challenge })
        } else {
            answered
        }
    }

    /// The frames that the path's turn appends to `packet`.
    pub open spec fn written_into(self, packet: Packet) -> Seq<Frame> {
        let answer = match self.response {
            Some(data) => if packet.fits(Frame::PathResponse { data }) {
                seq![Frame::PathResponse { data }]
            } else {
                Seq::<Frame>::empty()
            },
            None => Seq::<Frame>::empty(),
        };
        let challenge = Frame::PathChallenge { data: self.challenge };
        if self.challenge_pending && self.packet_after_response(packet).fits(challenge) {
            answer.push(challenge)
        } else {
            answer
        }
    }

    /// `after` is this path after its turn on `packet`: what was written
    /// is due no more.
    pub open spec fn transmitted(self, after: Path, packet: Packet) -> bool {
        &&& after.challenge == self.challenge
        &&& after.mtu_controller == self.mtu_controller
        &&& after.response == match self.response {
            Some(data) => if packet.fits(Frame::PathResponse { data }) {
                None
            } else {
                self.response
            },
            None => None,
        }
        &&& after.challenge_pending == (self.challenge_pending && !self.packet_after_response(
            packet,
        ).fits(Frame::PathChallenge { data: self.challenge }))
    }

    pub open spec fn interest(self) -> Interest {
        if self.challenge_pending || self.response is Some {
            Interest::NewData
        } else {
            Interest::Nothing
        }
    }

    /// A path that challenges the peer with `challenge`.
    pub fn new(challenge: [u8; 8]) -> (p: Path)
        ensures
            p.challenge == challenge,
            p.challenge_pending,
            p.response is None,
            p.mtu_controller.probe is None,
    {
        Path {
            challenge,
            challenge_pending: true,
            response: None,
            mtu_controller: MtuController::new(),
        }
    }

    /// The peer challenged this path with `data`.
    pub fn on_path_challenge(&mut self, data: [u8; 8])
        ensures
            final(self).response == Some(data),
            final(self).challenge == old(self).challenge,
            final(self).challenge_pending == old(self).challenge_pending,
            final(self).mtu_controller == old(self).mtu_controller,
    {
        self.response = Some(data);
    }

    /// Writes PATH_RESPONSE and PATH_CHALLENGE, each if it is due and fits.
    pub fn on_transmit(&mut self, context: &mut WriteContext)
        requires
            old(context).wf(),
        ensures
            final(context).carries(*old(context), old(self).packet_after(old(context)@)),
            old(self).transmitted(*final(self), old(context)@),
    {
        match self.response {
            Some(data) => {
                match context.write_frame(Frame::PathResponse { data }) {
                    Some(_) => {
                        self.response = None;
                    },
                    None => {},
                }
            },
            None => {},
        }
        if self.challenge_pending {
            match context.write_frame(Frame::PathChallenge { data: self.challenge }) {
                Some(_) => {
                    self.challenge_pending = false;
                },
                None => {},
            }
        }
    }

    pub fn transmission_interest(&self) -> (r: Interest)
        ensures
            r == self.interest(),
    {
        if self.challenge_pending || self.response.is_some() {
            Interest::NewData
        } else {
            Interest::Nothing
        }
    }
}

/// The paths of a connection, one of them active.
pub struct PathManager {
    pub paths: Vec<Path>,
    pub active: usize,
    /// Frames of the migration bookkeeping that wait for room.
    pub pending: FrameQueue,
}

impl PathManager {
    /// The active path exists.
    pub open spec fn wf(self) -> bool {
        self.active < self.paths@.len()
    }

    pub open spec fn active_path(self) -> Path {
        self.paths@[self.active as int]
    }

    pub open spec fn packet_after(self, packet: Packet) -> Packet {
        self.pending.packet_after(packet)
    }

    /// `after` is this manager after its own turn on `packet`.
    pub open spec fn transmitted(self, after: PathManager, packet: Packet) -> bool {
        &&& after.paths@ == self.paths@
        &&& after.active == self.active
        &&& self.pending.transmitted(after.pending, packet)
    }

    /// `after` is this manager after the turn of its path `id` on `packet`.
    pub open spec fn path_transmitted(self, after: PathManager, id: usize, packet: Packet) -> bool {
        &&& after.paths@.len() == self.paths@.len()
        &&& after.active == self.active
        &&& after.pending == self.pending
        &&& self.paths@[id as int].transmitted(after.paths@[id as int], packet)
        &&& forall|i: int|
            0 <= i < self.paths@.len() && i != id ==> after.paths@[i] == self.paths@[i]
    }

    pub open spec fn interest(self) -> Interest {
        self.pending.interest()
    }

    /// Tests the invariant of the manager.
    pub fn is_well_formed(&self) -> (ok: bool)
        ensures
            ok == self.wf(),
    {
        self.active < self.paths.len()
    }

    /// A manager of one path, which is active.
    pub fn new(first: Path) -> (m: PathManager)
        ensures
            m.wf(),
            m.paths@ == seq![first],
            m.active == 0,
            m.pending.pending@ == Seq::<Frame>::empty(),
    {
        let mut paths = Vec::new();
        paths.push(first);
        PathManager { paths, active: 0, pending: FrameQueue::new() }
    }

    /// Adds a path and returns its id.
    pub fn add_path(&mut self, path: Path) -> (id: usize)
        requires
            old(self).wf(),
        ensures
            final(self).wf(),
            id == old(self).paths@.len(),
            final(self).paths@ == old(self).paths@.push(path),
            final(self).active == old(self).active,
            final(self).pending == old(self).pending,
    {
        self.paths.push(path);
        self.paths.len() - 1
    }

    pub fn active_path_id(&self) -> (id: usize)
        ensures
            id == self.active,
    {
        self.active
    }

    /// Writes the frames of the migration bookkeeping.
    pub fn on_transmit(&mut self, context: &mut WriteContext)
        requires
            old(context).wf(),
        ensures
            final(context).carries(*old(context), old(self).packet_after(old(context)@)),
            old(self).transmitted(*final(self), old(context)@),
    {
        self.pending.on_transmit(context);
    }

    /// Gives path `id` its turn.
    pub fn on_transmit_path(&mut self, id: usize, context: &mut WriteContext)
        requires
            id < old(self).paths@.len(),
            old(context).wf(),
        ensures
            final(context).carries(
                *old(context),
                old(self).paths@[id as int].packet_after(old(context)@),
            ),
            old(self).path_transmitted(*final(self), id, old(context)@),
    {
        let mut path = self.paths[id];
        path.on_transmit(context);
        self.paths.set(id, path);
    }

    pub fn transmission_interest(&self) -> (r: Interest)
        ensures
            r == self.interest(),
    {
        self.pending.transmission_interest()
    }
}

/// How many PATH_CHALLENGE frames a run of frames holds.
pub open spec fn challenges_in(frames: Seq<Frame>) -> nat
    decreases frames.len(),
{
    if frames.len() == 0 {
        0
    } else {
        challenges_in(frames.drop_last()) + if frames.last() is PathChallenge {
            1nat
        } else {
            0nat
        }
    }
}

/// A path's turn writes one PATH_CHALLENGE, with the path's own token and
/// behind the answer to the peer's challenge if one is written, exactly
/// when a challenge is due and nine bytes of room are left behind that
/// answer; else it writes none. It never writes a second.
pub proof fn lemma_one_challenge_at_most(path: Path, packet: Packet)
    ensures
        challenges_in(path.written_into(packet)) == if path.challenge_pending
            && path.packet_after_response(packet).remaining >= 9 {
            1nat
        } else {
            0nat
        },
        challenges_in(path.written_into(packet)) == 1 ==> path.written_into(packet).last() == (
            Frame::PathChallenge { data: path.challenge }
        ),
{
    let written = path.written_into(packet);
    let challenge = Frame::PathChallenge { data: path.challenge };
    let answer = if path.challenge_pending && path.packet_after_response(packet).fits(challenge) {
        written.drop_last()
    } else {
        written
    };
    assert(challenges_in(answer) == 0) by {
        reveal_with_fuel(challenges_in, 3);
        if answer.len() > 0 {
            assert(answer.len() == 1);
            assert(answer.last() is PathResponse);
            assert(answer.drop_last().len() == 0);
        }
    }
    if path.challenge_pending && path.packet_after_response(packet).fits(challenge) {
        assert(written.last() == challenge);
    }
}

/// A path's turn appends validation frames and nothing else: the answer to
/// the peer's challenge if one is due and fits, then one PATH_CHALLENGE with
/// the path's own token if one is due and fits into what is left. With a
/// challenge due, no answer due and nine bytes of room, exactly that one
/// PATH_CHALLENGE is appended.
pub proof fn lemma_path_writes_validation_frames_only(path: Path, packet: Packet)
    ensures
        path.packet_after(packet).frames == packet.frames + path.written_into(packet),
        path.written_into(packet).len() <= 2,
        forall|i: int|
            0 <= i < path.written_into(packet).len() ==> {
                let frame = #[trigger] path.written_into(packet)[i];
                frame is PathResponse || frame == (Frame::PathChallenge { data: path.challenge })
            },
        path.challenge_pending && path.response is None && packet.remaining >= 9
            ==> path.written_into(packet) == seq![Frame::PathChallenge { data: path.challenge }],
        path.challenge_pending && path.response is Some && packet.remaining >= 18
            ==> path.written_into(packet) == seq![
            Frame::PathResponse { data: path.response->0 },
            Frame::PathChallenge { data: path.challenge },
        ],
        !path.challenge_pending && path.response is None ==> path.written_into(packet)
            == Seq::<Frame>::empty(),
{
    let written = path.written_into(packet);
    assert(path.packet_after(packet).frames =~= packet.frames + written);
    if path.challenge_pending && path.response is None && packet.remaining >= 9 {
        assert(written =~= seq![Frame::PathChallenge { data: path.challenge }]);
    }
    if path.challenge_pending && path.response is Some && packet.remaining >= 18 {
        assert(written =~= seq![
            Frame::PathResponse { data: path.response->0 },
            Frame::PathChallenge { data: path.challenge },
        ]);
    }
    if !path.challenge_pending && path.response is None {
        assert(written =~= Seq::<Frame>::empty());
    }
}

} // verus!
