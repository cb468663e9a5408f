//! Payloads of the application packet space: which producers write into a
//! packet, and in which order.

use crate::context::{Constraint, Mode, Packet, WriteContext};
use crate::frame::Frame;
use crate::interest::Interest;
use crate::manager::StreamManager;
use crate::path::{MtuController, Path, PathManager};
use crate::manager::lemma_stream_manager_appends;
use crate::path::{challenges_in, lemma_one_challenge_at_most};
use crate::path::lemma_path_writes_validation_frames_only;
use crate::producer::{drain, drained, lemma_drain_takes_head};
use crate::producer::{lemma_ack_appends, lemma_flag_appends, lemma_ping_appends};
use crate::producer::lemma_queue_appends;
use crate::producer::{AckManager, Flag, FrameQueue, Ping};
use vstd::prelude::*;

verus! {

/// The payload of an ordinary packet on the active path.
pub struct Normal<'a> {
    pub ack_manager: &'a mut AckManager,
    pub handshake_status: &'a mut Flag,
    pub ping: &'a mut Ping,
    pub stream_manager: &'a mut StreamManager,
    pub local_id_registry: &'a mut FrameQueue,
    pub path_manager: &'a mut PathManager,
    pub recovery_manager: &'a mut Ping,
    pub crypto_stream: &'a mut FrameQueue,
    pub datagram_manager: &'a mut FrameQueue,
    pub dc_manager: &'a mut FrameQueue,
    pub prioritize_datagrams: bool,
}

/// The payload of a packet that probes the MTU of a path.
pub struct MtuProbe<'a> {
    pub mtu_controller: &'a mut MtuController,
}

/// The payload of a packet on a path that is not active: only frames of
/// path validation.
pub struct PathValidationOnly<'a> {
    pub path: &'a mut Path,
}

pub enum Payload<'a> {
    Normal(Normal<'a>),
    MtuProbe(MtuProbe<'a>),
    PathValidationOnly(PathValidationOnly<'a>),
}

impl<'a> Normal<'a> {
    pub open spec fn wf(self) -> bool {
        self.stream_manager.wf() && self.path_manager.wf()
    }

    /// The packet after the datagrams' turn at the head of a packet in
    /// which they have priority.
    pub open spec fn after_priority_datagrams(self, can_transmit: bool, packet: Packet) -> Packet {
        if self.prioritize_datagrams && can_transmit {
            self.datagram_manager.packet_after(packet)
        } else {
            packet
        }
    }

    /// The packet after the ACK frame.
    pub open spec fn after_ack(self, can_transmit: bool, packet: Packet) -> Packet {
        self.ack_manager.packet_after(self.after_priority_datagrams(can_transmit, packet))
    }

    pub open spec fn after_handshake(self, packet: Packet) -> Packet {
        self.handshake_status.packet_after(packet)
    }

    pub open spec fn after_dc(self, packet: Packet) -> Packet {
        self.dc_manager.packet_after(self.after_handshake(packet))
    }

    pub open spec fn after_crypto(self, packet: Packet) -> Packet {
        self.crypto_stream.packet_after(self.after_dc(packet))
    }

    pub open spec fn after_active_path(self, packet: Packet) -> Packet {
        self.path_manager.active_path().packet_after(self.after_crypto(packet))
    }

    pub open spec fn after_local_ids(self, packet: Packet) -> Packet {
        self.local_id_registry.packet_after(self.after_active_path(packet))
    }

    /// The packet after the control data: HANDSHAKE_DONE, the stateless
    /// reset tokens, the crypto stream, the active path's validation, the
    /// connection ids and the path manager's own frames, in this order.
    pub open spec fn after_control(self, packet: Packet) -> Packet {
        self.path_manager.packet_after(self.after_local_ids(packet))
    }

    /// The packet after the datagrams' turn behind the control data, which
    /// they have in a packet in which they have no priority.
    pub open spec fn after_datagrams(self, packet: Packet) -> Packet {
        if !self.prioritize_datagrams {
            self.datagram_manager.packet_after(self.after_control(packet))
        } else {
            self.after_control(packet)
        }
    }

    pub open spec fn after_streams(self, packet: Packet) -> Packet {
        self.stream_manager.packet_after(self.after_datagrams(packet))
    }

    pub open spec fn after_recovery(self, packet: Packet) -> Packet {
        self.recovery_manager.packet_after(self.after_streams(packet))
    }

    /// The packet after everything that may be written only where
    /// transmission is allowed; `packet` is the packet after the ACK frame.
    pub open spec fn after_ping(self, packet: Packet) -> Packet {
        self.ping.packet_after(self.after_recovery(packet))
    }

    /// The whole packet.
    pub open spec fn packet_after(self, can_transmit: bool, packet: Packet) -> Packet {
        let acked = self.after_ack(can_transmit, packet);
        if can_transmit {
            self.after_ping(acked)
        } else {
            acked
        }
    }

    /// The packet on which the datagrams have their turn.
    pub open spec fn before_datagrams(self, packet: Packet) -> Packet {
        if self.prioritize_datagrams {
            packet
        } else {
            self.after_control(self.after_ack(true, packet))
        }
    }

    /// `after` holds the producers of the control data after their turns,
    /// which began on `packet`.
    pub open spec fn control_transmitted(self, after: Normal<'a>, packet: Packet) -> bool {
        &&& self.handshake_status.transmitted(*after.handshake_status, packet)
        &&& self.dc_manager.transmitted(*after.dc_manager, self.after_handshake(packet))
        &&& self.crypto_stream.transmitted(*after.crypto_stream, self.after_dc(packet))
        &&& after.path_manager.paths@.len() == self.path_manager.paths@.len()
        &&& after.path_manager.active == self.path_manager.active
        &&& self.path_manager.active_path().transmitted(
            after.path_manager.active_path(),
            self.after_crypto(packet),
        )
        &&& forall|i: int|
            0 <= i < self.path_manager.paths@.len() && i != self.path_manager.active
                ==> after.path_manager.paths@[i] == self.path_manager.paths@[i]
        &&& self.local_id_registry.transmitted(
            *after.local_id_registry,
            self.after_active_path(packet),
        )
        &&& self.path_manager.pending.transmitted(
            after.path_manager.pending,
            self.after_local_ids(packet),
        )
    }

    /// Writes the control data, in the order of `after_control`.
    pub fn transmit_control_data(&mut self, context: &mut WriteContext)
        requires
            old(self).wf(),
            old(context).wf(),
        ensures
            final(self).wf(),
            final(context).carries(*old(context), old(self).after_control(old(context)@)),
            old(self).control_transmitted(*final(self), old(context)@),
            *final(self).ack_manager == *old(self).ack_manager,
            *final(self).ping == *old(self).ping,
            *final(self).stream_manager == *old(self).stream_manager,
            *final(self).recovery_manager == *old(self).recovery_manager,
            *final(self).datagram_manager == *old(self).datagram_manager,
            final(self).prioritize_datagrams == old(self).prioritize_datagrams,
            *final(final(self).ack_manager) == *final(old(self).ack_manager),
            *final(final(self).handshake_status) == *final(old(self).handshake_status),
            *final(final(self).ping) == *final(old(self).ping),
            *final(final(self).stream_manager) == *final(old(self).stream_manager),
            *final(final(self).local_id_registry) == *final(old(self).local_id_registry),
            *final(final(self).path_manager) == *final(old(self).path_manager),
            *final(final(self).recovery_manager) == *final(old(self).recovery_manager),
            *final(final(self).crypto_stream) == *final(old(self).crypto_stream),
            *final(final(self).datagram_manager) == *final(old(self).datagram_manager),
            *final(final(self).dc_manager) == *final(old(self).dc_manager),
    {
        self.handshake_status.on_transmit(context);
        self.dc_manager.on_transmit(context);
        self.crypto_stream.on_transmit(context);
        let active = self.path_manager.active_path_id();
        self.path_manager.on_transmit_path(active, context);
        self.local_id_registry.on_transmit(context);
        self.path_manager.on_transmit(context);
    }

    /// What the payload has to send: the supremum over its producers.
    pub open spec fn interest(self) -> Interest {
        self.ack_manager.interest().join_spec(self.handshake_status.interest()).join_spec(
            self.stream_manager.interest(),
        ).join_spec(self.datagram_manager.interest()).join_spec(
            self.local_id_registry.interest(),
        ).join_spec(self.path_manager.interest()).join_spec(
            self.crypto_stream.interest(),
        ).join_spec(self.recovery_manager.interest()).join_spec(
            self.path_manager.active_path().interest(),
        ).join_spec(self.ping.interest()).join_spec(self.dc_manager.interest())
    }

    pub fn transmission_interest(&self) -> (r: Interest)
        requires
            self.wf(),
        ensures
            r == self.interest(),
    {
        let active = self.path_manager.active_path_id();
        self.ack_manager.transmission_interest().join(
            self.handshake_status.transmission_interest(),
        ).join(self.stream_manager.transmission_interest()).join(
            self.datagram_manager.transmission_interest(),
        ).join(self.local_id_registry.transmission_interest()).join(
            self.path_manager.transmission_interest(),
        ).join(self.crypto_stream.transmission_interest()).join(
            self.recovery_manager.transmission_interest(),
        ).join(self.path_manager.paths[active].transmission_interest()).join(
            self.ping.transmission_interest(),
        ).join(self.dc_manager.transmission_interest())
    }

    /// `after` holds the producers after the packet: each after its turn,
    /// on the packet as it stood then; `packet` is the packet at entry.
    pub open spec fn transmitted(
        self,
        after: Normal<'a>,
        can_transmit: bool,
        packet: Packet,
        packet_number: u64,
    ) -> bool {
        let acked = self.after_ack(can_transmit, packet);
        &&& after.prioritize_datagrams == !self.prioritize_datagrams
        &&& *after.ack_manager == if self.ack_manager.sends(
            self.after_priority_datagrams(can_transmit, packet),
        ) {
            AckManager { pending: None, last_sent_in: Some(packet_number) }
        } else {
            *self.ack_manager
        }
        &&& if can_transmit {
            &&& self.datagram_manager.transmitted(
                *after.datagram_manager,
                self.before_datagrams(packet),
            )
            &&& self.control_transmitted(after, acked)
            &&& self.stream_manager.transmitted(
                *after.stream_manager,
                self.after_datagrams(acked),
                packet_number,
            )
            &&& self.recovery_manager.transmitted(
                *after.recovery_manager,
                self.after_streams(acked),
            )
            &&& self.ping.transmitted(*after.ping, self.after_recovery(acked))
        } else {
            &&& *after.datagram_manager == *self.datagram_manager
            &&& *after.handshake_status == *self.handshake_status
            &&& *after.dc_manager == *self.dc_manager
            &&& *after.crypto_stream == *self.crypto_stream
            &&& *after.path_manager == *self.path_manager
            &&& *after.local_id_registry == *self.local_id_registry
            &&& *after.stream_manager == *self.stream_manager
            &&& *after.recovery_manager == *self.recovery_manager
            &&& *after.ping == *self.ping
        }
    }

    /// Fills one packet. Datagrams come first in a packet in which they
    /// have priority; then the ACK frame; then, where the constraint allows
    /// transmission or retransmission, the control data, the datagrams if
    /// they had no priority, the stream manager, the recovery manager and
    /// the PING. At the end the priority of datagrams changes sides. The
    /// bytes written are at most the room that the packet had at entry.
    pub fn on_transmit(&mut self, context: &mut WriteContext)
        requires
            old(self).wf(),
            old(context).wf(),
        ensures
            final(self).wf(),
            final(context).carries(
                *old(context),
                old(self).packet_after(
                    old(context).constraint.allows_retransmission(),
                    old(context)@,
                ),
            ),
            old(self).transmitted(
                *final(self),
                old(context).constraint.allows_retransmission(),
                old(context)@,
                old(context).packet_number,
            ),
            final(context)@.written() + final(context)@.remaining == old(context)@.written()
                + old(context)@.remaining,
            *final(final(self).ack_manager) == *final(old(self).ack_manager),
            *final(final(self).handshake_status) == *final(old(self).handshake_status),
            *final(final(self).ping) == *final(old(self).ping),
            *final(final(self).stream_manager) == *final(old(self).stream_manager),
            *final(final(self).local_id_registry) == *final(old(self).local_id_registry),
            *final(final(self).path_manager) == *final(old(self).path_manager),
            *final(final(self).recovery_manager) == *final(old(self).recovery_manager),
            *final(final(self).crypto_stream) == *final(old(self).crypto_stream),
            *final(final(self).datagram_manager) == *final(old(self).datagram_manager),
            *final(final(self).dc_manager) == *final(old(self).dc_manager),
    {
        let can_transmit = context.transmission_constraint().can_transmit()
            || context.transmission_constraint().can_retransmit();

        if self.prioritize_datagrams && can_transmit {
            self.datagram_manager.on_transmit(context);
        }
        let did_send_ack = self.ack_manager.on_transmit(context);

        if can_transmit {
            self.transmit_control_data(context);

            if !self.prioritize_datagrams {
                self.datagram_manager.on_transmit(context);
            }
            self.stream_manager.on_transmit(context);

            self.recovery_manager.on_transmit(context);
            self.ping.on_transmit(context);
        }
        if did_send_ack {
            self.ack_manager.on_transmit_complete(context);
        }
        self.prioritize_datagrams = !self.prioritize_datagrams;
    }
}

impl<'a> MtuProbe<'a> {
    pub open spec fn packet_after(self, can_transmit: bool, packet: Packet) -> Packet {
        if can_transmit {
            self.mtu_controller.packet_after(packet)
        } else {
            packet
        }
    }

    /// Writes the MTU probe, but only where new data may be sent.
    pub fn on_transmit(&mut self, context: &mut WriteContext)
        requires
            old(context).wf(),
        ensures
            final(context).carries(
                *old(context),
                old(self).packet_after(old(context).constraint.allows_new_data(), old(context)@),
            ),
            if old(context).constraint.allows_new_data() {
                old(self).mtu_controller.transmitted(*final(self).mtu_controller, old(context)@)
            } else {
                *final(self).mtu_controller == *old(self).mtu_controller
            },
            *final(final(self).mtu_controller) == *final(old(self).mtu_controller),
    {
        if context.transmission_constraint().can_transmit() {
            self.mtu_controller.on_transmit(context)
        }
    }

    /// What the payload has to send under `constraint`: the probe that is
    /// due, but nothing where new data may not be sent, since no frame
    /// would be written then.
    pub open spec fn interest(self, constraint: Constraint) -> Interest {
        if constraint.allows_new_data() {
            self.mtu_controller.interest()
        } else {
            Interest::Nothing
        }
    }

    pub fn transmission_interest(&self, constraint: Constraint) -> (r: Interest)
        ensures
            r == self.interest(constraint),
    {
        if constraint.can_transmit() {
            self.mtu_controller.transmission_interest()
        } else {
            Interest::Nothing
        }
    }
}

impl<'a> PathValidationOnly<'a> {
    pub open spec fn packet_after(self, can_transmit: bool, packet: Packet) -> Packet {
        if can_transmit {
            self.path.packet_after(packet)
        } else {
            packet
        }
    }

    /// Writes the path's validation frames, but only where new data may be
    /// sent.
    pub fn on_transmit(&mut self, context: &mut WriteContext)
        requires
            old(context).wf(),
        ensures
            final(context).carries(
                *old(context),
                old(self).packet_after(old(context).constraint.allows_new_data(), old(context)@),
            ),
            if old(context).constraint.allows_new_data() {
                old(self).path.transmitted(*final(self).path, old(context)@)
            } else {
                *final(self).path == *old(self).path
            },
            *final(final(self).path) == *final(old(self).path),
    {
        if context.transmission_constraint().can_transmit() {
            self.path.on_transmit(context)
        }
    }

    /// What the payload has to send: the path's validation frames that
    /// are due, whatever the constraint.
    pub open spec fn interest(self) -> Interest {
        self.path.interest()
    }

    pub fn transmission_interest(&self) -> (r: Interest)
        ensures
            r == self.interest(),
    {
        self.path.transmission_interest()
    }
}

impl<'a> Payload<'a> {
    pub open spec fn wf(self) -> bool {
        match self {
            Payload::Normal(inner) => inner.wf(),
            _ => true,
        }
    }

    /// The packet after the payload's producers had their turns.
    pub open spec fn packet_after(self, context: WriteContext) -> Packet {
        match self {
            Payload::Normal(inner) => inner.packet_after(
                context.constraint.allows_retransmission(),
                context@,
            ),
            Payload::MtuProbe(inner) => inner.packet_after(
                context.constraint.allows_new_data(),
                context@,
            ),
            Payload::PathValidationOnly(inner) => inner.packet_after(
                context.constraint.allows_new_data(),
                context@,
            ),
        }
    }

    /// What the payload has to send under `constraint`. An ordinary
    /// payload reports the supremum over its producers, and a
    /// path-validation payload the interest of its path, whatever the
    /// constraint; an MTU probe reports nothing where new data may not be
    /// sent.
    pub open spec fn interest(self, constraint: Constraint) -> Interest {
        match self {
            Payload::Normal(inner) => inner.interest(),
            Payload::MtuProbe(inner) => inner.interest(constraint),
            Payload::PathValidationOnly(inner) => inner.interest(),
        }
    }

    /// The payload for a packet in `transmission_mode` on path `path_id`:
    /// an ordinary one, over all producers, for the normal mode and for
    /// loss-recovery probing; the MTU probe of the path; or the validation
    /// frames of the path. Only path validation may name a path that is not
    /// the active one.
    pub fn new(
        path_id: usize,
        path_manager: &'a mut PathManager,
        local_id_registry: &'a mut FrameQueue,
        transmission_mode: Mode,
        ack_manager: &'a mut AckManager,
        handshake_status: &'a mut Flag,
        ping: &'a mut Ping,
        stream_manager: &'a mut StreamManager,
        recovery_manager: &'a mut Ping,
        crypto_stream: &'a mut FrameQueue,
        datagram_manager: &'a mut FrameQueue,
        dc_manager: &'a mut FrameQueue,
    ) -> (payload: Payload<'a>)
        requires
            path_id < old(path_manager).paths@.len(),
            transmission_mode == Mode::Normal || transmission_mode == Mode::LossRecoveryProbing
                ==> old(stream_manager).wf(),
            transmission_mode != Mode::PathValidationOnly ==> path_id == old(path_manager).active,
        ensures
            payload.wf(),
            match payload {
                Payload::Normal(inner) => {
                    &&& transmission_mode == Mode::Normal || transmission_mode
                        == Mode::LossRecoveryProbing
                    &&& !inner.prioritize_datagrams
                    &&& *inner.ack_manager == *old(ack_manager)
                    &&& *inner.handshake_status == *old(handshake_status)
                    &&& *inner.ping == *old(ping)
                    &&& *inner.stream_manager == *old(stream_manager)
                    &&& *inner.local_id_registry == *old(local_id_registry)
                    &&& *inner.path_manager == *old(path_manager)
                    &&& *inner.recovery_manager == *old(recovery_manager)
                    &&& *inner.crypto_stream == *old(crypto_stream)
                    &&& *inner.datagram_manager == *old(datagram_manager)
                    &&& *inner.dc_manager == *old(dc_manager)
                    &&& *final(inner.ack_manager) == *final(ack_manager)
                    &&& *final(inner.handshake_status) == *final(handshake_status)
                    &&& *final(inner.ping) == *final(ping)
                    &&& *final(inner.stream_manager) == *final(stream_manager)
                    &&& *final(inner.local_id_registry) == *final(local_id_registry)
                    &&& *final(inner.path_manager) == *final(path_manager)
                    &&& *final(inner.recovery_manager) == *final(recovery_manager)
                    &&& *final(inner.crypto_stream) == *final(crypto_stream)
                    &&& *final(inner.datagram_manager) == *final(datagram_manager)
                    &&& *final(inner.dc_manager) == *final(dc_manager)
                },
                Payload::MtuProbe(inner) => {
                    &&& transmission_mode == Mode::MtuProbing
                    &&& *inner.mtu_controller == old(
                        path_manager,
                    ).paths@[path_id as int].mtu_controller
                    &&& final(path_manager).paths@ == old(path_manager).paths@.update(
                        path_id as int,
                        (Path {
                            mtu_controller: *final(inner.mtu_controller),
                            ..old(path_manager).paths@[path_id as int]
                        }),
                    )
                },
                Payload::PathValidationOnly(inner) => {
                    &&& transmission_mode == Mode::PathValidationOnly
                    &&& *inner.path == old(path_manager).paths@[path_id as int]
                    &&& final(path_manager).paths@ == old(path_manager).paths@.update(
                        path_id as int,
                        *final(inner.path),
                    )
                },
            },
            !(payload is Normal) ==> {
                &&& final(path_manager).active == old(path_manager).active
                &&& final(path_manager).pending == old(path_manager).pending
                &&& *final(ack_manager) == *old(ack_manager)
                &&& *final(handshake_status) == *old(handshake_status)
                &&& *final(ping) == *old(ping)
                &&& *final(stream_manager) == *old(stream_manager)
                &&& *final(local_id_registry) == *old(local_id_registry)
                &&& *final(recovery_manager) == *old(recovery_manager)
                &&& *final(crypto_stream) == *old(crypto_stream)
                &&& *final(datagram_manager) == *old(datagram_manager)
                &&& *final(dc_manager) == *old(dc_manager)
            },
    {
        match transmission_mode {
            Mode::LossRecoveryProbing | Mode::Normal => Payload::Normal(
                Normal {
                    ack_manager,
                    handshake_status,
                    ping,
                    stream_manager,
                    local_id_registry,
                    path_manager,
                    recovery_manager,
                    crypto_stream,
                    datagram_manager,
                    dc_manager,
                    prioritize_datagrams: false,
                },
            ),
            Mode::MtuProbing => Payload::MtuProbe(
                MtuProbe { mtu_controller: &mut path_manager.paths[path_id].mtu_controller },
            ),
            Mode::PathValidationOnly => Payload::PathValidationOnly(
                PathValidationOnly { path: &mut path_manager.paths[path_id] },
            ),
        }
    }

    /// The room to ask for in a packet, given the least and the most that
    /// may be had: there must be room for one byte at least, the size of a
    /// HANDSHAKE_DONE or PING frame.
    pub fn size_hint(&self, least: usize, most: usize) -> (n: usize)
        ensures
            n == if least >= 1 {
                least
            } else {
                1usize
            },
            n >= 1,
    {
        if least >= 1 {
            least
        } else {
            1
        }
    }

    /// Gives the producers of the payload their turns: see `on_transmit`
    /// of the three kinds of payload.
    pub fn on_transmit(&mut self, context: &mut WriteContext)
        requires
            old(self).wf(),
            old(context).wf(),
        ensures
            final(self).wf(),
            final(context).carries(*old(context), old(self).packet_after(*old(context))),
            final(context)@.written() + final(context)@.remaining == old(context)@.written()
                + old(context)@.remaining,
            match (*old(self), *final(self)) {
                (Payload::Normal(before), Payload::Normal(after)) => {
                    &&& before.transmitted(
                        after,
                        old(context).constraint.allows_retransmission(),
                        old(context)@,
                        old(context).packet_number,
                    )
                    &&& *final(after.ack_manager) == *final(before.ack_manager)
                    &&& *final(after.handshake_status) == *final(before.handshake_status)
                    &&& *final(after.ping) == *final(before.ping)
                    &&& *final(after.stream_manager) == *final(before.stream_manager)
                    &&& *final(after.local_id_registry) == *final(before.local_id_registry)
                    &&& *final(after.path_manager) == *final(before.path_manager)
                    &&& *final(after.recovery_manager) == *final(before.recovery_manager)
                    &&& *final(after.crypto_stream) == *final(before.crypto_stream)
                    &&& *final(after.datagram_manager) == *final(before.datagram_manager)
                    &&& *final(after.dc_manager) == *final(before.dc_manager)
                },
                (Payload::MtuProbe(before), Payload::MtuProbe(after)) => {
                    &&& if old(context).constraint.allows_new_data() {
                        before.mtu_controller.transmitted(*after.mtu_controller, old(context)@)
                    } else {
                        *after.mtu_controller == *before.mtu_controller
                    }
                    &&& *final(after.mtu_controller) == *final(before.mtu_controller)
                },
                (Payload::PathValidationOnly(before), Payload::PathValidationOnly(after)) => {
                    &&& if old(context).constraint.allows_new_data() {
                        before.path.transmitted(*after.path, old(context)@)
                    } else {
                        *after.path == *before.path
                    }
                    &&& *final(after.path) == *final(before.path)
                },
                _ => false,
            },
    {
        match self {
            Payload::Normal(inner) => inner.on_transmit(context),
            Payload::MtuProbe(inner) => inner.on_transmit(context),
            Payload::PathValidationOnly(inner) => inner.on_transmit(context),
        }
    }

    pub fn transmission_interest(&self, constraint: Constraint) -> (r: Interest)
        requires
            self.wf(),
        ensures
            r == self.interest(constraint),
    {
        match self {
            Payload::Normal(inner) => inner.transmission_interest(),
            Payload::MtuProbe(inner) => inner.transmission_interest(constraint),
            Payload::PathValidationOnly(inner) => inner.transmission_interest(),
        }
    }
}

impl<'a> Normal<'a> {
    /// The packet as it is where the datagrams have no turn: the ACK frame,
    /// then, where transmission is allowed, the control data, the stream
    /// manager, the recovery manager and the PING.
    pub open spec fn packet_without_datagrams(self, can_transmit: bool, packet: Packet) -> Packet {
        let acked = self.ack_manager.packet_after(packet);
        if can_transmit {
            self.ping.packet_after(
                self.recovery_manager.packet_after(
                    self.stream_manager.packet_after(self.after_control(acked)),
                ),
            )
        } else {
            acked
        }
    }

    /// No datagram waits.
    pub open spec fn no_datagrams(self) -> bool {
        self.datagram_manager.pending@.len() == 0
    }

    /// The datagram queue is as it was after a turn on the packet on which
    /// it has its turn.
    pub open spec fn datagrams_untouched(self, packet: Packet) -> bool {
        self.datagram_manager.transmitted(*self.datagram_manager, self.before_datagrams(packet))
    }

    /// HANDSHAKE_DONE is requested.
    pub open spec fn handshake_done_due(self) -> bool {
        self.handshake_status.requested
    }

    /// The stream frames that wait, oldest first.
    pub open spec fn stream_frames(self) -> Seq<Frame> {
        self.stream_manager.data.pending@
    }

    /// All that is due are stream frames.
    pub open spec fn only_streams(self) -> bool {
        &&& self.no_datagrams()
        &&& self.ack_manager.pending is None
        &&& !self.handshake_status.requested
        &&& self.dc_manager.pending@.len() == 0
        &&& self.crypto_stream.pending@.len() == 0
        &&& !self.path_manager.active_path().challenge_pending
        &&& self.path_manager.active_path().response is None
        &&& self.local_id_registry.pending@.len() == 0
        &&& self.path_manager.pending.pending@.len() == 0
        &&& self.stream_manager.controller.interest() == Interest::Nothing
        &&& !self.recovery_manager.requested
        &&& !self.ping.requested
    }

    /// All that is due is an ACK frame of `ack` bytes, perhaps
    /// HANDSHAKE_DONE, the one frame `crypto` of the crypto stream, and
    /// stream frames.
    pub open spec fn only_ack_control_and_streams(self, ack: usize, crypto: Frame) -> bool {
        &&& self.no_datagrams()
        &&& self.ack_manager.pending == Some(ack)
        &&& self.handshake_status.frame == Frame::HandshakeDone
        &&& self.dc_manager.pending@.len() == 0
        &&& self.crypto_stream.pending@ == seq![crypto]
        &&& !self.path_manager.active_path().challenge_pending
        &&& self.path_manager.active_path().response is None
        &&& self.local_id_registry.pending@.len() == 0
        &&& self.path_manager.pending.pending@.len() == 0
        &&& self.stream_manager.controller.interest() == Interest::Nothing
        &&& !self.recovery_manager.requested
        &&& !self.ping.requested
    }
}

impl<'a> Normal<'a> {
    /// The frames of the control data, in the order in which they are
    /// written: HANDSHAKE_DONE, the stateless reset tokens, the crypto
    /// stream, the active path's validation, the connection ids, the path
    /// manager's own frames; `packet` is the packet before the first.
    pub open spec fn control_written(self, packet: Packet) -> Seq<Frame> {
        self.handshake_status.written_into(packet) + self.dc_manager.written_into(
            self.after_handshake(packet),
        ) + self.crypto_stream.written_into(self.after_dc(packet))
            + self.path_manager.active_path().written_into(self.after_crypto(packet))
            + self.local_id_registry.written_into(self.after_active_path(packet))
            + self.path_manager.pending.written_into(self.after_local_ids(packet))
    }

    /// The datagrams written at the head of the packet.
    pub open spec fn datagrams_written_first(self, can_transmit: bool, packet: Packet) -> Seq<
        Frame,
    > {
        if self.prioritize_datagrams && can_transmit {
            self.datagram_manager.written_into(packet)
        } else {
            Seq::<Frame>::empty()
        }
    }

    /// The datagrams written behind the control data; `packet` is the
    /// packet after the ACK frame.
    pub open spec fn datagrams_written_later(self, packet: Packet) -> Seq<Frame> {
        if !self.prioritize_datagrams {
            self.datagram_manager.written_into(self.after_control(packet))
        } else {
            Seq::<Frame>::empty()
        }
    }

    /// The ACK frame written, if one is.
    pub open spec fn ack_written(self, can_transmit: bool, packet: Packet) -> Seq<Frame> {
        self.ack_manager.written_into(self.after_priority_datagrams(can_transmit, packet))
    }

    /// The frames written before the control data: datagrams where they
    /// have priority, then the ACK frame.
    pub open spec fn head_written(self, can_transmit: bool, packet: Packet) -> Seq<Frame> {
        self.datagrams_written_first(can_transmit, packet) + self.ack_written(
            can_transmit,
            packet,
        )
    }

    /// The frames written behind the ACK frame where transmission is
    /// allowed: the control data, datagrams where they have no priority,
    /// the stream manager's frames, the recovery manager's PING, the PING
    /// flag; `packet` is the packet after the ACK frame.
    pub open spec fn tail_written(self, packet: Packet) -> Seq<Frame> {
        self.control_written(packet) + self.datagrams_written_later(packet)
            + self.stream_manager.written_into(self.after_datagrams(packet))
            + self.recovery_manager.written_into(self.after_streams(packet))
            + self.ping.written_into(self.after_recovery(packet))
    }

    /// All frames that the payload appends to `packet`, in the order in
    /// which they stand in it.
    pub open spec fn written_into(self, can_transmit: bool, packet: Packet) -> Seq<Frame> {
        if can_transmit {
            self.head_written(can_transmit, packet) + self.tail_written(
                self.after_ack(can_transmit, packet),
            )
        } else {
            self.head_written(can_transmit, packet)
        }
    }
}

/// Runs of frames appended one after the other are appended as one run.
proof fn lemma_runs(
    start: Seq<Frame>,
    a: Seq<Frame>,
    b: Seq<Frame>,
    c: Seq<Frame>,
    d: Seq<Frame>,
    e: Seq<Frame>,
    f: Seq<Frame>,
)
    ensures
        start + a + b + c + d + e + f == start + (a + b + c + d + e + f),
        start + a + b == start + (a + b),
{
    assert(start + a + b + c + d + e + f =~= start + (a + b + c + d + e + f));
    assert(start + a + b =~= start + (a + b));
}

/// The control data keeps the frames that the packet holds and appends its
/// own, in the order of `control_written`.
pub proof fn lemma_control_appends<'a>(payload: Normal<'a>, packet: Packet)
    ensures
        payload.after_control(packet).frames == packet.frames + payload.control_written(packet),
{
    let p1 = payload.after_handshake(packet);
    let p2 = payload.after_dc(packet);
    let p3 = payload.after_crypto(packet);
    let p4 = payload.after_active_path(packet);
    let p5 = payload.after_local_ids(packet);
    let p6 = payload.after_control(packet);
    let a = payload.handshake_status.written_into(packet);
    let b = payload.dc_manager.written_into(p1);
    let c = payload.crypto_stream.written_into(p2);
    let d = payload.path_manager.active_path().written_into(p3);
    let e = payload.local_id_registry.written_into(p4);
    let f = payload.path_manager.pending.written_into(p5);
    lemma_flag_appends(*payload.handshake_status, packet);
    lemma_queue_appends(*payload.dc_manager, p1);
    lemma_queue_appends(*payload.crypto_stream, p2);
    lemma_path_writes_validation_frames_only(payload.path_manager.active_path(), p3);
    lemma_queue_appends(*payload.local_id_registry, p4);
    lemma_queue_appends(payload.path_manager.pending, p5);
    assert(p1.frames == packet.frames + a);
    assert(p2.frames == p1.frames + b);
    assert(p3.frames == p2.frames + c);
    assert(p4.frames == p3.frames + d);
    assert(p5.frames == p4.frames + e);
    assert(p6.frames == p5.frames + f);
    lemma_runs(packet.frames, a, b, c, d, e, f);
}

/// The head of a packet keeps the frames that the packet holds and appends
/// the datagrams, where they have priority, and the ACK frame.
pub proof fn lemma_head_appends<'a>(payload: Normal<'a>, can_transmit: bool, packet: Packet)
    ensures
        payload.after_ack(can_transmit, packet).frames == packet.frames + payload.head_written(
            can_transmit,
            packet,
        ),
{
    let p1 = payload.after_priority_datagrams(can_transmit, packet);
    let acked = payload.after_ack(can_transmit, packet);
    let a = payload.datagrams_written_first(can_transmit, packet);
    let b = payload.ack_written(can_transmit, packet);
    lemma_queue_appends(*payload.datagram_manager, packet);
    lemma_ack_appends(*payload.ack_manager, p1);
    assert(p1.frames == packet.frames + a) by {
        assert(packet.frames + Seq::<Frame>::empty() =~= packet.frames);
    }
    assert(acked.frames == p1.frames + b);
    lemma_runs(packet.frames, a, b, a, a, a, a);
}

/// What follows the ACK frame keeps the frames that the packet holds and
/// appends the frames of `tail_written`, in their order.
pub proof fn lemma_tail_appends<'a>(payload: Normal<'a>, packet: Packet)
    ensures
        payload.after_ping(packet).frames == packet.frames + payload.tail_written(packet),
{
    let p3 = payload.after_control(packet);
    let p4 = payload.after_datagrams(packet);
    let p5 = payload.after_streams(packet);
    let p6 = payload.after_recovery(packet);
    let p7 = payload.after_ping(packet);
    let c = payload.control_written(packet);
    let d = payload.datagrams_written_later(packet);
    let e = payload.stream_manager.written_into(p4);
    let f = payload.recovery_manager.written_into(p5);
    let g = payload.ping.written_into(p6);
    lemma_control_appends(payload, packet);
    lemma_queue_appends(*payload.datagram_manager, p3);
    lemma_stream_manager_appends(*payload.stream_manager, p4);
    lemma_ping_appends(*payload.recovery_manager, p5);
    lemma_ping_appends(*payload.ping, p6);
    assert(p3.frames == packet.frames + c);
    assert(p4.frames == p3.frames + d) by {
        assert(p3.frames + Seq::<Frame>::empty() =~= p3.frames);
    }
    assert(p5.frames == p4.frames + e);
    assert(p6.frames == p5.frames + f);
    assert(p7.frames == p6.frames + g);
    lemma_runs(packet.frames, c, d, e, f, g, Seq::<Frame>::empty());
    assert(c + d + e + f + g + Seq::<Frame>::empty() =~= c + d + e + f + g);
    assert(p7.frames + Seq::<Frame>::empty() =~= p7.frames);
}

/// The frames of a packet stand in the order in which the producers have
/// their turns: datagrams where they have priority, the ACK frame, the
/// control data, datagrams where they have no priority, the stream
/// manager's frames, the recovery manager's PING, the PING flag. The
/// payload keeps the frames that the packet held and appends these, each
/// producer's as far as they are due and fit.
pub proof fn lemma_frames_in_order<'a>(payload: Normal<'a>, can_transmit: bool, packet: Packet)
    ensures
        payload.packet_after(can_transmit, packet).frames == packet.frames + payload.written_into(
            can_transmit,
            packet,
        ),
{
    let acked = payload.after_ack(can_transmit, packet);
    lemma_head_appends(payload, can_transmit, packet);
    if can_transmit {
        lemma_tail_appends(payload, acked);
        let head = payload.head_written(can_transmit, packet);
        let tail = payload.tail_written(acked);
        assert(payload.packet_after(can_transmit, packet) == payload.after_ping(acked));
        lemma_runs(packet.frames, head, tail, head, head, head, head);
    }
}

/// With no datagram waiting the datagrams' turn writes nothing, wherever
/// in the packet it stands, and their queue stays empty: the packet is that
/// of the ACK frame, the control data, the stream manager, the recovery
/// manager and the PING, in this order.
pub proof fn lemma_packet_without_datagrams<'a>(
    payload: Normal<'a>,
    can_transmit: bool,
    packet: Packet,
)
    requires
        payload.no_datagrams(),
    ensures
        payload.packet_after(can_transmit, packet) == payload.packet_without_datagrams(
            can_transmit,
            packet,
        ),
        payload.datagrams_untouched(packet),
        payload.datagrams_written_first(can_transmit, packet) == Seq::<Frame>::empty(),
        payload.datagrams_written_later(payload.after_ack(can_transmit, packet)) == Seq::<
            Frame,
        >::empty(),
{
    let acked = payload.after_ack(can_transmit, packet);
    assert(payload.datagrams_written_first(can_transmit, packet) =~= Seq::<Frame>::empty());
    assert(payload.datagrams_written_later(acked) =~= Seq::<Frame>::empty());
}

/// The head of a packet in which an ACK frame of `ack` bytes, perhaps
/// HANDSHAKE_DONE, and the frame `crypto` are written, in this order.
pub open spec fn packet_head(packet: Packet, ack: usize, handshake_done: bool, crypto: Frame)
    -> Packet {
    let acked = packet.write(Frame::Ack { len: ack });
    if handshake_done {
        acked.write(Frame::HandshakeDone).write(crypto)
    } else {
        acked.write(crypto)
    }
}

/// Where an ACK frame, perhaps HANDSHAKE_DONE, one frame of the crypto
/// stream and stream frames are all that is due, and the first three fit,
/// the packet holds them in this order: the ACK frame, HANDSHAKE_DONE if it
/// was requested, the crypto frame, then the stream frames from the head of
/// their queue, as many as fit. No other frame is written, whether
/// datagrams have priority in the packet or not.
pub proof fn lemma_ack_control_then_streams<'a>(
    payload: Normal<'a>,
    packet: Packet,
    ack: usize,
    crypto: Frame,
)
    requires
        payload.only_ack_control_and_streams(ack, crypto),
        packet.remaining >= ack + 1 + crypto.size(),
    ensures
        ({
            let requested = payload.handshake_done_due();
            let head = packet_head(packet, ack, requested, crypto);
            let streams = payload.stream_frames();
            &&& head.frames == packet.frames + if requested {
                seq![Frame::Ack { len: ack }, Frame::HandshakeDone, crypto]
            } else {
                seq![Frame::Ack { len: ack }, crypto]
            }
            &&& payload.packet_after(true, packet).frames == head.frames + streams.take(
                drained(streams, head) as int,
            )
            &&& drained(streams, head) < streams.len() ==> !payload.packet_after(
                true,
                packet,
            ).fits(streams[drained(streams, head) as int])
        }),
{
    let requested = payload.handshake_done_due();
    let head = packet_head(packet, ack, requested, crypto);
    let streams = payload.stream_frames();
    lemma_packet_without_datagrams(payload, true, packet);
    lemma_drain_takes_head(streams, head);
    let acked = payload.ack_manager.packet_after(packet);
    assert(acked == packet.write(Frame::Ack { len: ack }));
    assert(payload.after_dc(acked) == payload.after_handshake(acked));
    assert(payload.after_crypto(acked) == head) by {
        reveal_with_fuel(drain, 3);
        assert(seq![crypto].skip(1).len() == 0);
        assert(seq![crypto][0] == crypto);
    }
    assert(payload.after_control(acked) == head);
    assert(payload.stream_manager.controller.packet_after(head) == head);
    assert(head.frames =~= packet.frames + if requested {
        seq![Frame::Ack { len: ack }, Frame::HandshakeDone, crypto]
    } else {
        seq![Frame::Ack { len: ack }, crypto]
    });
}

/// Where stream frames are all that is due, the packet takes them from the
/// head of their queue, as many as fit, and nothing else, whether datagrams
/// have priority in the packet or not.
pub proof fn lemma_streams_alone<'a>(payload: Normal<'a>, packet: Packet)
    requires
        payload.only_streams(),
    ensures
        ({
            let streams = payload.stream_frames();
            &&& payload.packet_after(true, packet).frames == packet.frames + streams.take(
                drained(streams, packet) as int,
            )
            &&& drained(streams, packet) < streams.len() ==> !payload.packet_after(
                true,
                packet,
            ).fits(streams[drained(streams, packet) as int])
        }),
{
    lemma_packet_without_datagrams(payload, true, packet);
    lemma_drain_takes_head(payload.stream_frames(), packet);
    let acked = payload.ack_manager.packet_after(packet);
    assert(acked == packet);
    assert(payload.after_control(acked) == packet);
    assert(payload.stream_manager.controller.packet_after(packet) == packet);
}

impl<'a> PathValidationOnly<'a> {
    /// The frames that the payload appends to `packet`: the path's
    /// validation frames where new data may be sent, else none.
    pub open spec fn written_into(self, can_transmit: bool, packet: Packet) -> Seq<Frame> {
        if can_transmit {
            self.path.written_into(packet)
        } else {
            Seq::<Frame>::empty()
        }
    }

    /// A PATH_CHALLENGE is due on the path.
    pub open spec fn challenge_due(self) -> bool {
        self.path.challenge_pending
    }

    /// The room that is left once the answer to the peer's challenge had
    /// its turn.
    pub open spec fn room_behind_answer(self, packet: Packet) -> nat {
        self.path.packet_after_response(packet).remaining
    }

    /// The PATH_CHALLENGE frame with the path's token.
    pub open spec fn challenge(self) -> Frame {
        Frame::PathChallenge { data: self.path.challenge }
    }
}

/// A path-validation payload keeps the frames that the packet holds and
/// appends validation frames of its path only: at most one PATH_RESPONSE,
/// then at most one PATH_CHALLENGE. The PATH_CHALLENGE carries the path's
/// token, and it is written exactly when new data may be sent, a challenge
/// is due and nine bytes of room are left behind the answer.
pub proof fn lemma_path_validation_frames<'a>(
    payload: PathValidationOnly<'a>,
    can_transmit: bool,
    packet: Packet,
)
    ensures
        payload.packet_after(can_transmit, packet).frames == packet.frames + payload.written_into(
            can_transmit,
            packet,
        ),
        forall|i: int|
            0 <= i < payload.written_into(can_transmit, packet).len() ==> {
                let frame = #[trigger] payload.written_into(can_transmit, packet)[i];
                frame is PathResponse || frame == payload.challenge()
            },
        challenges_in(payload.written_into(can_transmit, packet)) == if can_transmit
            && payload.challenge_due() && payload.room_behind_answer(packet) >= 9 {
            1nat
        } else {
            0nat
        },
{
    lemma_path_writes_validation_frames_only(*payload.path, packet);
    lemma_one_challenge_at_most(*payload.path, packet);
    assert(packet.frames + Seq::<Frame>::empty() =~= packet.frames);
}

/// In how many of `n` packets in a row datagrams have priority, where
/// `first` says whether they have it in the first.
pub open spec fn prioritized_packets(first: bool, n: nat) -> nat
    decreases n,
{
    if n == 0 {
        0
    } else {
        prioritized_packets(!first, (n - 1) as nat) + if first {
            1nat
        } else {
            0nat
        }
    }
}

/// Priority changes sides with every packet, so over `n` packets in a row
/// datagrams have it in half of them: rounded up where they have it in the
/// first packet, rounded down where they do not.
pub proof fn lemma_datagrams_prioritized_in_half(first: bool, n: nat)
    ensures
        prioritized_packets(first, n) == if first {
            (n + 1) / 2
        } else {
            n / 2
        },
    decreases n,
{
    if n > 0 {
        lemma_datagrams_prioritized_in_half(!first, (n - 1) as nat);
    }
}

} // verus!
