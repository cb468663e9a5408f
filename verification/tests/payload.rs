use quic_transport::application::Payload;
use quic_transport::context::{Constraint, Mode, WriteContext};
use quic_transport::controller::{Controller, Limits};
use quic_transport::frame::Frame;
use quic_transport::interest::Interest;
use quic_transport::manager::StreamManager;
use quic_transport::path::{MtuController, Path, PathManager};
use quic_transport::producer::{AckManager, Flag, FrameQueue, Ping};
use quic_transport::stream::{Direction, Endpoint, StreamType};

struct Connection {
    path_manager: PathManager,
    local_id_registry: FrameQueue,
    ack_manager: AckManager,
    handshake_status: Flag,
    ping: Ping,
    stream_manager: StreamManager,
    recovery_manager: Ping,
    crypto_stream: FrameQueue,
    datagram_manager: FrameQueue,
    dc_manager: FrameQueue,
}

fn connection() -> Connection {
    let limits = Limits {
        max_local_bidi: 10,
        max_local_uni: 10,
        peer_bidi: 10,
        peer_uni: 10,
        max_remote_bidi: 10,
        max_remote_uni: 10,
        streams_blocked_retransmit_period: 100_000,
    };
    let mut active = Path::new([7; 8]);
    active.challenge_pending = false;
    Connection {
        path_manager: PathManager::new(active),
        local_id_registry: FrameQueue::new(),
        ack_manager: AckManager::new(),
        handshake_status: Flag::new(Frame::HandshakeDone),
        ping: Ping::new(),
        stream_manager: StreamManager::new(Controller::new(Endpoint::Server, limits).unwrap()),
        recovery_manager: Ping::new(),
        crypto_stream: FrameQueue::new(),
        datagram_manager: FrameQueue::new(),
        dc_manager: FrameQueue::new(),
    }
}

fn payload(c: &mut Connection, path_id: usize, mode: Mode) -> Payload<'_> {
    Payload::new(
        path_id,
        &mut c.path_manager,
        &mut c.local_id_registry,
        mode,
        &mut c.ack_manager,
        &mut c.handshake_status,
        &mut c.ping,
        &mut c.stream_manager,
        &mut c.recovery_manager,
        &mut c.crypto_stream,
        &mut c.datagram_manager,
        &mut c.dc_manager,
    )
}

fn packet(capacity: usize, constraint: Constraint, mode: Mode, number: u64) -> WriteContext {
    WriteContext::new(capacity, constraint, mode, number)
}

#[test]
fn normal_packet_orders_ack_control_and_stream_data() {
    let mut c = connection();
    c.ack_manager.request(20);
    c.handshake_status.request();
    c.crypto_stream.push(Frame::Crypto { len: 100 });
    c.stream_manager.data.push(Frame::Stream { len: 1079 });
    c.stream_manager.data.push(Frame::Stream { len: 500 });
    let mut p = payload(&mut c, 0, Mode::Normal);
    assert_eq!(p.transmission_interest(Constraint::Unconstrained), Interest::NewData);

    let mut first = packet(1200, Constraint::Unconstrained, Mode::Normal, 1);
    p.on_transmit(&mut first);
    assert_eq!(
        first.frames,
        vec![
            Frame::Ack { len: 20 },
            Frame::HandshakeDone,
            Frame::Crypto { len: 100 },
            Frame::Stream { len: 1079 },
        ]
    );
    assert_eq!(first.remaining_capacity(), 0);
    assert!(first.ack_elicitation());

    let mut second = packet(1200, Constraint::Unconstrained, Mode::Normal, 2);
    p.on_transmit(&mut second);
    assert_eq!(second.frames, vec![Frame::Stream { len: 500 }]);
    assert_eq!(second.remaining_capacity(), 700);
    assert_eq!(p.transmission_interest(Constraint::Unconstrained), Interest::Nothing);
    drop(p);
    assert_eq!(c.ack_manager.pending, None);
    assert_eq!(c.ack_manager.last_sent_in, Some(1));
    assert!(!c.handshake_status.requested);
    assert_eq!(c.stream_manager.data.len(), 0);
}

#[test]
fn control_data_keeps_its_order() {
    let mut c = connection();
    c.path_manager.paths[0].challenge_pending = true;
    c.path_manager.paths[0].on_path_challenge([3; 8]);
    c.path_manager.pending.push(Frame::NewConnectionId { len: 30 });
    c.local_id_registry.push(Frame::NewConnectionId { len: 25 });
    c.dc_manager.push(Frame::DcStatelessResetTokens { len: 17 });
    c.crypto_stream.push(Frame::Crypto { len: 40 });
    c.handshake_status.request();
    c.datagram_manager.push(Frame::Datagram { len: 50 });
    c.stream_manager.controller.on_open_stream(Direction::Bidirectional).unwrap();
    c.stream_manager.controller.on_close_stream(StreamType::BidiRemote);
    c.stream_manager.data.push(Frame::Stream { len: 60 });
    let mut p = payload(&mut c, 0, Mode::LossRecoveryProbing);
    let mut ctx = packet(1200, Constraint::RetransmissionOnly, Mode::LossRecoveryProbing, 1);
    p.on_transmit(&mut ctx);
    assert_eq!(
        ctx.frames,
        vec![
            Frame::HandshakeDone,
            Frame::DcStatelessResetTokens { len: 17 },
            Frame::Crypto { len: 40 },
            Frame::PathResponse { data: [3; 8] },
            Frame::PathChallenge { data: [7; 8] },
            Frame::NewConnectionId { len: 25 },
            Frame::NewConnectionId { len: 30 },
            Frame::Datagram { len: 50 },
            Frame::MaxStreams { bidirectional: true, limit: 11 },
            Frame::Stream { len: 60 },
        ]
    );
}

#[test]
fn datagrams_have_priority_in_every_other_packet() {
    let mut c = connection();
    for _ in 0..4 {
        c.datagram_manager.push(Frame::Datagram { len: 10 });
    }
    for _ in 0..20 {
        c.crypto_stream.push(Frame::Crypto { len: 5 });
    }
    let mut p = payload(&mut c, 0, Mode::Normal);
    let mut prioritized = 0;
    for number in 0..4u64 {
        let first_is_datagram = match &p {
            Payload::Normal(inner) => inner.prioritize_datagrams,
            _ => unreachable!(),
        };
        assert_eq!(first_is_datagram, number % 2 == 1);
        let mut ctx = packet(15, Constraint::Unconstrained, Mode::Normal, number);
        p.on_transmit(&mut ctx);
        let expected = if first_is_datagram {
            prioritized += 1;
            vec![Frame::Datagram { len: 10 }, Frame::Crypto { len: 5 }]
        } else {
            vec![Frame::Crypto { len: 5 }, Frame::Crypto { len: 5 }, Frame::Crypto { len: 5 }]
        };
        assert_eq!(ctx.frames, expected);
    }
    assert_eq!(prioritized, 2);
}

#[test]
fn large_datagram_gets_the_whole_packet_when_it_has_priority() {
    let mut c = connection();
    c.datagram_manager.push(Frame::Datagram { len: 1195 });
    c.crypto_stream.push(Frame::Crypto { len: 600 });
    c.crypto_stream.push(Frame::Crypto { len: 500 });
    let mut p = payload(&mut c, 0, Mode::Normal);
    let mut first = packet(1200, Constraint::Unconstrained, Mode::Normal, 1);
    p.on_transmit(&mut first);
    assert_eq!(first.frames, vec![Frame::Crypto { len: 600 }, Frame::Crypto { len: 500 }]);
    let mut second = packet(1200, Constraint::Unconstrained, Mode::Normal, 2);
    p.on_transmit(&mut second);
    assert_eq!(second.frames, vec![Frame::Datagram { len: 1195 }]);
}

#[test]
fn bytes_written_never_pass_the_room_of_the_packet() {
    for capacity in [0usize, 1, 5, 19, 20, 21, 30, 119, 120, 121, 130, 1200] {
        let mut c = connection();
        c.ack_manager.request(20);
        c.handshake_status.request();
        c.ping.request();
        c.crypto_stream.push(Frame::Crypto { len: 100 });
        c.datagram_manager.push(Frame::Datagram { len: 7 });
        c.stream_manager.data.push(Frame::Stream { len: 9 });
        let mut p = payload(&mut c, 0, Mode::Normal);
        let mut ctx = packet(capacity, Constraint::Unconstrained, Mode::Normal, 1);
        p.on_transmit(&mut ctx);
        let written: usize = ctx.frames.iter().map(|f| f.encoding_size()).sum();
        assert!(written <= capacity);
        assert_eq!(written + ctx.remaining_capacity(), capacity);
    }
}

#[test]
fn ping_is_written_only_into_a_packet_that_elicits_no_ack() {
    // demanded, nothing else to send: a PING
    let mut c = connection();
    c.ping.request();
    c.ack_manager.request(20);
    let mut p = payload(&mut c, 0, Mode::Normal);
    assert_eq!(p.transmission_interest(Constraint::Unconstrained), Interest::Forced);
    let mut ctx = packet(1200, Constraint::Unconstrained, Mode::Normal, 1);
    p.on_transmit(&mut ctx);
    assert_eq!(ctx.frames, vec![Frame::Ack { len: 20 }, Frame::Ping]);
    drop(p);
    assert!(!c.ping.requested);

    // demanded, but stream data elicits the ACK: no PING
    let mut c = connection();
    c.ping.request();
    c.stream_manager.data.push(Frame::Stream { len: 10 });
    let mut p = payload(&mut c, 0, Mode::Normal);
    let mut ctx = packet(1200, Constraint::Unconstrained, Mode::Normal, 1);
    p.on_transmit(&mut ctx);
    assert_eq!(ctx.frames, vec![Frame::Stream { len: 10 }]);
    drop(p);
    assert!(!c.ping.requested);

    // not demanded: no PING
    let mut c = connection();
    c.ack_manager.request(20);
    let mut p = payload(&mut c, 0, Mode::Normal);
    let mut ctx = packet(1200, Constraint::Unconstrained, Mode::Normal, 1);
    p.on_transmit(&mut ctx);
    assert_eq!(ctx.frames, vec![Frame::Ack { len: 20 }]);
    assert!(!ctx.ack_elicitation());

    // the recovery manager's probe and the PING flag write one PING together
    let mut c = connection();
    c.ping.request();
    c.recovery_manager.request();
    let mut p = payload(&mut c, 0, Mode::LossRecoveryProbing);
    let mut ctx = packet(1200, Constraint::Unconstrained, Mode::LossRecoveryProbing, 1);
    p.on_transmit(&mut ctx);
    assert_eq!(ctx.frames, vec![Frame::Ping]);

    // demanded, but no room: the demand stays
    let mut c = connection();
    c.ping.request();
    let mut p = payload(&mut c, 0, Mode::Normal);
    let mut ctx = packet(0, Constraint::Unconstrained, Mode::Normal, 1);
    p.on_transmit(&mut ctx);
    assert!(ctx.frames.is_empty());
    drop(p);
    assert!(c.ping.requested);
}

#[test]
fn only_acks_are_written_where_transmission_is_not_allowed() {
    for constraint in [Constraint::CongestionLimited, Constraint::AmplificationLimited] {
        let mut c = connection();
        c.ack_manager.request(20);
        c.ping.request();
        c.handshake_status.request();
        c.stream_manager.data.push(Frame::Stream { len: 10 });
        let mut p = payload(&mut c, 0, Mode::Normal);
        let mut ctx = packet(1200, constraint, Mode::Normal, 5);
        p.on_transmit(&mut ctx);
        assert_eq!(ctx.frames, vec![Frame::Ack { len: 20 }]);
        drop(p);
        assert!(c.ping.requested);
        assert!(c.handshake_status.requested);
        assert_eq!(c.ack_manager.last_sent_in, Some(5));
    }
    assert!(Constraint::CongestionLimited.is_congestion_limited());
    assert!(!Constraint::Unconstrained.is_congestion_limited());
    assert!(Constraint::RetransmissionOnly.can_retransmit());
    assert!(!Constraint::RetransmissionOnly.can_transmit());
}

#[test]
fn mtu_probe_is_held_back_while_congestion_limited() {
    let mut c = connection();
    let mut p = payload(&mut c, 0, Mode::MtuProbing);
    assert!(matches!(p, Payload::MtuProbe(_)));
    assert_eq!(p.transmission_interest(Constraint::CongestionLimited), Interest::Nothing);
    let mut ctx = packet(1500, Constraint::CongestionLimited, Mode::MtuProbing, 1);
    p.on_transmit(&mut ctx);
    assert!(ctx.frames.is_empty());
    drop(p);

    // with a probe due the answer is the same while the path is limited
    c.path_manager.paths[0].mtu_controller.request_probe(1400);
    let mut p = payload(&mut c, 0, Mode::MtuProbing);
    for constraint in [
        Constraint::CongestionLimited,
        Constraint::AmplificationLimited,
        Constraint::RetransmissionOnly,
    ] {
        assert_eq!(p.transmission_interest(constraint), Interest::Nothing);
        let mut ctx = packet(1500, constraint, Mode::MtuProbing, 2);
        p.on_transmit(&mut ctx);
        assert!(ctx.frames.is_empty());
    }
    assert_eq!(p.transmission_interest(Constraint::Unconstrained), Interest::NewData);
    drop(p);
    assert_eq!(c.path_manager.paths[0].mtu_controller.probe, Some(1400));
}

#[test]
fn path_validation_reports_its_interest_under_every_constraint() {
    let mut c = connection();
    let id = c.path_manager.add_path(Path::new([9; 8]));
    let mut p = payload(&mut c, id, Mode::PathValidationOnly);
    for constraint in [
        Constraint::CongestionLimited,
        Constraint::AmplificationLimited,
        Constraint::RetransmissionOnly,
        Constraint::Unconstrained,
    ] {
        assert_eq!(p.transmission_interest(constraint), Interest::NewData);
    }
    // no frame is written while new data may not be sent
    let mut ctx = packet(1200, Constraint::CongestionLimited, Mode::PathValidationOnly, 1);
    p.on_transmit(&mut ctx);
    assert!(ctx.frames.is_empty());
    assert_eq!(p.transmission_interest(Constraint::CongestionLimited), Interest::NewData);
    let mut ctx = packet(1200, Constraint::Unconstrained, Mode::PathValidationOnly, 2);
    p.on_transmit(&mut ctx);
    assert_eq!(ctx.frames, vec![Frame::PathChallenge { data: [9; 8] }]);
    // nothing is due any more
    assert_eq!(p.transmission_interest(Constraint::CongestionLimited), Interest::Nothing);
    assert_eq!(p.transmission_interest(Constraint::Unconstrained), Interest::Nothing);
}

#[test]
fn path_validation_answers_before_it_challenges() {
    let mut c = connection();
    let id = c.path_manager.add_path(Path::new([9; 8]));
    c.path_manager.paths[id].on_path_challenge([4; 8]);
    let mut p = payload(&mut c, id, Mode::PathValidationOnly);
    // room for one of the two frames only: the answer goes first
    let mut small = packet(17, Constraint::Unconstrained, Mode::PathValidationOnly, 1);
    p.on_transmit(&mut small);
    assert_eq!(small.frames, vec![Frame::PathResponse { data: [4; 8] }]);
    let mut next = packet(1200, Constraint::Unconstrained, Mode::PathValidationOnly, 2);
    p.on_transmit(&mut next);
    assert_eq!(next.frames, vec![Frame::PathChallenge { data: [9; 8] }]);
    drop(p);
    assert!(c.path_manager.is_well_formed());
    assert!(c.stream_manager.is_well_formed());
}

#[test]
fn probing_payloads_do_not_ask_for_a_sound_stream_manager() {
    let mut c = connection();
    c.stream_manager.controller.bidi_local.opened_streams = 99;
    assert!(!c.stream_manager.is_well_formed());
    c.path_manager.paths[0].mtu_controller.request_probe(100);
    let mut p = payload(&mut c, 0, Mode::MtuProbing);
    let mut ctx = packet(1200, Constraint::Unconstrained, Mode::MtuProbing, 1);
    p.on_transmit(&mut ctx);
    assert_eq!(ctx.frames, vec![Frame::Ping, Frame::Padding { len: 99 }]);
}

#[test]
fn mtu_probe_pads_the_packet_to_the_probe_size() {
    let mut c = connection();
    c.path_manager.paths[0].mtu_controller.request_probe(1400);
    c.stream_manager.data.push(Frame::Stream { len: 10 });
    let mut p = payload(&mut c, 0, Mode::MtuProbing);
    let mut ctx = packet(1500, Constraint::Unconstrained, Mode::MtuProbing, 1);
    p.on_transmit(&mut ctx);
    assert_eq!(ctx.frames, vec![Frame::Ping, Frame::Padding { len: 1399 }]);
    assert_eq!(ctx.remaining_capacity(), 100);
    drop(p);
    assert_eq!(c.path_manager.paths[0].mtu_controller.probe, None);

    let mut alone = MtuController::new();
    alone.request_probe(1400);
    let mut small = packet(1399, Constraint::Unconstrained, Mode::MtuProbing, 2);
    alone.on_transmit(&mut small);
    assert!(small.frames.is_empty());
    assert_eq!(alone.probe, Some(1400));
    alone.request_probe(0);
    alone.on_transmit(&mut small);
    assert!(small.frames.is_empty());
}

#[test]
fn path_validation_writes_one_challenge_and_nothing_else() {
    let mut c = connection();
    let id = c.path_manager.add_path(Path::new([1, 2, 3, 4, 5, 6, 7, 8]));
    assert_eq!(id, 1);
    assert_eq!(c.path_manager.active_path_id(), 0);
    c.ack_manager.request(20);
    c.stream_manager.data.push(Frame::Stream { len: 10 });
    let mut p = payload(&mut c, id, Mode::PathValidationOnly);
    assert!(matches!(p, Payload::PathValidationOnly(_)));
    assert_eq!(p.transmission_interest(Constraint::Unconstrained), Interest::NewData);
    let mut ctx = packet(1200, Constraint::Unconstrained, Mode::PathValidationOnly, 1);
    p.on_transmit(&mut ctx);
    assert_eq!(ctx.frames, vec![Frame::PathChallenge { data: [1, 2, 3, 4, 5, 6, 7, 8] }]);
    let mut again = packet(1200, Constraint::Unconstrained, Mode::PathValidationOnly, 2);
    p.on_transmit(&mut again);
    assert!(again.frames.is_empty());
    drop(p);
    assert!(!c.path_manager.paths[1].challenge_pending);
    assert_eq!(c.ack_manager.pending, Some(20));
}

#[test]
fn size_hint_leaves_room_for_one_byte() {
    let mut c = connection();
    let p = payload(&mut c, 0, Mode::Normal);
    assert_eq!(p.size_hint(0, 1200), 1);
    assert_eq!(p.size_hint(1, 1200), 1);
    assert_eq!(p.size_hint(37, 1200), 37);
}

#[test]
fn queue_stops_at_the_first_frame_without_room() {
    let mut q = FrameQueue::new();
    q.push(Frame::Datagram { len: 4 });
    q.push(Frame::Datagram { len: 10 });
    q.push(Frame::Datagram { len: 1 });
    let mut ctx = packet(8, Constraint::Unconstrained, Mode::Normal, 1);
    q.on_transmit(&mut ctx);
    assert_eq!(ctx.frames, vec![Frame::Datagram { len: 4 }]);
    assert_eq!(q.pending, vec![Frame::Datagram { len: 10 }, Frame::Datagram { len: 1 }]);
    assert_eq!(q.transmission_interest(), Interest::NewData);
    assert_eq!(ctx.write_frame(Frame::Stream { len: 5 }), None);
    assert_eq!(ctx.write_frame(Frame::Stream { len: 4 }), Some(1));
    assert_eq!(ctx.remaining_capacity(), 0);
    assert_eq!(ctx.transmission_mode(), Mode::Normal);
    assert_eq!(ctx.transmission_constraint(), Constraint::Unconstrained);
}
