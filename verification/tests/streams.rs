use quic_transport::context::{Constraint, Mode, WriteContext};
use quic_transport::controller::{Controller, Limits};
use quic_transport::frame::{Frame, MAX_STREAM_LIMIT};
use quic_transport::interest::Interest;
use quic_transport::local_controller::{LocalInitiatedStreamController, OpenPoll, TransportError};
use quic_transport::remote_controller::{limit_to_advertise, RemoteInitiatedStreamController};
use quic_transport::stream::{nth_id, Direction, Endpoint, StreamType};
use quic_transport::sync::{BlockedState, IncrementalValueSync, PacketRange, PeriodicSync};
use quic_transport::sync::DEFAULT_RETRANSMIT_PERIOD;
use quic_transport::varint::{saturating_add, MAX_VARINT_VALUE};

fn packet(capacity: usize, packet_number: u64) -> WriteContext {
    WriteContext::new(capacity, Constraint::Unconstrained, Mode::Normal, packet_number)
}

fn limits() -> Limits {
    Limits {
        max_local_bidi: 100,
        max_local_uni: 100,
        peer_bidi: 3,
        peer_uni: 1,
        max_remote_bidi: 10,
        max_remote_uni: 10,
        streams_blocked_retransmit_period: DEFAULT_RETRANSMIT_PERIOD,
    }
}

#[test]
fn fourth_open_blocks_until_the_peer_raises_its_limit() {
    let mut c = Controller::new(Endpoint::Client, limits()).unwrap();
    let token = c.open_token(Direction::Bidirectional);
    assert_eq!(token, 1);
    assert_eq!(c.poll_open_stream(Direction::Bidirectional, token), OpenPoll::Ready(0));
    assert_eq!(c.poll_open_stream(Direction::Bidirectional, token), OpenPoll::Ready(4));
    assert_eq!(c.poll_open_stream(Direction::Bidirectional, token), OpenPoll::Ready(8));
    assert_eq!(c.transmission_interest(), Interest::Nothing);
    assert_eq!(c.poll_open_stream(Direction::Bidirectional, token), OpenPoll::Pending);
    assert_eq!(c.bidi_local.waiter_count(), 1);
    assert_eq!(c.bidi_local.streams_blocked_sync.state, BlockedState::Requested { value: 3 });
    assert_eq!(c.transmission_interest(), Interest::NewData);

    let mut first = packet(1200, 7);
    c.on_transmit(&mut first);
    assert_eq!(first.frames, vec![Frame::StreamsBlocked { bidirectional: true, limit: 3 }]);
    assert_eq!(
        c.bidi_local.streams_blocked_sync.state,
        BlockedState::InFlight { packet_number: 7, value: 3 }
    );

    let mut second = packet(1200, 8);
    c.on_transmit(&mut second);
    assert!(second.frames.is_empty());

    let woken = c.on_max_streams_frame(Direction::Bidirectional, 5).unwrap();
    assert_eq!(woken, vec![token]);
    assert_eq!(c.bidi_local.peer_stream_limit, 5);
    assert_eq!(c.bidi_local.streams_blocked_sync.state, BlockedState::Idle);
    assert_eq!(c.bidi_local.waiter_count(), 0);
    assert_eq!(c.poll_open_stream(Direction::Bidirectional, token), OpenPoll::Ready(12));

    let mut third = packet(1200, 9);
    c.on_transmit(&mut third);
    assert!(third.frames.is_empty());
}

#[test]
fn closing_remote_streams_advertises_each_new_limit() {
    let mut c = Controller::new(Endpoint::Server, limits()).unwrap();
    for _ in 0..10 {
        assert_eq!(c.on_open_stream(Direction::Unidirectional), Ok(()));
    }
    assert_eq!(
        c.on_open_stream(Direction::Unidirectional),
        Err(TransportError::ProtocolViolation)
    );
    for closed in 1..=10u64 {
        let woken = c.on_close_stream(StreamType::UniRemote);
        assert!(woken.is_empty());
        let mut ctx = packet(1200, closed);
        c.on_transmit(&mut ctx);
        assert_eq!(
            ctx.frames,
            vec![Frame::MaxStreams { bidirectional: false, limit: 10 + closed }]
        );
    }
    assert_eq!(c.uni_remote.closed_streams, 10);
    assert_eq!(c.uni_remote.max_streams_sync.latest_value, 20);
    assert_eq!(c.uni_remote.max_streams_sync.in_flight.len(), 10);
    // nothing closes any more: the count stays
    c.on_close_stream(StreamType::UniRemote);
    assert_eq!(c.uni_remote.closed_streams, 10);
}

#[test]
fn lost_max_streams_is_sent_again_with_the_current_value() {
    let mut remote = RemoteInitiatedStreamController::new(Direction::Unidirectional, 10).unwrap();
    remote.on_open_stream().unwrap();
    remote.on_open_stream().unwrap();
    remote.on_close_stream();
    let mut first = packet(1200, 1);
    remote.on_transmit(&mut first);
    assert_eq!(first.frames, vec![Frame::MaxStreams { bidirectional: false, limit: 11 }]);
    assert_eq!(remote.transmission_interest(), Interest::Nothing);

    remote.on_close_stream();
    assert_eq!(remote.transmission_interest(), Interest::NewData);
    remote.on_packet_loss(&PacketRange { smallest: 1, largest: 1 });
    assert!(remote.max_streams_sync.in_flight.is_empty());

    let mut second = packet(1200, 2);
    remote.on_transmit(&mut second);
    assert_eq!(second.frames, vec![Frame::MaxStreams { bidirectional: false, limit: 12 }]);

    let mut third = packet(1200, 3);
    remote.on_transmit(&mut third);
    assert!(third.frames.is_empty());
}

#[test]
fn acknowledged_limit_rises_and_drops_what_it_covers() {
    let mut sync = IncrementalValueSync::new(10);
    assert!(!sync.is_dirty());
    sync.update_latest_value(11);
    let mut a = packet(100, 1);
    sync.on_transmit(true, &mut a);
    sync.update_latest_value(12);
    let mut b = packet(100, 2);
    sync.on_transmit(true, &mut b);
    sync.update_latest_value(13);
    let mut c = packet(100, 3);
    sync.on_transmit(true, &mut c);
    assert_eq!(sync.in_flight, vec![(1, 11), (2, 12), (3, 13)]);

    sync.on_packet_ack(&PacketRange { smallest: 2, largest: 2 });
    assert_eq!(sync.last_acked_value, 12);
    assert_eq!(sync.in_flight, vec![(3, 13)]);

    // a smaller value does not lower what is acknowledged
    sync.update_latest_value(5);
    assert_eq!(sync.latest_value, 13);
    sync.on_packet_ack(&PacketRange { smallest: 9, largest: 9 });
    assert_eq!(sync.last_acked_value, 12);
    sync.on_packet_ack(&PacketRange { smallest: 0, largest: 3 });
    assert_eq!(sync.last_acked_value, 13);
    assert!(sync.in_flight.is_empty());
    assert!(!sync.is_dirty());
}

#[test]
fn frame_without_room_is_not_in_flight() {
    let mut sync = IncrementalValueSync::new(10);
    sync.update_latest_value(11);
    let mut small = packet(1, 1);
    sync.on_transmit(false, &mut small);
    assert!(small.frames.is_empty());
    assert!(sync.in_flight.is_empty());
    assert!(sync.is_dirty());
}

#[test]
fn close_cancels_the_waiting_open_once() {
    let mut local = LocalInitiatedStreamController::new(
        Endpoint::Client,
        Direction::Bidirectional,
        10,
        0,
        100_000,
    )
    .unwrap();
    let token = local.open_token();
    assert_eq!(local.poll_open_stream(token), OpenPoll::Pending);
    let woken = local.on_close();
    assert_eq!(woken, vec![token]);
    assert_eq!(local.expired_token, token);
    assert_eq!(local.poll_open_stream(token), OpenPoll::Cancelled);
    assert_eq!(local.poll_open_stream(token), OpenPoll::Cancelled);
    assert!(local.on_close().is_empty());
    // a token issued after the close is alive
    let later = local.open_token();
    assert_eq!(later, token + 1);
    assert_eq!(local.poll_open_stream(later), OpenPoll::Pending);
}

#[test]
fn waiters_come_back_in_the_order_they_registered() {
    let mut local = LocalInitiatedStreamController::new(
        Endpoint::Server,
        Direction::Unidirectional,
        10,
        0,
        100_000,
    )
    .unwrap();
    for token in [5u64, 3, 9, 1, 7, 2, 8] {
        assert_eq!(local.poll_open_stream(token), OpenPoll::Pending);
    }
    assert_eq!(local.waiter_count(), 7);
    let woken = local.on_max_streams_frame(1).unwrap();
    assert_eq!(woken, vec![5, 3, 9, 1, 7, 2, 8]);
    assert_eq!(local.waiter_count(), 0);
    assert_eq!(local.poll_open_stream(5), OpenPoll::Ready(3));
}

#[test]
fn local_ceiling_refuses_without_announcing() {
    let mut local = LocalInitiatedStreamController::new(
        Endpoint::Client,
        Direction::Unidirectional,
        1,
        5,
        100_000,
    )
    .unwrap();
    assert_eq!(local.poll_open_stream(1), OpenPoll::Ready(2));
    assert_eq!(local.poll_open_stream(1), OpenPoll::Pending);
    assert_eq!(local.streams_blocked_sync.state, BlockedState::Idle);
    assert_eq!(local.transmission_interest(), Interest::Nothing);
    // closing wakes the waiter
    assert_eq!(local.on_close_stream(), vec![1]);
    assert_eq!(local.closed_streams, 1);
    assert!(local.on_close_stream().is_empty());
    assert_eq!(local.closed_streams, 1);
}

#[test]
fn stream_limit_above_two_to_the_sixty_is_an_error() {
    let mut c = Controller::new(Endpoint::Client, limits()).unwrap();
    assert_eq!(
        c.on_max_streams_frame(Direction::Bidirectional, MAX_STREAM_LIMIT + 1),
        Err(TransportError::StreamLimit)
    );
    assert_eq!(c.bidi_local.peer_stream_limit, 3);
    assert_eq!(c.on_max_streams_frame(Direction::Bidirectional, MAX_STREAM_LIMIT), Ok(vec![]));
    assert_eq!(c.bidi_local.peer_stream_limit, MAX_STREAM_LIMIT);
    // a limit that is not greater changes nothing
    assert_eq!(c.on_max_streams_frame(Direction::Bidirectional, 2), Ok(vec![]));
    assert_eq!(c.bidi_local.peer_stream_limit, MAX_STREAM_LIMIT);

    let mut bad = limits();
    bad.peer_uni = MAX_STREAM_LIMIT + 1;
    assert!(matches!(
        Controller::new(Endpoint::Client, bad),
        Err(TransportError::StreamLimit)
    ));
    assert!(matches!(
        RemoteInitiatedStreamController::new(Direction::Bidirectional, MAX_STREAM_LIMIT + 1),
        Err(TransportError::StreamLimit)
    ));
}

#[test]
fn older_refusal_is_announced_first() {
    let mut c = Controller::new(Endpoint::Client, limits()).unwrap();
    // the unidirectional counter blocks first
    assert_eq!(c.poll_open_stream(Direction::Unidirectional, 1), OpenPoll::Ready(2));
    assert_eq!(c.poll_open_stream(Direction::Unidirectional, 1), OpenPoll::Pending);
    for _ in 0..3 {
        assert!(matches!(
            c.poll_open_stream(Direction::Bidirectional, 1),
            OpenPoll::Ready(_)
        ));
    }
    assert_eq!(c.poll_open_stream(Direction::Bidirectional, 1), OpenPoll::Pending);
    assert_eq!(c.poll_open_stream(Direction::Bidirectional, 1), OpenPoll::Pending);
    assert_eq!(c.refusals, 2);
    // room for one frame only
    let mut ctx = packet(2, 1);
    c.on_transmit(&mut ctx);
    assert_eq!(ctx.frames, vec![Frame::StreamsBlocked { bidirectional: false, limit: 1 }]);
    let mut next = packet(100, 2);
    c.on_transmit(&mut next);
    assert_eq!(next.frames, vec![Frame::StreamsBlocked { bidirectional: true, limit: 3 }]);
}

#[test]
fn bidirectional_credit_is_advertised_first() {
    let mut c = Controller::new(Endpoint::Client, limits()).unwrap();
    c.on_open_stream(Direction::Unidirectional).unwrap();
    c.on_open_stream(Direction::Bidirectional).unwrap();
    c.on_close_stream(StreamType::UniRemote);
    c.on_close_stream(StreamType::BidiRemote);
    let mut ctx = packet(2, 1);
    c.on_transmit(&mut ctx);
    assert_eq!(ctx.frames, vec![Frame::MaxStreams { bidirectional: true, limit: 11 }]);
    assert_eq!(ctx.remaining_capacity(), 0);
    let mut next = packet(100, 2);
    c.on_transmit(&mut next);
    assert_eq!(next.frames, vec![Frame::MaxStreams { bidirectional: false, limit: 11 }]);
}

#[test]
fn announcement_follows_ack_and_loss() {
    let mut sync = PeriodicSync::new(100_000);
    assert!(!sync.is_active());
    sync.request(3);
    assert!(sync.is_requested());
    let mut ctx = packet(100, 4);
    sync.on_transmit(true, &mut ctx);
    assert_eq!(sync.state, BlockedState::InFlight { packet_number: 4, value: 3 });
    sync.request(3);
    assert_eq!(sync.state, BlockedState::InFlight { packet_number: 4, value: 3 });
    sync.on_packet_loss(&PacketRange { smallest: 5, largest: 9 });
    assert_eq!(sync.state, BlockedState::InFlight { packet_number: 4, value: 3 });
    sync.on_packet_loss(&PacketRange { smallest: 4, largest: 4 });
    assert_eq!(sync.state, BlockedState::Requested { value: 3 });
    let mut again = packet(100, 6);
    sync.on_transmit(true, &mut again);
    sync.on_packet_ack(&PacketRange { smallest: 0, largest: 6 });
    assert_eq!(sync.state, BlockedState::Acked { value: 3 });
    sync.request(3);
    assert_eq!(sync.state, BlockedState::Acked { value: 3 });
    sync.request(4);
    assert_eq!(sync.state, BlockedState::Requested { value: 4 });
    sync.stop();
    assert_eq!(sync.state, BlockedState::Idle);
}

#[test]
fn counters_stay_in_bounds_over_a_run_of_events() {
    let mut c = Controller::new(Endpoint::Client, limits()).unwrap();
    let mut last_limit = c.bidi_local.peer_stream_limit;
    let mut last_acked = c.bidi_remote.max_streams_sync.last_acked_value;
    for step in 0..40u64 {
        match step % 5 {
            0 => {
                let _ = c.poll_open_stream(Direction::Bidirectional, 1);
            }
            1 => {
                let _ = c.on_close_stream(StreamType::BidiLocal);
            }
            2 => {
                let _ = c.on_max_streams_frame(Direction::Bidirectional, step / 3);
            }
            3 => {
                let _ = c.on_open_stream(Direction::Bidirectional);
                let _ = c.on_close_stream(StreamType::BidiRemote);
                let mut ctx = packet(50, step);
                c.on_transmit(&mut ctx);
            }
            _ => c.on_packet_ack(&PacketRange { smallest: 0, largest: step }),
        }
        assert!(c.bidi_local.opened_streams <= c.bidi_local.peer_stream_limit);
        assert!(c.bidi_local.closed_streams <= c.bidi_local.opened_streams);
        assert!(c.bidi_remote.closed_streams <= c.bidi_remote.opened_streams);
        assert!(
            c.bidi_remote.max_streams_sync.latest_value
                >= c.bidi_remote.max_streams_sync.last_acked_value
        );
        assert!(c.bidi_local.peer_stream_limit >= last_limit);
        assert!(c.bidi_remote.max_streams_sync.last_acked_value >= last_acked);
        last_limit = c.bidi_local.peer_stream_limit;
        last_acked = c.bidi_remote.max_streams_sync.last_acked_value;
    }
    assert_eq!(c.bidi_remote.max_streams_sync.last_acked_value, 18);
}

#[test]
fn stream_ids_carry_the_tag_of_their_kind() {
    assert_eq!(nth_id(Endpoint::Client, Direction::Bidirectional, 0), Some(0));
    assert_eq!(nth_id(Endpoint::Server, Direction::Bidirectional, 0), Some(1));
    assert_eq!(nth_id(Endpoint::Client, Direction::Unidirectional, 0), Some(2));
    assert_eq!(nth_id(Endpoint::Server, Direction::Unidirectional, 2), Some(11));
    assert_eq!(
        nth_id(Endpoint::Server, Direction::Unidirectional, MAX_STREAM_LIMIT - 1),
        Some(MAX_VARINT_VALUE)
    );
    assert_eq!(nth_id(Endpoint::Client, Direction::Bidirectional, MAX_STREAM_LIMIT), None);
    assert_eq!(nth_id(Endpoint::Client, Direction::Bidirectional, u64::MAX), None);
    assert_eq!(Endpoint::Client.peer(), Endpoint::Server);
    assert!(Direction::Bidirectional.is_bidirectional());
    assert!(!Direction::Unidirectional.is_bidirectional());
}

#[test]
fn sums_saturate_at_the_largest_value() {
    assert_eq!(saturating_add(1, 2), 3);
    assert_eq!(saturating_add(10, 0), 10);
    assert_eq!(saturating_add(MAX_VARINT_VALUE, 1), MAX_VARINT_VALUE);
    assert_eq!(saturating_add(MAX_VARINT_VALUE - 5, 5), MAX_VARINT_VALUE);
    assert_eq!(saturating_add(MAX_VARINT_VALUE, MAX_VARINT_VALUE), MAX_VARINT_VALUE);
}

#[test]
fn timer_runs_while_an_announcement_is_requested() {
    let mut c = Controller::new(Endpoint::Client, limits()).unwrap();
    assert_eq!(DEFAULT_RETRANSMIT_PERIOD, 100_000);
    assert_eq!(c.next_expiration(), None);
    c.on_timeout(5_000);
    assert_eq!(c.poll_open_stream(Direction::Unidirectional, 1), OpenPoll::Ready(2));
    assert_eq!(c.next_expiration(), None);
    assert_eq!(c.poll_open_stream(Direction::Unidirectional, 1), OpenPoll::Pending);
    assert_eq!(c.next_expiration(), Some(105_000));
    assert_eq!(c.uni_local.next_expiration(), Some(105_000));
    assert_eq!(c.bidi_local.next_expiration(), None);
    // a second refusal does not start the timer again
    c.on_timeout(50_000);
    assert_eq!(c.poll_open_stream(Direction::Unidirectional, 1), OpenPoll::Pending);
    assert_eq!(c.next_expiration(), Some(105_000));
    assert!(!c.uni_local.streams_blocked_sync.is_overdue());
    // the clock does not move back
    c.on_timeout(10);
    assert_eq!(c.uni_local.streams_blocked_sync.now, 50_000);
    c.on_timeout(105_000);
    assert!(c.uni_local.streams_blocked_sync.is_overdue());

    for _ in 0..3 {
        let _ = c.poll_open_stream(Direction::Bidirectional, 1);
    }
    assert_eq!(c.poll_open_stream(Direction::Bidirectional, 1), OpenPoll::Pending);
    assert_eq!(c.bidi_local.next_expiration(), Some(205_000));
    assert_eq!(c.next_expiration(), Some(105_000));

    // written: the timers stop
    let mut ctx = packet(100, 1);
    c.on_transmit(&mut ctx);
    assert_eq!(ctx.frames.len(), 2);
    assert_eq!(c.next_expiration(), None);
    // lost: the timers start again, one period from the time known
    c.on_timeout(300_000);
    c.on_packet_loss(&PacketRange { smallest: 1, largest: 1 });
    assert_eq!(c.next_expiration(), Some(400_000));
    c.on_packet_loss(&PacketRange { smallest: 1, largest: 1 });
    assert_eq!(c.next_expiration(), Some(400_000));

    let mut late = PeriodicSync::new(10);
    late.on_timeout(u64::MAX - 3);
    late.request(1);
    assert_eq!(late.next_expiration(), Some(u64::MAX));
    late.stop();
    assert_eq!(late.next_expiration(), None);
}

#[test]
fn blocked_peer_changes_nothing() {
    let mut c = Controller::new(Endpoint::Client, limits()).unwrap();
    c.on_open_stream(Direction::Bidirectional).unwrap();
    c.on_streams_blocked_received(Direction::Bidirectional, 10);
    c.on_streams_blocked_received(Direction::Unidirectional, 0);
    assert_eq!(c.bidi_remote.opened_streams, 1);
    assert_eq!(c.bidi_remote.max_streams_sync.latest_value, 10);
    assert_eq!(c.uni_remote.max_streams_sync.latest_value, 10);
    assert_eq!(c.transmission_interest(), Interest::Nothing);
    let mut ctx = packet(100, 1);
    c.on_transmit(&mut ctx);
    assert!(ctx.frames.is_empty());
}

#[test]
fn invariant_test_tells_sound_counters_from_unsound() {
    let mut c = Controller::new(Endpoint::Client, limits()).unwrap();
    assert!(c.is_well_formed());
    let _ = c.poll_open_stream(Direction::Unidirectional, 1);
    let _ = c.poll_open_stream(Direction::Unidirectional, 1);
    c.on_open_stream(Direction::Bidirectional).unwrap();
    let _ = c.on_close_stream(StreamType::BidiRemote);
    let mut ctx = packet(100, 1);
    c.on_transmit(&mut ctx);
    assert!(c.is_well_formed());

    let mut more_open_than_allowed = Controller::new(Endpoint::Client, limits()).unwrap();
    more_open_than_allowed.bidi_local.opened_streams = 4;
    assert!(!more_open_than_allowed.is_well_formed());

    let mut more_closed_than_open = Controller::new(Endpoint::Client, limits()).unwrap();
    more_closed_than_open.uni_remote.closed_streams = 1;
    assert!(!more_closed_than_open.is_well_formed());

    let mut wrong_target = Controller::new(Endpoint::Client, limits()).unwrap();
    wrong_target.bidi_remote.max_streams_sync.latest_value = 11;
    assert!(!wrong_target.is_well_formed());

    let mut stale_value_in_flight = Controller::new(Endpoint::Client, limits()).unwrap();
    stale_value_in_flight.uni_remote.max_streams_sync.in_flight.push((1, 11));
    assert!(!stale_value_in_flight.is_well_formed());

    let mut timer_without_request = Controller::new(Endpoint::Client, limits()).unwrap();
    timer_without_request.uni_local.streams_blocked_sync.retransmit_at = Some(5);
    assert!(!timer_without_request.is_well_formed());

    let mut wrong_direction = Controller::new(Endpoint::Client, limits()).unwrap();
    wrong_direction.uni_local.direction = Direction::Bidirectional;
    assert!(!wrong_direction.is_well_formed());
}

#[test]
fn advertised_limit_stays_at_two_to_the_sixty() {
    let mut remote =
        RemoteInitiatedStreamController::new(Direction::Bidirectional, MAX_STREAM_LIMIT).unwrap();
    remote.on_open_stream().unwrap();
    remote.on_close_stream();
    assert_eq!(remote.closed_streams, 1);
    assert_eq!(remote.max_streams_sync.latest_value, MAX_STREAM_LIMIT);
    assert!(remote.is_well_formed());
    let mut ctx = packet(100, 1);
    remote.on_transmit(&mut ctx);
    assert!(ctx.frames.is_empty());

    let mut near =
        RemoteInitiatedStreamController::new(Direction::Unidirectional, MAX_STREAM_LIMIT - 1)
            .unwrap();
    near.on_open_stream().unwrap();
    near.on_open_stream().unwrap();
    near.on_close_stream();
    near.on_close_stream();
    assert_eq!(near.max_streams_sync.latest_value, MAX_STREAM_LIMIT);
    let mut ctx = packet(100, 2);
    near.on_transmit(&mut ctx);
    assert_eq!(
        ctx.frames,
        vec![Frame::MaxStreams { bidirectional: false, limit: MAX_STREAM_LIMIT }]
    );
    assert_eq!(limit_to_advertise(10, 3), 13);
    assert_eq!(limit_to_advertise(MAX_STREAM_LIMIT, MAX_STREAM_LIMIT), MAX_STREAM_LIMIT);
}
