use quic_transport::event::{AckContext, Provider};
use quic_transport::frame::{decode_stream_limit, encode_stream_limit, DecodeError, Frame};
use quic_transport::frame::MAX_STREAM_LIMIT;
use quic_transport::interest::Interest;
use quic_transport::varint::{decode, encode, encoding_size, MAX_VARINT_VALUE};

fn encoded(v: u64) -> Vec<u8> {
    let mut out = Vec::new();
    encode(v, &mut out);
    out
}

#[test]
fn integers_encode_as_the_standard_examples() {
    assert_eq!(encoded(37), vec![0x25]);
    assert_eq!(encoded(15293), vec![0x7b, 0xbd]);
    assert_eq!(encoded(494_878_333), vec![0x9d, 0x7f, 0x3e, 0x7d]);
    assert_eq!(
        encoded(151_288_809_941_952_652),
        vec![0xc2, 0x19, 0x7c, 0x5e, 0xff, 0x14, 0xe8, 0x8c]
    );
    assert_eq!(encoded(0), vec![0]);
    assert_eq!(encoded(MAX_VARINT_VALUE), vec![0xff; 8]);
}

#[test]
fn encoding_appends_behind_what_is_there() {
    let mut out = vec![9u8, 9];
    encode(64, &mut out);
    assert_eq!(out, vec![9, 9, 0x40, 0x40]);
}

#[test]
fn integers_decode_to_what_was_encoded() {
    for v in [
        0u64,
        1,
        63,
        64,
        16383,
        16384,
        1_073_741_823,
        1_073_741_824,
        151_288_809_941_952_652,
        MAX_VARINT_VALUE,
    ] {
        let mut bytes = encoded(v);
        let len = bytes.len();
        assert_eq!(len, encoding_size(v));
        bytes.push(0xaa);
        assert_eq!(decode(&bytes), Some((v, len)));
    }
    assert_eq!(encoding_size(63), 1);
    assert_eq!(encoding_size(16383), 2);
    assert_eq!(encoding_size(1_073_741_823), 4);
    assert_eq!(encoding_size(1_073_741_824), 8);
}

#[test]
fn decoding_accepts_encodings_longer_than_needed() {
    assert_eq!(decode(&[0x40, 0x25]), Some((37, 2)));
    assert_eq!(decode(&[0x80, 0, 0, 0x25, 1]), Some((37, 4)));
}

#[test]
fn truncated_integers_do_not_decode() {
    assert_eq!(decode(&[]), None);
    assert_eq!(decode(&[0x7b]), None);
    assert_eq!(decode(&[0x9d, 0x7f, 0x3e]), None);
    assert_eq!(decode(&[0xc2, 0x19, 0x7c, 0x5e, 0xff, 0x14, 0xe8]), None);
}

#[test]
fn stream_limit_frames_come_back_as_they_were_written() {
    for frame in [
        Frame::MaxStreams { bidirectional: true, limit: 0 },
        Frame::MaxStreams { bidirectional: false, limit: 20 },
        Frame::MaxStreams { bidirectional: true, limit: MAX_STREAM_LIMIT },
        Frame::StreamsBlocked { bidirectional: true, limit: 3 },
        Frame::StreamsBlocked { bidirectional: false, limit: 70_000 },
        Frame::StreamsBlocked { bidirectional: false, limit: MAX_VARINT_VALUE },
    ] {
        let mut out = Vec::new();
        assert!(encode_stream_limit(&frame, &mut out));
        assert_eq!(out.len(), frame.encoding_size());
        let len = out.len();
        out.push(0x01);
        assert_eq!(decode_stream_limit(&out), Ok((frame, len)));
    }
}

#[test]
fn stream_limit_frames_have_their_type_bytes() {
    let mut out = Vec::new();
    assert!(encode_stream_limit(&Frame::MaxStreams { bidirectional: true, limit: 5 }, &mut out));
    assert!(encode_stream_limit(&Frame::MaxStreams { bidirectional: false, limit: 5 }, &mut out));
    assert!(encode_stream_limit(
        &Frame::StreamsBlocked { bidirectional: true, limit: 64 },
        &mut out
    ));
    assert!(encode_stream_limit(
        &Frame::StreamsBlocked { bidirectional: false, limit: 5 },
        &mut out
    ));
    assert_eq!(out, vec![0x12, 5, 0x13, 5, 0x16, 0x40, 0x40, 0x17, 5]);
}

#[test]
fn other_frames_are_not_encoded() {
    let mut out = vec![1u8];
    assert!(!encode_stream_limit(&Frame::Ping, &mut out));
    assert!(!encode_stream_limit(&Frame::Stream { len: 10 }, &mut out));
    assert!(!encode_stream_limit(
        &Frame::MaxStreams { bidirectional: true, limit: MAX_STREAM_LIMIT + 1 },
        &mut out
    ));
    assert!(!encode_stream_limit(
        &Frame::StreamsBlocked { bidirectional: true, limit: MAX_VARINT_VALUE + 1 },
        &mut out
    ));
    assert_eq!(out, vec![1]);
}

#[test]
fn bad_frames_are_refused_with_their_reason() {
    assert_eq!(decode_stream_limit(&[]), Err(DecodeError::UnexpectedEnd));
    assert_eq!(decode_stream_limit(&[0x12]), Err(DecodeError::UnexpectedEnd));
    assert_eq!(decode_stream_limit(&[0x16, 0x40]), Err(DecodeError::UnexpectedEnd));
    assert_eq!(decode_stream_limit(&[0x01]), Err(DecodeError::UnknownType));
    assert_eq!(decode_stream_limit(&[0x14, 0x00]), Err(DecodeError::UnknownType));
    // 2^60 + 1 in a MAX_STREAMS frame
    let over = [0x12, 0xd0, 0, 0, 0, 0, 0, 0, 1];
    assert_eq!(decode_stream_limit(&over), Err(DecodeError::StreamLimit));
    let most = [0x13, 0xd0, 0, 0, 0, 0, 0, 0, 0];
    assert_eq!(
        decode_stream_limit(&most),
        Ok((Frame::MaxStreams { bidirectional: false, limit: MAX_STREAM_LIMIT }, 9))
    );
    // the same value is in order in a STREAMS_BLOCKED frame
    let blocked = [0x16, 0xd0, 0, 0, 0, 0, 0, 0, 1];
    assert_eq!(
        decode_stream_limit(&blocked),
        Ok((Frame::StreamsBlocked { bidirectional: true, limit: MAX_STREAM_LIMIT + 1 }, 9))
    );
}

#[test]
fn frame_sizes_and_ack_elicitation() {
    assert_eq!(Frame::Ping.encoding_size(), 1);
    assert_eq!(Frame::HandshakeDone.encoding_size(), 1);
    assert_eq!(Frame::PathChallenge { data: [0; 8] }.encoding_size(), 9);
    assert_eq!(Frame::PathResponse { data: [1; 8] }.encoding_size(), 9);
    assert_eq!(Frame::MaxStreams { bidirectional: true, limit: 63 }.encoding_size(), 2);
    assert_eq!(Frame::StreamsBlocked { bidirectional: true, limit: 64 }.encoding_size(), 3);
    assert_eq!(Frame::Stream { len: 700 }.encoding_size(), 700);
    assert!(Frame::Ping.is_ack_eliciting());
    assert!(Frame::Stream { len: 1 }.is_ack_eliciting());
    assert!(!Frame::Ack { len: 20 }.is_ack_eliciting());
    assert!(!Frame::Padding { len: 20 }.is_ack_eliciting());
}

#[test]
fn interests_join_to_their_supremum() {
    let all = [Interest::Nothing, Interest::NewData, Interest::LostData, Interest::Forced];
    for (i, a) in all.iter().enumerate() {
        for (j, b) in all.iter().enumerate() {
            let expected = if i >= j { *a } else { *b };
            assert_eq!(a.join(*b), expected);
            assert_eq!(a.join(*b), b.join(*a));
        }
        assert_eq!(a.join(*a), *a);
        assert_eq!(a.can_transmit(), i >= 1);
        assert_eq!(a.is_none(), i == 0);
    }
    assert_eq!(Interest::NewData.join(Interest::Forced).join(Interest::LostData), Interest::Forced);
}

#[test]
fn subscriber_counts_ack_frames_only() {
    let mut subscriber = Provider.start().unwrap();
    let mut context = subscriber.create_connection_context();
    assert_eq!(context, AckContext { ack_tx: 0, ack_rx: 0 });
    subscriber.on_frame_sent(&mut context, &Frame::Ack { len: 10 });
    subscriber.on_frame_sent(&mut context, &Frame::Ping);
    subscriber.on_frame_sent(&mut context, &Frame::Ack { len: 3 });
    subscriber.on_frame_received(&mut context, &Frame::Ack { len: 3 });
    subscriber.on_frame_received(&mut context, &Frame::Stream { len: 3 });
    assert_eq!(context, AckContext { ack_tx: 2, ack_rx: 1 });
    assert_eq!(subscriber.on_connection_closed(&context), (2, 1));
    let mut full = AckContext { ack_tx: u64::MAX, ack_rx: u64::MAX };
    subscriber.on_frame_sent(&mut full, &Frame::Ack { len: 1 });
    assert_eq!(full, AckContext { ack_tx: 0, ack_rx: u64::MAX });
}
