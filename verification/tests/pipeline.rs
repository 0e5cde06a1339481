use ghostview::capture::RawFrame;
use ghostview::codec::{CodecError, Vp9Encoder};
use ghostview::pipeline::{
    encoder_size, even, tail_packet, EncoderLoop, Preparation, BITRATE_KBPS,
};
use ghostview::MonitorInfo;

fn monitor(index: usize, width: u32, height: u32) -> MonitorInfo {
    MonitorInfo {
        index,
        name: String::new(),
        width,
        height,
        is_primary: false,
    }
}

fn frame(width: u32, height: u32, pts_ms: u64) -> RawFrame {
    RawFrame {
        width,
        height,
        bgra: vec![5, 6],
        pts_ms,
    }
}

#[test]
fn sides_are_rounded_down_to_even() {
    assert_eq!(even(0, 1080), 1080);
    assert_eq!(even(1, 1080), 0);
    assert_eq!(even(2, 1080), 2);
    assert_eq!(even(1081, 1080), 1080);
    assert_eq!(even(u32::MAX, 1080), u32::MAX - 1);
}

#[test]
fn the_size_of_the_captured_monitor() {
    let monitors = vec![
        monitor(0, 2560, 1440),
        monitor(1, 1367, 767),
        monitor(2, 0, 0),
        monitor(1, 10, 10),
    ];
    assert_eq!(encoder_size(&monitors, 0), (2560, 1440));
    assert_eq!(encoder_size(&monitors, 1), (1366, 766));
    assert_eq!(encoder_size(&monitors, 2), (1920, 1080));
    assert_eq!(encoder_size(&monitors, 3), (1920, 1080));
}

#[test]
fn packets_last_until_the_next() {
    let mut encoder = EncoderLoop::<Vp9Encoder>::start(4, 2);
    let mut durations = Vec::new();
    for pts in [1_000, 1_033, 1_066, 1_200, 1_200, 1_100] {
        durations.push(encoder.encode_frame(&frame(4, 2, pts)).unwrap().duration_ms);
    }
    assert_eq!(durations, vec![33, 33, 33, 134, 1, 1]);
    // Over increasing times they add up to the time that went by.
    assert_eq!(durations[..4].iter().sum::<u64>(), 33 + (1_200 - 1_000));
    assert!(encoder.finish().is_none());
}

#[test]
fn a_frame_of_another_size_rebuilds_the_encoder() {
    let size_in = |packet: &[u8]| {
        (
            u32::from_le_bytes([packet[6], packet[7], packet[8], packet[9]]),
            u32::from_le_bytes([packet[10], packet[11], packet[12], packet[13]]),
        )
    };
    let mut encoder = EncoderLoop::<Vp9Encoder>::start(4, 2);
    let packet = encoder.encode_frame(&frame(4, 2, 0)).unwrap();
    assert_eq!(size_in(&packet.data), (4, 2));
    let packet = encoder.encode_frame(&frame(9, 7, 1)).unwrap();
    assert_eq!(size_in(&packet.data), (8, 6));
    assert_eq!(&packet.data[22..], &[5, 6]);
    // A frame that tells no size keeps the encoder's.
    let packet = encoder.encode_frame(&frame(0, 0, 2)).unwrap();
    assert_eq!(size_in(&packet.data), (8, 6));
}

#[test]
fn a_failed_build_is_tried_again() {
    let mut encoder: EncoderLoop<char> = EncoderLoop::new(4, 2);
    assert_eq!(
        encoder.prepare(4, 2),
        Preparation::Build {
            width: 4,
            height: 2
        }
    );
    encoder.built(4, 2, Err(CodecError::Init("x".to_string())));
    assert_eq!(encoder.take_encoder(), None);
    assert_eq!(
        encoder.prepare(5, 3),
        Preparation::Build {
            width: 4,
            height: 2
        }
    );
    encoder.built(4, 2, Ok('e'));
    assert_eq!(encoder.prepare(5, 3), Preparation::Ready);
    assert_eq!(
        encoder.prepare(8, 3),
        Preparation::Build {
            width: 8,
            height: 2
        }
    );
    // The old encoder is gone before the new one is built.
    assert_eq!(encoder.take_encoder(), None);
}

#[test]
fn frames_that_yield_nothing_are_passed_over() {
    let mut encoder: EncoderLoop<char> = EncoderLoop::new(4, 2);
    encoder.built(4, 2, Ok('e'));
    let e = encoder.take_encoder().unwrap();
    assert!(encoder.encoded(e, 10, Ok(vec![])).is_none());
    let e = encoder.take_encoder().unwrap();
    assert_eq!(encoder.encoded(e, 20, Ok(vec![1])).unwrap().duration_ms, 33);
    let e = encoder.take_encoder().unwrap();
    assert!(encoder
        .encoded(e, 30, Err(CodecError::Encode("x".to_string())))
        .is_none());
    let e = encoder.take_encoder().unwrap();
    let packet = encoder.encoded(e, 45, Ok(vec![2])).unwrap();
    assert_eq!(packet.duration_ms, 25);
    assert_eq!(packet.data, vec![2]);
    assert_eq!(encoder.take_encoder(), Some('e'));
}

#[test]
fn what_is_left_is_sent_at_the_end() {
    let tail = tail_packet(Ok(vec![1, 2])).unwrap();
    assert_eq!(tail.data, vec![1, 2]);
    assert_eq!(tail.duration_ms, 1);
    assert!(tail_packet(Ok(vec![])).is_none());
    assert!(tail_packet(Err(CodecError::Encode("x".to_string()))).is_none());
    assert_eq!(BITRATE_KBPS, 4_000);
}

#[test]
fn only_frames_that_yield_something_keep_time() {
    let mut encoder: EncoderLoop<char> = EncoderLoop::new(4, 2);
    encoder.built(4, 2, Ok('e'));
    let mut packets = Vec::new();
    for (pts, result) in [
        (500, Err(CodecError::Encode("x".to_string()))),
        (510, Ok(vec![1])),
        (540, Ok(vec![])),
        (575, Ok(vec![2])),
        (580, Err(CodecError::Encode("x".to_string()))),
        (610, Ok(vec![3])),
    ] {
        assert_eq!(encoder.prepare(4, 2), Preparation::Ready);
        let e = encoder.take_encoder().unwrap();
        if let Some(packet) = encoder.encoded(e, pts, result) {
            packets.push((packet.data[0], packet.duration_ms));
        }
    }
    assert_eq!(packets, vec![(1, 33), (2, 65), (3, 35)]);
    let total: u64 = packets.iter().map(|packet| packet.1).sum();
    assert_eq!(total, 33 + (610 - 510));
}
