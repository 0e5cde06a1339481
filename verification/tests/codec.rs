use ghostview::codec::{bgra_to_i420, i420_input, join_packets, CodecError, Vp9Encoder};

#[test]
fn colours_of_one_block() {
    // Four pixels of one colour: one luma sample each, one chroma pair.
    let block = |b: u8, g: u8, r: u8| {
        let pixels: Vec<u8> = [b, g, r, 255].repeat(4);
        bgra_to_i420(&pixels, 2, 2).unwrap()
    };
    assert_eq!(block(0, 0, 0), vec![16, 16, 16, 16, 128, 128]);
    assert_eq!(block(255, 255, 255), vec![235, 235, 235, 235, 128, 128]);
    assert_eq!(block(255, 0, 0), vec![41, 41, 41, 41, 240, 110]);
    assert_eq!(block(0, 255, 0), vec![144, 144, 144, 144, 54, 34]);
    assert_eq!(block(0, 0, 255), vec![82, 82, 82, 82, 90, 240]);
}

#[test]
fn chroma_takes_the_upper_left_pixel() {
    // Only the upper left pixel is blue; the others are black.
    let mut pixels = vec![0u8; 16];
    pixels[0] = 255;
    assert_eq!(
        bgra_to_i420(&pixels, 2, 2).unwrap(),
        vec![41, 16, 16, 16, 240, 110]
    );
    // Only the lower right one: chroma does not see it.
    let mut pixels = vec![0u8; 16];
    pixels[12] = 255;
    assert_eq!(
        bgra_to_i420(&pixels, 2, 2).unwrap(),
        vec![16, 16, 16, 41, 128, 128]
    );
}

#[test]
fn planes_follow_one_another() {
    // Four by two: the second block is red.
    let black = [0u8, 0, 0, 255];
    let red = [0u8, 0, 255, 255];
    let row: Vec<u8> = [black, black, red, red].concat();
    let pixels = [row.clone(), row].concat();
    assert_eq!(
        bgra_to_i420(&pixels, 4, 2).unwrap(),
        vec![16, 16, 82, 82, 16, 16, 82, 82, 128, 90, 128, 240]
    );
}

#[test]
fn every_sample_is_in_studio_range() {
    for b in (0..=255u8).step_by(15) {
        for g in (0..=255u8).step_by(15) {
            for r in (0..=255u8).step_by(15) {
                let pixels: Vec<u8> = [b, g, r, 0].repeat(4);
                let picture = bgra_to_i420(&pixels, 2, 2).unwrap();
                assert!((16..=235).contains(&picture[0]));
                assert!((16..=240).contains(&picture[4]));
                assert!((16..=240).contains(&picture[5]));
            }
        }
    }
}

#[test]
fn short_frames_are_refused() {
    assert!(bgra_to_i420(&[0u8; 15], 2, 2).is_none());
    assert!(bgra_to_i420(&[0u8; 16], 2, 2).is_some());
    assert!(bgra_to_i420(&[], 3, 3).is_none());
    match i420_input(&[0u8; 15], 2, 2) {
        Err(e) => assert_eq!(e.message(), "encode failed: BGRA->I420 conversion failed"),
        Ok(_) => panic!("a short frame was taken"),
    }
    assert_eq!(
        i420_input(&[0u8; 16], 2, 2).unwrap(),
        vec![16, 16, 16, 16, 128, 128]
    );
}

#[test]
fn an_empty_picture_has_no_samples() {
    assert_eq!(bgra_to_i420(&[], 0, 7).unwrap(), Vec::<u8>::new());
    assert_eq!(bgra_to_i420(&[], 7, 0).unwrap(), Vec::<u8>::new());
}

#[test]
fn pass_through_packet() {
    let mut encoder = Vp9Encoder::new(1920, 1080, 4_000).unwrap();
    assert_eq!(encoder.width(), 1920);
    assert_eq!(encoder.height(), 1080);
    assert_eq!(encoder.bitrate_kbps(), 4_000);
    let packet = encoder.encode(&[1, 2, 3], 0x0102_0304_0506_0708).unwrap();
    let mut expected = b"GVSCAF".to_vec();
    expected.extend_from_slice(&1920u32.to_le_bytes());
    expected.extend_from_slice(&1080u32.to_le_bytes());
    expected.extend_from_slice(&0x0102_0304_0506_0708u64.to_le_bytes());
    expected.extend_from_slice(&[1, 2, 3]);
    assert_eq!(packet, expected);
    assert_eq!(packet.len(), 22 + 3);
    assert_eq!(encoder.finish().unwrap(), Vec::<u8>::new());
}

#[test]
fn a_packet_reads_back() {
    let mut encoder = Vp9Encoder::new(0x0a0b_0c0d, 7, 1).unwrap();
    let packet = encoder.encode(&[9, 8, 7], u64::MAX).unwrap();
    assert_eq!(&packet[0..6], b"GVSCAF");
    assert_eq!(
        u32::from_le_bytes([packet[6], packet[7], packet[8], packet[9]]),
        0x0a0b_0c0d
    );
    assert_eq!(&packet[10..14], &[7, 0, 0, 0]);
    assert_eq!(&packet[14..22], &[255; 8]);
    assert_eq!(&packet[22..], &[9, 8, 7]);
}

#[test]
fn packets_are_joined_in_order() {
    assert_eq!(
        join_packets(&vec![vec![1, 2], vec![], vec![3]]),
        vec![1, 2, 3]
    );
    assert_eq!(join_packets(&vec![]), Vec::<u8>::new());
}

#[test]
fn codec_errors_say_what_failed() {
    assert_eq!(
        CodecError::Init("no memory".to_string()).message(),
        "codec init failed: no memory"
    );
    assert_eq!(
        CodecError::Encode("bad frame".to_string()).message(),
        "encode failed: bad frame"
    );
}
