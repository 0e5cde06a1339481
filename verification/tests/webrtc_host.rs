use ghostview::messages::IceCandidateInit;
use ghostview::messages::SdpPayload;
use ghostview::webrtc_host::{
    local_candidate, set_answer_result, video_codec, video_track, ConnState, Gathered,
    PeerConnectionState, WebRtcError, WebRtcHost,
};
use webrtc::peer_connection::sdp::session_description::RTCSessionDescription;

type Host = WebRtcHost<u8, &'static str, &'static str>;

const ANSWER: &str = "v=0\r\no=- 1 2 IN IP4 127.0.0.1\r\ns=-\r\nt=0 0\r\n";

#[test]
fn streams_are_taken_once() {
    let mut host = Host::new(1, "ice", "states");
    assert_eq!(*host.peer(), 1);
    assert_eq!(host.take_ice_stream(), Some("ice"));
    assert_eq!(host.take_ice_stream(), None);
    assert_eq!(host.take_state_stream(), Some("states"));
    assert_eq!(host.take_state_stream(), None);
    assert_eq!(*host.peer(), 1);
}

#[test]
fn an_answer_is_checked() {
    let answer = Host::set_answer(ANSWER.to_string()).unwrap();
    assert_eq!(answer.kind, "answer");
    assert_eq!(answer.sdp, ANSWER);
}

#[test]
fn a_bad_answer_is_refused() {
    for text in ["hello", "v=1\r\n", "v=0\r\no=x\r\n"] {
        let why = RTCSessionDescription::answer(text.to_string())
            .unwrap_err()
            .to_string();
        match Host::set_answer(text.to_string()) {
            Err(e) => assert_eq!(e.message(), format!("webrtc error: {why}")),
            Ok(_) => panic!("{text} is no answer"),
        }
    }
}

#[test]
fn the_outcome_of_an_answer() {
    let payload = SdpPayload {
        kind: "answer".to_string(),
        sdp: "s".to_string(),
    };
    assert_eq!(set_answer_result(Ok(payload)).unwrap().sdp, "s");
    assert!(matches!(
        set_answer_result(Err("why".to_string())),
        Err(WebRtcError::Webrtc(why)) if why == "why"
    ));
}

#[test]
fn a_candidate_is_passed_on() {
    let init = Host::add_ice_candidate("c".to_string(), None, Some(3), Some("u".to_string()));
    assert_eq!(init.candidate, "c");
    assert_eq!(init.sdp_mid, None);
    assert_eq!(init.sdp_mline_index, Some(3));
    assert_eq!(init.username_fragment.as_deref(), Some("u"));
}

#[test]
fn a_sample_holds_a_copy_of_the_packet() {
    let mut packet = vec![1u8, 2, 3];
    let sample = Host::push_frame(&packet, 33).unwrap();
    packet[0] = 9;
    assert_eq!(&sample.data[..], &[1, 2, 3]);
    assert_eq!(sample.duration_ms, 33);
    assert_eq!(Host::push_frame(&packet, 0).unwrap().duration_ms, 1);
    assert!(Host::push_frame(&[], 33).is_none());
}

#[test]
fn gathered_candidates() {
    let init = IceCandidateInit {
        candidate: "candidate:1".to_string(),
        sdp_mid: Some("0".to_string()),
        sdp_mline_index: Some(0),
        username_fragment: None,
    };
    let local = local_candidate(Gathered::Candidate(init)).unwrap();
    assert_eq!(local.candidate, "candidate:1");
    assert_eq!(local.sdp_mid.as_deref(), Some("0"));
    assert_eq!(local.sdp_mline_index, Some(0));
    assert_eq!(local.username_fragment, None);
    let end = local_candidate(Gathered::End).unwrap();
    assert_eq!(end.candidate, "");
    assert_eq!(end.sdp_mid, None);
    assert_eq!(end.sdp_mline_index, None);
    assert_eq!(end.username_fragment, None);
    assert!(local_candidate(Gathered::Unreadable).is_none());
}

#[test]
fn reported_states() {
    for (reported, watched) in [
        (PeerConnectionState::Unspecified, ConnState::New),
        (PeerConnectionState::New, ConnState::New),
        (PeerConnectionState::Connecting, ConnState::Connecting),
        (PeerConnectionState::Connected, ConnState::Connected),
        (PeerConnectionState::Disconnected, ConnState::Disconnected),
        (PeerConnectionState::Failed, ConnState::Failed),
        (PeerConnectionState::Closed, ConnState::Closed),
    ] {
        assert_eq!(ConnState::from(reported), watched);
    }
}

#[test]
fn the_codec_on_offer() {
    let codec = video_codec();
    assert_eq!(codec.mime_type, "video/VP9");
    assert_eq!(codec.clock_rate, 90_000);
    assert_eq!(codec.channels, 0);
    assert_eq!(codec.sdp_fmtp_line, "profile-id=0");
    assert_eq!(codec.payload_type, 98);
    let feedback: Vec<(String, String)> = codec
        .rtcp_feedback
        .into_iter()
        .map(|f| (f.typ, f.parameter))
        .collect();
    let expected: Vec<(String, String)> = [
        ("goog-remb", ""),
        ("ccm", "fir"),
        ("nack", ""),
        ("nack", "pli"),
    ]
    .iter()
    .map(|(typ, parameter)| (typ.to_string(), parameter.to_string()))
    .collect();
    assert_eq!(feedback, expected);
    let track = video_track();
    assert_eq!(track.mime_type, "video/VP9");
    assert_eq!(track.clock_rate, 90_000);
    assert_eq!(track.id, "video");
    assert_eq!(track.stream_id, "ghostview");
}

#[test]
fn webrtc_errors_say_what_failed() {
    assert_eq!(
        WebRtcError::Webrtc("x".to_string()).message(),
        "webrtc error: x"
    );
    assert_eq!(
        WebRtcError::State("y".to_string()).message(),
        "invalid state: y"
    );
}
