//! The peer connection's host side: the video track that it offers, the
//! samples and descriptions that go into it, the candidates and connection
//! states that come out of it.
//!
//! The host only sends video. `P` is the peer connection itself; this module
//! decides what it is given and what is made of its reports.
use crate::messages::{optional_text, CandidateText, IceCandidateInit, SdpPayload};
use crate::text::prefixed;
use vstd::prelude::*;

verus! {

/// How many local candidates may wait to be relayed.
pub const ICE_CAPACITY: usize = 64;

/// How many connection states may wait to be looked at.
pub const STATE_CAPACITY: usize = 16;

/// Why the peer connection failed.
#[derive(Debug)]
pub enum WebRtcError {
    Webrtc(String),
    State(String),
}

impl WebRtcError {
    /// The message that is shown to a user, as characters.
    pub open spec fn text(&self) -> Seq<char> {
        match self {
            WebRtcError::Webrtc(why) => "webrtc error: "@ + why@,
            WebRtcError::State(why) => "invalid state: "@ + why@,
        }
    }

    /// The message that is shown to a user.
    pub fn message(&self) -> (text: String)
        ensures
            text@ == self.text(),
    {
        match self {
            WebRtcError::Webrtc(why) => prefixed("webrtc error: ", why.as_str()),
            WebRtcError::State(why) => prefixed("invalid state: ", why.as_str()),
        }
    }
}

// ---------------------------------------------------------------------------
// Candidates and states
// ---------------------------------------------------------------------------

/// A local candidate on its way to the viewer. An empty line marks the end of
/// candidates.
#[derive(Debug, Clone)]
pub struct LocalIceCandidate {
    pub candidate: String,
    pub sdp_mid: Option<String>,
    pub sdp_mline_index: Option<u16>,
    pub username_fragment: Option<String>,
}

impl View for LocalIceCandidate {
    type V = CandidateText;

    open spec fn view(&self) -> CandidateText {
        CandidateText {
            candidate: self.candidate@,
            sdp_mid: optional_text(self.sdp_mid),
            sdp_mline_index: self.sdp_mline_index,
            username_fragment: optional_text(self.username_fragment),
        }
    }
}

/// What the peer connection reports while it gathers candidates.
pub enum Gathered {
    Candidate(IceCandidateInit),
    /// A candidate that could not be written out.
    Unreadable,
    /// No more candidates follow.
    End,
}

/// The candidate to relay for a report, if there is one to relay.
pub fn local_candidate(gathered: Gathered) -> (local: Option<LocalIceCandidate>)
    ensures
        match gathered {
            Gathered::Candidate(init) => local matches Some(c) && c@ == init@,
            Gathered::Unreadable => local is None,
            Gathered::End => local matches Some(c) && c@ == (CandidateText {
                candidate: Seq::empty(),
                sdp_mid: None,
                sdp_mline_index: None,
                username_fragment: None,
            }),
        },
{
    match gathered {
        Gathered::Candidate(init) => Some(
            LocalIceCandidate {
                candidate: init.candidate,
                sdp_mid: init.sdp_mid,
                sdp_mline_index: init.sdp_mline_index,
                username_fragment: init.username_fragment,
            },
        ),
        Gathered::Unreadable => None,
        Gathered::End => Some(
            LocalIceCandidate {
                candidate: String::new(),
                sdp_mid: None,
                sdp_mline_index: None,
                username_fragment: None,
            },
        ),
    }
}

/// A connection state as the peer connection reports it.
#[derive(Debug, Clone, Copy, PartialEq, Eq, Structural)]
pub enum PeerConnectionState {
    Unspecified,
    New,
    Connecting,
    Connected,
    Disconnected,
    Failed,
    Closed,
}

/// A connection state as the session watches it.
#[derive(Debug, Clone, Copy, PartialEq, Eq, Structural)]
pub enum ConnState {
    New,
    Connecting,
    Connected,
    Disconnected,
    Failed,
    Closed,
}

/// The state to watch for a reported one: one that is not specified counts as
/// new.
pub open spec fn watched_state(state: PeerConnectionState) -> ConnState {
    match state {
        PeerConnectionState::Unspecified | PeerConnectionState::New => ConnState::New,
        PeerConnectionState::Connecting => ConnState::Connecting,
        PeerConnectionState::Connected => ConnState::Connected,
        PeerConnectionState::Disconnected => ConnState::Disconnected,
        PeerConnectionState::Failed => ConnState::Failed,
        PeerConnectionState::Closed => ConnState::Closed,
    }
}

impl vstd::std_specs::convert::FromSpecImpl<PeerConnectionState> for ConnState {
    open spec fn obeys_from_spec() -> bool {
        true
    }

    open spec fn from_spec(state: PeerConnectionState) -> ConnState {
        watched_state(state)
    }
}

impl From<PeerConnectionState> for ConnState {
    fn from(state: PeerConnectionState) -> (watched: ConnState) {
        match state {
            PeerConnectionState::Unspecified => ConnState::New,
            PeerConnectionState::New => ConnState::New,
            PeerConnectionState::Connecting => ConnState::Connecting,
            PeerConnectionState::Connected => ConnState::Connected,
            PeerConnectionState::Disconnected => ConnState::Disconnected,
            PeerConnectionState::Failed => ConnState::Failed,
            PeerConnectionState::Closed => ConnState::Closed,
        }
    }
}

// ---------------------------------------------------------------------------
// The video track
// ---------------------------------------------------------------------------

/// An RTCP feedback message that the video sender understands.
#[derive(Debug)]
pub struct Feedback {
    pub typ: String,
    pub parameter: String,
}

/// Whether `feedback` is of this type with this parameter.
pub open spec fn is_feedback(feedback: Feedback, typ: Seq<char>, parameter: Seq<char>) -> bool {
    feedback.typ@ == typ && feedback.parameter@ == parameter
}

/// The video codec that the host offers.
#[derive(Debug)]
pub struct VideoCodec {
    pub mime_type: String,
    pub clock_rate: u32,
    pub channels: u16,
    pub sdp_fmtp_line: String,
    pub rtcp_feedback: Vec<Feedback>,
    pub payload_type: u8,
}

/// Copies `webrtc::api::media_engine::MIME_TYPE_VP9`. Claimed of it: the
/// constant is `video/VP9`.
#[verifier::external_body]
fn vp9_mime_type() -> (mime_type: String)
    ensures
        mime_type@ == "video/VP9"@,
{
    webrtc::api::media_engine::MIME_TYPE_VP9.to_owned()
}

/// The one codec on offer: VP9, 8 bits and 4:2:0, on payload type 98, with
/// bandwidth estimation, forced intra refresh and loss recovery.
pub fn video_codec() -> (codec: VideoCodec)
    ensures
        codec.mime_type@ == "video/VP9"@,
        codec.clock_rate == 90_000,
        codec.channels == 0,
        codec.sdp_fmtp_line@ == "profile-id=0"@,
        codec.payload_type == 98,
        codec.rtcp_feedback@.len() == 4,
        is_feedback(codec.rtcp_feedback@[0], "goog-remb"@, Seq::empty()),
        is_feedback(codec.rtcp_feedback@[1], "ccm"@, "fir"@),
        is_feedback(codec.rtcp_feedback@[2], "nack"@, Seq::empty()),
        is_feedback(codec.rtcp_feedback@[3], "nack"@, "pli"@),
{
    let mut rtcp_feedback: Vec<Feedback> = Vec::new();
    rtcp_feedback.push(Feedback { typ: "goog-remb".to_owned(), parameter: String::new() });
    rtcp_feedback.push(Feedback { typ: "ccm".to_owned(), parameter: "fir".to_owned() });
    rtcp_feedback.push(Feedback { typ: "nack".to_owned(), parameter: String::new() });
    rtcp_feedback.push(Feedback { typ: "nack".to_owned(), parameter: "pli".to_owned() });
    VideoCodec {
        mime_type: vp9_mime_type(),
        clock_rate: 90_000,
        channels: 0,
        sdp_fmtp_line: "profile-id=0".to_owned(),
        rtcp_feedback,
        payload_type: 98,
    }
}

/// The video track: what it carries, its id and the id of its stream.
#[derive(Debug)]
pub struct VideoTrack {
    pub mime_type: String,
    pub clock_rate: u32,
    pub id: String,
    pub stream_id: String,
}

/// The track that the host attaches to its peer connection.
pub fn video_track() -> (track: VideoTrack)
    ensures
        track.mime_type@ == "video/VP9"@,
        track.clock_rate == 90_000,
        track.id@ == "video"@,
        track.stream_id@ == "ghostview"@,
{
    VideoTrack {
        mime_type: vp9_mime_type(),
        clock_rate: 90_000,
        id: "video".to_owned(),
        stream_id: "ghostview".to_owned(),
    }
}

/// `bytes::Bytes`, a shared byte buffer.
#[verifier::external_type_specification]
#[verifier::external_body]
pub struct ExBytes(bytes::Bytes);

/// The bytes that a buffer holds.
pub uninterp spec fn buffer_content(buffer: bytes::Bytes) -> Seq<u8>;

/// Calls `bytes::Bytes::copy_from_slice`. Claimed of it: the new buffer holds
/// the bytes of the slice.
#[verifier::external_body]
fn copy_to_buffer(data: &[u8]) -> (buffer: bytes::Bytes)
    ensures
        buffer_content(buffer) == data@,
{
    bytes::Bytes::copy_from_slice(data)
}

/// One encoded picture for the video track.
pub struct TrackSample {
    pub data: bytes::Bytes,
    pub duration_ms: u64,
}

// ---------------------------------------------------------------------------
// The host
// ---------------------------------------------------------------------------

/// Why the crate `webrtc` refuses a text as an answer; `None` if it takes it.
pub uninterp spec fn answer_refusal(sdp: Seq<char>) -> Option<Seq<char>>;

/// Calls `RTCSessionDescription::answer` of the crate `webrtc`. Claimed of it:
/// whether it takes the text, and the error's message if it does not, depend
/// on the text alone; the description that it makes is an answer and holds the
/// text as it came.
#[verifier::external_body]
fn parse_answer(sdp: String) -> (answer: Result<SdpPayload, String>)
    ensures
        match answer {
            Ok(payload) => answer_refusal(sdp@) is None && payload.kind@ == "answer"@ && payload.sdp@
                == sdp@,
            Err(why) => answer_refusal(sdp@) == Some(why@),
        },
{
    match webrtc::peer_connection::sdp::session_description::RTCSessionDescription::answer(sdp) {
        Ok(description) => Ok(
            SdpPayload { kind: description.sdp_type.to_string(), sdp: description.sdp },
        ),
        Err(error) => Err(error.to_string()),
    }
}

/// The host side of a peer connection `P`, with the stream `I` of its local
/// candidates and the stream `S` of its connection states.
pub struct WebRtcHost<P, I, S> {
    peer: P,
    ice: Option<I>,
    states: Option<S>,
}

impl<P, I, S> WebRtcHost<P, I, S> {
    /// The peer connection.
    pub closed spec fn connection(&self) -> P {
        self.peer
    }

    /// The candidate stream; `None` once it was taken.
    pub closed spec fn ice_stream(&self) -> Option<I> {
        self.ice
    }

    /// The state stream; `None` once it was taken.
    pub closed spec fn state_stream(&self) -> Option<S> {
        self.states
    }

    pub fn new(peer: P, ice: I, states: S) -> (host: Self)
        ensures
            host.connection() == peer,
            host.ice_stream() == Some(ice),
            host.state_stream() == Some(states),
    {
        WebRtcHost { peer, ice: Some(ice), states: Some(states) }
    }

    pub fn peer(&self) -> (peer: &P)
        ensures
            *peer == self.connection(),
    {
        &self.peer
    }

    /// Takes the candidate stream. There is only one: later calls get `None`.
    pub fn take_ice_stream(&mut self) -> (stream: Option<I>)
        ensures
            stream == old(self).ice_stream(),
            final(self).ice_stream() is None,
            final(self).state_stream() == old(self).state_stream(),
            final(self).connection() == old(self).connection(),
    {
        self.ice.take()
    }

    /// Takes the state stream. There is only one: later calls get `None`.
    pub fn take_state_stream(&mut self) -> (stream: Option<S>)
        ensures
            stream == old(self).state_stream(),
            final(self).state_stream() is None,
            final(self).ice_stream() == old(self).ice_stream(),
            final(self).connection() == old(self).connection(),
    {
        self.states.take()
    }

    /// The description to set for the viewer's answer `sdp`, or the error if
    /// it is no session description.
    pub fn set_answer(sdp: String) -> (answer: Result<SdpPayload, WebRtcError>)
        ensures
            match answer {
                Ok(payload) => answer_refusal(sdp@) is None && payload.kind@ == "answer"@ && payload.sdp@
                    == sdp@,
                Err(e) => e matches WebRtcError::Webrtc(why) && answer_refusal(sdp@) == Some(why@),
            },
    {
        set_answer_result(parse_answer(sdp))
    }

    /// The candidate to add for what the viewer sent.
    pub fn add_ice_candidate(
        candidate: String,
        sdp_mid: Option<String>,
        sdp_mline_index: Option<u16>,
        username_fragment: Option<String>,
    ) -> (init: IceCandidateInit)
        ensures
            init == (IceCandidateInit { candidate, sdp_mid, sdp_mline_index, username_fragment }),
    {
        IceCandidateInit { candidate, sdp_mid, sdp_mline_index, username_fragment }
    }

    /// The sample to write for an encoded picture. An encoder sometimes has
    /// nothing to show for a frame; that makes no sample. A sample lasts at
    /// least a millisecond.
    pub fn push_frame(data: &[u8], duration_ms: u64) -> (sample: Option<TrackSample>)
        ensures
            sample is None <==> data@.len() == 0,
            sample matches Some(s) ==> {
                &&& buffer_content(s.data) == data@
                &&& s.duration_ms == if duration_ms == 0 {
                    1
                } else {
                    duration_ms
                }
            },
    {
        if data.len() == 0 {
            return None;
        }
        let duration_ms: u64 = if duration_ms == 0 {
            1
        } else {
            duration_ms
        };
        Some(TrackSample { data: copy_to_buffer(data), duration_ms })
    }
}

/// The outcome of applying an answer, from what parsing it gave.
pub fn set_answer_result(parsed: Result<SdpPayload, String>) -> (answer: Result<SdpPayload, WebRtcError>)
    ensures
        match parsed {
            Ok(payload) => answer == Ok::<SdpPayload, WebRtcError>(payload),
            Err(why) => answer == Err::<SdpPayload, WebRtcError>(WebRtcError::Webrtc(why)),
        },
{
    match parsed {
        Ok(payload) => Ok(payload),
        Err(why) => Err(WebRtcError::Webrtc(why)),
    }
}


/// A local candidate is seen with its own line, section and fragment.
pub proof fn a_local_candidate_shows_its_parts(local: LocalIceCandidate)
    ensures
        local@.candidate == local.candidate@,
        local@.sdp_mline_index == local.sdp_mline_index,
        local.sdp_mid matches Some(mid) ==> local@.sdp_mid == Some(mid@),
        local.sdp_mid is None ==> local@.sdp_mid is None,
        local.username_fragment matches Some(fragment) ==> local@.username_fragment == Some(fragment@),
        local.username_fragment is None ==> local@.username_fragment is None,
{
}

/// An error's message is a label for the kind of failure, then what went
/// wrong, in full.
pub proof fn webrtc_errors_end_with_what_went_wrong(why: String)
    ensures
        WebRtcError::Webrtc(why).text().take(14) == "webrtc error: "@,
        WebRtcError::Webrtc(why).text().skip(14) == why@,
        WebRtcError::State(why).text().take(15) == "invalid state: "@,
        WebRtcError::State(why).text().skip(15) == why@,
{
    reveal_strlit("webrtc error: ");
    reveal_strlit("invalid state: ");
    assert(WebRtcError::Webrtc(why).text().take(14) =~= "webrtc error: "@);
    assert(WebRtcError::Webrtc(why).text().skip(14) =~= why@);
    assert(WebRtcError::State(why).text().take(15) =~= "invalid state: "@);
    assert(WebRtcError::State(why).text().skip(15) =~= why@);
}

} // verus!
