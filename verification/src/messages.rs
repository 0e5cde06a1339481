//! The messages that the host and the signaling server exchange.
//!
//! Message `type` values are kebab-case. Outgoing messages carry no `pin`
//! (except for joining): the server knows which session a socket belongs to.
//! Session descriptions and candidates have the shapes that browsers use.
use vstd::prelude::*;

verus! {

/// A session description: what it is (`"offer"`, `"answer"`, ...) and its SDP.
#[derive(Debug, Clone)]
pub struct SdpPayload {
    pub kind: String,
    pub sdp: String,
}

/// The characters of an [`SdpPayload`].
pub struct SdpText {
    pub kind: Seq<char>,
    pub sdp: Seq<char>,
}

impl View for SdpPayload {
    type V = SdpText;

    open spec fn view(&self) -> SdpText {
        SdpText { kind: self.kind@, sdp: self.sdp@ }
    }
}

/// An ICE candidate in the shape that browsers give it.
#[derive(Debug, Clone)]
pub struct IceCandidateInit {
    pub candidate: String,
    pub sdp_mid: Option<String>,
    pub sdp_mline_index: Option<u16>,
    pub username_fragment: Option<String>,
}

/// The characters of an [`IceCandidateInit`].
pub struct CandidateText {
    pub candidate: Seq<char>,
    pub sdp_mid: Option<Seq<char>>,
    pub sdp_mline_index: Option<u16>,
    pub username_fragment: Option<Seq<char>>,
}

/// The characters of an optional string.
pub open spec fn optional_text(text: Option<String>) -> Option<Seq<char>> {
    match text {
        Some(s) => Some(s@),
        None => None,
    }
}

impl View for IceCandidateInit {
    type V = CandidateText;

    open spec fn view(&self) -> CandidateText {
        CandidateText {
            candidate: self.candidate@,
            sdp_mid: optional_text(self.sdp_mid),
            sdp_mline_index: self.sdp_mline_index,
            username_fragment: optional_text(self.username_fragment),
        }
    }
}

impl Default for IceCandidateInit {
    /// A candidate with an empty line and nothing else.
    fn default() -> (empty: Self)
        ensures
            empty@ == (CandidateText {
                candidate: Seq::empty(),
                sdp_mid: None,
                sdp_mline_index: None,
                username_fragment: None,
            }),
    {
        IceCandidateInit {
            candidate: String::new(),
            sdp_mid: None,
            sdp_mline_index: None,
            username_fragment: None,
        }
    }
}

/// What the host sends to the signaling server.
#[derive(Debug, Clone)]
pub enum ClientMessage {
    /// Asks for a new session and its PIN.
    CreateSession,
    /// Joins a session by PIN; a viewer's message.
    JoinSession { pin: String },
    Offer { sdp: SdpPayload },
    Answer { sdp: SdpPayload },
    /// `None` says that no more candidates follow.
    IceCandidate { candidate: Option<IceCandidateInit> },
    EndSession,
}

/// What the signaling server sends to the host.
#[derive(Debug, Clone)]
pub enum ServerMessage {
    SessionCreated { pin: String },
    SessionJoined,
    ViewerJoined,
    Offer { sdp: SdpPayload },
    Answer { sdp: SdpPayload },
    IceCandidate { candidate: Option<IceCandidateInit> },
    PeerDisconnected,
    SessionExpired,
    Error { error: String },
}

/// The characters of a [`ServerMessage`].
pub enum ServerText {
    SessionCreated { pin: Seq<char> },
    SessionJoined,
    ViewerJoined,
    Offer { sdp: SdpText },
    Answer { sdp: SdpText },
    IceCandidate { candidate: Option<CandidateText> },
    PeerDisconnected,
    SessionExpired,
    Error { error: Seq<char> },
}

impl View for ServerMessage {
    type V = ServerText;

    open spec fn view(&self) -> ServerText {
        match self {
            ServerMessage::SessionCreated { pin } => ServerText::SessionCreated { pin: pin@ },
            ServerMessage::SessionJoined => ServerText::SessionJoined,
            ServerMessage::ViewerJoined => ServerText::ViewerJoined,
            ServerMessage::Offer { sdp } => ServerText::Offer { sdp: sdp@ },
            ServerMessage::Answer { sdp } => ServerText::Answer { sdp: sdp@ },
            ServerMessage::IceCandidate { candidate } => ServerText::IceCandidate {
                candidate: match candidate {
                    Some(c) => Some(c@),
                    None => None,
                },
            },
            ServerMessage::PeerDisconnected => ServerText::PeerDisconnected,
            ServerMessage::SessionExpired => ServerText::SessionExpired,
            ServerMessage::Error { error } => ServerText::Error { error: error@ },
        }
    }
}


/// A description is seen with its own kind and SDP.
pub proof fn a_description_shows_its_parts(payload: SdpPayload)
    ensures
        payload@.kind == payload.kind@,
        payload@.sdp == payload.sdp@,
{
}

/// A candidate is seen with its own line, section and fragment.
pub proof fn a_candidate_shows_its_parts(init: IceCandidateInit)
    ensures
        init@.candidate == init.candidate@,
        init@.sdp_mline_index == init.sdp_mline_index,
        init.sdp_mid matches Some(mid) ==> init@.sdp_mid == Some(mid@),
        init.sdp_mid is None ==> init@.sdp_mid is None,
        init.username_fragment matches Some(fragment) ==> init@.username_fragment == Some(fragment@),
        init.username_fragment is None ==> init@.username_fragment is None,
{
}

/// A message is seen as what it is, with its own parts.
pub proof fn a_message_shows_its_parts(message: ServerMessage)
    ensures
        message is SessionJoined <==> message@ is SessionJoined,
        message is ViewerJoined <==> message@ is ViewerJoined,
        message is PeerDisconnected <==> message@ is PeerDisconnected,
        message is SessionExpired <==> message@ is SessionExpired,
        message matches ServerMessage::SessionCreated { pin } ==> message@
            == (ServerText::SessionCreated { pin: pin@ }),
        message matches ServerMessage::Error { error } ==> message@ == (ServerText::Error {
            error: error@,
        }),
        message matches ServerMessage::Offer { sdp } ==> (message@ matches ServerText::Offer {
            sdp: seen,
        } && seen.kind == sdp.kind@ && seen.sdp == sdp.sdp@),
        message matches ServerMessage::Answer { sdp } ==> (message@ matches ServerText::Answer {
            sdp: seen,
        } && seen.kind == sdp.kind@ && seen.sdp == sdp.sdp@),
        message matches ServerMessage::IceCandidate { candidate: None } ==> message@
            == (ServerText::IceCandidate { candidate: None }),
        message matches ServerMessage::IceCandidate { candidate: Some(init) } ==> message@
            == (ServerText::IceCandidate { candidate: Some(init@) }),
{
}

} // verus!
