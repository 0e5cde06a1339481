//! The background tasks of a session, as decisions: what each does about what
//! it is told, and when the session is to end.
use crate::messages::{ClientMessage, IceCandidateInit, SdpPayload, ServerMessage};
use crate::text::same_text;
use crate::webrtc_host::{ConnState, LocalIceCandidate};
use vstd::prelude::*;

verus! {

/// How many shutdown signals may wait: enough for every task to send one.
pub const SHUTDOWN_CAPACITY: usize = 10;

/// Why a session ends without the user asking for it.
#[derive(Debug, Clone, Copy, PartialEq, Eq, Structural)]
pub enum ShutdownReason {
    CreateOfferFailed,
    SetAnswerFailed,
    PeerDisconnected,
    ServerError,
    IceFailed,
    IceClosed,
    IceDisconnectedTerminal,
    IceDisconnectedTimeout,
    EncoderPanic,
    EncoderForwarderPanic,
    Unknown,
}

impl ShutdownReason {
    /// The reason's name in logs, as characters.
    pub open spec fn name(self) -> Seq<char> {
        match self {
            ShutdownReason::CreateOfferFailed => "create_offer_failed"@,
            ShutdownReason::SetAnswerFailed => "set_answer_failed"@,
            ShutdownReason::PeerDisconnected => "peer_disconnected"@,
            ShutdownReason::ServerError => "server_error"@,
            ShutdownReason::IceFailed => "ice_failed"@,
            ShutdownReason::IceClosed => "ice_closed"@,
            ShutdownReason::IceDisconnectedTerminal => "ice_disconnected_terminal"@,
            ShutdownReason::IceDisconnectedTimeout => "ice_disconnected_timeout"@,
            ShutdownReason::EncoderPanic => "encoder_panic"@,
            ShutdownReason::EncoderForwarderPanic => "encoder_forwarder_panic"@,
            ShutdownReason::Unknown => "unknown"@,
        }
    }

    /// The reason's name in logs.
    pub fn as_str(self) -> (name: &'static str)
        ensures
            name@ == self.name(),
    {
        match self {
            ShutdownReason::CreateOfferFailed => "create_offer_failed",
            ShutdownReason::SetAnswerFailed => "set_answer_failed",
            ShutdownReason::PeerDisconnected => "peer_disconnected",
            ShutdownReason::ServerError => "server_error",
            ShutdownReason::IceFailed => "ice_failed",
            ShutdownReason::IceClosed => "ice_closed",
            ShutdownReason::IceDisconnectedTerminal => "ice_disconnected_terminal",
            ShutdownReason::IceDisconnectedTimeout => "ice_disconnected_timeout",
            ShutdownReason::EncoderPanic => "encoder_panic",
            ShutdownReason::EncoderForwarderPanic => "encoder_forwarder_panic",
            ShutdownReason::Unknown => "unknown",
        }
    }
}

/// The reason for a shutdown from what the supervisor received; it receives
/// nothing if every task let go of its end.
pub fn shutdown_reason(received: Option<ShutdownReason>) -> (reason: ShutdownReason)
    ensures
        reason == (match received {
            Some(r) => r,
            None => ShutdownReason::Unknown,
        }),
{
    match received {
        Some(reason) => reason,
        None => ShutdownReason::Unknown,
    }
}

// ---------------------------------------------------------------------------
// The signaling loop
// ---------------------------------------------------------------------------

/// What the signaling loop is told.
pub enum HostEvent {
    /// The server sent a message.
    Message(ServerMessage),
    /// No more messages come.
    StreamEnded,
    /// The peer connection made an offer, or could not.
    OfferMade(Option<String>),
    /// The offer was handed to signaling, or could not be.
    OfferSent(bool),
    /// The viewer's answer was applied, or could not be.
    AnswerApplied(bool),
    /// The viewer's candidate was added, or could not be.
    CandidateAdded(bool),
}

/// What the signaling loop does next.
pub enum HostAction {
    /// Wait for the next message.
    Listen,
    /// Let the peer connection make an offer.
    CreateOffer,
    /// Send the offer to the viewer.
    SendOffer(ClientMessage),
    /// Apply the viewer's answer, an SDP text.
    SetAnswer(String),
    /// Add a candidate of the viewer's.
    AddCandidate(IceCandidateInit),
    /// End the loop and, where there is a reason, the session.
    Stop(Option<ShutdownReason>),
}

/// Whether a server error means that the connection is of no use any more.
pub open spec fn hard_error(error: Seq<char>) -> bool {
    error == "server_shutdown"@ || error == "rate_limited"@
}

/// Whether `action` is what the loop does about `message`.
pub open spec fn is_reaction(message: ServerMessage, action: HostAction) -> bool {
    match message {
        // The host makes the offer as soon as somebody is there to take it.
        ServerMessage::ViewerJoined => action is CreateOffer,
        ServerMessage::Answer { sdp } => action == HostAction::SetAnswer(sdp.sdp),
        ServerMessage::IceCandidate { candidate: Some(c) } => action == HostAction::AddCandidate(c),
        // The end of candidates needs no call.
        ServerMessage::IceCandidate { candidate: None } => action is Listen,
        // The host is always the one who offers.
        ServerMessage::Offer { .. } => action is Listen,
        ServerMessage::SessionCreated { .. } | ServerMessage::SessionJoined => action is Listen,
        ServerMessage::PeerDisconnected | ServerMessage::SessionExpired => action == HostAction::Stop(
            Some(ShutdownReason::PeerDisconnected),
        ),
        ServerMessage::Error { error } => if hard_error(error@) {
            action == HostAction::Stop(Some(ShutdownReason::ServerError))
        } else {
            action is Listen
        },
    }
}

/// What the signaling loop does about a message of the server.
pub fn on_server_message(message: ServerMessage) -> (action: HostAction)
    ensures
        is_reaction(message, action),
{
    match message {
        ServerMessage::ViewerJoined => HostAction::CreateOffer,
        ServerMessage::Answer { sdp } => HostAction::SetAnswer(sdp.sdp),
        ServerMessage::IceCandidate { candidate } => match candidate {
            Some(c) => HostAction::AddCandidate(c),
            None => HostAction::Listen,
        },
        ServerMessage::Offer { .. } => HostAction::Listen,
        ServerMessage::SessionCreated { .. } => HostAction::Listen,
        ServerMessage::SessionJoined => HostAction::Listen,
        ServerMessage::PeerDisconnected => HostAction::Stop(Some(ShutdownReason::PeerDisconnected)),
        ServerMessage::SessionExpired => HostAction::Stop(Some(ShutdownReason::PeerDisconnected)),
        ServerMessage::Error { error } => {
            if same_text(&error, "server_shutdown") || same_text(&error, "rate_limited") {
                HostAction::Stop(Some(ShutdownReason::ServerError))
            } else {
                HostAction::Listen
            }
        },
    }
}

/// Whether `action` is what the signaling loop does about `event`.
pub open spec fn is_host_step(event: HostEvent, action: HostAction) -> bool {
    match event {
        HostEvent::Message(message) => is_reaction(message, action),
        HostEvent::StreamEnded => action == HostAction::Stop(None),
        HostEvent::OfferMade(Some(sdp)) => action matches HostAction::SendOffer(message) && (
        message matches ClientMessage::Offer { sdp: payload } && payload.kind@ == "offer"@
            && payload.sdp == sdp),
        HostEvent::OfferMade(None) => action == HostAction::Stop(
            Some(ShutdownReason::CreateOfferFailed),
        ),
        HostEvent::OfferSent(sent) => if sent {
            action is Listen
        } else {
            action == HostAction::Stop(None)
        },
        HostEvent::AnswerApplied(applied) => if applied {
            action is Listen
        } else {
            action == HostAction::Stop(Some(ShutdownReason::SetAnswerFailed))
        },
        HostEvent::CandidateAdded(_) => action is Listen,
    }
}

/// What the signaling loop does about `event`. A failed offer or answer ends
/// the session; a failed candidate does not; if signaling itself is gone, the
/// loop ends and leaves the session to the others.
pub fn signaling_step(event: HostEvent) -> (action: HostAction)
    ensures
        is_host_step(event, action),
{
    match event {
        HostEvent::Message(message) => on_server_message(message),
        HostEvent::StreamEnded => HostAction::Stop(None),
        HostEvent::OfferMade(made) => match made {
            Some(sdp) => HostAction::SendOffer(
                ClientMessage::Offer { sdp: SdpPayload { kind: "offer".to_owned(), sdp } },
            ),
            None => HostAction::Stop(Some(ShutdownReason::CreateOfferFailed)),
        },
        HostEvent::OfferSent(sent) => if sent {
            HostAction::Listen
        } else {
            HostAction::Stop(None)
        },
        HostEvent::AnswerApplied(applied) => if applied {
            HostAction::Listen
        } else {
            HostAction::Stop(Some(ShutdownReason::SetAnswerFailed))
        },
        HostEvent::CandidateAdded(_) => HostAction::Listen,
    }
}

/// Only a viewer who joins makes the host offer, and nothing that the server
/// sends makes it answer or offer otherwise.
pub proof fn only_a_viewer_brings_an_offer(message: ServerMessage, action: HostAction)
    requires
        is_reaction(message, action),
    ensures
        action is CreateOffer <==> message is ViewerJoined,
        !(action is SendOffer),
{
}

/// Whether the server ends the session with `message`: the peer is gone, the
/// session has expired, or a hard error.
pub open spec fn ends_session(message: ServerMessage) -> bool {
    ||| message is PeerDisconnected
    ||| message is SessionExpired
    ||| (message matches ServerMessage::Error { error } && (error@ == "server_shutdown"@ || error@
        == "rate_limited"@))
}

/// The reason for which a session ends with `message`.
pub open spec fn ending_reason(message: ServerMessage) -> ShutdownReason {
    if message is Error {
        ShutdownReason::ServerError
    } else {
        ShutdownReason::PeerDisconnected
    }
}

/// The server ends the session with three kinds of messages and no others.
pub proof fn what_ends_the_session(message: ServerMessage, action: HostAction)
    requires
        is_reaction(message, action),
    ensures
        action is Stop <==> ends_session(message),
        action is Stop ==> action == HostAction::Stop(Some(ending_reason(message))),
{
}

/// Whether `event` says that a call failed which the session cannot do
/// without.
pub open spec fn is_failure(event: HostEvent) -> bool {
    match event {
        HostEvent::OfferMade(made) => made is None,
        HostEvent::OfferSent(sent) => !sent,
        HostEvent::AnswerApplied(applied) => !applied,
        _ => false,
    }
}

/// Whether `event` is the end of the message stream or a message that ends
/// the session.
pub open spec fn is_ending(event: HostEvent) -> bool {
    match event {
        HostEvent::Message(message) => ends_session(message),
        HostEvent::StreamEnded => true,
        _ => false,
    }
}

/// Whether the signaling loop, told `events` one after the other, takes
/// `actions`: it goes by `signaling_step` each time, until it stops or nothing
/// more comes.
pub open spec fn is_host_run(events: Seq<HostEvent>, actions: Seq<HostAction>) -> bool {
    &&& actions.len() <= events.len()
    &&& forall|i: int| 0 <= i < actions.len() ==> is_host_step(events[i], #[trigger] actions[i])
    &&& forall|i: int| 0 <= i < actions.len() - 1 ==> !((#[trigger] actions[i]) is Stop)
    &&& actions.len() == events.len() || (actions.len() > 0 && actions.last() is Stop)
}

/// The reasons to end the session that these actions give.
pub open spec fn reasons_given(actions: Seq<HostAction>) -> Seq<ShutdownReason>
    decreases actions.len(),
{
    if actions.len() == 0 {
        Seq::empty()
    } else {
        let before = reasons_given(actions.drop_last());
        match actions.last() {
            HostAction::Stop(Some(reason)) => before.push(reason),
            _ => before,
        }
    }
}

/// The first message that ends the session decides: if no call fails before
/// it, the loop gives its reason and no other, and looks at nothing that comes
/// after it. Without such a message, or if the stream ends before it, no
/// reason is given. `end` is where the first ending stands, or the number of
/// events if none does.
pub proof fn the_first_ending_decides(events: Seq<HostEvent>, actions: Seq<HostAction>, end: int)
    requires
        is_host_run(events, actions),
        0 <= end <= events.len(),
        forall|i: int|
            0 <= i < end ==> !is_failure(#[trigger] events[i]) && !is_ending(events[i]),
        end < events.len() ==> is_ending(events[end]),
    ensures
        actions.len() == if end < events.len() {
            end + 1
        } else {
            end
        },
        reasons_given(actions) == (if end < events.len() {
            match events[end] {
                HostEvent::Message(message) => seq![ending_reason(message)],
                _ => Seq::empty(),
            }
        } else {
            Seq::empty()
        }),
{
    assert(actions.len() <= end + 1) by {
        if actions.len() > end + 1 {
            assert(is_host_step(events[end], actions[end]));
            assert(!(actions[end] is Stop));
        }
    }
    assert(actions.len() >= end) by {
        if actions.len() < end {
            let last = actions.len() - 1;
            assert(is_host_step(events[last], actions[last]));
            assert(!is_failure(events[last]) && !is_ending(events[last]));
        }
    }
    no_reason_without_an_ending(events, actions, end);
    if actions.len() == end {
        if end < events.len() {
            let last = actions.len() - 1;
            assert(is_host_step(events[last], actions[last]));
            assert(!is_failure(events[last]) && !is_ending(events[last]));
        }
        assert(actions.take(end) =~= actions);
    } else {
        assert(is_host_step(events[end], actions[end]));
        assert(actions.drop_last() =~= actions.take(end));
    }
}

/// As long as nothing ends the session and no call fails, no reason is given.
proof fn no_reason_without_an_ending(events: Seq<HostEvent>, actions: Seq<HostAction>, n: int)
    requires
        is_host_run(events, actions),
        0 <= n <= actions.len(),
        forall|i: int| 0 <= i < n ==> !is_failure(#[trigger] events[i]) && !is_ending(events[i]),
    ensures
        reasons_given(actions.take(n)) == Seq::<ShutdownReason>::empty(),
    decreases n,
{
    if n > 0 {
        no_reason_without_an_ending(events, actions, n - 1);
        assert(actions.take(n).drop_last() =~= actions.take(n - 1));
        assert(is_host_step(events[n - 1], actions[n - 1]));
        assert(!is_failure(events[n - 1]) && !is_ending(events[n - 1]));
    }
}

/// The candidates that the server's messages carry.
pub open spec fn candidates_carried(events: Seq<HostEvent>) -> Seq<IceCandidateInit>
    decreases events.len(),
{
    if events.len() == 0 {
        Seq::empty()
    } else {
        let before = candidates_carried(events.drop_last());
        match events.last() {
            HostEvent::Message(ServerMessage::IceCandidate { candidate: Some(c) }) => before.push(c),
            _ => before,
        }
    }
}

/// The candidates that these actions add to the peer connection.
pub open spec fn candidates_added(actions: Seq<HostAction>) -> Seq<IceCandidateInit>
    decreases actions.len(),
{
    if actions.len() == 0 {
        Seq::empty()
    } else {
        let before = candidates_added(actions.drop_last());
        match actions.last() {
            HostAction::AddCandidate(c) => before.push(c),
            _ => before,
        }
    }
}

/// The answers that the server's messages carry, as SDP texts.
pub open spec fn answers_carried(events: Seq<HostEvent>) -> Seq<String>
    decreases events.len(),
{
    if events.len() == 0 {
        Seq::empty()
    } else {
        let before = answers_carried(events.drop_last());
        match events.last() {
            HostEvent::Message(ServerMessage::Answer { sdp }) => before.push(sdp.sdp),
            _ => before,
        }
    }
}

/// The answers that these actions apply.
pub open spec fn answers_set(actions: Seq<HostAction>) -> Seq<String>
    decreases actions.len(),
{
    if actions.len() == 0 {
        Seq::empty()
    } else {
        let before = answers_set(actions.drop_last());
        match actions.last() {
            HostAction::SetAnswer(sdp) => before.push(sdp),
            _ => before,
        }
    }
}

/// How many viewers joined.
pub open spec fn viewers_joined(events: Seq<HostEvent>) -> nat
    decreases events.len(),
{
    if events.len() == 0 {
        0
    } else {
        viewers_joined(events.drop_last()) + match events.last() {
            HostEvent::Message(ServerMessage::ViewerJoined) => 1nat,
            _ => 0nat,
        }
    }
}

/// How many offers the peer connection is asked for.
pub open spec fn offers_asked(actions: Seq<HostAction>) -> nat
    decreases actions.len(),
{
    if actions.len() == 0 {
        0
    } else {
        offers_asked(actions.drop_last()) + if actions.last() is CreateOffer {
            1nat
        } else {
            0nat
        }
    }
}

/// The offers that the peer connection made, as SDP texts.
pub open spec fn offers_made(events: Seq<HostEvent>) -> Seq<Seq<char>>
    decreases events.len(),
{
    if events.len() == 0 {
        Seq::empty()
    } else {
        let before = offers_made(events.drop_last());
        match events.last() {
            HostEvent::OfferMade(Some(sdp)) => before.push(sdp@),
            _ => before,
        }
    }
}

/// What these actions send to the viewer.
pub open spec fn host_messages(actions: Seq<HostAction>) -> Seq<ClientMessage>
    decreases actions.len(),
{
    if actions.len() == 0 {
        Seq::empty()
    } else {
        let before = host_messages(actions.drop_last());
        match actions.last() {
            HostAction::SendOffer(message) => before.push(message),
            _ => before,
        }
    }
}

/// Whether `message` is the offer with this SDP text.
pub open spec fn is_offer_of(message: ClientMessage, sdp: Seq<char>) -> bool {
    message matches ClientMessage::Offer { sdp: payload } && payload.kind@ == "offer"@ && payload.sdp@
        == sdp
}

/// Until something ends the loop, everything is passed on, once and in order:
/// each candidate that the server's messages carry is added to the peer
/// connection as it came, each answer is applied as it came, each viewer who
/// joins brings one request for an offer, and each offer made is sent. Nothing
/// else is added, applied, asked for or sent.
pub proof fn the_loop_passes_everything_on(events: Seq<HostEvent>, actions: Seq<HostAction>, end: int)
    requires
        is_host_run(events, actions),
        0 <= end <= events.len(),
        forall|i: int|
            0 <= i < end ==> !is_failure(#[trigger] events[i]) && !is_ending(events[i]),
        end < events.len() ==> is_ending(events[end]),
    ensures
        candidates_added(actions) == candidates_carried(events.take(end)),
        answers_set(actions) == answers_carried(events.take(end)),
        offers_asked(actions) == viewers_joined(events.take(end)),
        host_messages(actions).len() == offers_made(events.take(end)).len(),
        forall|i: int|
            0 <= i < host_messages(actions).len() ==> is_offer_of(
                #[trigger] host_messages(actions)[i],
                offers_made(events.take(end))[i],
            ),
{
    the_first_ending_decides(events, actions, end);
    loop_keeps_up(events, actions, end);
    if actions.len() == end {
        assert(actions.take(end) =~= actions);
    } else {
        assert(is_host_step(events[end], actions[end]));
        assert(actions.drop_last() =~= actions.take(end));
    }
}

/// The first `n` actions pass on what the first `n` events bring.
proof fn loop_keeps_up(events: Seq<HostEvent>, actions: Seq<HostAction>, n: int)
    requires
        is_host_run(events, actions),
        0 <= n <= actions.len(),
        forall|i: int| 0 <= i < n ==> !is_failure(#[trigger] events[i]) && !is_ending(events[i]),
    ensures
        candidates_added(actions.take(n)) == candidates_carried(events.take(n)),
        answers_set(actions.take(n)) == answers_carried(events.take(n)),
        offers_asked(actions.take(n)) == viewers_joined(events.take(n)),
        host_messages(actions.take(n)).len() == offers_made(events.take(n)).len(),
        forall|i: int|
            0 <= i < host_messages(actions.take(n)).len() ==> is_offer_of(
                #[trigger] host_messages(actions.take(n))[i],
                offers_made(events.take(n))[i],
            ),
    decreases n,
{
    if n > 0 {
        loop_keeps_up(events, actions, n - 1);
        assert(actions.take(n).drop_last() =~= actions.take(n - 1));
        assert(events.take(n).drop_last() =~= events.take(n - 1));
        assert(actions.take(n).last() == actions[n - 1]);
        assert(events.take(n).last() == events[n - 1]);
        assert(is_host_step(events[n - 1], actions[n - 1]));
        assert(!is_failure(events[n - 1]) && !is_ending(events[n - 1]));
    }
}

/// A failed offer or answer ends the loop with its own reason, a message that
/// could not be sent ends it without one, and a candidate that could not be
/// added does not end it.
pub proof fn what_failures_bring(event: HostEvent, action: HostAction)
    requires
        is_host_step(event, action),
    ensures
        event == HostEvent::OfferMade(None) ==> action == HostAction::Stop(
            Some(ShutdownReason::CreateOfferFailed),
        ),
        event == HostEvent::AnswerApplied(false) ==> action == HostAction::Stop(
            Some(ShutdownReason::SetAnswerFailed),
        ),
        event == HostEvent::OfferSent(false) ==> action == HostAction::Stop(None),
        event is CandidateAdded ==> action is Listen,
{
}

// ---------------------------------------------------------------------------
// The candidate forwarder
// ---------------------------------------------------------------------------

/// The message that says that no more candidates follow.
pub open spec fn end_of_candidates() -> ClientMessage {
    ClientMessage::IceCandidate { candidate: None }
}

/// Whether `message` relays the local candidate `local`: one with an empty
/// line stands for the end of candidates.
pub open spec fn relays(message: ClientMessage, local: LocalIceCandidate) -> bool {
    if local.candidate@.len() == 0 {
        message == end_of_candidates()
    } else {
        message matches ClientMessage::IceCandidate { candidate: Some(init) } && init@ == local@
    }
}

/// The message that relays a local candidate.
pub fn relay_candidate(local: LocalIceCandidate) -> (message: ClientMessage)
    ensures
        relays(message, local),
{
    if local.candidate.as_str().is_empty() {
        ClientMessage::IceCandidate { candidate: None }
    } else {
        ClientMessage::IceCandidate {
            candidate: Some(
                IceCandidateInit {
                    candidate: local.candidate,
                    sdp_mid: local.sdp_mid,
                    sdp_mline_index: local.sdp_mline_index,
                    username_fragment: local.username_fragment,
                },
            ),
        }
    }
}

/// What the forwarder is told.
pub enum ForwardEvent {
    /// The peer connection found a candidate.
    Candidate(LocalIceCandidate),
    /// No more candidates come.
    StreamEnded,
    /// Signaling took the message, or is gone.
    Sent(bool),
}

/// What the forwarder does next.
pub enum ForwardAction {
    /// Wait for the next candidate.
    Listen,
    /// Send this message.
    Send(ClientMessage),
    /// Send this message, whether or not it gets through, and end.
    SendLast(ClientMessage),
}

/// Whether `action` is what the forwarder does about `event`.
pub open spec fn is_forward_step(event: ForwardEvent, action: ForwardAction) -> bool {
    match event {
        ForwardEvent::Candidate(local) => action matches ForwardAction::Send(message) && relays(
            message,
            local,
        ),
        ForwardEvent::StreamEnded => action == ForwardAction::SendLast(end_of_candidates()),
        ForwardEvent::Sent(true) => action is Listen,
        ForwardEvent::Sent(false) => action == ForwardAction::SendLast(end_of_candidates()),
    }
}

/// What the forwarder does about `event`. Before it ends it always tries to
/// tell the viewer that no more candidates follow, even if the peer
/// connection went away without saying so.
pub fn forward_step(event: ForwardEvent) -> (action: ForwardAction)
    ensures
        is_forward_step(event, action),
{
    match event {
        ForwardEvent::Candidate(local) => ForwardAction::Send(relay_candidate(local)),
        ForwardEvent::StreamEnded => ForwardAction::SendLast(
            ClientMessage::IceCandidate { candidate: None },
        ),
        ForwardEvent::Sent(sent) => if sent {
            ForwardAction::Listen
        } else {
            ForwardAction::SendLast(ClientMessage::IceCandidate { candidate: None })
        },
    }
}

/// Whether `event` ends the forwarder: no more candidates come, or signaling
/// is gone.
pub open spec fn ends_forwarding(event: ForwardEvent) -> bool {
    event is StreamEnded || event == ForwardEvent::Sent(false)
}

/// The candidates among these events.
pub open spec fn candidates_found(events: Seq<ForwardEvent>) -> Seq<LocalIceCandidate>
    decreases events.len(),
{
    if events.len() == 0 {
        Seq::empty()
    } else {
        let before = candidates_found(events.drop_last());
        match events.last() {
            ForwardEvent::Candidate(local) => before.push(local),
            _ => before,
        }
    }
}

/// The messages that these actions send.
pub open spec fn messages_sent(actions: Seq<ForwardAction>) -> Seq<ClientMessage>
    decreases actions.len(),
{
    if actions.len() == 0 {
        Seq::empty()
    } else {
        let before = messages_sent(actions.drop_last());
        match actions.last() {
            ForwardAction::Send(message) => before.push(message),
            ForwardAction::SendLast(message) => before.push(message),
            ForwardAction::Listen => before,
        }
    }
}

/// Whether `message` tells the viewer of the candidate `local`, with its line
/// and whatever else is known of it, or, for an empty line alone, that no more
/// candidates follow.
pub open spec fn tells_of(message: ClientMessage, local: LocalIceCandidate) -> bool {
    match message {
        ClientMessage::IceCandidate { candidate: Some(init) } => {
            &&& local.candidate@.len() > 0
            &&& init.candidate@ == local.candidate@
            &&& match (init.sdp_mid, local.sdp_mid) {
                (Some(told), Some(known)) => told@ == known@,
                (None, None) => true,
                _ => false,
            }
            &&& init.sdp_mline_index == local.sdp_mline_index
            &&& match (init.username_fragment, local.username_fragment) {
                (Some(told), Some(known)) => told@ == known@,
                (None, None) => true,
                _ => false,
            }
        },
        ClientMessage::IceCandidate { candidate: None } => local.candidate@.len() == 0,
        _ => false,
    }
}

/// A message that relays a candidate tells the viewer of it in full; only an
/// empty line becomes the end of candidates.
pub proof fn a_relayed_candidate_is_told(message: ClientMessage, local: LocalIceCandidate)
    requires
        relays(message, local),
    ensures
        tells_of(message, local),
{
}

/// The viewer is told of every candidate and then of the end: from its start
/// to its end, over however many candidates, the forwarder sends one message
/// for each of them, in order, and one more that says that no more follow.
pub proof fn every_candidate_is_relayed_once(events: Seq<ForwardEvent>, actions: Seq<ForwardAction>)
    requires
        events.len() > 0,
        actions.len() == events.len(),
        forall|i: int| 0 <= i < actions.len() ==> is_forward_step(events[i], #[trigger] actions[i]),
        forall|i: int| 0 <= i < events.len() - 1 ==> !ends_forwarding(#[trigger] events[i]),
        ends_forwarding(events.last()),
    ensures
        messages_sent(actions).len() == candidates_found(events).len() + 1,
        forall|i: int|
            0 <= i < candidates_found(events).len() ==> tells_of(
                #[trigger] messages_sent(actions)[i],
                candidates_found(events)[i],
            ),
        messages_sent(actions).last() == (ClientMessage::IceCandidate { candidate: None }),
{
    let n = events.len() - 1;
    relays_keep_up(events, actions, n);
    assert(events.drop_last() =~= events.take(n));
    assert(actions.drop_last() =~= actions.take(n));
    assert(is_forward_step(events[n], actions[n]));
}

/// As long as nothing ends the forwarder, messages keep up with candidates.
proof fn relays_keep_up(events: Seq<ForwardEvent>, actions: Seq<ForwardAction>, n: int)
    requires
        actions.len() == events.len(),
        0 <= n <= events.len(),
        forall|i: int| 0 <= i < actions.len() ==> is_forward_step(events[i], #[trigger] actions[i]),
        forall|i: int| 0 <= i < n ==> !ends_forwarding(#[trigger] events[i]),
    ensures
        messages_sent(actions.take(n)).len() == candidates_found(events.take(n)).len(),
        forall|i: int|
            0 <= i < candidates_found(events.take(n)).len() ==> tells_of(
                #[trigger] messages_sent(actions.take(n))[i],
                candidates_found(events.take(n))[i],
            ),
    decreases n,
{
    if n > 0 {
        relays_keep_up(events, actions, n - 1);
        assert(events.take(n).drop_last() =~= events.take(n - 1));
        assert(actions.take(n).drop_last() =~= actions.take(n - 1));
        assert(is_forward_step(events[n - 1], actions[n - 1]));
        assert(!ends_forwarding(events[n - 1]));
    }
}

// ---------------------------------------------------------------------------
// Joining tasks
// ---------------------------------------------------------------------------

/// How waiting for a task came out.
#[derive(Debug, Clone, Copy, PartialEq, Eq, Structural)]
pub enum JoinOutcome {
    Finished,
    Panicked,
    Cancelled,
    Failed,
    TimedOut,
}

/// What is made of the way in which a task ended.
#[derive(Debug, Clone, Copy, PartialEq, Eq, Structural)]
pub enum JoinVerdict {
    /// In order.
    Clean,
    /// Worth a warning.
    Unusual,
    /// The task panicked: an error to report.
    Panic,
    /// The task hangs: it is to be aborted.
    Abort,
}

/// What to do after waiting for a task. A task is aborted only if it did not
/// end in time; a panic is reported and goes no further.
pub fn abort_after(outcome: JoinOutcome) -> (verdict: JoinVerdict)
    ensures
        verdict == (match outcome {
            JoinOutcome::Finished | JoinOutcome::Cancelled => JoinVerdict::Clean,
            JoinOutcome::Failed => JoinVerdict::Unusual,
            JoinOutcome::Panicked => JoinVerdict::Panic,
            JoinOutcome::TimedOut => JoinVerdict::Abort,
        }),
{
    match outcome {
        JoinOutcome::Finished => JoinVerdict::Clean,
        JoinOutcome::Cancelled => JoinVerdict::Clean,
        JoinOutcome::Failed => JoinVerdict::Unusual,
        JoinOutcome::Panicked => JoinVerdict::Panic,
        JoinOutcome::TimedOut => JoinVerdict::Abort,
    }
}

/// The two tasks of the encoder pipeline.
#[derive(Debug, Clone, Copy, PartialEq, Eq, Structural)]
pub enum EncoderTask {
    Blocking,
    Forwarder,
}

/// The shutdown signal that a task of the encoder pipeline leaves behind: a
/// panic ends the session.
pub fn encoder_exit(task: EncoderTask, panicked: bool) -> (reason: Option<ShutdownReason>)
    ensures
        reason == if !panicked {
            None
        } else if task == EncoderTask::Blocking {
            Some(ShutdownReason::EncoderPanic)
        } else {
            Some(ShutdownReason::EncoderForwarderPanic)
        },
{
    if !panicked {
        return None;
    }
    match task {
        EncoderTask::Blocking => Some(ShutdownReason::EncoderPanic),
        EncoderTask::Forwarder => Some(ShutdownReason::EncoderForwarderPanic),
    }
}

} // verus!
