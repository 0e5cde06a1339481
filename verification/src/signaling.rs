//! The signaling client: its handle, the wait for a session's PIN, and what
//! its two pumps do with what they are given.
use crate::messages::{ClientMessage, ServerMessage, ServerText};
use crate::text::prefixed;
use crate::wire::{client_json, server_message, WireMessage};
use vstd::prelude::*;

verus! {

/// How many messages may wait in either direction.
pub const SIGNALING_CAPACITY: usize = 32;

/// How long to wait for the answer to a request for a session.
pub const CREATE_TIMEOUT_MS: u64 = 10_000;

/// How often an idle connection is pinged: often enough for common NAT
/// timeouts of about 30 seconds.
pub const KEEPALIVE_MS: u64 = 20_000;

/// Why signaling failed.
#[derive(Debug)]
pub enum SignalingError {
    WebSocket(String),
    Protocol(String),
    Server(String),
    Timeout(&'static str),
    Json(String),
    ChannelClosed,
}

impl SignalingError {
    /// The message that is shown to a user, as characters.
    pub open spec fn text(&self) -> Seq<char> {
        match self {
            SignalingError::WebSocket(why) => "websocket error: "@ + why@,
            SignalingError::Protocol(why) => "protocol error: "@ + why@,
            SignalingError::Server(why) => "server error: "@ + why@,
            SignalingError::Timeout(what) => "timed out waiting for "@ + what@,
            SignalingError::Json(why) => "json error: "@ + why@,
            SignalingError::ChannelClosed => "channel closed"@,
        }
    }

    /// The message that is shown to a user.
    pub fn message(&self) -> (text: String)
        ensures
            text@ == self.text(),
    {
        match self {
            SignalingError::WebSocket(why) => prefixed("websocket error: ", why.as_str()),
            SignalingError::Protocol(why) => prefixed("protocol error: ", why.as_str()),
            SignalingError::Server(why) => prefixed("server error: ", why.as_str()),
            SignalingError::Timeout(what) => prefixed("timed out waiting for ", what),
            SignalingError::Json(why) => prefixed("json error: ", why.as_str()),
            SignalingError::ChannelClosed => "channel closed".to_owned(),
        }
    }
}

// ---------------------------------------------------------------------------
// The client handle
// ---------------------------------------------------------------------------

/// Handle to a live signaling connection: `Tx` puts messages into the
/// outbound pump, `Rx` yields what the inbound pump delivers.
pub struct SignalingClient<Tx, Rx> {
    url: String,
    tx: Option<Tx>,
    events: Option<Rx>,
}

impl<Tx, Rx> SignalingClient<Tx, Rx> {
    /// The address that the client is connected to.
    pub closed spec fn address(&self) -> Seq<char> {
        self.url@
    }

    /// The way out; `None` once the client is closed.
    pub closed spec fn outlet(&self) -> Option<Tx> {
        self.tx
    }

    /// The event stream; `None` once it was taken.
    pub closed spec fn stream(&self) -> Option<Rx> {
        self.events
    }

    /// A client for a connection that is up.
    pub fn new(url: String, tx: Tx, events: Rx) -> (client: Self)
        ensures
            client.address() == url@,
            client.outlet() == Some(tx),
            client.stream() == Some(events),
    {
        SignalingClient { url, tx: Some(tx), events: Some(events) }
    }

    pub fn url(&self) -> (url: &str)
        ensures
            url@ == self.address(),
    {
        self.url.as_str()
    }

    /// Takes the event stream. There is only one: later calls get `None`.
    pub fn take_events(&mut self) -> (events: Option<Rx>)
        ensures
            events == old(self).stream(),
            final(self).stream() is None,
            final(self).address() == old(self).address(),
            final(self).outlet() == old(self).outlet(),
    {
        self.events.take()
    }

    /// What it takes to send `message`: the way out and the message for it.
    /// A closed client sends nothing.
    pub fn send(&self, message: ClientMessage) -> (outgoing: Result<(&Tx, ClientMessage), SignalingError>)
        ensures
            match outgoing {
                Ok((tx, m)) => self.outlet() == Some(*tx) && m == message,
                Err(e) => self.outlet() is None && e is ChannelClosed,
            },
    {
        match &self.tx {
            Some(tx) => Ok((tx, message)),
            None => Err(SignalingError::ChannelClosed),
        }
    }

    /// The way out, for tasks that send on their own; `None` once the client
    /// is closed.
    pub fn sender(&self) -> (tx: Option<&Tx>)
        ensures
            match tx {
                Some(t) => self.outlet() == Some(*t),
                None => self.outlet() is None,
            },
    {
        self.tx.as_ref()
    }

    /// Starts a request for a session: arms `slot` with `waiter` and asks for
    /// the session. While another request is in flight this one is refused
    /// and the other keeps waiting. A closed client leaves the slot unarmed.
    pub fn create_session<W>(&self, slot: &mut CreatedSlot<W>, waiter: W) -> (outgoing: Result<
        (&Tx, ClientMessage),
        SignalingError,
    >)
        ensures
            match outgoing {
                Ok((tx, message)) => {
                    &&& old(slot).waiter() is None
                    &&& self.outlet() == Some(*tx)
                    &&& message is CreateSession
                    &&& final(slot).waiter() == Some(waiter)
                },
                Err(e) => {
                    &&& old(slot).waiter() is Some || self.outlet() is None
                    &&& final(slot).waiter() == old(slot).waiter()
                    &&& if old(slot).waiter() is Some {
                        e matches SignalingError::Protocol(why) && why@ == "create_session already in flight"@
                    } else {
                        e is ChannelClosed
                    }
                },
            },
    {
        match slot.arm(waiter) {
            Ok(()) => {},
            Err(e) => {
                return Err(e);
            },
        }
        match self.send(ClientMessage::CreateSession) {
            Ok(outgoing) => Ok(outgoing),
            Err(e) => {
                slot.disarm();
                Err(e)
            },
        }
    }

    /// Closes the client: it lets go of its way out.
    pub fn close(&mut self)
        ensures
            final(self).outlet() is None,
            final(self).address() == old(self).address(),
            final(self).stream() == old(self).stream(),
    {
        self.tx = None;
    }
}

/// The result of a send whose message the outbound pump took or not.
pub fn send_result(accepted: bool) -> (result: Result<(), SignalingError>)
    ensures
        result is Ok <==> accepted,
        result matches Err(e) ==> e is ChannelClosed,
{
    if accepted {
        Ok(())
    } else {
        Err(SignalingError::ChannelClosed)
    }
}

// ---------------------------------------------------------------------------
// Waiting for a session
// ---------------------------------------------------------------------------

/// Where a request for a session waits for its answer. It is armed only while
/// a request is in flight, so that an error that nobody asked for cannot use
/// up the answer of a later request.
pub struct CreatedSlot<W> {
    armed: Option<W>,
}

/// How a request for a session came out.
pub enum CreateEvent {
    /// The request could not be handed to the outbound pump.
    SendFailed,
    /// The inbound pump answered.
    Replied(Result<String, SignalingError>),
    /// The slot let go of the waiter without an answer.
    WaiterDropped,
    /// The time was up.
    TimedOut,
}

/// Who waits in the slot after `event`.
pub open spec fn waiter_after<W>(waiter: Option<W>, event: CreateEvent) -> Option<W> {
    match event {
        CreateEvent::SendFailed | CreateEvent::TimedOut => None,
        CreateEvent::Replied(_) | CreateEvent::WaiterDropped => waiter,
    }
}

/// Whether a message answers a request for a session.
pub open spec fn answers_create(message: ServerMessage) -> bool {
    message is SessionCreated || message is Error
}

/// Who gets an answer when `message` comes in.
pub open spec fn answered<W>(waiter: Option<W>, message: ServerMessage) -> Option<W> {
    if answers_create(message) {
        waiter
    } else {
        None
    }
}

/// Who waits in the slot after `message` came in.
pub open spec fn waiter_after_message<W>(waiter: Option<W>, message: ServerMessage) -> Option<W> {
    if answers_create(message) {
        None
    } else {
        waiter
    }
}

/// Whether `reply` is the answer that `message` gives to a request.
pub open spec fn is_reply(reply: Result<String, SignalingError>, message: ServerMessage) -> bool {
    match message {
        ServerMessage::SessionCreated { pin } => reply == Ok::<String, SignalingError>(pin),
        ServerMessage::Error { error } => reply == Err::<String, SignalingError>(
            SignalingError::Server(error),
        ),
        _ => false,
    }
}

/// Whether `result` is the result of a request that came out with `event`.
pub open spec fn is_conclusion(event: CreateEvent, result: Result<String, SignalingError>) -> bool {
    match event {
        CreateEvent::SendFailed => result matches Err(e) && e is ChannelClosed,
        CreateEvent::Replied(reply) => result == reply,
        CreateEvent::WaiterDropped => result matches Err(e) && e is ChannelClosed,
        CreateEvent::TimedOut => result matches Err(e) && (e matches SignalingError::Timeout(what)
            && what@ == "session-created"@),
    }
}

impl<W> CreatedSlot<W> {
    /// Who waits for an answer.
    pub closed spec fn waiter(&self) -> Option<W> {
        self.armed
    }

    /// A slot in which nobody waits.
    pub fn new() -> (slot: Self)
        ensures
            slot.waiter() is None,
    {
        CreatedSlot { armed: None }
    }

    /// Lets `waiter` wait, unless somebody else does.
    pub fn arm(&mut self, waiter: W) -> (armed: Result<(), SignalingError>)
        ensures
            match armed {
                Ok(_) => old(self).waiter() is None && final(self).waiter() == Some(waiter),
                Err(e) => {
                    &&& old(self).waiter() is Some
                    &&& final(self).waiter() == old(self).waiter()
                    &&& e matches SignalingError::Protocol(why) && why@
                        == "create_session already in flight"@
                },
            },
    {
        if self.armed.is_some() {
            return Err(SignalingError::Protocol("create_session already in flight".to_owned()));
        }
        self.armed = Some(waiter);
        Ok(())
    }

    /// Lets nobody wait.
    pub fn disarm(&mut self) -> (waiter: Option<W>)
        ensures
            waiter == old(self).waiter(),
            final(self).waiter() is None,
    {
        self.armed.take()
    }

    /// What an incoming message answers to whom. A PIN and an error are
    /// answers; each goes to whoever waits, if anybody does, and uses the
    /// slot up.
    pub fn on_message(&mut self, message: &ServerMessage) -> (reply: Option<
        (W, Result<String, SignalingError>),
    >)
        ensures
            match reply {
                Some((waiter, result)) => answered(old(self).waiter(), *message) == Some(waiter) && is_reply(
                    result,
                    *message,
                ),
                None => answered(old(self).waiter(), *message) is None,
            },
            final(self).waiter() == waiter_after_message(old(self).waiter(), *message),
    {
        match message {
            ServerMessage::SessionCreated { pin } => match self.armed.take() {
                Some(waiter) => Some((waiter, Ok(pin.clone()))),
                None => None,
            },
            ServerMessage::Error { error } => match self.armed.take() {
                Some(waiter) => Some((waiter, Err(SignalingError::Server(error.clone())))),
                None => None,
            },
            _ => None,
        }
    }

    /// The result of a request for a session. A request that was not sent, or
    /// that waited too long, leaves the slot unarmed: an answer that comes
    /// later goes nowhere.
    pub fn conclude(&mut self, event: CreateEvent) -> (result: Result<String, SignalingError>)
        ensures
            is_conclusion(event, result),
            final(self).waiter() == waiter_after(old(self).waiter(), event),
    {
        match event {
            CreateEvent::SendFailed => {
                self.disarm();
                Err(SignalingError::ChannelClosed)
            },
            CreateEvent::Replied(reply) => reply,
            CreateEvent::WaiterDropped => Err(SignalingError::ChannelClosed),
            CreateEvent::TimedOut => {
                self.disarm();
                Err(SignalingError::Timeout("session-created"))
            },
        }
    }
}

/// Who waits after a series of incoming messages.
pub open spec fn waiter_after_all<W>(waiter: Option<W>, messages: Seq<ServerMessage>) -> Option<W>
    decreases messages.len(),
{
    if messages.len() == 0 {
        waiter
    } else {
        waiter_after_message(waiter_after_all(waiter, messages.drop_last()), messages.last())
    }
}

/// How many answers a series of incoming messages gives.
pub open spec fn answers_given<W>(waiter: Option<W>, messages: Seq<ServerMessage>) -> nat
    decreases messages.len(),
{
    if messages.len() == 0 {
        0
    } else {
        let before = waiter_after_all(waiter, messages.drop_last());
        answers_given(waiter, messages.drop_last()) + if answered(before, messages.last()) is Some {
            1nat
        } else {
            0nat
        }
    }
}

/// Messages that come in while nobody waits answer nothing and leave the slot
/// free: an unsolicited error does not use up the answer of a later request.
pub proof fn unsolicited_messages_answer_nothing<W>(messages: Seq<ServerMessage>)
    ensures
        answers_given(None::<W>, messages) == 0,
        waiter_after_all(None::<W>, messages) is None,
    decreases messages.len(),
{
    if messages.len() > 0 {
        unsolicited_messages_answer_nothing::<W>(messages.drop_last());
    }
}

/// A request is answered at most once, whatever comes in, and exactly once as
/// soon as a PIN or an error has come in.
pub proof fn a_request_is_answered_once<W>(waiter: W, messages: Seq<ServerMessage>)
    ensures
        answers_given(Some(waiter), messages) == if exists|i: int|
            0 <= i < messages.len() && ((#[trigger] messages[i]) is SessionCreated
                || messages[i] is Error) {
            1nat
        } else {
            0nat
        },
        waiter_after_all(Some(waiter), messages) == if exists|i: int|
            0 <= i < messages.len() && ((#[trigger] messages[i]) is SessionCreated
                || messages[i] is Error) {
            None
        } else {
            Some(waiter)
        },
    decreases messages.len(),
{
    if messages.len() > 0 {
        let before = messages.drop_last();
        let last = messages.len() - 1;
        a_request_is_answered_once(waiter, before);
        if exists|i: int|
            0 <= i < before.len() && ((#[trigger] before[i]) is SessionCreated || before[i] is Error) {
            let i = choose|i: int|
                0 <= i < before.len() && ((#[trigger] before[i]) is SessionCreated
                    || before[i] is Error);
            assert(messages[i] is SessionCreated || messages[i] is Error);
        } else if messages[last] is SessionCreated || messages[last] is Error {
        } else {
            assert forall|i: int| 0 <= i < messages.len() implies !((
            #[trigger] messages[i]) is SessionCreated || messages[i] is Error) by {
                if i < before.len() {
                    assert(!(before[i] is SessionCreated || before[i] is Error));
                }
            }
        }
    }
}

/// An answer is what the server said: its PIN, or its error. It goes to
/// whoever waits, and to nobody if the message is of another kind.
pub proof fn an_answer_is_what_the_server_said<W>(
    waiter: W,
    message: ServerMessage,
    reply: Result<String, SignalingError>,
)
    ensures
        message matches ServerMessage::SessionCreated { pin } ==> (is_reply(reply, message)
            <==> reply == Ok::<String, SignalingError>(pin)),
        message matches ServerMessage::Error { error } ==> (is_reply(reply, message) <==> reply
            == Err::<String, SignalingError>(SignalingError::Server(error))),
        answered(Some(waiter), message) == (if message is SessionCreated || message is Error {
            Some(waiter)
        } else {
            None
        }),
        answered(None::<W>, message) is None,
{
}

/// A request succeeds exactly if the server answered with a PIN, and gives
/// that PIN; the server's error is given as it came. Only a request that gave
/// up by itself takes its waiter out of the slot.
pub proof fn a_request_succeeds_with_a_pin<W>(
    waiter: Option<W>,
    event: CreateEvent,
    result: Result<String, SignalingError>,
)
    requires
        is_conclusion(event, result),
    ensures
        result is Ok ==> event == CreateEvent::Replied(result),
        event matches CreateEvent::Replied(reply) ==> result == reply,
        event is TimedOut ==> (result matches Err(SignalingError::Timeout(what)) && what@
            == "session-created"@),
        event is SendFailed || event is WaiterDropped ==> result
            == Err::<String, SignalingError>(SignalingError::ChannelClosed),
        waiter_after(waiter, event) == (if event is SendFailed || event is TimedOut {
            None
        } else {
            waiter
        }),
{
}

/// After a request has given up, whatever comes in late answers nothing.
pub proof fn a_late_answer_goes_nowhere<W>(waiter: Option<W>, messages: Seq<ServerMessage>)
    ensures
        answers_given(waiter_after(waiter, CreateEvent::TimedOut), messages) == 0,
        answers_given(waiter_after(waiter, CreateEvent::SendFailed), messages) == 0,
{
    unsolicited_messages_answer_nothing::<W>(messages);
}

// ---------------------------------------------------------------------------
// The pumps
// ---------------------------------------------------------------------------

/// What the outbound pump wakes up to.
pub enum OutboundEvent {
    /// A message is to be sent.
    Message(ClientMessage),
    /// No sender is left.
    SendersGone,
    /// The connection was idle long enough for a ping.
    KeepaliveDue,
    /// The socket took what it was given.
    Sent,
    /// The socket refused what it was given.
    SendFailed,
}

/// What the outbound pump does next.
#[derive(Debug)]
pub enum OutboundAction {
    /// Send a text frame.
    SendText(String),
    /// Send an empty ping.
    SendPing,
    /// Wait for a message or the next ping.
    Wait,
    /// Close the socket and end.
    Close,
}

/// Whether `action` is what the outbound pump does about `event`.
pub open spec fn is_outbound_step(event: OutboundEvent, action: OutboundAction) -> bool {
    match event {
        OutboundEvent::Message(message) => action matches OutboundAction::SendText(text) && text@
            == client_json(message),
        OutboundEvent::SendersGone => action is Close,
        OutboundEvent::KeepaliveDue => action is SendPing,
        OutboundEvent::Sent => action is Wait,
        OutboundEvent::SendFailed => action is Close,
    }
}

/// What the outbound pump does about `event`.
pub fn outbound_action(event: OutboundEvent) -> (action: OutboundAction)
    ensures
        is_outbound_step(event, action),
{
    match event {
        OutboundEvent::Message(message) => OutboundAction::SendText(message.to_json()),
        OutboundEvent::SendersGone => OutboundAction::Close,
        OutboundEvent::KeepaliveDue => OutboundAction::SendPing,
        OutboundEvent::Sent => OutboundAction::Wait,
        OutboundEvent::SendFailed => OutboundAction::Close,
    }
}

/// What the inbound pump receives.
pub enum InboundEvent {
    /// A text frame; `None` if it holds no JSON object or list.
    Text(Option<WireMessage>),
    Binary,
    Ping,
    Pong,
    /// A frame that the socket layer did not interpret.
    Raw,
    /// The other side closes the connection.
    Close,
    /// Receiving failed.
    Failed,
    /// The stream ended.
    Ended,
    /// Nobody takes delivered messages any more.
    ReceiverGone,
}

/// What the inbound pump does next.
pub enum InboundAction<W> {
    /// Hand `message` to the event stream, after answering whoever waited for
    /// it.
    Deliver { message: ServerMessage, reply: Option<(W, Result<String, SignalingError>)> },
    /// Wait for the next frame.
    Skip,
    /// End.
    Stop,
}

/// Whether `event` ends the inbound pump.
pub open spec fn ends_inbound(event: InboundEvent) -> bool {
    match event {
        InboundEvent::Close | InboundEvent::Failed | InboundEvent::Ended | InboundEvent::ReceiverGone =>
        true,
        _ => false,
    }
}

/// The message that a frame holds, if it holds one.
pub open spec fn held_message(event: InboundEvent) -> Option<ServerText> {
    match event {
        InboundEvent::Text(Some(wire)) => server_message(wire),
        _ => None,
    }
}

/// Whether `action` is what the inbound pump does about `event`, and `after`
/// who waits for an answer then, if it was `waiter` before.
pub open spec fn inbound_step<W>(
    waiter: Option<W>,
    event: InboundEvent,
    action: InboundAction<W>,
    after: Option<W>,
) -> bool {
    match action {
        InboundAction::Deliver { message, reply } => {
            &&& held_message(event) == Some(message@)
            &&& match reply {
                Some((answered_waiter, result)) => answered(waiter, message) == Some(answered_waiter)
                    && is_reply(result, message),
                None => answered(waiter, message) is None,
            }
            &&& after == waiter_after_message(waiter, message)
        },
        InboundAction::Skip => !ends_inbound(event) && held_message(event) is None && after == waiter,
        InboundAction::Stop => ends_inbound(event) && after == waiter,
    }
}

/// What the inbound pump does about `event`. Text that is not a message of
/// the protocol, and frames of other kinds, are passed over. Every message is
/// delivered, whether or not it also answers a request.
pub fn inbound_action<W>(slot: &mut CreatedSlot<W>, event: InboundEvent) -> (action: InboundAction<W>)
    ensures
        inbound_step(old(slot).waiter(), event, action, final(slot).waiter()),
{
    match event {
        InboundEvent::Text(Some(wire)) => match ServerMessage::from_wire(&wire) {
            Some(message) => {
                let reply = slot.on_message(&message);
                InboundAction::Deliver { message, reply }
            },
            None => InboundAction::Skip,
        },
        InboundEvent::Text(None) => InboundAction::Skip,
        InboundEvent::Binary => InboundAction::Skip,
        InboundEvent::Ping => InboundAction::Skip,
        InboundEvent::Pong => InboundAction::Skip,
        InboundEvent::Raw => InboundAction::Skip,
        InboundEvent::Close => InboundAction::Stop,
        InboundEvent::Failed => InboundAction::Stop,
        InboundEvent::Ended => InboundAction::Stop,
        InboundEvent::ReceiverGone => InboundAction::Stop,
    }
}


/// Whether the inbound pump, given `events` one after the other, takes
/// `actions`: it starts with `waiters[0]` in the slot, goes by
/// `inbound_action` each time, and reads on until it stops or nothing more
/// comes.
pub open spec fn is_inbound_run<W>(
    events: Seq<InboundEvent>,
    actions: Seq<InboundAction<W>>,
    waiters: Seq<Option<W>>,
) -> bool {
    &&& actions.len() <= events.len()
    &&& waiters.len() == actions.len() + 1
    &&& forall|i: int|
        0 <= i < actions.len() ==> inbound_step(
            waiters[i],
            events[i],
            #[trigger] actions[i],
            waiters[i + 1],
        )
    &&& forall|i: int| 0 <= i < actions.len() - 1 ==> !((#[trigger] actions[i]) is Stop)
    &&& actions.len() == events.len() || (actions.len() > 0 && actions.last() is Stop)
}

/// The messages that these actions put into the event stream.
pub open spec fn delivered<W>(actions: Seq<InboundAction<W>>) -> Seq<ServerText>
    decreases actions.len(),
{
    if actions.len() == 0 {
        Seq::empty()
    } else {
        let before = delivered(actions.drop_last());
        match actions.last() {
            InboundAction::Deliver { message, .. } => before.push(message@),
            _ => before,
        }
    }
}

/// The messages that these frames hold.
pub open spec fn held_messages(events: Seq<InboundEvent>) -> Seq<ServerText>
    decreases events.len(),
{
    if events.len() == 0 {
        Seq::empty()
    } else {
        let before = held_messages(events.drop_last());
        match events.last() {
            InboundEvent::Text(Some(wire)) => match server_message(wire) {
                Some(message) => before.push(message),
                None => before,
            },
            _ => before,
        }
    }
}

/// Whether the connection is over with `event`: it was closed, failed or
/// ended, or nobody listens any more.
pub open spec fn is_over(event: InboundEvent) -> bool {
    event is Close || event is Failed || event is Ended || event is ReceiverGone
}

/// The event stream yields exactly the messages that came before the first
/// frame that ends the connection, in order and one each, those that also
/// answer a request among them. Text that is no message, and frames of other
/// kinds, yield nothing and end nothing. `end` is where the first such frame
/// stands, or the number of frames if none does.
pub proof fn every_message_is_delivered_once<W>(
    events: Seq<InboundEvent>,
    actions: Seq<InboundAction<W>>,
    waiters: Seq<Option<W>>,
    end: int,
)
    requires
        is_inbound_run(events, actions, waiters),
        0 <= end <= events.len(),
        forall|i: int| 0 <= i < end ==> !is_over(#[trigger] events[i]),
        end < events.len() ==> is_over(events[end]),
    ensures
        delivered(actions) == held_messages(events.take(end)),
        actions.len() == if end < events.len() {
            end + 1
        } else {
            end
        },
{
    // The pump stops at the first frame that ends the connection.
    assert(actions.len() <= end + 1) by {
        if actions.len() > end + 1 {
            assert(inbound_step(waiters[end], events[end], actions[end], waiters[end + 1]));
            assert(!(actions[end] is Stop));
        }
    }
    assert(actions.len() >= end) by {
        if actions.len() < end {
            let last = actions.len() - 1;
            assert(inbound_step(waiters[last], events[last], actions[last], waiters[last + 1]));
        }
    }
    if actions.len() == end {
        if end < events.len() {
            let last = actions.len() - 1;
            assert(inbound_step(waiters[last], events[last], actions[last], waiters[last + 1]));
            assert(!is_over(events[last]));
        }
        deliveries_match(events, actions, waiters, end);
        assert(actions.take(end) =~= actions);
    } else {
        assert(inbound_step(waiters[end], events[end], actions[end], waiters[end + 1]));
        deliveries_match(events, actions, waiters, end);
        assert(actions.drop_last() =~= actions.take(end));
    }
}

/// As long as no frame ends the connection, deliveries keep up with messages.
proof fn deliveries_match<W>(
    events: Seq<InboundEvent>,
    actions: Seq<InboundAction<W>>,
    waiters: Seq<Option<W>>,
    n: int,
)
    requires
        is_inbound_run(events, actions, waiters),
        0 <= n <= actions.len(),
        forall|i: int| 0 <= i < n ==> !is_over(#[trigger] events[i]),
    ensures
        delivered(actions.take(n)) == held_messages(events.take(n)),
    decreases n,
{
    if n > 0 {
        deliveries_match(events, actions, waiters, n - 1);
        assert(actions.take(n).drop_last() =~= actions.take(n - 1));
        assert(events.take(n).drop_last() =~= events.take(n - 1));
        assert(inbound_step(waiters[n - 1], events[n - 1], actions[n - 1], waiters[n - 1 + 1]));
        assert(!is_over(events[n - 1]));
    } else {
        assert(actions.take(0) =~= Seq::empty());
        assert(events.take(0) =~= Seq::empty());
    }
}


/// An error's message is a label for the kind of failure, then what went
/// wrong, in full.
pub proof fn signaling_errors_end_with_what_went_wrong(why: String)
    ensures
        SignalingError::WebSocket(why).text().take(17) == "websocket error: "@,
        SignalingError::WebSocket(why).text().skip(17) == why@,
        SignalingError::Protocol(why).text().take(16) == "protocol error: "@,
        SignalingError::Protocol(why).text().skip(16) == why@,
        SignalingError::Server(why).text().take(14) == "server error: "@,
        SignalingError::Server(why).text().skip(14) == why@,
        SignalingError::Json(why).text().take(12) == "json error: "@,
        SignalingError::Json(why).text().skip(12) == why@,
{
    reveal_strlit("websocket error: ");
    reveal_strlit("protocol error: ");
    reveal_strlit("server error: ");
    reveal_strlit("json error: ");
    assert(SignalingError::WebSocket(why).text().take(17) =~= "websocket error: "@);
    assert(SignalingError::WebSocket(why).text().skip(17) =~= why@);
    assert(SignalingError::Protocol(why).text().take(16) =~= "protocol error: "@);
    assert(SignalingError::Protocol(why).text().skip(16) =~= why@);
    assert(SignalingError::Server(why).text().take(14) =~= "server error: "@);
    assert(SignalingError::Server(why).text().skip(14) =~= why@);
    assert(SignalingError::Json(why).text().take(12) =~= "json error: "@);
    assert(SignalingError::Json(why).text().skip(12) =~= why@);
}

/// The message of a timeout ends with what was waited for.
pub proof fn a_timeout_names_what_was_waited_for(what: &'static str)
    ensures
        SignalingError::Timeout(what).text().take(22) == "timed out waiting for "@,
        SignalingError::Timeout(what).text().skip(22) == what@,
{
    reveal_strlit("timed out waiting for ");
    assert(SignalingError::Timeout(what).text().take(22) =~= "timed out waiting for "@);
    assert(SignalingError::Timeout(what).text().skip(22) =~= what@);
}


/// The JSON texts of the messages among these events.
pub open spec fn texts_due(events: Seq<OutboundEvent>) -> Seq<Seq<char>>
    decreases events.len(),
{
    if events.len() == 0 {
        Seq::empty()
    } else {
        let before = texts_due(events.drop_last());
        match events.last() {
            OutboundEvent::Message(message) => before.push(client_json(message)),
            _ => before,
        }
    }
}

/// The texts that these actions send.
pub open spec fn texts_sent(actions: Seq<OutboundAction>) -> Seq<Seq<char>>
    decreases actions.len(),
{
    if actions.len() == 0 {
        Seq::empty()
    } else {
        let before = texts_sent(actions.drop_last());
        match actions.last() {
            OutboundAction::SendText(text) => before.push(text@),
            _ => before,
        }
    }
}

/// Every message goes out as its JSON text, once and in order, and no other
/// text does. The pump closes the socket when nobody can send any more or the
/// socket refuses, and at no other time; it pings when a ping is due, and at no
/// other time.
pub proof fn every_message_goes_out_once(events: Seq<OutboundEvent>, actions: Seq<OutboundAction>)
    requires
        actions.len() == events.len(),
        forall|i: int| 0 <= i < actions.len() ==> is_outbound_step(events[i], #[trigger] actions[i]),
    ensures
        texts_sent(actions) == texts_due(events),
        forall|i: int|
            0 <= i < actions.len() ==> ((#[trigger] actions[i]) is Close <==> (events[i] is SendersGone
                || events[i] is SendFailed)),
        forall|i: int|
            0 <= i < actions.len() ==> ((#[trigger] actions[i]) is SendPing
                <==> events[i] is KeepaliveDue),
    decreases events.len(),
{
    if events.len() > 0 {
        let last = events.len() - 1;
        assert forall|i: int| 0 <= i < actions.drop_last().len() implies is_outbound_step(
            events.drop_last()[i],
            #[trigger] actions.drop_last()[i],
        ) by {
            assert(is_outbound_step(events[i], actions[i]));
        }
        every_message_goes_out_once(events.drop_last(), actions.drop_last());
        assert(is_outbound_step(events[last], actions[last]));
        assert forall|i: int| 0 <= i < actions.len() implies ((#[trigger] actions[i]) is Close <==> (
        events[i] is SendersGone || events[i] is SendFailed)) && (actions[i] is SendPing
            <==> events[i] is KeepaliveDue) by {
            assert(is_outbound_step(events[i], actions[i]));
        }
    }
}


/// A delivered PIN or error also answers whoever waits, with what the message
/// says, and nobody waits any more then. No other message answers anybody or
/// changes who waits, and neither does a frame that delivers nothing.
pub proof fn a_delivery_answers_whoever_waits<W>(
    waiter: Option<W>,
    event: InboundEvent,
    action: InboundAction<W>,
    after: Option<W>,
)
    requires
        inbound_step(waiter, event, action, after),
    ensures
        match action {
            InboundAction::Deliver { message: ServerMessage::SessionCreated { pin }, reply } => {
                &&& after is None
                &&& waiter is None ==> reply is None
                &&& waiter matches Some(w) ==> reply == Some((w, Ok::<String, SignalingError>(pin)))
            },
            InboundAction::Deliver { message: ServerMessage::Error { error }, reply } => {
                &&& after is None
                &&& waiter is None ==> reply is None
                &&& waiter matches Some(w) ==> reply == Some(
                    (w, Err::<String, SignalingError>(SignalingError::Server(error))),
                )
            },
            InboundAction::Deliver { reply, .. } => reply is None && after == waiter,
            InboundAction::Skip | InboundAction::Stop => after == waiter,
        },
{
}


/// A request waits ten seconds. A ping goes out every twenty seconds, which is
/// within the half minute that common routers remember an idle connection.
pub proof fn pings_keep_the_connection_alive()
    ensures
        CREATE_TIMEOUT_MS == 10_000,
        KEEPALIVE_MS == 20_000,
        KEEPALIVE_MS < 30_000,
{
}

} // verus!
