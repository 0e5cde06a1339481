//! Session orchestration: bringing a session up, holding it, tearing it down.
//!
//! A session owns a signaling client `S`, a peer connection `P`, a capture `C`
//! and five tasks `T`. It comes up in a fixed order; if a step fails, whatever
//! is up by then is taken down again in reverse order. A running session is
//! handed out for teardown once, to whoever comes first: the user who stops it
//! or the supervisor who learned that it is over.
use crate::capture::CaptureError;
use crate::codec::CodecError;
use crate::messages::ServerMessage;
use crate::signaling::{is_conclusion, is_reply, CreateEvent, SignalingError};
use crate::text::{comma_list, comma_pieces, filled_entries, prefixed, texts};
use crate::webrtc_host::WebRtcError;
use vstd::prelude::*;
use vstd::std_specs::convert::FromSpec;

verus! {

// ---------------------------------------------------------------------------
// Errors
// ---------------------------------------------------------------------------

/// Why a session could not be started or stopped.
#[derive(Debug)]
pub enum SessionError {
    AlreadyRunning,
    NotRunning,
    Capture(CaptureError),
    Codec(CodecError),
    Signaling(SignalingError),
    WebRtc(WebRtcError),
}

impl SessionError {
    /// The message that is shown to a user, as characters.
    pub open spec fn text(&self) -> Seq<char> {
        match self {
            SessionError::AlreadyRunning => "already running"@,
            SessionError::NotRunning => "not running"@,
            SessionError::Capture(e) => "capture: "@ + e.text(),
            SessionError::Codec(e) => "codec: "@ + e.text(),
            SessionError::Signaling(e) => "signaling: "@ + e.text(),
            SessionError::WebRtc(e) => "webrtc: "@ + e.text(),
        }
    }

    /// The message that is shown to a user.
    pub fn message(&self) -> (text: String)
        ensures
            text@ == self.text(),
    {
        match self {
            SessionError::AlreadyRunning => "already running".to_owned(),
            SessionError::NotRunning => "not running".to_owned(),
            SessionError::Capture(e) => prefixed("capture: ", e.message().as_str()),
            SessionError::Codec(e) => prefixed("codec: ", e.message().as_str()),
            SessionError::Signaling(e) => prefixed("signaling: ", e.message().as_str()),
            SessionError::WebRtc(e) => prefixed("webrtc: ", e.message().as_str()),
        }
    }
}

impl vstd::std_specs::convert::FromSpecImpl<CaptureError> for SessionError {
    open spec fn obeys_from_spec() -> bool {
        true
    }

    open spec fn from_spec(e: CaptureError) -> SessionError {
        SessionError::Capture(e)
    }
}

impl From<CaptureError> for SessionError {
    fn from(e: CaptureError) -> (error: SessionError) {
        SessionError::Capture(e)
    }
}

impl vstd::std_specs::convert::FromSpecImpl<CodecError> for SessionError {
    open spec fn obeys_from_spec() -> bool {
        true
    }

    open spec fn from_spec(e: CodecError) -> SessionError {
        SessionError::Codec(e)
    }
}

impl From<CodecError> for SessionError {
    fn from(e: CodecError) -> (error: SessionError) {
        SessionError::Codec(e)
    }
}

impl vstd::std_specs::convert::FromSpecImpl<SignalingError> for SessionError {
    open spec fn obeys_from_spec() -> bool {
        true
    }

    open spec fn from_spec(e: SignalingError) -> SessionError {
        SessionError::Signaling(e)
    }
}

impl From<SignalingError> for SessionError {
    fn from(e: SignalingError) -> (error: SessionError) {
        SessionError::Signaling(e)
    }
}

impl vstd::std_specs::convert::FromSpecImpl<WebRtcError> for SessionError {
    open spec fn obeys_from_spec() -> bool {
        true
    }

    open spec fn from_spec(e: WebRtcError) -> SessionError {
        SessionError::WebRtc(e)
    }
}

impl From<WebRtcError> for SessionError {
    fn from(e: WebRtcError) -> (error: SessionError) {
        SessionError::WebRtc(e)
    }
}

// ---------------------------------------------------------------------------
// Configuration
// ---------------------------------------------------------------------------

/// Where the signaling server is: as configured, or on this machine.
pub fn signaling_url(configured: Option<String>) -> (url: String)
    ensures
        url@ == (match configured {
            Some(text) => text@,
            None => "ws://localhost:8443/"@,
        }),
{
    match configured {
        Some(url) => url,
        None => "ws://localhost:8443/".to_owned(),
    }
}

/// An ICE server: its addresses and how to log in there.
#[derive(Debug)]
pub struct IceServer {
    pub urls: Vec<String>,
    pub username: String,
    pub credential: String,
}

/// The ICE servers: one entry with the addresses that are configured as a list
/// between commas, blank ones left out, or with a public STUN server. There
/// are no credentials.
pub fn ice_servers(configured: Option<String>) -> (servers: Vec<IceServer>)
    ensures
        servers@.len() == 1,
        texts(servers@[0].urls@) == (match configured {
            Some(list) => filled_entries(comma_pieces(list@)),
            None => seq!["stun:stun.l.google.com:19302"@],
        }),
        servers@[0].username@ == Seq::<char>::empty(),
        servers@[0].credential@ == Seq::<char>::empty(),
{
    let urls = match configured {
        Some(list) => comma_list(list.as_str()),
        None => {
            let mut urls: Vec<String> = Vec::new();
            urls.push("stun:stun.l.google.com:19302".to_owned());
            assert(texts(urls@) =~= seq!["stun:stun.l.google.com:19302"@]);
            urls
        },
    };
    let mut servers: Vec<IceServer> = Vec::new();
    servers.push(IceServer { urls, username: String::new(), credential: String::new() });
    servers
}

// ---------------------------------------------------------------------------
// Teardown
// ---------------------------------------------------------------------------

/// How long tasks get to flush before anybody waits for them.
pub const FLUSH_MS: u64 = 100;

/// How long the encoder's forwarder gets to end.
pub const FORWARDER_BUDGET_MS: u64 = 500;

/// How long the encoder's blocking loop gets to end.
pub const BLOCKING_BUDGET_MS: u64 = 1_000;

/// How long the signaling loop gets to end.
pub const SIGNALING_BUDGET_MS: u64 = 500;

/// How long the candidate forwarder gets to end.
pub const ICE_BUDGET_MS: u64 = 200;

/// How long the state watcher gets to end.
pub const STATE_BUDGET_MS: u64 = 200;

/// A step of a teardown.
pub enum TeardownStep<S, P, C, T> {
    /// Say goodbye to the server, as far as it still listens, and close the
    /// client.
    EndSession(S),
    /// Stop the capture and wait until it has stopped.
    StopCapture(C),
    /// Close the peer connection.
    ClosePeer(P),
    /// Wait while tasks flush.
    Flush { ms: u64 },
    /// Wait for a task to end, and abort it if it takes longer than this.
    Join { task: T, budget_ms: u64 },
}

/// A live session. It owns everything that it takes to be one.
pub struct Running<S, P, C, T> {
    pub pin: String,
    pub capture: C,
    pub encoder_forwarder: T,
    pub encoder_blocking: T,
    pub signaling_task: T,
    pub ice_forward_task: T,
    pub state_task: T,
    pub signaling: S,
    pub webrtc: P,
}

impl<S, P, C, T> Running<S, P, C, T> {
    /// The steps that take the session down: first the signals to stop, at
    /// the source, then a moment to flush, then the tasks.
    pub open spec fn steps(self) -> Seq<TeardownStep<S, P, C, T>> {
        seq![
            TeardownStep::EndSession(self.signaling),
            TeardownStep::StopCapture(self.capture),
            TeardownStep::ClosePeer(self.webrtc),
            TeardownStep::Flush { ms: FLUSH_MS },
            TeardownStep::Join { task: self.encoder_forwarder, budget_ms: FORWARDER_BUDGET_MS },
            TeardownStep::Join { task: self.encoder_blocking, budget_ms: BLOCKING_BUDGET_MS },
            TeardownStep::Join { task: self.signaling_task, budget_ms: SIGNALING_BUDGET_MS },
            TeardownStep::Join { task: self.ice_forward_task, budget_ms: ICE_BUDGET_MS },
            TeardownStep::Join { task: self.state_task, budget_ms: STATE_BUDGET_MS },
        ]
    }

    /// Consumes the session and hands out the steps that take it down.
    pub fn teardown(self) -> (steps: Vec<TeardownStep<S, P, C, T>>)
        ensures
            steps@ == self.steps(),
    {
        let mut steps: Vec<TeardownStep<S, P, C, T>> = Vec::new();
        steps.push(TeardownStep::EndSession(self.signaling));
        steps.push(TeardownStep::StopCapture(self.capture));
        steps.push(TeardownStep::ClosePeer(self.webrtc));
        steps.push(TeardownStep::Flush { ms: FLUSH_MS });
        steps.push(
            TeardownStep::Join { task: self.encoder_forwarder, budget_ms: FORWARDER_BUDGET_MS },
        );
        steps.push(TeardownStep::Join { task: self.encoder_blocking, budget_ms: BLOCKING_BUDGET_MS });
        steps.push(TeardownStep::Join { task: self.signaling_task, budget_ms: SIGNALING_BUDGET_MS });
        steps.push(TeardownStep::Join { task: self.ice_forward_task, budget_ms: ICE_BUDGET_MS });
        steps.push(TeardownStep::Join { task: self.state_task, budget_ms: STATE_BUDGET_MS });
        assert(steps@ =~= self.steps());
        steps
    }
}

// ---------------------------------------------------------------------------
// Bringing a session up
// ---------------------------------------------------------------------------

/// What is up while a session comes up.
pub struct PartialInit<S, P, C, T> {
    pub pin: Option<String>,
    pub signaling: Option<S>,
    pub webrtc: Option<P>,
    pub capture: Option<C>,
    pub encoder_blocking: Option<T>,
    pub encoder_forwarder: Option<T>,
    pub signaling_task: Option<T>,
    pub ice_forward_task: Option<T>,
    pub state_task: Option<T>,
}

impl<S, P, C, T> Default for PartialInit<S, P, C, T> {
    /// Nothing is up.
    fn default() -> (this: Self)
        ensures
            this == nothing_up::<S, P, C, T>(),
    {
        PartialInit::new()
    }
}

/// The next step in bringing a session up.
#[derive(Debug, Clone, Copy, PartialEq, Eq, Structural)]
pub enum InitStep {
    /// Connect to the signaling server and get a PIN.
    OpenSignaling,
    /// Make the peer connection.
    BuildPeer,
    /// Start the capture.
    StartCapture,
    /// Start the encoder's two tasks.
    SpawnEncoder,
    /// Start the signaling loop on the client's event stream.
    SpawnSignalingLoop,
    /// Start the candidate forwarder on the peer connection's candidates.
    SpawnIceForwarder,
    /// Start the state watcher on the peer connection's states.
    SpawnStateWatcher,
    /// Everything is up.
    Complete,
}

/// What a step brought up.
pub enum Acquired<S, P, C, T> {
    Signaling { client: S, pin: String },
    Peer(P),
    Capture(C),
    Encoder { blocking: T, forwarder: T },
    SignalingLoop(T),
    IceForwarder(T),
    StateWatcher(T),
}

/// One release step for what is up, none for what is not.
pub open spec fn release<S, P, C, T>(step: Option<TeardownStep<S, P, C, T>>) -> Seq<
    TeardownStep<S, P, C, T>,
> {
    match step {
        Some(s) => seq![s],
        None => Seq::empty(),
    }
}

/// The step that waits for a task.
pub open spec fn join_step<S, P, C, T>(task: Option<T>, budget_ms: u64) -> Option<
    TeardownStep<S, P, C, T>,
> {
    match task {
        Some(task) => Some(TeardownStep::Join { task, budget_ms }),
        None => None,
    }
}

/// Nothing is up.
pub open spec fn nothing_up<S, P, C, T>() -> PartialInit<S, P, C, T> {
    PartialInit {
        pin: None,
        signaling: None,
        webrtc: None,
        capture: None,
        encoder_blocking: None,
        encoder_forwarder: None,
        signaling_task: None,
        ice_forward_task: None,
        state_task: None,
    }
}

impl<S, P, C, T> PartialInit<S, P, C, T> {
    /// How many of the seven stages are up.
    pub open spec fn stage(self) -> int {
        if self.signaling is None {
            0
        } else if self.webrtc is None {
            1
        } else if self.capture is None {
            2
        } else if self.encoder_blocking is None {
            3
        } else if self.signaling_task is None {
            4
        } else if self.ice_forward_task is None {
            5
        } else if self.state_task is None {
            6
        } else {
            7
        }
    }

    /// Nothing is up that comes after something that is not.
    pub open spec fn in_order(self) -> bool {
        &&& self.pin is Some <==> self.stage() >= 1
        &&& self.signaling is Some <==> self.stage() >= 1
        &&& self.webrtc is Some <==> self.stage() >= 2
        &&& self.capture is Some <==> self.stage() >= 3
        &&& self.encoder_blocking is Some <==> self.stage() >= 4
        &&& self.encoder_forwarder is Some <==> self.stage() >= 4
        &&& self.signaling_task is Some <==> self.stage() >= 5
        &&& self.ice_forward_task is Some <==> self.stage() >= 6
        &&& self.state_task is Some <==> self.stage() >= 7
    }

    /// The steps that take down what is up: in the reverse of the order in
    /// which it came up, so that the goodbye to the server comes last.
    pub open spec fn steps(self) -> Seq<TeardownStep<S, P, C, T>> {
        release(join_step(self.state_task, STATE_BUDGET_MS)) + release(
            join_step(self.ice_forward_task, ICE_BUDGET_MS),
        ) + release(join_step(self.signaling_task, SIGNALING_BUDGET_MS)) + release(
            join_step(self.encoder_forwarder, FORWARDER_BUDGET_MS),
        ) + release(join_step(self.encoder_blocking, BLOCKING_BUDGET_MS)) + release(
            match self.capture {
                Some(c) => Some(TeardownStep::StopCapture(c)),
                None => None,
            },
        ) + release(
            match self.webrtc {
                Some(p) => Some(TeardownStep::ClosePeer(p)),
                None => None,
            },
        ) + release(
            match self.signaling {
                Some(s) => Some(TeardownStep::EndSession(s)),
                None => None,
            },
        )
    }

    /// Nothing is up.
    pub fn new() -> (this: Self)
        ensures
            this == nothing_up::<S, P, C, T>(),
            this.in_order(),
            this.stage() == 0,
    {
        PartialInit {
            pin: None,
            signaling: None,
            webrtc: None,
            capture: None,
            encoder_blocking: None,
            encoder_forwarder: None,
            signaling_task: None,
            ice_forward_task: None,
            state_task: None,
        }
    }

    /// What has to be brought up next.
    pub fn next_step(&self) -> (step: InitStep)
        ensures
            step == step_at(self.stage()),
    {
        if self.signaling.is_none() {
            InitStep::OpenSignaling
        } else if self.webrtc.is_none() {
            InitStep::BuildPeer
        } else if self.capture.is_none() {
            InitStep::StartCapture
        } else if self.encoder_blocking.is_none() {
            InitStep::SpawnEncoder
        } else if self.signaling_task.is_none() {
            InitStep::SpawnSignalingLoop
        } else if self.ice_forward_task.is_none() {
            InitStep::SpawnIceForwarder
        } else if self.state_task.is_none() {
            InitStep::SpawnStateWatcher
        } else {
            InitStep::Complete
        }
    }

    /// Keeps what the next step brought up.
    pub fn acquired(&mut self, what: Acquired<S, P, C, T>)
        requires
            old(self).in_order(),
            old(self).stage() == stage_of(what),
        ensures
            final(self).in_order(),
            final(self).stage() == old(self).stage() + 1,
            *final(self) == with(*old(self), what),
    {
        match what {
            Acquired::Signaling { client, pin } => {
                self.pin = Some(pin);
                self.signaling = Some(client);
            },
            Acquired::Peer(peer) => {
                self.webrtc = Some(peer);
            },
            Acquired::Capture(capture) => {
                self.capture = Some(capture);
            },
            Acquired::Encoder { blocking, forwarder } => {
                self.encoder_blocking = Some(blocking);
                self.encoder_forwarder = Some(forwarder);
            },
            Acquired::SignalingLoop(task) => {
                self.signaling_task = Some(task);
            },
            Acquired::IceForwarder(task) => {
                self.ice_forward_task = Some(task);
            },
            Acquired::StateWatcher(task) => {
                self.state_task = Some(task);
            },
        }
    }

    /// Turns a session that is up into a running one. One that is not is
    /// handed back.
    pub fn into_running(self) -> (running: Result<Running<S, P, C, T>, Self>)
        requires
            self.in_order(),
        ensures
            match running {
                Ok(r) => self.stage() == 7 && is_session(self, r),
                Err(partial) => self.stage() < 7 && partial == self,
            },
    {
        if self.state_task.is_none() {
            return Err(self);
        }
        match (
            self.pin,
            self.capture,
            self.encoder_forwarder,
            self.encoder_blocking,
            self.signaling_task,
            self.ice_forward_task,
            self.state_task,
            self.signaling,
            self.webrtc,
        ) {
            (
                Some(pin),
                Some(capture),
                Some(encoder_forwarder),
                Some(encoder_blocking),
                Some(signaling_task),
                Some(ice_forward_task),
                Some(state_task),
                Some(signaling),
                Some(webrtc),
            ) => Ok(
                Running {
                    pin,
                    capture,
                    encoder_forwarder,
                    encoder_blocking,
                    signaling_task,
                    ice_forward_task,
                    state_task,
                    signaling,
                    webrtc,
                },
            ),
            (
                pin,
                capture,
                encoder_forwarder,
                encoder_blocking,
                signaling_task,
                ice_forward_task,
                state_task,
                signaling,
                webrtc,
            ) => Err(
                PartialInit {
                    pin,
                    signaling,
                    webrtc,
                    capture,
                    encoder_blocking,
                    encoder_forwarder,
                    signaling_task,
                    ice_forward_task,
                    state_task,
                },
            ),
        }
    }

    /// Consumes what is up and hands out the steps that take it down.
    pub fn cleanup(self) -> (steps: Vec<TeardownStep<S, P, C, T>>)
        ensures
            steps@ == self.steps(),
    {
        let mut steps: Vec<TeardownStep<S, P, C, T>> = Vec::new();
        push_join(&mut steps, self.state_task, STATE_BUDGET_MS);
        push_join(&mut steps, self.ice_forward_task, ICE_BUDGET_MS);
        push_join(&mut steps, self.signaling_task, SIGNALING_BUDGET_MS);
        push_join(&mut steps, self.encoder_forwarder, FORWARDER_BUDGET_MS);
        push_join(&mut steps, self.encoder_blocking, BLOCKING_BUDGET_MS);
        match self.capture {
            Some(c) => {
                steps.push(TeardownStep::StopCapture(c));
            },
            None => {},
        }
        match self.webrtc {
            Some(p) => {
                steps.push(TeardownStep::ClosePeer(p));
            },
            None => {},
        }
        match self.signaling {
            Some(s) => {
                steps.push(TeardownStep::EndSession(s));
            },
            None => {},
        }
        assert(steps@ =~= self.steps());
        steps
    }
}

fn push_join<S, P, C, T>(steps: &mut Vec<TeardownStep<S, P, C, T>>, task: Option<T>, budget_ms: u64)
    ensures
        final(steps)@ == old(steps)@ + release(join_step::<S, P, C, T>(task, budget_ms)),
{
    match task {
        Some(task) => {
            steps.push(TeardownStep::Join { task, budget_ms });
            assert(steps@ =~= old(steps)@ + release(
                join_step::<S, P, C, T>(Some(task), budget_ms),
            ));
        },
        None => {
            assert(steps@ =~= old(steps)@ + Seq::empty());
        },
    }
}

/// The step that brings up stage `stage`.
pub open spec fn step_at(stage: int) -> InitStep {
    if stage == 0 {
        InitStep::OpenSignaling
    } else if stage == 1 {
        InitStep::BuildPeer
    } else if stage == 2 {
        InitStep::StartCapture
    } else if stage == 3 {
        InitStep::SpawnEncoder
    } else if stage == 4 {
        InitStep::SpawnSignalingLoop
    } else if stage == 5 {
        InitStep::SpawnIceForwarder
    } else if stage == 6 {
        InitStep::SpawnStateWatcher
    } else {
        InitStep::Complete
    }
}

/// The stage that something belongs to.
pub open spec fn stage_of<S, P, C, T>(what: Acquired<S, P, C, T>) -> int {
    match what {
        Acquired::Signaling { .. } => 0,
        Acquired::Peer(_) => 1,
        Acquired::Capture(_) => 2,
        Acquired::Encoder { .. } => 3,
        Acquired::SignalingLoop(_) => 4,
        Acquired::IceForwarder(_) => 5,
        Acquired::StateWatcher(_) => 6,
    }
}

/// What is up once `what` has come up too.
pub open spec fn with<S, P, C, T>(
    partial: PartialInit<S, P, C, T>,
    what: Acquired<S, P, C, T>,
) -> PartialInit<S, P, C, T> {
    match what {
        Acquired::Signaling { client, pin } => PartialInit {
            pin: Some(pin),
            signaling: Some(client),
            ..partial
        },
        Acquired::Peer(peer) => PartialInit { webrtc: Some(peer), ..partial },
        Acquired::Capture(capture) => PartialInit { capture: Some(capture), ..partial },
        Acquired::Encoder { blocking, forwarder } => PartialInit {
            encoder_blocking: Some(blocking),
            encoder_forwarder: Some(forwarder),
            ..partial
        },
        Acquired::SignalingLoop(task) => PartialInit { signaling_task: Some(task), ..partial },
        Acquired::IceForwarder(task) => PartialInit { ice_forward_task: Some(task), ..partial },
        Acquired::StateWatcher(task) => PartialInit { state_task: Some(task), ..partial },
    }
}

/// Whether `running` owns exactly what `partial` brought up.
pub open spec fn is_session<S, P, C, T>(
    partial: PartialInit<S, P, C, T>,
    running: Running<S, P, C, T>,
) -> bool {
    &&& partial.pin == Some(running.pin)
    &&& partial.signaling == Some(running.signaling)
    &&& partial.webrtc == Some(running.webrtc)
    &&& partial.capture == Some(running.capture)
    &&& partial.encoder_blocking == Some(running.encoder_blocking)
    &&& partial.encoder_forwarder == Some(running.encoder_forwarder)
    &&& partial.signaling_task == Some(running.signaling_task)
    &&& partial.ice_forward_task == Some(running.ice_forward_task)
    &&& partial.state_task == Some(running.state_task)
}


/// The client's event stream, or the error if it was taken before.
pub fn events_for_loop<R>(events: Option<R>) -> (stream: Result<R, SessionError>)
    ensures
        match events {
            Some(r) => stream == Ok::<R, SessionError>(r),
            None => stream matches Err(SessionError::Signaling(SignalingError::Protocol(why))) && why@
                == "signaling events already taken"@,
        },
{
    match events {
        Some(r) => Ok(r),
        None => Err(
            SessionError::from(
                SignalingError::Protocol("signaling events already taken".to_owned()),
            ),
        ),
    }
}

/// The client's way out, or the error if the client is closed.
pub fn sender_for_tasks<R>(sender: Option<R>) -> (tx: Result<R, SessionError>)
    ensures
        match sender {
            Some(r) => tx == Ok::<R, SessionError>(r),
            None => tx matches Err(SessionError::Signaling(SignalingError::Protocol(why))) && why@
                == "signaling sender unavailable"@,
        },
{
    match sender {
        Some(r) => Ok(r),
        None => Err(
            SessionError::from(SignalingError::Protocol("signaling sender unavailable".to_owned())),
        ),
    }
}

/// The candidate stream, or the error if it was taken before.
pub fn ice_stream_for_forwarder<R>(stream: Option<R>) -> (taken: Result<R, SessionError>)
    ensures
        match stream {
            Some(r) => taken == Ok::<R, SessionError>(r),
            None => taken matches Err(SessionError::WebRtc(WebRtcError::State(why))) && why@
                == "ice stream already taken"@,
        },
{
    match stream {
        Some(r) => Ok(r),
        None => Err(SessionError::from(WebRtcError::State("ice stream already taken".to_owned()))),
    }
}

/// The state stream, or the error if it was taken before.
pub fn state_stream_for_watcher<R>(stream: Option<R>) -> (taken: Result<R, SessionError>)
    ensures
        match stream {
            Some(r) => taken == Ok::<R, SessionError>(r),
            None => taken matches Err(SessionError::WebRtc(WebRtcError::State(why))) && why@
                == "state stream already taken"@,
        },
{
    match stream {
        Some(r) => Ok(r),
        None => Err(SessionError::from(WebRtcError::State("state stream already taken".to_owned()))),
    }
}

// ---------------------------------------------------------------------------
// The application's state
// ---------------------------------------------------------------------------

/// Holds the session that runs, if one does.
pub struct AppState<S, P, C, T> {
    slot: Option<Running<S, P, C, T>>,
}

impl<S, P, C, T> View for AppState<S, P, C, T> {
    type V = Option<Running<S, P, C, T>>;

    closed spec fn view(&self) -> Option<Running<S, P, C, T>> {
        self.slot
    }
}

/// Whether somebody who ends the session gets the steps `taken`, and `after`
/// runs then, if `slot` ran before: the steps of the session, which runs no
/// longer, or none if no session ran.
pub open spec fn is_taking<S, P, C, T>(
    slot: Option<Running<S, P, C, T>>,
    taken: Option<Seq<TeardownStep<S, P, C, T>>>,
    after: Option<Running<S, P, C, T>>,
) -> bool {
    &&& taken == (match slot {
        Some(running) => Some(running.steps()),
        None => None,
    })
    &&& after is None
}

/// The PIN of the session that runs.
pub open spec fn pin_of<S, P, C, T>(slot: Option<Running<S, P, C, T>>) -> Option<String> {
    match slot {
        Some(running) => Some(running.pin),
        None => None,
    }
}

impl<S, P, C, T> AppState<S, P, C, T> {
    /// No session runs.
    pub fn new() -> (state: Self)
        ensures
            state@ is None,
    {
        AppState { slot: None }
    }

    pub fn is_running(&self) -> (running: bool)
        ensures
            running == (self@ is Some),
    {
        self.slot.is_some()
    }

    /// The PIN of the session that runs.
    pub fn current_pin(&self) -> (pin: Option<String>)
        ensures
            pin == pin_of(self@),
    {
        match &self.slot {
            Some(running) => Some(running.pin.clone()),
            None => None,
        }
    }

    /// Begins to start a session, unless one runs: hands out what it comes up
    /// in, with nothing up yet.
    pub fn start(&self) -> (begun: Result<PartialInit<S, P, C, T>, SessionError>)
        ensures
            match begun {
                Ok(partial) => {
                    &&& self@ is None
                    &&& partial == nothing_up::<S, P, C, T>()
                    &&& partial.in_order()
                    &&& partial.stage() == 0
                },
                Err(e) => self@ is Some && e is AlreadyRunning,
            },
    {
        if self.slot.is_some() {
            return Err(SessionError::AlreadyRunning);
        }
        Ok(PartialInit::new())
    }

    /// Takes over a session that has come up, and gives its PIN: the one that
    /// the server chose, whose six digits are the server's business and are
    /// not counted here.
    pub fn install(&mut self, running: Running<S, P, C, T>) -> (pin: String)
        ensures
            final(self)@ == Some(running),
            pin == running.pin,
            pin_of(final(self)@) == Some(pin),
    {
        let pin = running.pin.clone();
        self.slot = Some(running);
        pin
    }

    /// Stops the session at the user's wish: hands out the steps that take it
    /// down.
    pub fn stop(&mut self) -> (steps: Result<Vec<TeardownStep<S, P, C, T>>, SessionError>)
        ensures
            match steps {
                Ok(s) => is_taking(old(self)@, Some(s@), final(self)@),
                Err(e) => is_taking(old(self)@, None, final(self)@) && e is NotRunning,
            },
    {
        match self.slot.take() {
            Some(running) => Ok(running.teardown()),
            None => Err(SessionError::NotRunning),
        }
    }

    /// Stops the session because it is over: hands out the steps that take it
    /// down, unless the user was faster.
    pub fn shut_down(&mut self) -> (steps: Option<Vec<TeardownStep<S, P, C, T>>>)
        ensures
            match steps {
                Some(s) => is_taking(old(self)@, Some(s@), final(self)@),
                None => is_taking(old(self)@, None, final(self)@),
            },
    {
        match self.slot.take() {
            Some(running) => Some(running.teardown()),
            None => None,
        }
    }
}

impl<S, P, C, T> Default for AppState<S, P, C, T> {
    /// No session runs.
    fn default() -> (state: Self)
        ensures
            state@ is None,
    {
        AppState::new()
    }
}

// ---------------------------------------------------------------------------
// What holds of every session
// ---------------------------------------------------------------------------

/// Whether a step releases something that a session owns.
pub open spec fn releases<S, P, C, T>(step: TeardownStep<S, P, C, T>) -> bool {
    !(step is Flush)
}

/// The things that are up, counted.
pub open spec fn things_up<S, P, C, T>(partial: PartialInit<S, P, C, T>) -> nat {
    let count = |up: bool|
        if up {
            1nat
        } else {
            0nat
        };
    count(partial.signaling is Some) + count(partial.webrtc is Some) + count(
        partial.capture is Some,
    ) + count(partial.encoder_blocking is Some) + count(partial.encoder_forwarder is Some) + count(
        partial.signaling_task is Some,
    ) + count(partial.ice_forward_task is Some) + count(partial.state_task is Some)
}

/// A failed start leaves nothing behind: cleanup takes exactly as many steps
/// as there are things up, each of them releases something, and whatever is up
/// has its step.
pub proof fn cleanup_releases_what_is_up<S, P, C, T>(partial: PartialInit<S, P, C, T>)
    ensures
        partial.steps().len() == things_up(partial),
        forall|i: int| 0 <= i < partial.steps().len() ==> releases(#[trigger] partial.steps()[i]),
        partial.signaling matches Some(s) ==> partial.steps().contains(TeardownStep::EndSession(s)),
        partial.capture matches Some(c) ==> partial.steps().contains(TeardownStep::StopCapture(c)),
        partial.webrtc matches Some(p) ==> partial.steps().contains(TeardownStep::ClosePeer(p)),
        partial.encoder_forwarder matches Some(t) ==> partial.steps().contains(
            TeardownStep::Join { task: t, budget_ms: FORWARDER_BUDGET_MS },
        ),
        partial.encoder_blocking matches Some(t) ==> partial.steps().contains(
            TeardownStep::Join { task: t, budget_ms: BLOCKING_BUDGET_MS },
        ),
        partial.signaling_task matches Some(t) ==> partial.steps().contains(
            TeardownStep::Join { task: t, budget_ms: SIGNALING_BUDGET_MS },
        ),
        partial.ice_forward_task matches Some(t) ==> partial.steps().contains(
            TeardownStep::Join { task: t, budget_ms: ICE_BUDGET_MS },
        ),
        partial.state_task matches Some(t) ==> partial.steps().contains(
            TeardownStep::Join { task: t, budget_ms: STATE_BUDGET_MS },
        ),
{
    let s0 = Seq::<TeardownStep<S, P, C, T>>::empty();
    let state = join_step::<S, P, C, T>(partial.state_task, STATE_BUDGET_MS);
    let ice = join_step::<S, P, C, T>(partial.ice_forward_task, ICE_BUDGET_MS);
    let signaling_loop = join_step::<S, P, C, T>(partial.signaling_task, SIGNALING_BUDGET_MS);
    let forwarder = join_step::<S, P, C, T>(partial.encoder_forwarder, FORWARDER_BUDGET_MS);
    let blocking = join_step::<S, P, C, T>(partial.encoder_blocking, BLOCKING_BUDGET_MS);
    let capture: Option<TeardownStep<S, P, C, T>> = match partial.capture {
        Some(c) => Some(TeardownStep::StopCapture(c)),
        None => None,
    };
    let webrtc: Option<TeardownStep<S, P, C, T>> = match partial.webrtc {
        Some(p) => Some(TeardownStep::ClosePeer(p)),
        None => None,
    };
    let signaling: Option<TeardownStep<S, P, C, T>> = match partial.signaling {
        Some(s) => Some(TeardownStep::EndSession(s)),
        None => None,
    };
    let s1 = s0 + release(state);
    let s2 = s1 + release(ice);
    let s3 = s2 + release(signaling_loop);
    let s4 = s3 + release(forwarder);
    let s5 = s4 + release(blocking);
    let s6 = s5 + release(capture);
    let s7 = s6 + release(webrtc);
    assert(s1 =~= release(state));
    assert(partial.steps() == s7 + release(signaling));
    one_more_release(s0, state);
    one_more_release(s1, ice);
    one_more_release(s2, signaling_loop);
    one_more_release(s3, forwarder);
    one_more_release(s4, blocking);
    one_more_release(s5, capture);
    one_more_release(s6, webrtc);
    one_more_release(s7, signaling);
}

/// What one more step adds to a list of steps.
proof fn one_more_release<S, P, C, T>(
    before: Seq<TeardownStep<S, P, C, T>>,
    step: Option<TeardownStep<S, P, C, T>>,
)
    requires
        forall|i: int| 0 <= i < before.len() ==> releases(#[trigger] before[i]),
        step matches Some(s) ==> releases(s),
    ensures
        (before + release(step)).len() == before.len() + if step is Some {
            1int
        } else {
            0int
        },
        forall|i: int|
            0 <= i < (before + release(step)).len() ==> releases(
                #[trigger] (before + release(step))[i],
            ),
        forall|s: TeardownStep<S, P, C, T>|
            before.contains(s) ==> #[trigger] (before + release(step)).contains(s),
        step matches Some(s) ==> (before + release(step)).contains(s),
{
    let after = before + release(step);
    assert forall|s: TeardownStep<S, P, C, T>| before.contains(s) implies #[trigger] after.contains(
        s,
    ) by {
        let i = choose|i: int| 0 <= i < before.len() && before[i] == s;
        assert(after[i] == s);
    }
    if step is Some {
        assert(after[before.len() as int] == step->0);
    }
}

/// The steps that take down what one stage brought up.
pub open spec fn undoing<S, P, C, T>(what: Acquired<S, P, C, T>) -> Seq<TeardownStep<S, P, C, T>> {
    match what {
        Acquired::Signaling { client, .. } => seq![TeardownStep::EndSession(client)],
        Acquired::Peer(peer) => seq![TeardownStep::ClosePeer(peer)],
        Acquired::Capture(capture) => seq![TeardownStep::StopCapture(capture)],
        Acquired::Encoder { blocking, forwarder } => seq![
            TeardownStep::Join { task: forwarder, budget_ms: FORWARDER_BUDGET_MS },
            TeardownStep::Join { task: blocking, budget_ms: BLOCKING_BUDGET_MS },
        ],
        Acquired::SignalingLoop(task) => seq![
            TeardownStep::Join { task, budget_ms: SIGNALING_BUDGET_MS },
        ],
        Acquired::IceForwarder(task) => seq![TeardownStep::Join { task, budget_ms: ICE_BUDGET_MS }],
        Acquired::StateWatcher(task) => seq![
            TeardownStep::Join { task, budget_ms: STATE_BUDGET_MS },
        ],
    }
}

/// A failed start is unwound in reverse: what came up last is taken down
/// first, and the rest follows as it would have without it.
pub proof fn cleanup_unwinds_in_reverse<S, P, C, T>(
    partial: PartialInit<S, P, C, T>,
    what: Acquired<S, P, C, T>,
)
    requires
        partial.in_order(),
        partial.stage() == stage_of(what),
    ensures
        with(partial, what).steps() == undoing(what) + partial.steps(),
{
    assert(with(partial, what).steps() =~= undoing(what) + partial.steps());
}

/// A teardown releases exactly what the start brought up: without the moment
/// to flush, its steps are those that cleanup would have taken, though in
/// another order.
pub proof fn teardown_mirrors_cleanup<S, P, C, T>(
    partial: PartialInit<S, P, C, T>,
    running: Running<S, P, C, T>,
)
    requires
        is_session(partial, running),
    ensures
        running.steps().remove(3).to_multiset() == partial.steps().to_multiset(),
        !releases(running.steps()[3]),
{
    broadcast use vstd::seq_lib::group_to_multiset_ensures;

    let none = Seq::<TeardownStep<S, P, C, T>>::empty();
    let goodbye = TeardownStep::<S, P, C, T>::EndSession(running.signaling);
    let capture = TeardownStep::<S, P, C, T>::StopCapture(running.capture);
    let peer = TeardownStep::<S, P, C, T>::ClosePeer(running.webrtc);
    let forwarder = TeardownStep::<S, P, C, T>::Join {
        task: running.encoder_forwarder,
        budget_ms: FORWARDER_BUDGET_MS,
    };
    let blocking = TeardownStep::<S, P, C, T>::Join {
        task: running.encoder_blocking,
        budget_ms: BLOCKING_BUDGET_MS,
    };
    let signaling_loop = TeardownStep::<S, P, C, T>::Join {
        task: running.signaling_task,
        budget_ms: SIGNALING_BUDGET_MS,
    };
    let ice = TeardownStep::<S, P, C, T>::Join {
        task: running.ice_forward_task,
        budget_ms: ICE_BUDGET_MS,
    };
    let state = TeardownStep::<S, P, C, T>::Join {
        task: running.state_task,
        budget_ms: STATE_BUDGET_MS,
    };
    let down = none.push(goodbye).push(capture).push(peer).push(forwarder).push(blocking).push(
        signaling_loop,
    ).push(ice).push(state);
    let unwound = none.push(state).push(ice).push(signaling_loop).push(forwarder).push(
        blocking,
    ).push(capture).push(peer).push(goodbye);
    assert(running.steps().remove(3) =~= down);
    assert(partial.steps() =~= unwound);
    assert(down.to_multiset() =~= unwound.to_multiset());
}

/// Whether users and supervisors who end the session one after the other get
/// `taken`, while the application holds `slots` before, between and after.
pub open spec fn is_taking_run<S, P, C, T>(
    slots: Seq<Option<Running<S, P, C, T>>>,
    taken: Seq<Option<Seq<TeardownStep<S, P, C, T>>>>,
) -> bool {
    &&& slots.len() == taken.len() + 1
    &&& forall|i: int|
        0 <= i < taken.len() ==> is_taking(slots[i], #[trigger] taken[i], slots[i + 1])
}

/// A session is torn down once. Of those who end it, however many they are,
/// the first gets its steps, all of them, and nobody after gets any; if no
/// session ran, nobody does. In either case none runs afterwards.
pub proof fn a_session_is_torn_down_once<S, P, C, T>(
    slots: Seq<Option<Running<S, P, C, T>>>,
    taken: Seq<Option<Seq<TeardownStep<S, P, C, T>>>>,
)
    requires
        is_taking_run(slots, taken),
        taken.len() > 0,
    ensures
        slots[0] matches Some(running) ==> taken[0] == Some(running.steps()),
        slots[0] is None ==> taken[0] is None,
        forall|i: int| 0 < i < taken.len() ==> (#[trigger] taken[i]) is None,
        slots.last() is None,
{
    assert(is_taking(slots[0], taken[0], slots[1]));
    assert forall|i: int| 0 < i < taken.len() implies (#[trigger] taken[i]) is None by {
        assert(is_taking(slots[i - 1], taken[i - 1], slots[i - 1 + 1]));
        assert(is_taking(slots[i], taken[i], slots[i + 1]));
    }
    let last = taken.len() - 1;
    assert(is_taking(slots[last], taken[last], slots[last + 1]));
}

/// Whether a text is a PIN as the viewer enters it: six digits.
pub open spec fn is_pin(text: Seq<char>) -> bool {
    &&& text.len() == 6
    &&& forall|i: int| 0 <= i < text.len() ==> '0' <= #[trigger] text[i] <= '9'
}

/// What is up once these have come up, one after the other.
pub open spec fn brought_up<S, P, C, T>(gains: Seq<Acquired<S, P, C, T>>) -> PartialInit<S, P, C, T>
    decreases gains.len(),
{
    if gains.len() == 0 {
        nothing_up()
    } else {
        with(brought_up(gains.drop_last()), gains.last())
    }
}

proof fn the_pin_stays<S, P, C, T>(gains: Seq<Acquired<S, P, C, T>>)
    requires
        gains.len() > 0,
        forall|i: int| 0 <= i < gains.len() ==> stage_of(#[trigger] gains[i]) == i,
    ensures
        gains[0] matches Acquired::Signaling { pin, .. } && brought_up(gains).pin == Some(pin),
    decreases gains.len(),
{
    assert(stage_of(gains[0]) == 0);
    if gains.len() > 1 {
        let before = gains.drop_last();
        assert forall|i: int| 0 <= i < before.len() implies stage_of(#[trigger] before[i]) == i by {
            assert(stage_of(gains[i]) == i);
        }
        the_pin_stays(before);
        assert(stage_of(gains[gains.len() - 1]) == gains.len() - 1);
    } else {
        reveal_with_fuel(brought_up, 2);
    }
}

/// The PIN of a session is the one that the server sent, six digits if the
/// server sent six digits. From the server's message it becomes the answer to
/// the request (`message`, `reply`), the result of the request (`result`), the
/// first thing that comes up (`gains`) and the PIN of the session that runs
/// then. The application gives this PIN as long as the session runs, and none
/// once somebody has ended it (`taken`, `after`).
pub proof fn the_pin_is_the_one_the_server_sent<S, P, C, T>(
    message: ServerMessage,
    reply: Result<String, SignalingError>,
    result: Result<String, SignalingError>,
    gains: Seq<Acquired<S, P, C, T>>,
    running: Running<S, P, C, T>,
    taken: Option<Seq<TeardownStep<S, P, C, T>>>,
    after: Option<Running<S, P, C, T>>,
)
    requires
        message is SessionCreated,
        is_reply(reply, message),
        is_conclusion(CreateEvent::Replied(reply), result),
        gains.len() == 7,
        forall|i: int| 0 <= i < gains.len() ==> stage_of(#[trigger] gains[i]) == i,
        gains[0] matches Acquired::Signaling { pin, .. } && result == Ok::<String, SignalingError>(pin),
        is_session(brought_up(gains), running),
        is_taking(Some(running), taken, after),
    ensures
        message matches ServerMessage::SessionCreated { pin } && {
            &&& running.pin == pin
            &&& is_pin(pin@) ==> is_pin(running.pin@)
            &&& pin_of(Some(running)) == Some(pin)
        },
        pin_of(after) is None,
{
    the_pin_stays(gains);
}

/// Seven steps, in this order and no other, bring a session up: after each
/// one the next is due, and after the last the session is complete.
pub proof fn a_session_comes_up_in_order<S, P, C, T>(
    partial: PartialInit<S, P, C, T>,
    what: Acquired<S, P, C, T>,
)
    requires
        partial.in_order(),
        partial.stage() == stage_of(what),
    ensures
        with(partial, what).in_order(),
        with(partial, what).stage() == partial.stage() + 1,
        step_at(partial.stage()) != InitStep::Complete,
        step_at(with(partial, what).stage()) == InitStep::Complete <==> what is StateWatcher,
{
}


/// The next step brings up the first thing that is missing, in this order:
/// signaling, peer, capture, encoder, signaling loop, candidate forwarder,
/// state watcher. Nothing but what is missing counts.
pub proof fn the_first_missing_thing_is_next<S, P, C, T>(partial: PartialInit<S, P, C, T>)
    ensures
        ({
            let next = step_at(partial.stage());
            &&& next == InitStep::OpenSignaling <==> partial.signaling is None
            &&& next == InitStep::BuildPeer <==> partial.signaling is Some && partial.webrtc is None
            &&& next == InitStep::StartCapture <==> partial.signaling is Some && partial.webrtc is Some
                && partial.capture is None
            &&& next == InitStep::SpawnEncoder <==> partial.signaling is Some && partial.webrtc is Some
                && partial.capture is Some && partial.encoder_blocking is None
            &&& next == InitStep::SpawnSignalingLoop <==> partial.signaling is Some
                && partial.webrtc is Some && partial.capture is Some
                && partial.encoder_blocking is Some && partial.signaling_task is None
            &&& next == InitStep::SpawnIceForwarder <==> partial.signaling is Some
                && partial.webrtc is Some && partial.capture is Some
                && partial.encoder_blocking is Some && partial.signaling_task is Some
                && partial.ice_forward_task is None
            &&& next == InitStep::SpawnStateWatcher <==> partial.signaling is Some
                && partial.webrtc is Some && partial.capture is Some
                && partial.encoder_blocking is Some && partial.signaling_task is Some
                && partial.ice_forward_task is Some && partial.state_task is None
        }),
{
}

/// A teardown goes from the source of everything to the tasks that live on
/// it: goodbye to the server, capture, peer connection, a tenth of a second to
/// flush, and then the tasks, each with its own patience.
pub proof fn a_teardown_stops_the_sources_first<S, P, C, T>(running: Running<S, P, C, T>)
    ensures
        running.steps().len() == 9,
        running.steps()[0] == TeardownStep::<S, P, C, T>::EndSession(running.signaling),
        running.steps()[1] == TeardownStep::<S, P, C, T>::StopCapture(running.capture),
        running.steps()[2] == TeardownStep::<S, P, C, T>::ClosePeer(running.webrtc),
        running.steps()[3] == (TeardownStep::<S, P, C, T>::Flush { ms: 100 }),
        running.steps()[4] == (TeardownStep::<S, P, C, T>::Join {
            task: running.encoder_forwarder,
            budget_ms: 500,
        }),
        running.steps()[5] == (TeardownStep::<S, P, C, T>::Join {
            task: running.encoder_blocking,
            budget_ms: 1000,
        }),
        running.steps()[6] == (TeardownStep::<S, P, C, T>::Join {
            task: running.signaling_task,
            budget_ms: 500,
        }),
        running.steps()[7] == (TeardownStep::<S, P, C, T>::Join {
            task: running.ice_forward_task,
            budget_ms: 200,
        }),
        running.steps()[8] == (TeardownStep::<S, P, C, T>::Join {
            task: running.state_task,
            budget_ms: 200,
        }),
{
}

/// What runs once everything is up is what came up, each thing in its own
/// role, and only a session with everything up can run.
pub proof fn a_session_runs_on_what_came_up<S, P, C, T>(
    gains: Seq<Acquired<S, P, C, T>>,
    running: Running<S, P, C, T>,
)
    requires
        gains.len() == 7,
        forall|i: int| 0 <= i < gains.len() ==> stage_of(#[trigger] gains[i]) == i,
        is_session(brought_up(gains), running),
    ensures
        gains[0] == (Acquired::<S, P, C, T>::Signaling {
            client: running.signaling,
            pin: running.pin,
        }),
        gains[1] == Acquired::<S, P, C, T>::Peer(running.webrtc),
        gains[2] == Acquired::<S, P, C, T>::Capture(running.capture),
        gains[3] == (Acquired::<S, P, C, T>::Encoder {
            blocking: running.encoder_blocking,
            forwarder: running.encoder_forwarder,
        }),
        gains[4] == Acquired::<S, P, C, T>::SignalingLoop(running.signaling_task),
        gains[5] == Acquired::<S, P, C, T>::IceForwarder(running.ice_forward_task),
        gains[6] == Acquired::<S, P, C, T>::StateWatcher(running.state_task),
{
    reveal_with_fuel(brought_up, 8);
    assert(stage_of(gains[0]) == 0 && stage_of(gains[1]) == 1 && stage_of(gains[2]) == 2 && stage_of(
        gains[3],
    ) == 3 && stage_of(gains[4]) == 4 && stage_of(gains[5]) == 5 && stage_of(gains[6]) == 6);
    assert(gains.drop_last().drop_last().drop_last().drop_last().drop_last().drop_last().drop_last().len()
        == 0);
}

/// An error's message is a label for the part that failed, then that part's
/// own message, in full.
pub proof fn session_errors_end_with_the_part_s_message(
    capture: CaptureError,
    codec: CodecError,
    signaling: SignalingError,
    webrtc: WebRtcError,
)
    ensures
        SessionError::Capture(capture).text().take(9) == "capture: "@,
        SessionError::Capture(capture).text().skip(9) == capture.text(),
        SessionError::Codec(codec).text().take(7) == "codec: "@,
        SessionError::Codec(codec).text().skip(7) == codec.text(),
        SessionError::Signaling(signaling).text().take(11) == "signaling: "@,
        SessionError::Signaling(signaling).text().skip(11) == signaling.text(),
        SessionError::WebRtc(webrtc).text().take(8) == "webrtc: "@,
        SessionError::WebRtc(webrtc).text().skip(8) == webrtc.text(),
{
    reveal_strlit("capture: ");
    reveal_strlit("codec: ");
    reveal_strlit("signaling: ");
    reveal_strlit("webrtc: ");
    assert(SessionError::Capture(capture).text().take(9) =~= "capture: "@);
    assert(SessionError::Capture(capture).text().skip(9) =~= capture.text());
    assert(SessionError::Codec(codec).text().take(7) =~= "codec: "@);
    assert(SessionError::Codec(codec).text().skip(7) =~= codec.text());
    assert(SessionError::Signaling(signaling).text().take(11) =~= "signaling: "@);
    assert(SessionError::Signaling(signaling).text().skip(11) =~= signaling.text());
    assert(SessionError::WebRtc(webrtc).text().take(8) =~= "webrtc: "@);
    assert(SessionError::WebRtc(webrtc).text().skip(8) =~= webrtc.text());
}


/// One for something that is up, none for something that is not.
pub open spec fn one_if_up<A>(thing: Option<A>) -> int {
    if thing is Some {
        1
    } else {
        0
    }
}

/// Whatever is up, and whatever is not: each thing is taken down right after
/// those that come up later than it, and right before those that come up
/// earlier.
pub proof fn cleanup_goes_from_last_to_first<S, P, C, T>(partial: PartialInit<S, P, C, T>)
    ensures
        ({
            let steps = partial.steps();
            let ice = one_if_up(partial.state_task);
            let signaling_loop = ice + one_if_up(partial.ice_forward_task);
            let forwarder = signaling_loop + one_if_up(partial.signaling_task);
            let blocking = forwarder + one_if_up(partial.encoder_forwarder);
            let capture = blocking + one_if_up(partial.encoder_blocking);
            let peer = capture + one_if_up(partial.capture);
            let goodbye = peer + one_if_up(partial.webrtc);
            &&& steps.len() == goodbye + one_if_up(partial.signaling)
            &&& partial.state_task matches Some(task) ==> steps[0] == (TeardownStep::<S, P, C, T>::Join {
                task,
                budget_ms: 200,
            })
            &&& partial.ice_forward_task matches Some(task) ==> steps[ice] == (
            TeardownStep::<S, P, C, T>::Join { task, budget_ms: 200 })
            &&& partial.signaling_task matches Some(task) ==> steps[signaling_loop] == (
            TeardownStep::<S, P, C, T>::Join { task, budget_ms: 500 })
            &&& partial.encoder_forwarder matches Some(task) ==> steps[forwarder] == (
            TeardownStep::<S, P, C, T>::Join { task, budget_ms: 500 })
            &&& partial.encoder_blocking matches Some(task) ==> steps[blocking] == (
            TeardownStep::<S, P, C, T>::Join { task, budget_ms: 1000 })
            &&& partial.capture matches Some(c) ==> steps[capture]
                == TeardownStep::<S, P, C, T>::StopCapture(c)
            &&& partial.webrtc matches Some(p) ==> steps[peer] == TeardownStep::<S, P, C, T>::ClosePeer(
                p,
            )
            &&& partial.signaling matches Some(s) ==> steps[goodbye]
                == TeardownStep::<S, P, C, T>::EndSession(s)
        }),
{
}

/// Each part's error becomes the session's error for that part, and keeps all
/// that it says.
pub proof fn errors_keep_their_part(
    capture: CaptureError,
    codec: CodecError,
    signaling: SignalingError,
    webrtc: WebRtcError,
)
    ensures
        <SessionError as FromSpec<CaptureError>>::from_spec(capture) == SessionError::Capture(capture),
        <SessionError as FromSpec<CodecError>>::from_spec(codec) == SessionError::Codec(codec),
        <SessionError as FromSpec<SignalingError>>::from_spec(signaling) == SessionError::Signaling(
            signaling,
        ),
        <SessionError as FromSpec<WebRtcError>>::from_spec(webrtc) == SessionError::WebRtc(webrtc),
{
}

} // verus!
