//! Watching the connection state.
//!
//! A connection that fails or closes ends the session at once. One that is
//! merely disconnected gets a grace window to recover in: many networks come
//! back within seconds. The window's deadline is set once, when the window
//! opens; whatever is reported meanwhile does not move it.
use crate::tasks::ShutdownReason;
use crate::webrtc_host::ConnState;
use vstd::prelude::*;

verus! {

/// How long a disconnected peer may take to come back.
pub const DISCONNECT_GRACE_MS: u64 = 15_000;

/// What the watcher is told.
#[derive(Debug, Clone, Copy, PartialEq, Eq, Structural)]
pub enum WatchEvent {
    /// The connection changed its state.
    State(ConnState),
    /// No more states come.
    StreamEnded,
    /// The time that the watcher wanted to wait is over.
    Timer,
}

/// What the watcher does next.
#[derive(Debug, Clone, Copy, PartialEq, Eq, Structural)]
pub enum WatchAction {
    /// Wait for the next state.
    Listen,
    /// Wait for the next state, but no longer than this.
    ListenFor { ms: u64 },
    /// Wait this long; no more states come.
    Sleep { ms: u64 },
    /// End the session, and the watcher with it.
    Shutdown(ShutdownReason),
    /// End the watcher alone.
    Finish,
}

/// Where the watcher stands.
#[derive(Debug, Clone, Copy, PartialEq, Eq, Structural)]
pub enum Watch {
    /// The connection is up, or on its way.
    Watching,
    /// The connection is down and may come back until the deadline.
    Grace { deadline_ms: u64, stream_open: bool },
    /// The watcher has ended.
    Finished,
}

/// The grace window that opens at `now_ms`.
pub open spec fn window_from(now_ms: u64) -> u64 {
    if now_ms + DISCONNECT_GRACE_MS > u64::MAX {
        u64::MAX
    } else {
        (now_ms + DISCONNECT_GRACE_MS) as u64
    }
}

/// The grace window at `now_ms`: over, or to be waited out.
pub open spec fn in_window(deadline_ms: u64, stream_open: bool, now_ms: u64) -> (Watch, WatchAction) {
    if now_ms >= deadline_ms {
        (Watch::Finished, WatchAction::Shutdown(ShutdownReason::IceDisconnectedTimeout))
    } else {
        (
            Watch::Grace { deadline_ms, stream_open },
            if stream_open {
                WatchAction::ListenFor { ms: (deadline_ms - now_ms) as u64 }
            } else {
                WatchAction::Sleep { ms: (deadline_ms - now_ms) as u64 }
            },
        )
    }
}

/// Where the watcher stands after `event` at `now_ms`, and what it does next.
pub open spec fn watch_step(watch: Watch, now_ms: u64, event: WatchEvent) -> (Watch, WatchAction) {
    match (watch, event) {
        (Watch::Watching, WatchEvent::State(ConnState::Failed)) => (
            Watch::Finished,
            WatchAction::Shutdown(ShutdownReason::IceFailed),
        ),
        (Watch::Watching, WatchEvent::State(ConnState::Closed)) => (
            Watch::Finished,
            WatchAction::Shutdown(ShutdownReason::IceClosed),
        ),
        (Watch::Watching, WatchEvent::State(ConnState::Disconnected)) => in_window(
            window_from(now_ms),
            true,
            now_ms,
        ),
        (Watch::Watching, WatchEvent::StreamEnded) => (Watch::Finished, WatchAction::Finish),
        (Watch::Watching, _) => (Watch::Watching, WatchAction::Listen),
        (Watch::Grace { .. }, WatchEvent::State(ConnState::Connected)) => (
            Watch::Watching,
            WatchAction::Listen,
        ),
        (Watch::Grace { .. }, WatchEvent::State(ConnState::Failed)) => (
            Watch::Finished,
            WatchAction::Shutdown(ShutdownReason::IceDisconnectedTerminal),
        ),
        (Watch::Grace { .. }, WatchEvent::State(ConnState::Closed)) => (
            Watch::Finished,
            WatchAction::Shutdown(ShutdownReason::IceDisconnectedTerminal),
        ),
        (Watch::Grace { deadline_ms, .. }, WatchEvent::StreamEnded) => in_window(
            deadline_ms,
            false,
            now_ms,
        ),
        (Watch::Grace { deadline_ms, stream_open }, _) => in_window(deadline_ms, stream_open, now_ms),
        (Watch::Finished, _) => (Watch::Finished, WatchAction::Finish),
    }
}

/// Watches the states of one connection.
#[derive(Debug)]
pub struct StateWatcher {
    watch: Watch,
}

impl View for StateWatcher {
    type V = Watch;

    closed spec fn view(&self) -> Watch {
        self.watch
    }
}

fn wait_in_window(deadline_ms: u64, stream_open: bool, now_ms: u64) -> (step: (Watch, WatchAction))
    ensures
        step == in_window(deadline_ms, stream_open, now_ms),
{
    if now_ms >= deadline_ms {
        return (Watch::Finished, WatchAction::Shutdown(ShutdownReason::IceDisconnectedTimeout));
    }
    let ms: u64 = deadline_ms - now_ms;
    let action = if stream_open {
        WatchAction::ListenFor { ms }
    } else {
        WatchAction::Sleep { ms }
    };
    (Watch::Grace { deadline_ms, stream_open }, action)
}

impl StateWatcher {
    /// A watcher that waits for the first state.
    pub fn new() -> (watcher: Self)
        ensures
            watcher@ == Watch::Watching,
    {
        StateWatcher { watch: Watch::Watching }
    }

    /// What the watcher does about `event`, which it is told at `now_ms` on a
    /// clock of the caller's.
    pub fn on_event(&mut self, now_ms: u64, event: WatchEvent) -> (action: WatchAction)
        ensures
            (final(self)@, action) == watch_step(old(self)@, now_ms, event),
    {
        let (watch, action) = match self.watch {
            Watch::Watching => match event {
                WatchEvent::State(ConnState::Failed) => (
                    Watch::Finished,
                    WatchAction::Shutdown(ShutdownReason::IceFailed),
                ),
                WatchEvent::State(ConnState::Closed) => (
                    Watch::Finished,
                    WatchAction::Shutdown(ShutdownReason::IceClosed),
                ),
                WatchEvent::State(ConnState::Disconnected) => wait_in_window(
                    now_ms.saturating_add(DISCONNECT_GRACE_MS),
                    true,
                    now_ms,
                ),
                WatchEvent::StreamEnded => (Watch::Finished, WatchAction::Finish),
                _ => (Watch::Watching, WatchAction::Listen),
            },
            Watch::Grace { deadline_ms, stream_open } => match event {
                WatchEvent::State(ConnState::Connected) => (Watch::Watching, WatchAction::Listen),
                WatchEvent::State(ConnState::Failed) => (
                    Watch::Finished,
                    WatchAction::Shutdown(ShutdownReason::IceDisconnectedTerminal),
                ),
                WatchEvent::State(ConnState::Closed) => (
                    Watch::Finished,
                    WatchAction::Shutdown(ShutdownReason::IceDisconnectedTerminal),
                ),
                WatchEvent::StreamEnded => wait_in_window(deadline_ms, false, now_ms),
                _ => wait_in_window(deadline_ms, stream_open, now_ms),
            },
            Watch::Finished => (Watch::Finished, WatchAction::Finish),
        };
        self.watch = watch;
        action
    }
}

/// An event and the time at which the watcher is told of it.
pub struct Told {
    pub now_ms: u64,
    pub event: WatchEvent,
}

/// Where the watcher stands after a series of events.
pub open spec fn watch_after(watch: Watch, told: Seq<Told>) -> Watch
    decreases told.len(),
{
    if told.len() == 0 {
        watch
    } else {
        watch_step(watch_after(watch, told.drop_last()), told.last().now_ms, told.last().event).0
    }
}

/// What the watcher does about the last of a series of events.
pub open spec fn last_action(watch: Watch, told: Seq<Told>) -> WatchAction
    recommends
        told.len() > 0,
{
    watch_step(watch_after(watch, told.drop_last()), told.last().now_ms, told.last().event).1
}

/// Whether an event leaves a disconnected peer as it is: neither back nor
/// gone for good.
pub open spec fn still_down(event: WatchEvent) -> bool {
    match event {
        WatchEvent::State(state) => state != ConnState::Connected && state != ConnState::Failed && state
            != ConnState::Closed,
        WatchEvent::StreamEnded | WatchEvent::Timer => true,
    }
}

/// The deadline of a grace window is set once. However often the watcher is
/// told that the peer is still down, and whether or not the stream of states
/// ends meanwhile: before the deadline the window stays open with the same
/// deadline, and nothing is shut down.
pub proof fn the_deadline_does_not_move(opened_ms: u64, told: Seq<Told>)
    requires
        opened_ms + DISCONNECT_GRACE_MS <= u64::MAX,
        forall|i: int| 0 <= i < told.len() ==> still_down((#[trigger] told[i]).event),
        forall|i: int|
            0 <= i < told.len() ==> (#[trigger] told[i]).now_ms < opened_ms + DISCONNECT_GRACE_MS,
    ensures
        watch_after(
            watch_step(Watch::Watching, opened_ms, WatchEvent::State(ConnState::Disconnected)).0,
            told,
        ) matches Watch::Grace { deadline_ms, .. } && deadline_ms == opened_ms + DISCONNECT_GRACE_MS,
        told.len() > 0 ==> {
            let action = last_action(
                watch_step(Watch::Watching, opened_ms, WatchEvent::State(ConnState::Disconnected)).0,
                told,
            );
            let left = opened_ms + DISCONNECT_GRACE_MS - told.last().now_ms;
            (action matches WatchAction::ListenFor { ms } && ms == left) || (
            action matches WatchAction::Sleep { ms } && ms == left)
        },
    decreases told.len(),
{
    if told.len() > 0 {
        let before = told.drop_last();
        assert forall|i: int| 0 <= i < before.len() implies still_down((#[trigger] before[i]).event)
            && before[i].now_ms < opened_ms + DISCONNECT_GRACE_MS by {
            assert(before[i] == told[i]);
        }
        the_deadline_does_not_move(opened_ms, before);
        assert(told.last() == told[told.len() - 1]);
    }
}

/// A peer that has not come back by the deadline is given up: the first event
/// from then on, be it only the timer, ends the session.
pub proof fn the_window_ends_at_the_deadline(opened_ms: u64, told: Seq<Told>, now_ms: u64, event: WatchEvent)
    requires
        opened_ms + DISCONNECT_GRACE_MS <= now_ms,
        still_down(event),
        forall|i: int| 0 <= i < told.len() ==> still_down((#[trigger] told[i]).event),
        forall|i: int|
            0 <= i < told.len() ==> (#[trigger] told[i]).now_ms < opened_ms + DISCONNECT_GRACE_MS,
    ensures
        last_action(
            watch_step(Watch::Watching, opened_ms, WatchEvent::State(ConnState::Disconnected)).0,
            told.push(Told { now_ms, event }),
        ) == WatchAction::Shutdown(ShutdownReason::IceDisconnectedTimeout),
{
    the_deadline_does_not_move(opened_ms, told);
    assert(told.push(Told { now_ms, event }).drop_last() =~= told);
}

/// A peer that comes back within the window is watched as before, and a later
/// disconnection opens a window of full length.
pub proof fn recovery_starts_over(opened_ms: u64, told: Seq<Told>, back_ms: u64, later_ms: u64)
    requires
        later_ms + DISCONNECT_GRACE_MS <= u64::MAX,
        opened_ms + DISCONNECT_GRACE_MS <= u64::MAX,
        forall|i: int| 0 <= i < told.len() ==> still_down((#[trigger] told[i]).event),
        forall|i: int|
            0 <= i < told.len() ==> (#[trigger] told[i]).now_ms < opened_ms + DISCONNECT_GRACE_MS,
    ensures
        ({
            let down = watch_step(
                Watch::Watching,
                opened_ms,
                WatchEvent::State(ConnState::Disconnected),
            ).0;
            let back = watch_step(
                watch_after(down, told),
                back_ms,
                WatchEvent::State(ConnState::Connected),
            ).0;
            &&& back == Watch::Watching
            &&& watch_step(back, later_ms, WatchEvent::State(ConnState::Disconnected)).0
                == (Watch::Grace {
                deadline_ms: (later_ms + DISCONNECT_GRACE_MS) as u64,
                stream_open: true,
            })
        }),
{
    the_deadline_does_not_move(opened_ms, told);
}

/// A session is shut down at most once: after a shutdown the watcher does
/// nothing any more.
pub proof fn a_shutdown_is_final(watch: Watch, now_ms: u64, event: WatchEvent, told: Seq<Told>)
    requires
        watch_step(watch, now_ms, event).1 is Shutdown,
    ensures
        watch_after(watch_step(watch, now_ms, event).0, told) == Watch::Finished,
        told.len() > 0 ==> last_action(watch_step(watch, now_ms, event).0, told) == WatchAction::Finish,
    decreases told.len(),
{
    if told.len() > 0 {
        a_shutdown_is_final(watch, now_ms, event, told.drop_last());
    }
}


/// A connection that is not down is ended by a failure or a close, each with
/// its own reason, and, as long as the clock runs, by nothing else. If its states end, the watcher ends
/// without a word. Whatever else happens, it listens on.
pub proof fn what_ends_a_connection(now_ms: u64, event: WatchEvent)
    ensures
        now_ms < u64::MAX ==> (watch_step(Watch::Watching, now_ms, event).1 is Shutdown <==> event
            == WatchEvent::State(ConnState::Failed) || event == WatchEvent::State(ConnState::Closed)),
        event == WatchEvent::State(ConnState::Failed) ==> watch_step(Watch::Watching, now_ms, event)
            == (Watch::Finished, WatchAction::Shutdown(ShutdownReason::IceFailed)),
        event == WatchEvent::State(ConnState::Closed) ==> watch_step(Watch::Watching, now_ms, event)
            == (Watch::Finished, WatchAction::Shutdown(ShutdownReason::IceClosed)),
        event == WatchEvent::StreamEnded ==> watch_step(Watch::Watching, now_ms, event) == (
            Watch::Finished,
            WatchAction::Finish,
        ),
        event == WatchEvent::Timer || event == WatchEvent::State(ConnState::New) || event
            == WatchEvent::State(ConnState::Connecting) || event == WatchEvent::State(
            ConnState::Connected,
        ) ==> watch_step(Watch::Watching, now_ms, event) == (Watch::Watching, WatchAction::Listen),
{
}

/// Within the window a failure or a close is the end at once, whenever it
/// comes and whatever came before it.
pub proof fn a_failure_ends_the_window(opened_ms: u64, told: Seq<Told>, now_ms: u64, state: ConnState)
    requires
        opened_ms + 15_000 <= u64::MAX,
        forall|i: int| 0 <= i < told.len() ==> still_down((#[trigger] told[i]).event),
        forall|i: int| 0 <= i < told.len() ==> (#[trigger] told[i]).now_ms < opened_ms + 15_000,
        state == ConnState::Failed || state == ConnState::Closed,
    ensures
        last_action(
            watch_step(Watch::Watching, opened_ms, WatchEvent::State(ConnState::Disconnected)).0,
            told.push(Told { now_ms, event: WatchEvent::State(state) }),
        ) == WatchAction::Shutdown(ShutdownReason::IceDisconnectedTerminal),
{
    the_deadline_does_not_move(opened_ms, told);
    assert(told.push(Told { now_ms, event: WatchEvent::State(state) }).drop_last() =~= told);
}

/// The window lasts fifteen seconds: when it opens, the watcher waits for
/// states that long and no longer, or to the end of the clock.
pub proof fn the_window_lasts_fifteen_seconds(now_ms: u64)
    requires
        now_ms < u64::MAX,
    ensures
        watch_step(Watch::Watching, now_ms, WatchEvent::State(ConnState::Disconnected)).1
            matches WatchAction::ListenFor { ms } && {
            &&& ms <= 15_000
            &&& ms < 15_000 ==> now_ms + ms == u64::MAX
        },
{
}

/// Once the stream of states has ended within the window, the watcher sleeps
/// until the deadline; before, it listens.
pub proof fn sleep_comes_with_the_end_of_states(
    deadline_ms: u64,
    stream_open: bool,
    now_ms: u64,
    event: WatchEvent,
)
    requires
        now_ms < deadline_ms,
        still_down(event),
    ensures
        ({
            let (watch, action) = watch_step(Watch::Grace { deadline_ms, stream_open }, now_ms, event);
            let open = stream_open && event != WatchEvent::StreamEnded;
            &&& watch == Watch::Grace { deadline_ms, stream_open: open }
            &&& action matches WatchAction::ListenFor { ms } ==> open && now_ms + ms == deadline_ms
            &&& action matches WatchAction::Sleep { ms } ==> !open && now_ms + ms == deadline_ms
            &&& action is ListenFor || action is Sleep
        }),
{
}

} // verus!
