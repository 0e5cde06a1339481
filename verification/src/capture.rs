//! Screen capture: which monitors there are, which one is captured, and what
//! becomes of a captured frame.
//!
//! Capture needs Windows; elsewhere it reports
//! [`CaptureError::UnsupportedPlatform`].
use crate::text::{
    decimal, decimal_reads_back, decimal_text, digits_value, is_digit, prefixed,
};
use crate::MonitorInfo;
use vstd::prelude::*;

verus! {

/// Why the screen could not be captured.
#[derive(Debug)]
pub enum CaptureError {
    UnsupportedPlatform,
    Failed(String),
    MonitorNotFound(usize),
}

impl CaptureError {
    /// The message that is shown to a user, as characters.
    pub open spec fn text(&self) -> Seq<char> {
        match self {
            CaptureError::UnsupportedPlatform =>
            "screen capture is not supported on this platform (Windows-only)"@,
            CaptureError::Failed(why) => "capture failed: "@ + why@,
            CaptureError::MonitorNotFound(index) => "monitor "@ + decimal(*index as nat)
                + " not found"@,
        }
    }

    /// The message that is shown to a user.
    pub fn message(&self) -> (text: String)
        ensures
            text@ == self.text(),
    {
        match self {
            CaptureError::UnsupportedPlatform =>
            "screen capture is not supported on this platform (Windows-only)".to_owned(),
            CaptureError::Failed(why) => prefixed("capture failed: ", why.as_str()),
            CaptureError::MonitorNotFound(index) => prefixed(
                "monitor ",
                decimal_text(*index as u64).as_str(),
            ).concat(" not found"),
        }
    }
}

/// A captured frame: rows from the top, four bytes for each pixel.
#[derive(Debug, Clone)]
pub struct RawFrame {
    pub width: u32,
    pub height: u32,
    pub bgra: Vec<u8>,
    pub pts_ms: u64,
}

/// Handle to a running capture `H`. The capture is handed out for stopping
/// once.
pub struct CaptureHandle<H> {
    inner: Option<H>,
}

impl<H> CaptureHandle<H> {
    /// The capture that still runs.
    pub closed spec fn running(&self) -> Option<H> {
        self.inner
    }

    pub fn new(capture: H) -> (handle: Self)
        ensures
            handle.running() == Some(capture),
    {
        CaptureHandle { inner: Some(capture) }
    }

    /// Takes the capture out to stop it; `None` if it was taken before.
    pub fn stop(&mut self) -> (capture: Option<H>)
        ensures
            capture == old(self).running(),
            final(self).running() is None,
    {
        self.inner.take()
    }
}

// ---------------------------------------------------------------------------
// Monitors
// ---------------------------------------------------------------------------

/// What the system says about a monitor; `None` for what it would not tell.
pub struct MonitorProbe {
    pub name: Option<String>,
    pub width: Option<u32>,
    pub height: Option<u32>,
    pub system_index: Option<u64>,
}

/// What the system says about its monitors. `primary` is the system's index
/// of the primary one: the outer `None` if there is none, the inner one if the
/// system would not tell its index.
pub struct MonitorSurvey {
    pub monitors: Vec<MonitorProbe>,
    pub primary: Option<Option<u64>>,
}

/// Whether `info` describes the monitor `probe` in place `index`.
pub open spec fn describes(
    info: MonitorInfo,
    probe: MonitorProbe,
    primary: Option<Option<u64>>,
    index: int,
) -> bool {
    &&& info.index == index
    &&& info.name@ == (match probe.name {
        Some(name) => name@,
        None => "Monitor "@ + decimal(index as nat),
    })
    &&& info.width == (match probe.width {
        Some(width) => width,
        None => 0,
    })
    &&& info.height == (match probe.height {
        Some(height) => height,
        None => 0,
    })
    &&& info.is_primary == (primary == Some(probe.system_index))
}

/// Whether two answers of the system are the same.
fn same_index(a: Option<u64>, b: Option<u64>) -> (same: bool)
    ensures
        same == (a == b),
{
    match (a, b) {
        (Some(a), Some(b)) => a == b,
        (None, None) => true,
        _ => false,
    }
}

fn describe(probe: &MonitorProbe, primary: Option<Option<u64>>, index: usize) -> (info: MonitorInfo)
    ensures
        describes(info, *probe, primary, index as int),
{
    let name = match &probe.name {
        Some(name) => name.clone(),
        None => prefixed("Monitor ", decimal_text(index as u64).as_str()),
    };
    let is_primary = match primary {
        Some(primary_index) => same_index(primary_index, probe.system_index),
        None => false,
    };
    MonitorInfo {
        index,
        name,
        width: probe.width.unwrap_or(0),
        height: probe.height.unwrap_or(0),
        is_primary,
    }
}

/// The capturable monitors, in the system's order. A platform that cannot be
/// captured is reported, so that it is not taken for one without monitors. If
/// the system just would not list its monitors, there are none.
pub fn list_monitors(survey: Result<MonitorSurvey, CaptureError>) -> (list: Result<
    Vec<MonitorInfo>,
    CaptureError,
>)
    ensures
        match survey {
            Ok(found) => list matches Ok(l) && {
                &&& l@.len() == found.monitors@.len()
                &&& forall|i: int|
                    0 <= i < l@.len() ==> describes(
                        #[trigger] l@[i],
                        found.monitors@[i],
                        found.primary,
                        i,
                    )
            },
            Err(CaptureError::UnsupportedPlatform) => list == Err::<Vec<MonitorInfo>, CaptureError>(
                CaptureError::UnsupportedPlatform,
            ),
            Err(_) => list matches Ok(l) && l@.len() == 0,
        },
{
    match survey {
        Ok(found) => {
            let mut list: Vec<MonitorInfo> = Vec::new();
            let mut i: usize = 0;
            while i < found.monitors.len()
                invariant
                    i <= found.monitors.len(),
                    list@.len() == i,
                    forall|k: int|
                        0 <= k < i ==> describes(
                            #[trigger] list@[k],
                            found.monitors@[k],
                            found.primary,
                            k,
                        ),
                decreases found.monitors.len() - i,
            {
                list.push(describe(&found.monitors[i], found.primary, i));
                i = i + 1;
            }
            Ok(list)
        },
        Err(CaptureError::UnsupportedPlatform) => Err(CaptureError::UnsupportedPlatform),
        Err(_) => Ok(Vec::new()),
    }
}

/// What the system says when it is asked for its monitors.
pub enum Listing<M> {
    /// This system cannot be captured.
    Unsupported,
    /// The system would not list its monitors.
    Failed(String),
    Monitors(Vec<M>),
}

/// Picks the monitor to start capturing.
pub fn start<M>(listing: Listing<M>, monitor_index: usize) -> (monitor: Result<M, CaptureError>)
    ensures
        match listing {
            Listing::Unsupported => monitor == Err::<M, CaptureError>(CaptureError::UnsupportedPlatform),
            Listing::Failed(why) => monitor matches Err(e) && (e matches CaptureError::Failed(text)
                && text@ == "monitor enumerate: "@ + why@),
            Listing::Monitors(monitors) => if monitor_index < monitors@.len() {
                monitor == Ok::<M, CaptureError>(monitors@[monitor_index as int])
            } else {
                monitor == Err::<M, CaptureError>(CaptureError::MonitorNotFound(monitor_index))
            },
        },
{
    match listing {
        Listing::Unsupported => Err(CaptureError::UnsupportedPlatform),
        Listing::Failed(why) => Err(
            CaptureError::Failed(prefixed("monitor enumerate: ", why.as_str())),
        ),
        Listing::Monitors(monitors) => {
            let mut monitors = monitors;
            if monitor_index < monitors.len() {
                Ok(monitors.swap_remove(monitor_index))
            } else {
                Err(CaptureError::MonitorNotFound(monitor_index))
            }
        },
    }
}

/// The error for a capture thread that could not be started.
pub fn spawn_error(why: &str) -> (error: CaptureError)
    ensures
        error matches CaptureError::Failed(text) && text@ == "spawn: "@ + why@,
{
    CaptureError::Failed(prefixed("spawn: ", why))
}

// ---------------------------------------------------------------------------
// Frames
// ---------------------------------------------------------------------------

/// What became of a frame that was offered to the encoder.
pub enum Offered {
    Taken,
    /// The encoder is behind; the frame is lost.
    Full,
    /// The encoder is gone.
    Closed,
}

/// Whether the capture goes on.
#[derive(Debug, Clone, Copy, PartialEq, Eq, Structural)]
pub enum CaptureControl {
    Continue,
    Stop,
}

/// Whether a frame that has just arrived is to be looked at: not once the
/// capture is being stopped.
pub fn on_frame_arrived(stopping: bool) -> (control: CaptureControl)
    ensures
        control == if stopping {
            CaptureControl::Stop
        } else {
            CaptureControl::Continue
        },
{
    if stopping {
        CaptureControl::Stop
    } else {
        CaptureControl::Continue
    }
}

/// Whether the capture goes on after a frame was offered. A slow encoder
/// costs frames and never stops or blocks the capture; one that is gone ends
/// it.
pub fn on_frame_offered(offered: Offered) -> (control: CaptureControl)
    ensures
        control == if offered is Closed {
            CaptureControl::Stop
        } else {
            CaptureControl::Continue
        },
{
    match offered {
        Offered::Taken => CaptureControl::Continue,
        Offered::Full => CaptureControl::Continue,
        Offered::Closed => CaptureControl::Stop,
    }
}


/// A listed monitor has its place in the list as index, the system's name for
/// it or a name made of its index, the sides that the system knows, zero where
/// it knows none, and is primary exactly if the system says the same of its
/// own index and of the primary monitor's.
pub proof fn a_listed_monitor_is_as_the_system_says(
    info: MonitorInfo,
    probe: MonitorProbe,
    primary: Option<Option<u64>>,
    index: int,
)
    requires
        describes(info, probe, primary, index),
        index >= 0,
    ensures
        info.index == index,
        probe.name matches Some(name) ==> info.name@ == name@,
        probe.name is None ==> info.name@.take(8) == "Monitor "@ && info.name@.len() > 8 && digits_value(
            info.name@.skip(8),
        ) == index && (forall|k: int| 8 <= k < info.name@.len() ==> is_digit(#[trigger] info.name@[k])),
        probe.width matches Some(width) ==> info.width == width,
        probe.width is None ==> info.width == 0,
        probe.height matches Some(height) ==> info.height == height,
        probe.height is None ==> info.height == 0,
        info.is_primary <==> (primary matches Some(known) && known == probe.system_index),
{
    if probe.name is None {
        reveal_strlit("Monitor ");
        decimal_reads_back(index as nat);
        assert(info.name@.take(8) =~= "Monitor "@);
        assert(info.name@.skip(8) =~= decimal(index as nat));
        assert forall|k: int| 8 <= k < info.name@.len() implies is_digit(#[trigger] info.name@[k]) by {
            assert(info.name@[k] == decimal(index as nat)[k - 8]);
        }
    }
}

/// An error's message is a label for the kind of failure, then what went
/// wrong, in full.
pub proof fn capture_errors_say_what_went_wrong(why: String, index: usize)
    ensures
        CaptureError::Failed(why).text().take(16) == "capture failed: "@,
        CaptureError::Failed(why).text().skip(16) == why@,
        ({
            let text = CaptureError::MonitorNotFound(index).text();
            let n = text.len() as int;
            &&& n > 18
            &&& text.take(8) == "monitor "@
            &&& digits_value(text.subrange(8, n - 10)) == index
            &&& forall|k: int| 8 <= k < n - 10 ==> is_digit(#[trigger] text[k])
            &&& text.skip(n - 10) == " not found"@
        }),
{
    reveal_strlit("capture failed: ");
    reveal_strlit("monitor ");
    reveal_strlit(" not found");
    assert(CaptureError::Failed(why).text().take(16) =~= "capture failed: "@);
    assert(CaptureError::Failed(why).text().skip(16) =~= why@);
    decimal_reads_back(index as nat);
    let text = CaptureError::MonitorNotFound(index).text();
    let n = text.len() as int;
    assert(text.take(8) =~= "monitor "@);
    assert(text.subrange(8, n - 10) =~= decimal(index as nat));
    assert forall|k: int| 8 <= k < n - 10 implies is_digit(#[trigger] text[k]) by {
        assert(text[k] == decimal(index as nat)[k - 8]);
    }
    assert(text.skip(n - 10) =~= " not found"@);
}

} // verus!
