//! The encoder pipeline: which size the encoder has, when it is rebuilt, and
//! how long each packet lasts.
//!
//! Frames come from the capture, packets go to the video track. A frame of
//! another size than the encoder's makes the encoder be rebuilt, so that the
//! stream goes on with a key frame.
use crate::capture::{describes, MonitorProbe, RawFrame};
use crate::codec::{scaffold_packet, CodecError, EncoderConfig, Vp9Encoder};
use crate::MonitorInfo;
use vstd::prelude::*;

verus! {

/// How many frames may wait for the encoder.
pub const FRAME_CAPACITY: usize = 4;

/// How many packets may wait for the video track.
pub const PACKET_CAPACITY: usize = 4;

/// The bit rate of every encoder.
pub const BITRATE_KBPS: u32 = 4_000;

/// How long the first packet lasts: a thirtieth of a second.
pub const FIRST_DURATION_MS: u64 = 33;

/// The width to use where a monitor tells none.
pub const FALLBACK_WIDTH: u32 = 1920;

/// The height to use where a monitor tells none.
pub const FALLBACK_HEIGHT: u32 = 1080;

// ---------------------------------------------------------------------------
// Sizes
// ---------------------------------------------------------------------------

/// `v` rounded down to an even number; `fallback` if `v` is zero.
pub open spec fn even_size(v: u32, fallback: u32) -> u32 {
    if v == 0 {
        fallback
    } else {
        (v - v % 2) as u32
    }
}

/// Rounds a side of a picture down to an even number, as the encoder wants
/// it.
pub fn even(v: u32, fallback: u32) -> (size: u32)
    ensures
        size == even_size(v, fallback),
{
    if v == 0 {
        fallback
    } else if v.is_multiple_of(2) {
        v
    } else {
        v - 1
    }
}

/// With an even fallback the size is even, never larger than what was asked
/// for and at most one smaller. Only a side of one pixel comes to nothing.
pub proof fn even_sizes_are_even(v: u32, fallback: u32)
    requires
        fallback % 2 == 0,
    ensures
        even_size(v, fallback) % 2 == 0,
        v > 0 ==> v - 1 <= even_size(v, fallback) <= v,
        v > 1 ==> even_size(v, fallback) > 0,
{
}

/// A side that is known becomes an even number, itself or one less, whatever
/// the fallback; one that is not becomes the fallback.
pub proof fn known_sides_are_rounded_down(v: u32, fallback: u32)
    ensures
        v == 0 ==> even_size(v, fallback) == fallback,
        v > 0 ==> even_size(v, fallback) % 2 == 0 && v - 1 <= even_size(v, fallback) <= v,
{
}

/// Where the monitor with this index comes first in the list; the list's
/// length if there is none.
pub open spec fn position_of(monitors: Seq<MonitorInfo>, index: usize) -> nat
    decreases monitors.len(),
{
    if monitors.len() == 0 || monitors[0].index == index {
        0
    } else {
        1 + position_of(monitors.drop_first(), index)
    }
}

/// The size that the encoder starts with for a monitor.
pub open spec fn start_size(monitors: Seq<MonitorInfo>, index: usize) -> (u32, u32) {
    let i = position_of(monitors, index);
    if i < monitors.len() {
        (
            even_size(monitors[i as int].width, FALLBACK_WIDTH),
            even_size(monitors[i as int].height, FALLBACK_HEIGHT),
        )
    } else {
        (FALLBACK_WIDTH, FALLBACK_HEIGHT)
    }
}

proof fn position_within(monitors: Seq<MonitorInfo>, index: usize, n: int)
    requires
        0 <= n <= monitors.len(),
        forall|k: int| 0 <= k < n ==> (#[trigger] monitors[k]).index != index,
        n == monitors.len() || monitors[n].index == index,
    ensures
        position_of(monitors, index) == n,
    decreases monitors.len(),
{
    if n > 0 {
        assert(monitors[0].index != index);
        assert forall|k: int| 0 <= k < n - 1 implies (#[trigger] monitors.drop_first()[k]).index
            != index by {
            assert(monitors[k + 1].index != index);
        }
        position_within(monitors.drop_first(), index, n - 1);
    }
}

/// The size that the encoder starts with: that of the captured monitor,
/// rounded down to even sides.
pub fn encoder_size(monitors: &Vec<MonitorInfo>, monitor_index: usize) -> (size: (u32, u32))
    ensures
        size == start_size(monitors@, monitor_index),
{
    let mut i: usize = 0;
    while i < monitors.len()
        invariant
            i <= monitors.len(),
            forall|k: int| 0 <= k < i ==> (#[trigger] monitors@[k]).index != monitor_index,
        decreases monitors.len() - i,
    {
        if monitors[i].index == monitor_index {
            proof {
                position_within(monitors@, monitor_index, i as int);
            }
            return (even(monitors[i].width, FALLBACK_WIDTH), even(monitors[i].height, FALLBACK_HEIGHT));
        }
        i = i + 1;
    }
    proof {
        position_within(monitors@, monitor_index, i as int);
    }
    (FALLBACK_WIDTH, FALLBACK_HEIGHT)
}

/// The encoder starts with the size of the monitor that is captured: the one
/// in the place that the capture was asked for.
pub proof fn the_captured_monitor_gives_the_size(
    list: Seq<MonitorInfo>,
    probes: Seq<MonitorProbe>,
    primary: Option<Option<u64>>,
    index: usize,
)
    requires
        list.len() == probes.len(),
        forall|i: int|
            0 <= i < list.len() ==> describes(#[trigger] list[i], probes[i], primary, i),
        index < list.len(),
    ensures
        start_size(list, index) == (
            even_size(list[index as int].width, FALLBACK_WIDTH),
            even_size(list[index as int].height, FALLBACK_HEIGHT),
        ),
{
    position_within(list, index, index as int);
}

/// The first monitor with the index counts: its sides, rounded down, are those
/// of the encoder, full HD where they are not known. Without such a monitor
/// the encoder is full HD.
pub proof fn the_first_monitor_with_the_index_counts(
    list: Seq<MonitorInfo>,
    index: usize,
    place: int,
)
    requires
        0 <= place <= list.len(),
        forall|k: int| 0 <= k < place ==> (#[trigger] list[k]).index != index,
        place < list.len() ==> list[place].index == index,
    ensures
        place == list.len() ==> start_size(list, index) == (1920u32, 1080u32),
        place < list.len() ==> ({
            let (width, height) = start_size(list, index);
            &&& list[place].width == 0 ==> width == 1920
            &&& list[place].width > 0 ==> width % 2 == 0 && list[place].width - 1 <= width
                <= list[place].width
            &&& list[place].height == 0 ==> height == 1080
            &&& list[place].height > 0 ==> height % 2 == 0 && list[place].height - 1 <= height
                <= list[place].height
        }),
{
    position_within(list, index, place);
}

/// The encoder always starts with even sides.
pub proof fn start_sizes_are_even(monitors: Seq<MonitorInfo>, index: usize)
    ensures
        start_size(monitors, index).0 % 2 == 0,
        start_size(monitors, index).1 % 2 == 0,
{
}

// ---------------------------------------------------------------------------
// The encoder loop
// ---------------------------------------------------------------------------

/// A packet for the video track.
#[derive(Debug)]
pub struct TimedPacket {
    pub data: Vec<u8>,
    pub duration_ms: u64,
}

/// The state of the encoder loop around an encoder `E`.
pub struct EncoderLoop<E> {
    width: u32,
    height: u32,
    encoder: Option<E>,
    last_pts: Option<u64>,
}

/// What the encoder loop knows.
pub struct LoopState<E> {
    pub width: u32,
    pub height: u32,
    pub encoder: Option<E>,
    pub last_pts: Option<u64>,
}

impl<E> View for EncoderLoop<E> {
    type V = LoopState<E>;

    closed spec fn view(&self) -> LoopState<E> {
        LoopState {
            width: self.width,
            height: self.height,
            encoder: self.encoder,
            last_pts: self.last_pts,
        }
    }
}

/// What has to happen before a frame can be encoded.
#[derive(Debug, Clone, Copy, PartialEq, Eq, Structural)]
pub enum Preparation {
    /// The encoder fits.
    Ready,
    /// An encoder of this size has to be built.
    Build { width: u32, height: u32 },
}

/// Whether a frame of this size needs a new encoder, and of which size.
pub open spec fn preparation<E>(state: LoopState<E>, width: u32, height: u32) -> Preparation {
    let w = even_size(width, state.width);
    let h = even_size(height, state.height);
    if w == state.width && h == state.height && state.encoder is Some {
        Preparation::Ready
    } else {
        Preparation::Build { width: w, height: h }
    }
}

/// How long the packet of a frame at `pts_ms` lasts: as long as it came after
/// the packet before, and at least a millisecond.
pub open spec fn packet_duration(last_pts: Option<u64>, pts_ms: u64) -> u64 {
    match last_pts {
        None => FIRST_DURATION_MS,
        Some(prev) => if pts_ms > prev {
            (pts_ms - prev) as u64
        } else {
            1
        },
    }
}

/// A frame that went through an encoder: its time stamp and what came out.
pub struct EncodedFrame<E> {
    pub encoder: E,
    pub pts_ms: u64,
    pub result: Result<Vec<u8>, CodecError>,
}

/// Whether something came out of the encoder for a frame.
pub open spec fn yields_packet<E>(frame: EncodedFrame<E>) -> bool {
    frame.result matches Ok(data) && data@.len() > 0
}

/// Whether the loop sends `packet` for a frame that came back from the
/// encoder, and knows `after` then, if it knew `before`.
pub open spec fn is_encoding<E>(
    before: LoopState<E>,
    frame: EncodedFrame<E>,
    packet: Option<TimedPacket>,
    after: LoopState<E>,
) -> bool {
    if yields_packet(frame) {
        &&& packet == Some(
            TimedPacket {
                data: frame.result->Ok_0,
                duration_ms: packet_duration(before.last_pts, frame.pts_ms),
            },
        )
        &&& after == (LoopState {
            encoder: Some(frame.encoder),
            last_pts: Some(frame.pts_ms),
            ..before
        })
    } else {
        &&& packet is None
        &&& after == (LoopState { encoder: Some(frame.encoder), ..before })
    }
}

/// A frame can be encoded at once exactly if there is an encoder and each side
/// of the frame is, or is one more than, the encoder's even side, or is not
/// known. Otherwise an encoder is built whose sides are the frame's, rounded
/// down, or the old ones where the frame's are not known.
pub proof fn an_encoder_is_built_when_needed<E>(state: LoopState<E>, width: u32, height: u32)
    ensures
        preparation(state, width, height) is Ready <==> {
            &&& state.encoder is Some
            &&& width == 0 || (state.width % 2 == 0 && state.width <= width <= state.width + 1)
            &&& height == 0 || (state.height % 2 == 0 && state.height <= height <= state.height + 1)
        },
        preparation(state, width, height) matches Preparation::Build { width: w, height: h } ==> {
            &&& width == 0 ==> w == state.width
            &&& width > 0 ==> w % 2 == 0 && width - 1 <= w <= width
            &&& height == 0 ==> h == state.height
            &&& height > 0 ==> h % 2 == 0 && height - 1 <= h <= height
        },
{
}

/// A packet lasts from the one before to its own frame; if time stands still
/// or runs back, a millisecond; if it is the first, 33 milliseconds.
pub proof fn packets_last_from_the_one_before(last_pts: Option<u64>, pts_ms: u64)
    ensures
        last_pts is None ==> packet_duration(last_pts, pts_ms) == 33,
        last_pts matches Some(prev) ==> {
            &&& prev < pts_ms ==> prev + packet_duration(last_pts, pts_ms) == pts_ms
            &&& prev >= pts_ms ==> packet_duration(last_pts, pts_ms) == 1
        },
{
}

/// A frame that comes back from the encoder leaves the encoder in place and
/// its size alone. What came out is sent, unless it is nothing, and only then
/// does its time count.
pub proof fn what_comes_out_is_sent<E>(
    before: LoopState<E>,
    frame: EncodedFrame<E>,
    packet: Option<TimedPacket>,
    after: LoopState<E>,
)
    requires
        is_encoding(before, frame, packet, after),
    ensures
        after.encoder == Some(frame.encoder),
        after.width == before.width,
        after.height == before.height,
        packet is Some <==> (frame.result matches Ok(data) && data@.len() > 0),
        packet matches Some(p) ==> frame.result == Ok::<Vec<u8>, CodecError>(p.data) && after.last_pts
            == Some(frame.pts_ms),
        packet is None ==> after.last_pts == before.last_pts,
{
}

impl<E> EncoderLoop<E> {
    /// A loop that has no encoder yet and wants one of this size.
    pub fn new(width: u32, height: u32) -> (this: Self)
        ensures
            this@ == (LoopState::<E> { width, height, encoder: None, last_pts: None }),
    {
        EncoderLoop { width, height, encoder: None, last_pts: None }
    }

    /// Decides whether a frame of this size needs a new encoder. If so, the
    /// old one is dropped first, to free its memory.
    pub fn prepare(&mut self, width: u32, height: u32) -> (needed: Preparation)
        ensures
            needed == preparation(old(self)@, width, height),
            final(self)@ == (if needed is Ready {
                old(self)@
            } else {
                LoopState { encoder: None, ..old(self)@ }
            }),
    {
        let w: u32 = even(width, self.width);
        let h: u32 = even(height, self.height);
        if w != self.width || h != self.height || self.encoder.is_none() {
            self.encoder = None;
            Preparation::Build { width: w, height: h }
        } else {
            Preparation::Ready
        }
    }

    /// Takes over an encoder of this size. If it could not be built, the loop
    /// keeps its size and goes on without an encoder: the next frame tries
    /// again.
    pub fn built(&mut self, width: u32, height: u32, encoder: Result<E, CodecError>)
        ensures
            final(self)@ == (match encoder {
                Ok(e) => LoopState { width, height, encoder: Some(e), ..old(self)@ },
                Err(_) => LoopState { encoder: None, ..old(self)@ },
            }),
    {
        match encoder {
            Ok(e) => {
                self.width = width;
                self.height = height;
                self.encoder = Some(e);
            },
            Err(_) => {
                self.encoder = None;
            },
        }
    }

    /// Takes the encoder out to use it.
    pub fn take_encoder(&mut self) -> (encoder: Option<E>)
        ensures
            encoder == old(self)@.encoder,
            final(self)@ == (LoopState { encoder: None::<E>, ..old(self)@ }),
    {
        self.encoder.take()
    }

    /// What to send for a frame at `pts_ms`, after the encoder came back with
    /// a result. A frame that failed, or of which nothing came out, is passed
    /// over: the next packet lasts the longer.
    pub fn encoded(&mut self, encoder: E, pts_ms: u64, result: Result<Vec<u8>, CodecError>) -> (packet:
        Option<TimedPacket>)
        ensures
            is_encoding(
                old(self)@,
                (EncodedFrame { encoder, pts_ms, result }),
                packet,
                final(self)@,
            ),
    {
        self.encoder = Some(encoder);
        match result {
            Ok(data) => {
                if data.len() == 0 {
                    return None;
                }
                let duration_ms: u64 = match self.last_pts {
                    Some(prev) => if pts_ms > prev {
                        pts_ms - prev
                    } else {
                        1
                    },
                    None => FIRST_DURATION_MS,
                };
                self.last_pts = Some(pts_ms);
                Some(TimedPacket { data, duration_ms })
            },
            Err(_) => None,
        }
    }
}

/// What to send for what an encoder still held back when the frames ended.
pub fn tail_packet(tail: Result<Vec<u8>, CodecError>) -> (packet: Option<TimedPacket>)
    ensures
        match tail {
            Ok(data) => if data@.len() == 0 {
                packet is None
            } else {
                packet == Some(TimedPacket { data, duration_ms: 1 })
            },
            Err(_) => packet is None,
        },
{
    match tail {
        Ok(data) => if data.len() == 0 {
            None
        } else {
            Some(TimedPacket { data, duration_ms: 1 })
        },
        Err(_) => None,
    }
}


/// Whether the encoder, if there is one, has the loop's size and bit rate.
pub open spec fn encoder_fits(state: LoopState<Vp9Encoder>) -> bool {
    state.encoder matches Some(encoder) ==> encoder@ == (EncoderConfig {
        width: state.width,
        height: state.height,
        bitrate_kbps: BITRATE_KBPS,
    })
}

impl EncoderLoop<Vp9Encoder> {
    /// A loop with a pass-through encoder of this size.
    pub fn start(width: u32, height: u32) -> (this: Self)
        ensures
            encoder_fits(this@),
            this@.encoder is Some,
            this@.width == width,
            this@.height == height,
            this@.last_pts is None,
    {
        let mut this = EncoderLoop::new(width, height);
        this.built(width, height, Vp9Encoder::new(width, height, BITRATE_KBPS));
        this
    }

    /// Encodes one frame with the pass-through encoder, rebuilt if the frame's
    /// size asks for it.
    pub fn encode_frame(&mut self, frame: &RawFrame) -> (packet: Option<TimedPacket>)
        requires
            encoder_fits(old(self)@),
        ensures
            encoder_fits(final(self)@),
            final(self)@.encoder is Some,
            final(self)@.width == even_size(frame.width, old(self)@.width),
            final(self)@.height == even_size(frame.height, old(self)@.height),
            final(self)@.last_pts == Some(frame.pts_ms),
            packet matches Some(p) && {
                &&& p.data@ == scaffold_packet(
                    EncoderConfig {
                        width: final(self)@.width,
                        height: final(self)@.height,
                        bitrate_kbps: BITRATE_KBPS,
                    },
                    frame.pts_ms,
                    frame.bgra@,
                )
                &&& p.duration_ms == packet_duration(old(self)@.last_pts, frame.pts_ms)
            },
    {
        match self.prepare(frame.width, frame.height) {
            Preparation::Ready => {},
            Preparation::Build { width, height } => {
                self.built(width, height, Vp9Encoder::new(width, height, BITRATE_KBPS));
            },
        }
        match self.take_encoder() {
            Some(mut encoder) => {
                let result = encoder.encode(frame.bgra.as_slice(), frame.pts_ms);
                proof {
                    crate::codec::scaffold_packet_reads_back(encoder@, frame.pts_ms, frame.bgra@);
                }
                self.encoded(encoder, frame.pts_ms, result)
            },
            None => None,
        }
    }

    /// Ends the loop. The pass-through encoder has nothing left to send.
    pub fn finish(self) -> (packet: Option<TimedPacket>)
        ensures
            packet is None,
    {
        let mut this = self;
        match this.take_encoder() {
            Some(encoder) => tail_packet(encoder.finish()),
            None => None,
        }
    }
}

/// Whether the loop, from its start, sends `packets` for `frames`: it goes by
/// `encoded` each time. `befores` and `afters` are what it knows around each
/// call; what it does between two calls (`prepare`, `built`, `take_encoder`)
/// leaves the time of the last packet alone.
pub open spec fn is_encoder_run<E>(
    frames: Seq<EncodedFrame<E>>,
    packets: Seq<Option<TimedPacket>>,
    befores: Seq<LoopState<E>>,
    afters: Seq<LoopState<E>>,
) -> bool {
    &&& packets.len() == frames.len()
    &&& befores.len() == frames.len()
    &&& afters.len() == frames.len()
    &&& frames.len() > 0 ==> befores[0].last_pts is None
    &&& forall|i: int|
        0 <= i < frames.len() ==> is_encoding(
            befores[i],
            #[trigger] frames[i],
            packets[i],
            afters[i],
        )
    &&& forall|i: int|
        0 < i < frames.len() ==> (#[trigger] befores[i]).last_pts == afters[i - 1].last_pts
}

/// The frames that something came out for.
pub open spec fn yielding<E>(frames: Seq<EncodedFrame<E>>) -> Seq<EncodedFrame<E>>
    decreases frames.len(),
{
    if frames.len() == 0 {
        Seq::empty()
    } else {
        let before = yielding(frames.drop_last());
        match frames.last().result {
            Ok(data) => if data@.len() > 0 {
                before.push(frames.last())
            } else {
                before
            },
            Err(_) => before,
        }
    }
}

/// The packets that are sent.
pub open spec fn sent(packets: Seq<Option<TimedPacket>>) -> Seq<TimedPacket>
    decreases packets.len(),
{
    if packets.len() == 0 {
        Seq::empty()
    } else {
        let before = sent(packets.drop_last());
        match packets.last() {
            Some(packet) => before.push(packet),
            None => before,
        }
    }
}

/// The time of the last of these frames.
pub open spec fn last_time<E>(frames: Seq<EncodedFrame<E>>) -> Option<u64> {
    if frames.len() == 0 {
        None
    } else {
        Some(frames.last().pts_ms)
    }
}

/// One packet is sent for each frame that something came out for, in order
/// and with what came out; it lasts as long as the frame came after the one
/// whose packet was sent before. Frames that failed or came to nothing count
/// for nothing.
pub proof fn packets_go_by_their_times<E>(
    frames: Seq<EncodedFrame<E>>,
    packets: Seq<Option<TimedPacket>>,
    befores: Seq<LoopState<E>>,
    afters: Seq<LoopState<E>>,
)
    requires
        is_encoder_run(frames, packets, befores, afters),
    ensures
        sent(packets).len() == yielding(frames).len(),
        forall|i: int|
            0 <= i < yielding(frames).len() ==> #[trigger] sent(packets)[i] == (TimedPacket {
                data: yielding(frames)[i].result->Ok_0,
                duration_ms: packet_duration(
                    last_time(yielding(frames).take(i)),
                    yielding(frames)[i].pts_ms,
                ),
            }),
        frames.len() > 0 ==> afters.last().last_pts == last_time(yielding(frames)),
    decreases frames.len(),
{
    if frames.len() > 0 {
        let n = frames.len() - 1;
        let earlier = frames.drop_last();
        assert forall|i: int| 0 <= i < earlier.len() implies is_encoding(
            befores.drop_last()[i],
            #[trigger] earlier[i],
            packets.drop_last()[i],
            afters.drop_last()[i],
        ) by {
            assert(is_encoding(befores[i], frames[i], packets[i], afters[i]));
        }
        packets_go_by_their_times(
            earlier,
            packets.drop_last(),
            befores.drop_last(),
            afters.drop_last(),
        );
        assert(is_encoding(befores[n], frames[n], packets[n], afters[n]));
        if n > 0 {
            assert(befores[n].last_pts == afters[n - 1].last_pts);
        }
        let before = yielding(earlier);
        assert(befores[n].last_pts == last_time(before));
        if yields_packet(frames[n]) {
            assert(yielding(frames).take(before.len() as int) =~= before);
        }
        assert forall|i: int| 0 <= i < yielding(frames).len() implies #[trigger] sent(packets)[i] == (
        TimedPacket {
            data: yielding(frames)[i].result->Ok_0,
            duration_ms: packet_duration(
                last_time(yielding(frames).take(i)),
                yielding(frames)[i].pts_ms,
            ),
        }) by {
            if i < before.len() {
                assert(sent(packets)[i] == sent(packets.drop_last())[i]);
                assert(yielding(frames).take(i) =~= before.take(i));
            }
        }
    }
}

/// How long these packets last together.
pub open spec fn total_duration(packets: Seq<TimedPacket>) -> nat
    decreases packets.len(),
{
    if packets.len() == 0 {
        0
    } else {
        total_duration(packets.drop_last()) + packets.last().duration_ms as nat
    }
}

/// Every packet lasts at least a millisecond.
pub proof fn no_packet_is_instant(last_pts: Option<u64>, pts_ms: u64)
    ensures
        packet_duration(last_pts, pts_ms) >= 1,
{
}

/// The stream keeps time: over a run in which packets are sent at increasing
/// times, they last, together, as long as the first one's nominal duration and
/// the time between first and last. In particular the time stamp of the first
/// frame makes no gap.
pub proof fn durations_add_up<E>(
    frames: Seq<EncodedFrame<E>>,
    packets: Seq<Option<TimedPacket>>,
    befores: Seq<LoopState<E>>,
    afters: Seq<LoopState<E>>,
)
    requires
        is_encoder_run(frames, packets, befores, afters),
        yielding(frames).len() > 0,
        forall|i: int, j: int|
            0 <= i < j < yielding(frames).len() ==> yielding(frames)[i].pts_ms < yielding(
                frames,
            )[j].pts_ms,
    ensures
        total_duration(sent(packets)) == FIRST_DURATION_MS + (yielding(frames).last().pts_ms
            - yielding(frames)[0].pts_ms),
{
    packets_go_by_their_times(frames, packets, befores, afters);
    first_durations_add_up(yielding(frames), sent(packets), yielding(frames).len() as int);
    assert(sent(packets).take(sent(packets).len() as int) =~= sent(packets));
}

/// The first `n` of packets that go by the times of their frames add up.
proof fn first_durations_add_up<E>(frames: Seq<EncodedFrame<E>>, packets: Seq<TimedPacket>, n: int)
    requires
        0 < n <= frames.len(),
        packets.len() == frames.len(),
        forall|i: int|
            0 <= i < frames.len() ==> (#[trigger] packets[i]).duration_ms == packet_duration(
                last_time(frames.take(i)),
                frames[i].pts_ms,
            ),
        forall|i: int, j: int| 0 <= i < j < frames.len() ==> frames[i].pts_ms < frames[j].pts_ms,
    ensures
        total_duration(packets.take(n)) == FIRST_DURATION_MS + (frames[n - 1].pts_ms
            - frames[0].pts_ms),
    decreases n,
{
    assert(packets.take(n).drop_last() =~= packets.take(n - 1));
    assert(packets.take(n).last() == packets[n - 1]);
    assert(packets[n - 1].duration_ms == packet_duration(
        last_time(frames.take(n - 1)),
        frames[n - 1].pts_ms,
    ));
    if n > 1 {
        first_durations_add_up(frames, packets, n - 1);
        assert(frames[n - 2].pts_ms < frames[n - 1].pts_ms);
        assert(last_time(frames.take(n - 1)) == Some(frames[n - 2].pts_ms));
    } else {
        assert(total_duration(packets.take(0)) == 0);
    }
}

/// Once the encoder has even sides, it keeps even sides, whatever frames come.
pub proof fn sizes_stay_even<E>(state: LoopState<E>, width: u32, height: u32)
    requires
        state.width % 2 == 0,
        state.height % 2 == 0,
    ensures
        preparation(state, width, height) matches Preparation::Build { width: w, height: h } ==> w % 2
            == 0 && h % 2 == 0,
{
}

} // verus!
