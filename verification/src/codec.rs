//! VP9 encoder front end.
//!
//! [`Vp9Encoder`] is the pass-through encoder: it does not compress, it
//! prefixes the raw frame with a small header so that consumers can tell
//! scaffold payloads from VP9 packets. [`bgra_to_i420`] prepares a frame for
//! a libvpx encoder.
use crate::text::prefixed;
use vstd::prelude::*;

verus! {

/// Why an encoder could not be built, or could not encode a frame.
#[derive(Debug)]
pub enum CodecError {
    Init(String),
    Encode(String),
}

impl CodecError {
    /// The message that is shown to a user, as characters.
    pub open spec fn text(&self) -> Seq<char> {
        match self {
            CodecError::Init(why) => "codec init failed: "@ + why@,
            CodecError::Encode(why) => "encode failed: "@ + why@,
        }
    }

    /// The message that is shown to a user.
    pub fn message(&self) -> (text: String)
        ensures
            text@ == self.text(),
    {
        match self {
            CodecError::Init(why) => prefixed("codec init failed: ", why.as_str()),
            CodecError::Encode(why) => prefixed("encode failed: ", why.as_str()),
        }
    }
}

/// BT.601 luma of one pixel, in studio range.
pub open spec fn luma(b: int, g: int, r: int) -> int {
    (66 * r + 129 * g + 25 * b + 128) / 256 + 16
}

/// BT.601 blue-difference chroma of one pixel, in studio range.
pub open spec fn chroma_blue(b: int, g: int, r: int) -> int {
    (-38 * r - 74 * g + 112 * b + 128) / 256 + 128
}

/// BT.601 red-difference chroma of one pixel, in studio range.
pub open spec fn chroma_red(b: int, g: int, r: int) -> int {
    (112 * r - 94 * g - 18 * b + 128) / 256 + 128
}

/// Number of samples in one chroma plane of a `w` by `h` picture.
pub open spec fn chroma_len(w: nat, h: nat) -> nat {
    (w / 2) * (h / 2)
}

/// The pixel, counted row by row, whose colour chroma sample `q` takes: the
/// upper left one of the 2 by 2 block that the sample covers.
pub open spec fn chroma_source(w: nat, q: int) -> int {
    (q / (w / 2) as int) * 2 * w + (q % (w / 2) as int) * 2
}

/// Channel `c` (0 blue, 1 green, 2 red) of pixel `p`, counted row by row.
pub open spec fn channel(bgra: Seq<u8>, p: int, c: int) -> int {
    bgra[4 * p + c] as int
}

/// The planar 4:2:0 picture of the first `w * h` pixels of `bgra`: the luma
/// plane, then the blue- and the red-difference plane at half resolution.
pub open spec fn i420(bgra: Seq<u8>, w: nat, h: nat) -> Seq<u8> {
    luma_plane(bgra, w * h) + blue_plane(bgra, w, h) + red_plane(bgra, w, h)
}

/// Luma of the first `n` pixels.
pub open spec fn luma_plane(bgra: Seq<u8>, n: nat) -> Seq<u8> {
    Seq::new(
        n,
        |p: int| luma(channel(bgra, p, 0), channel(bgra, p, 1), channel(bgra, p, 2)) as u8,
    )
}

/// Blue-difference plane.
pub open spec fn blue_plane(bgra: Seq<u8>, w: nat, h: nat) -> Seq<u8> {
    Seq::new(
        chroma_len(w, h),
        |q: int|
            {
                let p = chroma_source(w, q);
                chroma_blue(channel(bgra, p, 0), channel(bgra, p, 1), channel(bgra, p, 2)) as u8
            },
    )
}

/// Red-difference plane.
pub open spec fn red_plane(bgra: Seq<u8>, w: nat, h: nat) -> Seq<u8> {
    Seq::new(
        chroma_len(w, h),
        |q: int|
            {
                let p = chroma_source(w, q);
                chroma_red(channel(bgra, p, 0), channel(bgra, p, 1), channel(bgra, p, 2)) as u8
            },
    )
}

/// Every byte is a valid studio-range sample: luma lies in 16..=235, either
/// chroma in 16..=240, so that the conversion to a byte loses nothing.
pub proof fn samples_stay_in_studio_range(b: u8, g: u8, r: u8)
    ensures
        16 <= luma(b as int, g as int, r as int) <= 235,
        16 <= chroma_blue(b as int, g as int, r as int) <= 240,
        16 <= chroma_red(b as int, g as int, r as int) <= 240,
{
}

/// Chroma sample `q` of an evenly sized picture takes a pixel of the picture.
proof fn chroma_source_in_picture(w: nat, h: nat, q: int)
    requires
        w % 2 == 0,
        h % 2 == 0,
        0 <= q < chroma_len(w, h),
    ensures
        w >= 2,
        0 <= chroma_source(w, q) < w * h,
        0 <= (q / ((w / 2) as int)) < h / 2,
        0 <= (q % ((w / 2) as int)) < w / 2,
{
    let hw: int = (w / 2) as int;
    let hh: int = (h / 2) as int;
    assert(hw > 0) by (nonlinear_arith)
        requires
            0 <= q < hw * hh,
            hw >= 0,
            hh >= 0,
    ;
    let row: int = q / hw;
    let col: int = q % hw;
    assert(0 <= col < hw && q == row * hw + col && row >= 0) by (nonlinear_arith)
        requires
            hw > 0,
            q >= 0,
            row == q / hw,
            col == q % hw,
    ;
    assert(row < hh) by (nonlinear_arith)
        requires
            q == row * hw + col,
            0 <= col,
            q < hw * hh,
            hw > 0,
    ;
    assert(0 <= row * 2 * w + col * 2 < w * h) by (nonlinear_arith)
        requires
            w == 2 * hw,
            h == 2 * hh,
            0 <= row < hh,
            0 <= col < hw,
    ;
}

/// Luma of pixel `p`.
fn luma_at(bgra: &[u8], p: usize) -> (y: u8)
    requires
        4 * p + 3 < bgra.len(),
    ensures
        y == luma(channel(bgra@, p as int, 0), channel(bgra@, p as int, 1), channel(bgra@, p as int, 2)) as u8,
{
    let b: i32 = bgra[4 * p] as i32;
    let g: i32 = bgra[4 * p + 1] as i32;
    let r: i32 = bgra[4 * p + 2] as i32;
    ((66 * r + 129 * g + 25 * b + 128) / 256 + 16) as u8
}

/// Blue-difference chroma of pixel `p`.
fn chroma_blue_at(bgra: &[u8], p: usize) -> (u: u8)
    requires
        4 * p + 3 < bgra.len(),
    ensures
        u == chroma_blue(channel(bgra@, p as int, 0), channel(bgra@, p as int, 1), channel(bgra@, p as int, 2)) as u8,
{
    let b: i32 = bgra[4 * p] as i32;
    let g: i32 = bgra[4 * p + 1] as i32;
    let r: i32 = bgra[4 * p + 2] as i32;
    // The offset of 128 goes in before the division: the dividend is positive.
    ((112 * b - 38 * r - 74 * g + 128 + 32768) / 256) as u8
}

/// Red-difference chroma of pixel `p`.
fn chroma_red_at(bgra: &[u8], p: usize) -> (v: u8)
    requires
        4 * p + 3 < bgra.len(),
    ensures
        v == chroma_red(channel(bgra@, p as int, 0), channel(bgra@, p as int, 1), channel(bgra@, p as int, 2)) as u8,
{
    let b: i32 = bgra[4 * p] as i32;
    let g: i32 = bgra[4 * p + 1] as i32;
    let r: i32 = bgra[4 * p + 2] as i32;
    ((112 * r - 94 * g - 18 * b + 128 + 32768) / 256) as u8
}

/// Converts a top-down BGRA picture to planar 4:2:0, the layout that a VP9
/// encoder takes. `None` if `bgra` holds fewer than `width * height` pixels.
///
/// A picture with an odd side has no half-resolution plane; the encoder
/// pipeline rounds sizes down to even ones first.
pub fn bgra_to_i420(bgra: &[u8], width: u32, height: u32) -> (out: Option<Vec<u8>>)
    requires
        width * height * 4 <= usize::MAX,
        bgra.len() < width * height * 4 || width == 0 || height == 0 || (width % 2 == 0 && height % 2 == 0),
    ensures
        out is None <==> bgra.len() < width * height * 4,
        out matches Some(picture) ==> picture@ == i420(bgra@, width as nat, height as nat),
{
    let w: usize = width as usize;
    let h: usize = height as usize;
    assert(w * h <= usize::MAX && 0 <= w * h) by (nonlinear_arith)
        requires
            width * height * 4 <= usize::MAX,
            w == width,
            h == height,
    ;
    let pixels: usize = w * h;
    if bgra.len() < pixels * 4 {
        return None;
    }
    let mut out: Vec<u8> = Vec::new();
    let mut p: usize = 0;
    while p < pixels
        invariant
            p <= pixels,
            pixels == width * height,
            pixels * 4 <= bgra.len(),
            out@ == luma_plane(bgra@, p as nat),
        decreases pixels - p,
    {
        out.push(luma_at(bgra, p));
        p = p + 1;
        assert(out@ =~= luma_plane(bgra@, p as nat));
    }
    let half: usize = w / 2;
    assert((w / 2) * (h / 2) <= w * h) by (nonlinear_arith)
        requires
            w >= 0,
            h >= 0,
    ;
    let samples: usize = half * (h / 2);
    let ghost luma_out = out@;
    let mut q: usize = 0;
    while q < samples
        invariant
            q <= samples,
            half == width / 2,
            w == width,
            pixels == width * height,
            pixels * 4 <= bgra.len(),
            samples == chroma_len(width as nat, height as nat),
            samples > 0 ==> width % 2 == 0 && height % 2 == 0,
            out@ == luma_out + blue_plane(bgra@, width as nat, height as nat).take(q as int),
        decreases samples - q,
    {
        proof {
            chroma_source_in_picture(width as nat, height as nat, q as int);
        }
        out.push(chroma_blue_at(bgra, (q / half) * 2 * w + (q % half) * 2));
        q = q + 1;
        assert(out@ =~= luma_out + blue_plane(bgra@, width as nat, height as nat).take(q as int));
    }
    let ghost blue_out = out@;
    q = 0;
    while q < samples
        invariant
            q <= samples,
            half == width / 2,
            w == width,
            pixels == width * height,
            pixels * 4 <= bgra.len(),
            samples == chroma_len(width as nat, height as nat),
            samples > 0 ==> width % 2 == 0 && height % 2 == 0,
            out@ == blue_out + red_plane(bgra@, width as nat, height as nat).take(q as int),
        decreases samples - q,
    {
        proof {
            chroma_source_in_picture(width as nat, height as nat, q as int);
        }
        out.push(chroma_red_at(bgra, (q / half) * 2 * w + (q % half) * 2));
        q = q + 1;
        assert(out@ =~= blue_out + red_plane(bgra@, width as nat, height as nat).take(q as int));
    }
    assert(out@ =~= i420(bgra@, width as nat, height as nat));
    Some(out)
}

/// Where the sample of the block in row `row` and column `col` of the blocks
/// stands, and which block a sample belongs to.
proof fn block_of_sample(half: int, row: int, col: int)
    requires
        0 <= row,
        0 <= col < half,
    ensures
        (row * half + col) / half == row,
        (row * half + col) % half == col,
{
    vstd::arithmetic::div_mod::lemma_fundamental_div_mod_converse(
        row * half + col,
        half,
        row,
        col,
    );
}

/// Every pixel has its luma sample in its own place, row by row from the top
/// left: the integer nearest to the weighted mean of its three bytes, raised
/// by 16.
pub proof fn every_pixel_gives_its_luma(bgra: Seq<u8>, w: nat, h: nat, i: int, j: int)
    requires
        0 <= i < w,
        0 <= j < h,
        bgra.len() >= w * h * 4,
    ensures
        0 <= j * w + i < w * h <= i420(bgra, w, h).len(),
        ({
            let at = 4 * (j * w + i);
            let y = i420(bgra, w, h)[j * w + i] as int - 16;
            -128 <= 66 * bgra[at + 2] + 129 * bgra[at + 1] + 25 * bgra[at] - 256 * y <= 127
        }),
{
    assert(0 <= j * w + i < w * h) by (nonlinear_arith)
        requires
            0 <= i < w,
            0 <= j < h,
    ;
    let at = 4 * (j * w + i);
    samples_stay_in_studio_range(bgra[at], bgra[at + 1], bgra[at + 2]);
}

/// Every pixel in an even row and an even column gives the two chroma samples
/// of its block of four, in the block's own place, row by row: the blue plane
/// follows the luma plane, the red plane follows the blue one. Each sample is
/// the integer nearest to the weighted difference of the pixel's bytes, raised
/// by 128. There is nothing else in the picture.
pub proof fn every_block_gives_its_chroma(bgra: Seq<u8>, w: nat, h: nat, i: int, j: int)
    requires
        w % 2 == 0,
        h % 2 == 0,
        0 <= i < w,
        0 <= j < h,
        i % 2 == 0,
        j % 2 == 0,
        bgra.len() >= w * h * 4,
    ensures
        i420(bgra, w, h).len() == w * h + 2 * ((w / 2) * (h / 2)),
        0 <= (j / 2) * (w / 2) + i / 2 < (w / 2) * (h / 2),
        ({
            let at = 4 * (j * w + i);
            let place = (j / 2) * (w / 2) + i / 2;
            let u = i420(bgra, w, h)[w * h + place] as int - 128;
            let v = i420(bgra, w, h)[w * h + (w / 2) * (h / 2) + place] as int - 128;
            &&& -128 <= 112 * bgra[at] - 74 * bgra[at + 1] - 38 * bgra[at + 2] - 256 * u <= 127
            &&& -128 <= 112 * bgra[at + 2] - 94 * bgra[at + 1] - 18 * bgra[at] - 256 * v <= 127
        }),
{
    let half: int = (w / 2) as int;
    let row: int = j / 2;
    let col: int = i / 2;
    let place: int = row * half + col;
    block_of_sample(half, row, col);
    assert(0 <= row * half + col < half * (h / 2)) by (nonlinear_arith)
        requires
            0 <= row < h / 2,
            0 <= col < half,
    ;
    assert(row * 2 * w + col * 2 == j * w + i) by (nonlinear_arith)
        requires
            j == 2 * row,
            i == 2 * col,
    ;
    assert(0 <= j * w + i < w * h) by (nonlinear_arith)
        requires
            0 <= i < w,
            0 <= j < h,
    ;
    assert(chroma_source(w, place) == j * w + i);
    let at = 4 * (j * w + i);
    samples_stay_in_studio_range(bgra[at], bgra[at + 1], bgra[at + 2]);
    assert(i420(bgra, w, h)[w * h + place] == blue_plane(bgra, w, h)[place]);
    assert(i420(bgra, w, h)[w * h + (w / 2) * (h / 2) + place] == red_plane(bgra, w, h)[place]);
}

/// What an encoder was built for.
pub struct EncoderConfig {
    pub width: u32,
    pub height: u32,
    pub bitrate_kbps: u32,
}

/// Pass-through encoder.
///
/// It returns each frame behind a header that holds a magic word, the
/// picture's size and the time stamp.
#[derive(Debug)]
pub struct Vp9Encoder {
    width: u32,
    height: u32,
    bitrate_kbps: u32,
}

impl View for Vp9Encoder {
    type V = EncoderConfig;

    closed spec fn view(&self) -> EncoderConfig {
        EncoderConfig { width: self.width, height: self.height, bitrate_kbps: self.bitrate_kbps }
    }
}

/// The first `n` bytes of `x`, least significant first.
pub open spec fn le_bytes(x: nat, n: nat) -> Seq<u8>
    decreases n,
{
    if n == 0 {
        Seq::empty()
    } else {
        seq![(x % 256) as u8] + le_bytes(x / 256, (n - 1) as nat)
    }
}

/// The number whose bytes, least significant first, are `bytes`.
pub open spec fn le_value(bytes: Seq<u8>) -> nat
    decreases bytes.len(),
{
    if bytes.len() == 0 {
        0
    } else {
        bytes[0] as nat + 256 * le_value(bytes.drop_first())
    }
}

/// How many numbers `n` bytes can hold.
spec fn byte_range(n: nat) -> nat
    decreases n,
{
    if n == 0 {
        1
    } else {
        256 * byte_range((n - 1) as nat)
    }
}

proof fn le_bytes_len(x: nat, n: nat)
    ensures
        le_bytes(x, n).len() == n,
    decreases n,
{
    if n > 0 {
        le_bytes_len(x / 256, (n - 1) as nat);
    }
}

proof fn le_bytes_read_back(x: nat, n: nat)
    requires
        x < byte_range(n),
    ensures
        le_value(le_bytes(x, n)) == x,
    decreases n,
{
    if n > 0 {
        le_bytes_read_back(x / 256, (n - 1) as nat);
        assert(le_bytes(x, n).drop_first() =~= le_bytes(x / 256, (n - 1) as nat));
    }
}

/// `GVSCAF`, the word that opens a pass-through packet.
pub open spec fn scaffold_magic() -> Seq<u8> {
    seq![0x47u8, 0x56u8, 0x53u8, 0x43u8, 0x41u8, 0x46u8]
}

/// A pass-through packet: magic word, width, height and time stamp, each
/// number least significant byte first, then the frame as it came.
pub open spec fn scaffold_packet(config: EncoderConfig, pts_ms: u64, frame: Seq<u8>) -> Seq<u8> {
    scaffold_magic() + le_bytes(config.width as nat, 4) + le_bytes(config.height as nat, 4)
        + le_bytes(pts_ms as nat, 8) + frame
}

/// A consumer can take a pass-through packet apart again: the header is 22
/// bytes long, opens with the magic word and gives back the size and the time
/// stamp, and the frame follows it unchanged.
pub proof fn scaffold_packet_reads_back(config: EncoderConfig, pts_ms: u64, frame: Seq<u8>)
    ensures
        ({
            let packet = scaffold_packet(config, pts_ms, frame);
            &&& packet.len() == 22 + frame.len()
            &&& packet.subrange(0, 6) == seq![71u8, 86u8, 83u8, 67u8, 65u8, 70u8]
            &&& le_value(packet.subrange(6, 10)) == config.width
            &&& le_value(packet.subrange(10, 14)) == config.height
            &&& le_value(packet.subrange(14, 22)) == pts_ms
            &&& packet.skip(22) == frame
        }),
{
    let packet = scaffold_packet(config, pts_ms, frame);
    le_bytes_len(config.width as nat, 4);
    le_bytes_len(config.height as nat, 4);
    le_bytes_len(pts_ms as nat, 8);
    assert(byte_range(4) == 0x1_0000_0000 && byte_range(8) == 0x1_0000_0000_0000_0000) by {
        reveal_with_fuel(byte_range, 9);
    }
    le_bytes_read_back(config.width as nat, 4);
    le_bytes_read_back(config.height as nat, 4);
    le_bytes_read_back(pts_ms as nat, 8);
    assert(packet.subrange(0, 6) =~= seq![71u8, 86u8, 83u8, 67u8, 65u8, 70u8]);
    assert(packet.subrange(6, 10) =~= le_bytes(config.width as nat, 4));
    assert(packet.subrange(10, 14) =~= le_bytes(config.height as nat, 4));
    assert(packet.subrange(14, 22) =~= le_bytes(pts_ms as nat, 8));
    assert(packet.skip(22) =~= frame);
}

/// Appends the first `count` bytes of `value`, least significant first.
fn push_le(out: &mut Vec<u8>, value: u64, count: usize)
    ensures
        final(out)@ == old(out)@ + le_bytes(value as nat, count as nat),
{
    let mut rest: u64 = value;
    let mut left: usize = count;
    while left > 0
        invariant
            left <= count,
            out@ + le_bytes(rest as nat, left as nat) == old(out)@ + le_bytes(value as nat, count as nat),
        decreases left,
    {
        let ghost before = out@;
        out.push((rest % 256) as u8);
        assert(out@ + le_bytes(rest as nat / 256, (left - 1) as nat) =~= before + le_bytes(rest as nat, left as nat));
        rest = rest / 256;
        left = left - 1;
    }
    assert(out@ + le_bytes(rest as nat, 0) =~= out@);
}

/// Appends `bytes`.
fn push_all(out: &mut Vec<u8>, bytes: &[u8])
    ensures
        final(out)@ == old(out)@ + bytes@,
{
    out.extend_from_slice(bytes);
    assert(out@ =~= old(out)@ + bytes@);
}

impl Vp9Encoder {
    /// An encoder for pictures of `width` by `height`. Building the
    /// pass-through encoder cannot fail.
    pub fn new(width: u32, height: u32, bitrate_kbps: u32) -> (encoder: Result<Self, CodecError>)
        ensures
            encoder matches Ok(built) && built@ == (EncoderConfig { width, height, bitrate_kbps }),
    {
        Ok(Vp9Encoder { width, height, bitrate_kbps })
    }

    pub fn width(&self) -> (width: u32)
        ensures
            width == self@.width,
    {
        self.width
    }

    pub fn height(&self) -> (height: u32)
        ensures
            height == self@.height,
    {
        self.height
    }

    pub fn bitrate_kbps(&self) -> (rate: u32)
        ensures
            rate == self@.bitrate_kbps,
    {
        self.bitrate_kbps
    }

    /// Wraps one BGRA frame into a packet.
    pub fn encode(&mut self, bgra_frame: &[u8], pts_ms: u64) -> (packet: Result<Vec<u8>, CodecError>)
        ensures
            packet matches Ok(bytes) && bytes@ == scaffold_packet(old(self)@, pts_ms, bgra_frame@),
            final(self)@ == old(self)@,
    {
        let mut out: Vec<u8> = vec![0x47u8, 0x56u8, 0x53u8, 0x43u8, 0x41u8, 0x46u8];
        assert(out@ =~= scaffold_magic());
        push_le(&mut out, self.width as u64, 4);
        push_le(&mut out, self.height as u64, 4);
        push_le(&mut out, pts_ms, 8);
        push_all(&mut out, bgra_frame);
        Ok(out)
    }

    /// Ends the stream and hands out what is still buffered. The pass-through
    /// encoder holds nothing back.
    pub fn finish(self) -> (tail: Result<Vec<u8>, CodecError>)
        ensures
            tail matches Ok(bytes) && bytes@.len() == 0,
    {
        Ok(Vec::new())
    }
}

/// The picture that a libvpx encoder of this size takes for `bgra_frame`, or
/// the error that a short frame brings.
pub fn i420_input(bgra_frame: &[u8], width: u32, height: u32) -> (input: Result<Vec<u8>, CodecError>)
    requires
        width * height * 4 <= usize::MAX,
        bgra_frame.len() < width * height * 4 || width == 0 || height == 0 || (width % 2 == 0 && height % 2
            == 0),
    ensures
        input is Ok <==> bgra_frame.len() >= width * height * 4,
        input matches Ok(picture) ==> picture@ == i420(bgra_frame@, width as nat, height as nat),
        input matches Err(e) ==> (e matches CodecError::Encode(why) && why@
            == "BGRA->I420 conversion failed"@),
{
    match bgra_to_i420(bgra_frame, width, height) {
        Some(picture) => Ok(picture),
        None => Err(CodecError::Encode("BGRA->I420 conversion failed".to_owned())),
    }
}

/// The bytes of `packets`, one packet behind the other.
pub open spec fn joined(packets: Seq<Vec<u8>>) -> Seq<u8>
    decreases packets.len(),
{
    if packets.len() == 0 {
        Seq::empty()
    } else {
        joined(packets.drop_last()) + packets.last()@
    }
}

/// Puts the packets that an encoder made of one frame into one buffer.
pub fn join_packets(packets: &Vec<Vec<u8>>) -> (out: Vec<u8>)
    ensures
        out@ == joined(packets@),
{
    let mut out: Vec<u8> = Vec::new();
    let mut i: usize = 0;
    while i < packets.len()
        invariant
            i <= packets.len(),
            out@ == joined(packets@.take(i as int)),
        decreases packets.len() - i,
    {
        push_all(&mut out, packets[i].as_slice());
        i = i + 1;
        assert(packets@.take(i as int).drop_last() =~= packets@.take(i - 1));
    }
    assert(packets@.take(i as int) =~= packets@);
    out
}


/// How many bytes these packets hold together.
pub open spec fn byte_count(packets: Seq<Vec<u8>>) -> nat
    decreases packets.len(),
{
    if packets.len() == 0 {
        0
    } else {
        byte_count(packets.drop_last()) + packets.last()@.len()
    }
}

/// Joined packets hold each packet whole, behind those that came before it,
/// and nothing more.
pub proof fn joined_packets_keep_their_places(packets: Seq<Vec<u8>>, k: int)
    requires
        0 <= k < packets.len(),
    ensures
        joined(packets).len() == byte_count(packets),
        byte_count(packets.take(k)) + packets[k]@.len() <= joined(packets).len(),
        joined(packets).subrange(
            byte_count(packets.take(k)) as int,
            (byte_count(packets.take(k)) + packets[k]@.len()) as int,
        ) == packets[k]@,
    decreases packets.len(),
{
    let before = packets.drop_last();
    if k < packets.len() - 1 {
        joined_packets_keep_their_places(before, k);
        assert(before.take(k) =~= packets.take(k));
        let from = byte_count(packets.take(k)) as int;
        let to = from + packets[k]@.len();
        assert(joined(packets).subrange(from, to) =~= joined(before).subrange(from, to));
    } else {
        assert(packets.take(k) =~= before);
        joined_len(before);
        assert(joined(packets).subrange(
            byte_count(before) as int,
            (byte_count(before) + packets[k]@.len()) as int,
        ) =~= packets[k]@);
    }
}

proof fn joined_len(packets: Seq<Vec<u8>>)
    ensures
        joined(packets).len() == byte_count(packets),
    decreases packets.len(),
{
    if packets.len() > 0 {
        joined_len(packets.drop_last());
    }
}

/// An error's message is a label for the kind of failure, then what went
/// wrong, in full.
pub proof fn codec_errors_end_with_what_went_wrong(why: String)
    ensures
        CodecError::Init(why).text().take(19) == "codec init failed: "@,
        CodecError::Init(why).text().skip(19) == why@,
        CodecError::Encode(why).text().take(15) == "encode failed: "@,
        CodecError::Encode(why).text().skip(15) == why@,
{
    reveal_strlit("codec init failed: ");
    reveal_strlit("encode failed: ");
    assert(CodecError::Init(why).text().take(19) =~= "codec init failed: "@);
    assert(CodecError::Init(why).text().skip(19) =~= why@);
    assert(CodecError::Encode(why).text().take(15) =~= "encode failed: "@);
    assert(CodecError::Encode(why).text().skip(15) =~= why@);
}

} // verus!
