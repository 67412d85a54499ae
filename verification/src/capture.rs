//! The capture source as the host accounts for it: when a capture context
//! must be made anew, what each outcome does to the counters and labels,
//! and the conversion of a captured BGRA frame to NV12.

use crate::session_state::{align_dimension, aligned_dimension};
use crate::text::{ascii_lowercase, chars_of, clone_opt_text, lowercase_range, opt_chars, same_opt_text};
use vstd::prelude::*;
use vstd::string::*;

verus! {

/// A value between 0 and 255, the nearest to `value`.
pub open spec fn clamp_byte(value: int) -> u8 {
    if value < 0 {
        0
    } else if value > 255 {
        255
    } else {
        value as u8
    }
}

/// The luma of a pixel, before it is clamped.
pub open spec fn luma(r: int, g: int, b: int) -> int {
    (66 * r + 129 * g + 25 * b + 128) / 256 + 16
}

/// The blue-difference chroma of a pixel.
pub open spec fn chroma_u(r: int, g: int, b: int) -> int {
    (-38 * r - 74 * g + 112 * b + 128) / 256 + 128
}

/// The red-difference chroma of a pixel.
pub open spec fn chroma_v(r: int, g: int, b: int) -> int {
    (112 * r - 94 * g - 18 * b + 128) / 256 + 128
}

/// Where the pixel in column `x` of row `y` starts in a BGRA frame that is
/// `width` pixels wide.
pub open spec fn pixel_offset(width: int, x: int, y: int) -> int {
    (y * width + x) * 4
}

/// The luma byte of one pixel of a BGRA frame.
pub open spec fn luma_at(bgra: Seq<u8>, width: int, x: int, y: int) -> u8 {
    let at = pixel_offset(width, x, y);
    clamp_byte(luma(bgra[at + 2] as int, bgra[at + 1] as int, bgra[at] as int))
}

/// The blue-difference chroma of one pixel of a BGRA frame.
pub open spec fn chroma_u_at(bgra: Seq<u8>, width: int, x: int, y: int) -> int {
    let at = pixel_offset(width, x, y);
    chroma_u(bgra[at + 2] as int, bgra[at + 1] as int, bgra[at] as int)
}

/// The red-difference chroma of one pixel of a BGRA frame.
pub open spec fn chroma_v_at(bgra: Seq<u8>, width: int, x: int, y: int) -> int {
    let at = pixel_offset(width, x, y);
    chroma_v(bgra[at + 2] as int, bgra[at + 1] as int, bgra[at] as int)
}

/// The blue-difference byte of the two-by-two block whose top left pixel
/// is in column `x` of row `y`: the mean of the four pixels.
pub open spec fn block_u(bgra: Seq<u8>, width: int, x: int, y: int) -> u8 {
    clamp_byte(
        (chroma_u_at(bgra, width, x, y) + chroma_u_at(bgra, width, x + 1, y) + chroma_u_at(
            bgra,
            width,
            x,
            y + 1,
        ) + chroma_u_at(bgra, width, x + 1, y + 1)) / 4,
    )
}

/// The red-difference byte of the two-by-two block whose top left pixel
/// is in column `x` of row `y`: the mean of the four pixels.
pub open spec fn block_v(bgra: Seq<u8>, width: int, x: int, y: int) -> u8 {
    clamp_byte(
        (chroma_v_at(bgra, width, x, y) + chroma_v_at(bgra, width, x + 1, y) + chroma_v_at(
            bgra,
            width,
            x,
            y + 1,
        ) + chroma_v_at(bgra, width, x + 1, y + 1)) / 4,
    )
}

/// A frame of `width` by `height` pixels that can be converted: both
/// dimensions even and at least two, four bytes per pixel.
pub open spec fn convertible(bgra: Seq<u8>, width: int, height: int) -> bool {
    &&& width >= 2
    &&& height >= 2
    &&& width % 2 == 0
    &&& height % 2 == 0
    &&& bgra.len() == width * height * 4
}

/// `out` is the NV12 image of the BGRA frame: the luma plane row by row,
/// then one row of interleaved chroma pairs for every two rows of pixels.
pub open spec fn is_nv12_of(out: Seq<u8>, bgra: Seq<u8>, width: int, height: int) -> bool {
    &&& out.len() == width * height + width * (height / 2)
    &&& forall|x: int, y: int|
        0 <= x < width && 0 <= y < height ==> out[y * width + x] == #[trigger] luma_at(
            bgra,
            width,
            x,
            y,
        )
    &&& forall|bx: int, by: int|
        0 <= bx < width / 2 && 0 <= by < height / 2 ==> out[width * height + by * width + 2 * bx]
            == #[trigger] block_u(bgra, width, 2 * bx, 2 * by)
    &&& forall|bx: int, by: int|
        0 <= bx < width / 2 && 0 <= by < height / 2 ==> out[width * height + by * width + 2 * bx
            + 1] == #[trigger] block_v(bgra, width, 2 * bx, 2 * by)
}

/// In a grid of `width` columns, the cell in column `x` of row `y` comes
/// before every cell of row `rows` and after it.
pub proof fn lemma_row_major(width: int, rows: int, x: int, y: int)
    requires
        0 <= x < width,
        0 <= y < rows,
    ensures
        0 <= y * width + x < rows * width,
        y * width + width <= rows * width,
        0 <= y * width,
{
    assert(y * width + width <= rows * width) by (nonlinear_arith)
        requires
            0 <= y < rows,
            0 < width,
    ;
    assert(0 <= y * width) by (nonlinear_arith)
        requires
            0 <= y,
            0 < width,
    ;
}

/// The nearest value between 0 and 255.
pub fn clamp_u8(value: i32) -> (byte: u8)
    ensures
        byte == clamp_byte(value as int),
{
    if value < 0 {
        0
    } else if value > 255 {
        255
    } else {
        value as u8
    }
}

/// The red, green and blue of the pixel in column `x` of row `y`.
fn pixel_rgb(bgra: &[u8], width: usize, height: usize, x: usize, y: usize) -> (rgb: (i32, i32, i32))
    requires
        x < width,
        y < height,
        bgra@.len() == width * height * 4,
    ensures
        rgb.0 == bgra@[pixel_offset(width as int, x as int, y as int) + 2],
        rgb.1 == bgra@[pixel_offset(width as int, x as int, y as int) + 1],
        rgb.2 == bgra@[pixel_offset(width as int, x as int, y as int)],
{
    let total: usize = bgra.len();
    proof {
        lemma_row_major(width as int, height as int, x as int, y as int);
        assert(height * width == width * height) by (nonlinear_arith);
        assert(y * width + x < width * height);
        assert((y * width + x) * 4 + 3 < total);
    }
    let at: usize = (y * width + x) * 4;
    (bgra[at + 2] as i32, bgra[at + 1] as i32, bgra[at] as i32)
}

/// The two chroma values of the pixel in column `x` of row `y`.
fn pixel_chroma(bgra: &[u8], width: usize, height: usize, x: usize, y: usize) -> (uv: (i32, i32))
    requires
        x < width,
        y < height,
        bgra@.len() == width * height * 4,
    ensures
        uv.0 == chroma_u_at(bgra@, width as int, x as int, y as int),
        uv.1 == chroma_v_at(bgra@, width as int, x as int, y as int),
        0 <= uv.0 <= 255,
        0 <= uv.1 <= 255,
{
    let (r, g, b) = pixel_rgb(bgra, width, height, x, y);
    let u: i32 = (112 * b + 128 + 32768 - 38 * r - 74 * g) / 256;
    let v: i32 = (112 * r + 128 + 32768 - 94 * g - 18 * b) / 256;
    (u, v)
}

/// Converts a BGRA frame to NV12: a luma byte for every pixel, then for
/// every block of two by two pixels the mean of its blue-difference and of
/// its red-difference chroma.
pub fn bgra_to_nv12(bgra: &[u8], width: i32, height: i32) -> (out: Vec<u8>)
    requires
        convertible(bgra@, width as int, height as int),
    ensures
        is_nv12_of(out@, bgra@, width as int, height as int),
{
    let w: usize = width as usize;
    let h: usize = height as usize;
    let mut out: Vec<u8> = Vec::new();
    let mut y: usize = 0;
    while y < h
        invariant
            y <= h,
            w == width,
            h == height,
            convertible(bgra@, width as int, height as int),
            out@.len() == y * w,
            forall|px: int, py: int|
                0 <= px < w && 0 <= py < y ==> out@[py * w + px] == #[trigger] luma_at(
                    bgra@,
                    w as int,
                    px,
                    py,
                ),
        decreases h - y,
    {
        let mut x: usize = 0;
        while x < w
            invariant
                x <= w,
                y < h,
                w == width,
                h == height,
                convertible(bgra@, width as int, height as int),
                out@.len() == y * w + x,
                forall|px: int, py: int|
                    0 <= px < w && 0 <= py < y ==> out@[py * w + px] == #[trigger] luma_at(
                        bgra@,
                        w as int,
                        px,
                        py,
                    ),
                forall|px: int| 0 <= px < x ==> out@[y * w + px] == #[trigger] luma_at(
                    bgra@,
                    w as int,
                    px,
                    y as int,
                ),
            decreases w - x,
        {
            let (r, g, b) = pixel_rgb(bgra, w, h, x, y);
            let value: u8 = clamp_u8((66 * r + 129 * g + 25 * b + 128) / 256 + 16);
            let ghost before = out@;
            out.push(value);
            proof {
                assert forall|px: int, py: int| 0 <= px < w && 0 <= py < y implies out@[py * w
                    + px] == #[trigger] luma_at(bgra@, w as int, px, py) by {
                    lemma_row_major(w as int, y as int, px, py);
                    assert(out@[py * w + px] == before[py * w + px]);
                }
                assert forall|px: int| 0 <= px < x + 1 implies out@[y * w + px]
                    == #[trigger] luma_at(bgra@, w as int, px, y as int) by {
                    if px < x {
                        assert(out@[y * w + px] == before[y * w + px]);
                    }
                }
            }
            x += 1;
        }
        proof {
            assert((y + 1) * w == y * w + w) by (nonlinear_arith);
            assert forall|px: int, py: int| 0 <= px < w && 0 <= py < y + 1 implies out@[py * w
                + px] == #[trigger] luma_at(bgra@, w as int, px, py) by {
                if py == y {
                    assert(out@[y * w + px] == luma_at(bgra@, w as int, px, y as int));
                }
            }
        }
        y += 1;
    }
    let half_h: usize = h / 2;
    let half_w: usize = w / 2;
    let ghost luma_plane = out@;
    let plane: usize = out.len();
    assert(plane == w * h) by (nonlinear_arith)
        requires
            plane == h * w,
    ;
    let mut by: usize = 0;
    while by < half_h
        invariant
            by <= half_h,
            half_h == h / 2,
            half_w == w / 2,
            w == width,
            h == height,
            plane == w * h,
            convertible(bgra@, width as int, height as int),
            out@.len() == plane + by * w,
            luma_plane.len() == plane,
            forall|i: int| 0 <= i < plane ==> out@[i] == luma_plane[i],
            forall|cx: int, cy: int|
                0 <= cx < half_w && 0 <= cy < by ==> out@[plane + cy * w + 2 * cx]
                    == #[trigger] block_u(bgra@, w as int, 2 * cx, 2 * cy),
            forall|cx: int, cy: int|
                0 <= cx < half_w && 0 <= cy < by ==> out@[plane + cy * w + 2 * cx + 1]
                    == #[trigger] block_v(bgra@, w as int, 2 * cx, 2 * cy),
        decreases half_h - by,
    {
        let mut bx: usize = 0;
        while bx < half_w
            invariant
                bx <= half_w,
                by < half_h,
                half_h == h / 2,
                half_w == w / 2,
                w == width,
                h == height,
                plane == w * h,
                convertible(bgra@, width as int, height as int),
                out@.len() == plane + by * w + 2 * bx,
                luma_plane.len() == plane,
                forall|i: int| 0 <= i < plane ==> out@[i] == luma_plane[i],
                forall|cx: int, cy: int|
                    0 <= cx < half_w && 0 <= cy < by ==> out@[plane + cy * w + 2 * cx]
                        == #[trigger] block_u(bgra@, w as int, 2 * cx, 2 * cy),
                forall|cx: int, cy: int|
                    0 <= cx < half_w && 0 <= cy < by ==> out@[plane + cy * w + 2 * cx + 1]
                        == #[trigger] block_v(bgra@, w as int, 2 * cx, 2 * cy),
                forall|cx: int| 0 <= cx < bx ==> out@[plane + by * w + 2 * cx]
                    == #[trigger] block_u(bgra@, w as int, 2 * cx, 2 * by),
                forall|cx: int| 0 <= cx < bx ==> out@[plane + by * w + 2 * cx + 1]
                    == #[trigger] block_v(bgra@, w as int, 2 * cx, 2 * by),
            decreases half_w - bx,
        {
            let x: usize = 2 * bx;
            let y: usize = 2 * by;
            let (u0, v0) = pixel_chroma(bgra, w, h, x, y);
            let (u1, v1) = pixel_chroma(bgra, w, h, x + 1, y);
            let (u2, v2) = pixel_chroma(bgra, w, h, x, y + 1);
            let (u3, v3) = pixel_chroma(bgra, w, h, x + 1, y + 1);
            let u: u8 = clamp_u8((u0 + u1 + u2 + u3) / 4);
            let v: u8 = clamp_u8((v0 + v1 + v2 + v3) / 4);
            let ghost before = out@;
            out.push(u);
            out.push(v);
            proof {
                assert forall|cx: int, cy: int| 0 <= cx < half_w && 0 <= cy < by implies out@[plane
                    + cy * w + 2 * cx] == #[trigger] block_u(bgra@, w as int, 2 * cx, 2 * cy) by {
                    lemma_row_major(w as int, by as int, 2 * cx + 1, cy);
                    assert(out@[plane + cy * w + 2 * cx] == before[plane + cy * w + 2 * cx]);
                }
                assert forall|cx: int, cy: int| 0 <= cx < half_w && 0 <= cy < by implies out@[plane
                    + cy * w + 2 * cx + 1] == #[trigger] block_v(
                    bgra@,
                    w as int,
                    2 * cx,
                    2 * cy,
                ) by {
                    lemma_row_major(w as int, by as int, 2 * cx + 1, cy);
                    assert(out@[plane + cy * w + 2 * cx + 1] == before[plane + cy * w + 2 * cx
                        + 1]);
                }
                assert forall|cx: int| 0 <= cx < bx + 1 implies out@[plane + by * w + 2 * cx]
                    == #[trigger] block_u(bgra@, w as int, 2 * cx, 2 * by) by {
                    if cx < bx {
                        assert(out@[plane + by * w + 2 * cx] == before[plane + by * w + 2 * cx]);
                    }
                }
                assert forall|cx: int| 0 <= cx < bx + 1 implies out@[plane + by * w + 2 * cx + 1]
                    == #[trigger] block_v(bgra@, w as int, 2 * cx, 2 * by) by {
                    if cx < bx {
                        assert(out@[plane + by * w + 2 * cx + 1] == before[plane + by * w + 2 * cx
                            + 1]);
                    }
                }
                assert forall|i: int| 0 <= i < plane implies out@[i] == luma_plane[i] by {
                    lemma_row_major(w as int, by as int + 1, 0, by as int);
                    assert(out@[i] == before[i]);
                }
            }
            bx += 1;
        }
        proof {
            assert((by + 1) * w == by * w + w) by (nonlinear_arith);
            assert forall|cx: int, cy: int| 0 <= cx < half_w && 0 <= cy < by + 1 implies out@[plane
                + cy * w + 2 * cx] == #[trigger] block_u(bgra@, w as int, 2 * cx, 2 * cy) by {
                if cy == by {
                    assert(out@[plane + by * w + 2 * cx] == block_u(
                        bgra@,
                        w as int,
                        2 * cx,
                        2 * by,
                    ));
                }
            }
            assert forall|cx: int, cy: int| 0 <= cx < half_w && 0 <= cy < by + 1 implies out@[plane
                + cy * w + 2 * cx + 1] == #[trigger] block_v(bgra@, w as int, 2 * cx, 2 * cy) by {
                if cy == by {
                    assert(out@[plane + by * w + 2 * cx + 1] == block_v(
                        bgra@,
                        w as int,
                        2 * cx,
                        2 * by,
                    ));
                }
            }
        }
        by += 1;
    }
    proof {
        assert(w * (h / 2) == (h / 2) * w) by (nonlinear_arith);
        assert forall|px: int, py: int| 0 <= px < width && 0 <= py < height implies out@[py
            * width + px] == #[trigger] luma_at(bgra@, width as int, px, py) by {
            lemma_row_major(w as int, h as int, px, py);
            assert(h * w == w * h) by (nonlinear_arith);
            assert(out@[py * w + px] == luma_plane[py * w + px]);
        }
    }
    out
}

/// What a capture context was made for.
#[derive(Debug, Clone)]
pub struct CaptureTarget {
    pub width: i32,
    pub height: i32,
    pub target_id: Option<String>,
}

/// The way a frame was captured.
#[derive(Debug, Clone, Copy, PartialEq, Eq, Structural)]
pub enum CapturePath {
    /// Zero-copy duplication on the GPU.
    Gpu,
    /// Scan-out and blit on the CPU.
    Cpu,
}

/// Why the duplication path gave no frame.
#[derive(Debug, Clone)]
pub enum CaptureFailure {
    /// No new frame within the short wait: benign, try again.
    Timeout,
    /// The context is gone and must be made anew.
    AccessLost,
    /// Anything else, with what the platform said.
    Other(String),
}

/// What the host keeps about its capture source: the live context, if
/// any, a counter for each class of failure, and the two labels.
#[derive(Debug)]
pub struct CaptureState {
    pub context: Option<CaptureTarget>,
    pub timeouts: u32,
    pub access_lost: u32,
    pub frame_failures: u32,
    pub last_frame_bytes: u32,
    pub capture_path: String,
    pub capture_scale: String,
}

/// `count + 1`, or `count` where it is the largest value already.
pub open spec fn bump(count: u32) -> u32 {
    if count == u32::MAX {
        count
    } else {
        (count + 1) as u32
    }
}

/// The label of a capture path.
pub open spec fn path_label(path: CapturePath) -> Seq<char> {
    match path {
        CapturePath::Gpu => "GPU"@,
        CapturePath::Cpu => "CPU"@,
    }
}

/// The label that says whether a frame was scaled.
pub open spec fn scale_label(scaled: bool) -> Seq<char> {
    if scaled {
        "Scaled"@
    } else {
        "1:1"@
    }
}

/// The message of a failure of the duplication path.
pub open spec fn failure_message(failure: CaptureFailure) -> Seq<char> {
    match failure {
        CaptureFailure::Timeout => "DXGI capture timeout"@,
        CaptureFailure::AccessLost => "DXGI capture access lost"@,
        CaptureFailure::Other(message) => message@,
    }
}

/// The context was made for exactly this target.
pub open spec fn context_serves(
    context: Option<CaptureTarget>,
    width: i32,
    height: i32,
    target_id: Option<String>,
) -> bool {
    match context {
        Some(target) => target.width == width && target.height == height && opt_chars(
            target.target_id,
        ) == opt_chars(target_id),
        None => false,
    }
}

/// The number of bytes in a BGRA frame of these dimensions once they are aligned.
pub open spec fn aligned_frame_len(width: i32, height: i32) -> int {
    aligned_dimension(width) * aligned_dimension(height) * 4
}

fn saturating_bump(count: u32) -> (next: u32)
    ensures
        next == bump(count),
{
    if count == u32::MAX {
        count
    } else {
        count + 1
    }
}

impl CaptureState {
    /// A capture source that was never used.
    pub fn new() -> (state: CaptureState)
        ensures
            state.context is None,
            state.timeouts == 0,
            state.access_lost == 0,
            state.frame_failures == 0,
            state.last_frame_bytes == 0,
            state.capture_path@ == "Unknown"@,
            state.capture_scale@ == "Unknown"@,
    {
        CaptureState {
            context: None,
            timeouts: 0,
            access_lost: 0,
            frame_failures: 0,
            last_frame_bytes: 0,
            capture_path: String::from_str("Unknown"),
            capture_scale: String::from_str("Unknown"),
        }
    }
}

/// The dimensions in which a frame is captured: each raised to two and
/// lowered to the next even number.
pub fn capture_dimensions(width: i32, height: i32) -> (aligned: (i32, i32))
    ensures
        aligned.0 == aligned_dimension(width),
        aligned.1 == aligned_dimension(height),
{
    (align_dimension(width), align_dimension(height))
}

/// Whether a capture context must be made before the next capture: there
/// is none, or the one there is was made for other dimensions or another
/// target.
pub fn needs_init(state: &CaptureState, width: i32, height: i32, target_id: &Option<String>) -> (needed:
    bool)
    ensures
        needed == !context_serves(state.context, width, height, *target_id),
{
    match &state.context {
        Some(target) => target.width != width || target.height != height || !same_opt_text(
            &target.target_id,
            target_id,
        ),
        None => true,
    }
}

/// Notes that a context was made for this target.
pub fn context_created(state: &mut CaptureState, width: i32, height: i32, target_id: &Option<String>)
    ensures
        context_serves(final(state).context, width, height, *target_id),
        final(state).timeouts == old(state).timeouts,
        final(state).access_lost == old(state).access_lost,
        final(state).frame_failures == old(state).frame_failures,
        final(state).last_frame_bytes == old(state).last_frame_bytes,
        final(state).capture_path == old(state).capture_path,
        final(state).capture_scale == old(state).capture_scale,
{
    state.context = Some(CaptureTarget { width, height, target_id: clone_opt_text(target_id) });
}

/// Accounts for a failure of the duplication path and gives its message.
/// A timeout is counted and the context stays. Lost access is counted and
/// the context is dropped. Any other failure is counted as a frame failure
/// and the context is dropped.
pub fn record_failure(state: &mut CaptureState, failure: CaptureFailure) -> (message: String)
    ensures
        message@ == failure_message(failure),
        final(state).last_frame_bytes == old(state).last_frame_bytes,
        final(state).capture_path == old(state).capture_path,
        final(state).capture_scale == old(state).capture_scale,
        match failure {
            CaptureFailure::Timeout => {
                &&& final(state).timeouts == bump(old(state).timeouts)
                &&& final(state).access_lost == old(state).access_lost
                &&& final(state).frame_failures == old(state).frame_failures
                &&& final(state).context == old(state).context
            },
            CaptureFailure::AccessLost => {
                &&& final(state).timeouts == old(state).timeouts
                &&& final(state).access_lost == bump(old(state).access_lost)
                &&& final(state).frame_failures == old(state).frame_failures
                &&& final(state).context is None
            },
            CaptureFailure::Other(_) => {
                &&& final(state).timeouts == old(state).timeouts
                &&& final(state).access_lost == old(state).access_lost
                &&& final(state).frame_failures == bump(old(state).frame_failures)
                &&& final(state).context is None
            },
        },
{
    match failure {
        CaptureFailure::Timeout => {
            state.timeouts = saturating_bump(state.timeouts);
            String::from_str("DXGI capture timeout")
        },
        CaptureFailure::AccessLost => {
            state.access_lost = saturating_bump(state.access_lost);
            state.context = None;
            String::from_str("DXGI capture access lost")
        },
        CaptureFailure::Other(message) => {
            state.frame_failures = saturating_bump(state.frame_failures);
            state.context = None;
            message
        },
    }
}

/// Publishes the labels of the path that produced the last frame.
pub fn update_capture_info(state: &mut CaptureState, path: &str, scale: &str)
    ensures
        final(state).capture_path@ == path@,
        final(state).capture_scale@ == scale@,
        final(state).context == old(state).context,
        final(state).timeouts == old(state).timeouts,
        final(state).access_lost == old(state).access_lost,
        final(state).frame_failures == old(state).frame_failures,
        final(state).last_frame_bytes == old(state).last_frame_bytes,
{
    state.capture_path = String::from_str(path);
    state.capture_scale = String::from_str(scale);
}

/// The counters of the capture source while it has a context: timeouts,
/// lost accesses, frame failures and the size of the last frame.
pub fn dxgi_stats_snapshot(state: &CaptureState) -> (stats: Option<(u32, u32, u32, u32)>)
    ensures
        state.context is Some ==> stats == Some(
            (state.timeouts, state.access_lost, state.frame_failures, state.last_frame_bytes),
        ),
        state.context is None ==> stats is None,
{
    match &state.context {
        Some(_) => Some(
            (state.timeouts, state.access_lost, state.frame_failures, state.last_frame_bytes),
        ),
        None => None,
    }
}

/// The labels of the capture source: those it published while it has a
/// context, and `CPU` and `Scaled` while it has none.
pub fn capture_info_snapshot(state: &CaptureState) -> (labels: Option<(String, String)>)
    ensures
        labels matches Some(pair) && if state.context is Some {
            pair.0@ == state.capture_path@ && pair.1@ == state.capture_scale@
        } else {
            pair.0@ == "CPU"@ && pair.1@ == "Scaled"@
        },
{
    match &state.context {
        Some(_) => Some((state.capture_path.clone(), state.capture_scale.clone())),
        None => Some((String::from_str("CPU"), String::from_str("Scaled"))),
    }
}

/// The last step of a capture for a target: what the platform captured in
/// the aligned dimensions becomes NV12. A frame of the right size is
/// converted, the context is noted as serving this target, the size of the
/// frame is kept and the labels of its path are published. A frame of any
/// other size counts as a frame failure and drops the context. A capture
/// that failed hands its message on.
pub fn capture_nv12_with_target(
    state: &mut CaptureState,
    width: i32,
    height: i32,
    target_id: &Option<String>,
    captured: Result<Vec<u8>, String>,
    path: CapturePath,
    scaled: bool,
) -> (result: Result<Vec<u8>, String>)
    ensures
        final(state).timeouts == old(state).timeouts,
        final(state).access_lost == old(state).access_lost,
        match captured {
            Ok(frame) => if frame@.len() == aligned_frame_len(width, height) {
                &&& result matches Ok(nv12)
                &&& is_nv12_of(
                    nv12@,
                    frame@,
                    aligned_dimension(width),
                    aligned_dimension(height),
                )
                &&& context_serves(
                    final(state).context,
                    aligned_dimension(width) as i32,
                    aligned_dimension(height) as i32,
                    *target_id,
                )
                &&& final(state).frame_failures == old(state).frame_failures
                &&& final(state).last_frame_bytes == (if frame@.len() > u32::MAX {
                    u32::MAX
                } else {
                    frame@.len() as u32
                })
                &&& final(state).capture_path@ == path_label(path)
                &&& final(state).capture_scale@ == scale_label(scaled)
            } else {
                &&& result matches Err(message)
                &&& message@ == "Captured frame has an unexpected size"@
                &&& final(state).context is None
                &&& final(state).frame_failures == bump(old(state).frame_failures)
                &&& final(state).last_frame_bytes == old(state).last_frame_bytes
                &&& final(state).capture_path == old(state).capture_path
                &&& final(state).capture_scale == old(state).capture_scale
            },
            Err(reason) => {
                &&& result matches Err(message)
                &&& message@ == reason@
                &&& final(state).context == old(state).context
                &&& final(state).frame_failures == old(state).frame_failures
                &&& final(state).last_frame_bytes == old(state).last_frame_bytes
                &&& final(state).capture_path == old(state).capture_path
                &&& final(state).capture_scale == old(state).capture_scale
            },
        },
{
    let frame = match captured {
        Ok(frame) => frame,
        Err(reason) => {
            return Err(reason);
        },
    };
    let (aligned_width, aligned_height) = capture_dimensions(width, height);
    assert(aligned_width * aligned_height <= 0x7fff_ffff * 0x7fff_ffff) by (nonlinear_arith)
        requires
            0 <= aligned_width <= 0x7fff_ffff,
            0 <= aligned_height <= 0x7fff_ffff,
    ;
    assert(0 <= aligned_width * aligned_height) by (nonlinear_arith)
        requires
            0 <= aligned_width,
            0 <= aligned_height,
    ;
    let expected: u64 = aligned_width as u64 * aligned_height as u64 * 4;
    if frame.len() as u64 != expected {
        state.frame_failures = saturating_bump(state.frame_failures);
        state.context = None;
        return Err(String::from_str("Captured frame has an unexpected size"));
    }
    let nv12 = bgra_to_nv12(frame.as_slice(), aligned_width, aligned_height);
    state.context = Some(
        CaptureTarget {
            width: aligned_width,
            height: aligned_height,
            target_id: clone_opt_text(target_id),
        },
    );
    state.last_frame_bytes = if frame.len() > u32::MAX as usize {
        u32::MAX
    } else {
        frame.len() as u32
    };
    state.capture_path = match path {
        CapturePath::Gpu => String::from_str("GPU"),
        CapturePath::Cpu => String::from_str("CPU"),
    };
    state.capture_scale = if scaled {
        String::from_str("Scaled")
    } else {
        String::from_str("1:1")
    };
    Ok(nv12)
}

/// The last step of a capture of the primary display: as
/// `capture_nv12_with_target` with no target named.
pub fn capture_nv12(
    state: &mut CaptureState,
    width: i32,
    height: i32,
    captured: Result<Vec<u8>, String>,
    path: CapturePath,
    scaled: bool,
) -> (result: Result<Vec<u8>, String>)
    ensures
        final(state).timeouts == old(state).timeouts,
        final(state).access_lost == old(state).access_lost,
        match captured {
            Ok(frame) => if frame@.len() == aligned_frame_len(width, height) {
                &&& result matches Ok(nv12)
                &&& is_nv12_of(
                    nv12@,
                    frame@,
                    aligned_dimension(width),
                    aligned_dimension(height),
                )
                &&& context_serves(
                    final(state).context,
                    aligned_dimension(width) as i32,
                    aligned_dimension(height) as i32,
                    None,
                )
                &&& final(state).frame_failures == old(state).frame_failures
                &&& final(state).last_frame_bytes == (if frame@.len() > u32::MAX {
                    u32::MAX
                } else {
                    frame@.len() as u32
                })
                &&& final(state).capture_path@ == path_label(path)
                &&& final(state).capture_scale@ == scale_label(scaled)
            } else {
                &&& result matches Err(message)
                &&& message@ == "Captured frame has an unexpected size"@
                &&& final(state).context is None
                &&& final(state).frame_failures == bump(old(state).frame_failures)
                &&& final(state).last_frame_bytes == old(state).last_frame_bytes
                &&& final(state).capture_path == old(state).capture_path
                &&& final(state).capture_scale == old(state).capture_scale
            },
            Err(reason) => {
                &&& result matches Err(message)
                &&& message@ == reason@
                &&& final(state).context == old(state).context
                &&& final(state).frame_failures == old(state).frame_failures
                &&& final(state).last_frame_bytes == old(state).last_frame_bytes
                &&& final(state).capture_path == old(state).capture_path
                &&& final(state).capture_scale == old(state).capture_scale
            },
        },
{
    let no_target: Option<String> = None;
    capture_nv12_with_target(state, width, height, &no_target, captured, path, scaled)
}

/// Whether an output is the one to capture: any output where no target is
/// named, else the output whose name is the target's, letters in any case.
pub open spec fn is_wanted_output(target_id: Option<Seq<char>>, name: Seq<char>) -> bool {
    match target_id {
        Some(target) => ascii_lowercase(target) == ascii_lowercase(name),
        None => true,
    }
}

/// Whether an output is the one to capture.
pub fn output_matches(target_id: Option<&str>, name: &str) -> (wanted: bool)
    ensures
        wanted == is_wanted_output(
            match target_id {
                Some(target) => Some(target@),
                None => None,
            },
            name@,
        ),
{
    match target_id {
        Some(target) => {
            let a = chars_of(target);
            let b = chars_of(name);
            assert(a@.subrange(0, a@.len() as int) =~= a@);
            assert(b@.subrange(0, b@.len() as int) =~= b@);
            let lower_a = lowercase_range(&a, 0, a.len());
            let lower_b = lowercase_range(&b, 0, b.len());
            if lower_a.len() != lower_b.len() {
                return false;
            }
            let same = crate::text::matches_at(&lower_a, &lower_b, 0);
            assert(lower_a@.subrange(0, lower_a@.len() as int) =~= lower_a@);
            same
        },
        None => true,
    }
}

/// Whether a blit from a source of one size to a frame of another scales.
pub fn is_scaled(source_width: i32, source_height: i32, width: i32, height: i32) -> (scaled: bool)
    ensures
        scaled == !(source_width == width && source_height == height),
{
    !(source_width == width && source_height == height)
}

/// The capture paths in the order in which they are tried: duplication on
/// the GPU first, the blit on the CPU where that fails.
pub fn capture_order() -> (order: Vec<CapturePath>)
    ensures
        order@ == seq![CapturePath::Gpu, CapturePath::Cpu],
{
    let mut order: Vec<CapturePath> = Vec::new();
    order.push(CapturePath::Gpu);
    order.push(CapturePath::Cpu);
    order
}

} // verus!
