//! The encoder as the streaming loop drives it: its construction rules,
//! the synthesised timestamps, the keyframe policy and the dummy payload
//! that stands in while no hardware encoder delivers.

use crate::codec::CodecId;
use crate::session_state::{align_dimension, aligned_dimension};
use vstd::prelude::*;
use vstd::string::*;

verus! {

/// The number of 100 ns ticks in a second.
pub const TICKS_PER_SECOND: u64 = 10_000_000;

/// The smallest dummy payload.
pub const MIN_DUMMY_BYTES: u64 = 128;

/// The largest dummy payload of an ordinary frame: 512 KiB.
pub const MAX_DUMMY_BYTES: u64 = 524_288;

/// The largest dummy payload of a keyframe: 768 KiB.
pub const MAX_DUMMY_KEYFRAME_BYTES: u64 = 786_432;

/// An encoder instance.
#[derive(Debug)]
pub struct MfEncoder {
    pub codec_id: CodecId,
    pub width: i32,
    pub height: i32,
    pub bitrate_kbps: u32,
    pub fps: u32,
    pub keyframe_interval: u32,
    pub frame_index: u64,
    pub last_error: Option<String>,
}

/// `fps`, or one where it is zero.
pub open spec fn effective_fps(fps: u32) -> int {
    if fps == 0 {
        1
    } else {
        fps as int
    }
}

/// The presentation timestamp of frame `frame_index` at `fps` frames per
/// second, in 100 ns ticks, and no more than `u64::MAX`.
pub open spec fn timestamp_of(frame_index: u64, fps: u32) -> int {
    let ticks = frame_index * (TICKS_PER_SECOND as int / effective_fps(fps));
    if ticks > u64::MAX {
        u64::MAX as int
    } else {
        ticks
    }
}

/// Whether frame `frame_index` is a keyframe: every `keyframe_interval`-th
/// frame, none where the interval is zero.
pub open spec fn is_keyframe(frame_index: u64, keyframe_interval: u32) -> bool {
    keyframe_interval > 0 && frame_index as int % keyframe_interval as int == 0
}

/// The byte budget of one frame: the bitrate spread over the frames of a
/// second, between `MIN_DUMMY_BYTES` and `MAX_DUMMY_BYTES`.
pub open spec fn frame_budget(bitrate_kbps: u32, fps: u32) -> int {
    let raw = bitrate_kbps as int * 1000 / 8 / effective_fps(fps);
    if raw < MIN_DUMMY_BYTES {
        MIN_DUMMY_BYTES as int
    } else if raw > MAX_DUMMY_BYTES {
        MAX_DUMMY_BYTES as int
    } else {
        raw
    }
}

/// The size of the dummy payload: the frame budget, nine tenths of it for
/// H.265, and twice that for a keyframe but no more than
/// `MAX_DUMMY_KEYFRAME_BYTES`.
pub open spec fn dummy_payload_len(
    codec_id: CodecId,
    bitrate_kbps: u32,
    fps: u32,
    keyframe: bool,
) -> int {
    let budget = frame_budget(bitrate_kbps, fps);
    let by_codec = if codec_id == CodecId::H265 {
        budget * 9 / 10
    } else {
        budget
    };
    if keyframe {
        if by_codec * 2 > MAX_DUMMY_KEYFRAME_BYTES {
            MAX_DUMMY_KEYFRAME_BYTES as int
        } else {
            by_codec * 2
        }
    } else {
        by_codec
    }
}

/// `index + 1`, or `index` where it is the largest value already.
pub open spec fn next_frame_index(index: u64) -> u64 {
    if index == u64::MAX {
        index
    } else {
        (index + 1) as u64
    }
}

/// `payload` and `timestamp` are the dummy frame that `encoder` produces
/// next: zeros in the length of the dummy payload of the next frame index,
/// and the timestamp synthesised for that index, which is no earlier than
/// that of the index before.
pub open spec fn is_dummy_frame(encoder: MfEncoder, payload: Seq<u8>, timestamp: Option<u64>) -> bool {
    let index = next_frame_index(encoder.frame_index);
    &&& payload.len() == dummy_payload_len(
        encoder.codec_id,
        encoder.bitrate_kbps,
        encoder.fps,
        is_keyframe(index, encoder.keyframe_interval),
    )
    &&& forall|i: int| 0 <= i < payload.len() ==> payload[i] == 0
    &&& timestamp == Some(timestamp_of(index, encoder.fps) as u64)
    &&& timestamp_of(index, encoder.fps) >= timestamp_of(encoder.frame_index, encoder.fps)
}

/// The duration of one frame at `fps` frames per second, in 100 ns ticks.
pub open spec fn frame_duration_of(fps: u32) -> int {
    TICKS_PER_SECOND as int / effective_fps(fps)
}

/// Timestamps never go back as the frame index grows.
pub proof fn lemma_timestamp_monotonic(earlier: u64, later: u64, fps: u32)
    requires
        earlier <= later,
    ensures
        timestamp_of(earlier, fps) <= timestamp_of(later, fps),
{
    let step = TICKS_PER_SECOND as int / effective_fps(fps);
    assert(step >= 0);
    assert(earlier * step <= later * step) by (nonlinear_arith)
        requires
            earlier <= later,
            step >= 0,
    ;
}

/// The presentation timestamp of frame `frame_index` at `fps` frames per
/// second, in 100 ns ticks.
pub fn estimate_timestamp_100ns(frame_index: u64, fps: u32) -> (timestamp: u64)
    ensures
        timestamp == timestamp_of(frame_index, fps),
{
    let fps: u64 = if fps == 0 {
        1
    } else {
        fps as u64
    };
    match frame_index.checked_mul(TICKS_PER_SECOND / fps) {
        Some(ticks) => ticks,
        None => u64::MAX,
    }
}

/// The duration of one frame at `fps` frames per second, in 100 ns ticks.
pub fn frame_duration_100ns(fps: u32) -> (ticks: u64)
    ensures
        ticks == frame_duration_of(fps),
        ticks <= TICKS_PER_SECOND,
{
    let fps: u64 = if fps == 0 {
        1
    } else {
        fps as u64
    };
    TICKS_PER_SECOND / fps
}

/// Two 32-bit numbers as one attribute of 64 bits: the first in the upper
/// half, the second in the lower.
pub fn pack_pair(high: u32, low: u32) -> (packed: u64)
    ensures
        packed == high * 0x1_0000_0000 + low,
{
    high as u64 * 0x1_0000_0000 + low as u64
}

/// The number of bytes in an NV12 image of these dimensions, each taken as
/// at least one: a byte per pixel and half as many again.
pub fn nv12_buffer_len(width: i32, height: i32) -> (len: u64)
    ensures
        len == ({
            let w = if width < 1 {
                1int
            } else {
                width as int
            };
            let h = if height < 1 {
                1int
            } else {
                height as int
            };
            w * h + w * h / 2
        }),
{
    let w: u64 = if width < 1 {
        1
    } else {
        width as u64
    };
    let h: u64 = if height < 1 {
        1
    } else {
        height as u64
    };
    assert(w * h <= 0x7fff_ffff * 0x7fff_ffff) by (nonlinear_arith)
        requires
            0 <= w <= 0x7fff_ffff,
            0 <= h <= 0x7fff_ffff,
    ;
    let pixels: u64 = w * h;
    pixels + pixels / 2
}

impl MfEncoder {
    /// An encoder for H.264 or H.265; any other codec is refused. The
    /// dimensions are raised to two and lowered to the next even number.
    pub fn new(
        codec_id: CodecId,
        width: i32,
        height: i32,
        bitrate_kbps: u32,
        fps: u32,
        keyframe_interval: u32,
    ) -> (result: Result<MfEncoder, String>)
        ensures
            match result {
                Ok(encoder) => {
                    &&& codec_id == CodecId::H264 || codec_id == CodecId::H265
                    &&& encoder.codec_id == codec_id
                    &&& encoder.width == aligned_dimension(width)
                    &&& encoder.height == aligned_dimension(height)
                    &&& encoder.bitrate_kbps == bitrate_kbps
                    &&& encoder.fps == fps
                    &&& encoder.keyframe_interval == keyframe_interval
                    &&& encoder.frame_index == 0
                    &&& encoder.last_error is None
                },
                Err(message) => {
                    &&& codec_id != CodecId::H264
                    &&& codec_id != CodecId::H265
                    &&& message@ == "Media Foundation encoder supports H.264/H.265 only"@
                },
            },
    {
        match codec_id {
            CodecId::H264 | CodecId::H265 => Ok(
                MfEncoder {
                    codec_id,
                    width: align_dimension(width),
                    height: align_dimension(height),
                    bitrate_kbps,
                    fps,
                    keyframe_interval,
                    frame_index: 0,
                    last_error: None,
                },
            ),
            _ => Err(String::from_str("Media Foundation encoder supports H.264/H.265 only")),
        }
    }

    /// The size of the dummy payload for the frame with this index.
    pub fn dummy_frame_len(&self, frame_index: u64) -> (len: usize)
        ensures
            len == dummy_payload_len(
                self.codec_id,
                self.bitrate_kbps,
                self.fps,
                is_keyframe(frame_index, self.keyframe_interval),
            ),
            MIN_DUMMY_BYTES * 9 / 10 <= len <= MAX_DUMMY_KEYFRAME_BYTES,
    {
        let fps: u64 = if self.fps == 0 {
            1
        } else {
            self.fps as u64
        };
        let raw: u64 = self.bitrate_kbps as u64 * 1000 / 8 / fps;
        let budget: u64 = if raw < MIN_DUMMY_BYTES {
            MIN_DUMMY_BYTES
        } else if raw > MAX_DUMMY_BYTES {
            MAX_DUMMY_BYTES
        } else {
            raw
        };
        let by_codec: u64 = match self.codec_id {
            CodecId::H265 => budget * 9 / 10,
            _ => budget,
        };
        let keyframe: bool = self.keyframe_interval > 0 && frame_index % (
        self.keyframe_interval as u64) == 0;
        let len: u64 = if keyframe {
            if by_codec * 2 > MAX_DUMMY_KEYFRAME_BYTES {
                MAX_DUMMY_KEYFRAME_BYTES
            } else {
                by_codec * 2
            }
        } else {
            by_codec
        };
        len as usize
    }

    /// The timestamp for a frame that goes to a hardware encoder: the one
    /// synthesised for the current frame index, which then advances.
    pub fn begin_hardware_frame(&mut self) -> (timestamp: u64)
        ensures
            timestamp == timestamp_of(old(self).frame_index, old(self).fps),
            *final(self) == (MfEncoder {
                frame_index: next_frame_index(old(self).frame_index),
                ..*old(self)
            }),
    {
        let timestamp: u64 = estimate_timestamp_100ns(self.frame_index, self.fps);
        if self.frame_index < u64::MAX {
            self.frame_index = self.frame_index + 1;
        }
        timestamp
    }

    /// The dummy frame that stands in while no hardware encoder delivers:
    /// the frame index advances, the payload is all zeros and as long as
    /// the dummy payload of that frame, and the timestamp is the one
    /// synthesised for it.
    fn dummy_frame(&mut self) -> (frame: (Vec<u8>, Option<u64>))
        ensures
            *final(self) == (MfEncoder {
                frame_index: next_frame_index(old(self).frame_index),
                ..*old(self)
            }),
            is_dummy_frame(*old(self), frame.0@, frame.1),
    {
        if self.frame_index < u64::MAX {
            self.frame_index = self.frame_index + 1;
        }
        proof {
            lemma_timestamp_monotonic(old(self).frame_index, self.frame_index, self.fps);
        }
        let len: usize = self.dummy_frame_len(self.frame_index);
        let timestamp: u64 = estimate_timestamp_100ns(self.frame_index, self.fps);
        (vec![0u8; len], Some(timestamp))
    }

    /// Produces the next frame from what the hardware encoder made of it.
    /// A payload that is not empty is the frame, with the hardware's
    /// timestamp, and clears the last error. An error is noted as the last
    /// error. Without a hardware encoder, after an error and after an empty
    /// payload the frame is the dummy frame.
    pub fn encode_frame(&mut self, hardware: Option<Result<(Vec<u8>, u64), String>>) -> (frame: (
        Vec<u8>,
        Option<u64>,
    ))
        ensures
            match hardware {
                Some(Ok((payload, timestamp))) if payload@.len() > 0 => {
                    &&& frame.0 == payload
                    &&& frame.1 == Some(timestamp)
                    &&& *final(self) == (MfEncoder { last_error: None, ..*old(self) })
                },
                Some(Err(message)) => {
                    &&& is_dummy_frame(*old(self), frame.0@, frame.1)
                    &&& *final(self) == (MfEncoder {
                        frame_index: next_frame_index(old(self).frame_index),
                        last_error: Some(message),
                        ..*old(self)
                    })
                },
                _ => {
                    &&& is_dummy_frame(*old(self), frame.0@, frame.1)
                    &&& *final(self) == (MfEncoder {
                        frame_index: next_frame_index(old(self).frame_index),
                        ..*old(self)
                    })
                },
            },
    {
        match hardware {
            Some(Ok((payload, timestamp))) => {
                if payload.len() > 0 {
                    self.last_error = None;
                    return (payload, Some(timestamp));
                }
            },
            Some(Err(message)) => {
                self.last_error = Some(message);
            },
            None => {},
        }
        self.dummy_frame()
    }

    /// Notes what went wrong in the encoder, for the loop to pick up.
    pub fn record_error(&mut self, message: String)
        ensures
            *final(self) == (MfEncoder { last_error: Some(message), ..*old(self) }),
    {
        self.last_error = Some(message);
    }

    /// Gives the last error, if any, and forgets it.
    pub fn take_last_error(&mut self) -> (error: Option<String>)
        ensures
            error == old(self).last_error,
            *final(self) == (MfEncoder { last_error: None, ..*old(self) }),
    {
        self.last_error.take()
    }
}

} // verus!
