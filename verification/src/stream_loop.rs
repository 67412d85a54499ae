//! The decisions of the streaming loop: when to wait for an
//! acknowledgement, when to emit the next frame, what to publish as
//! statistics and how long to sleep. The loop that captures, encodes, sends
//! and sleeps hands each outcome to the [`Streamer`] and performs the
//! action that comes back.

use crate::app_state::{SessionLifecycle, SessionStats};
use vstd::prelude::*;
use vstd::string::*;

verus! {

/// How long the loop sleeps before it looks for an acknowledgement again.
pub const ACK_POLL_MS: u64 = 4;

/// The shortest time the loop waits for an acknowledgement.
pub const MIN_ACK_WAIT_MS: u64 = 8;

/// The time between two statistics snapshots.
pub const STATS_PERIOD_MS: u64 = 1000;

/// The number of consecutive encoder failures that puts the session in error.
pub const MAX_ENCODER_FAILURES: u32 = 3;

/// The number of 100 ns ticks in a millisecond.
pub const TICKS_PER_MS: u64 = 10_000;

/// The flag by which `stop_streaming` ends the loop.
#[derive(Debug, Clone, Copy, PartialEq, Eq, Structural)]
pub struct StreamControl {
    pub running: bool,
}

/// What the capture source reports for a statistics snapshot.
#[derive(Debug, Clone)]
pub struct CaptureReport {
    pub timeouts: u32,
    pub access_lost: u32,
    pub failures: u32,
    pub last_bytes: u32,
    pub path: String,
    pub scale: String,
}

/// What the loop does next.
#[derive(Debug, Clone)]
pub enum StreamAction {
    /// The loop was stopped: reset the statistics and leave.
    Stop,
    /// A frame is in flight: sleep this long, then tick again.
    WaitForAck { sleep_ms: u64 },
    /// The slot is free: encode a frame, send it, then report it emitted.
    Emit,
    /// The frame is out: set the lifecycle if one is given, publish the
    /// statistics if there are any, sleep, then tick again.
    Pace { lifecycle: Option<SessionLifecycle>, stats: Option<SessionStats>, sleep_ms: u64 },
    /// The call does not fit the state of the loop; nothing changed.
    Rejected,
}

/// The state of the streaming loop between two steps.
#[derive(Debug, Clone, Copy, PartialEq, Eq, Structural)]
pub struct Streamer {
    pub encoder_id: i32,
    pub fps: u32,
    /// Whether the loop has been told to emit and has not reported back.
    pub emitting: bool,
    /// The number of frames sent and neither acknowledged nor given up.
    pub queue_depth: u32,
    pub last_send_ms: u64,
    pub last_timestamp: Option<u64>,
    pub last_stats_ms: u64,
    pub window_bytes: u64,
    pub window_frames: u32,
    pub frames_sent: u64,
    pub frames_acked: u64,
    pub encoder_failures: u32,
}

/// The time between two frames at `fps` frames per second, in milliseconds.
pub open spec fn frame_period_ms(fps: u32) -> int {
    1000int / (if fps == 0 {
        1int
    } else {
        fps as int
    })
}

/// How long the loop waits for an acknowledgement before it goes on: two
/// frame periods, at least `MIN_ACK_WAIT_MS`.
pub open spec fn ack_wait_ms(fps: u32) -> int {
    if 2 * frame_period_ms(fps) < MIN_ACK_WAIT_MS {
        MIN_ACK_WAIT_MS as int
    } else {
        2 * frame_period_ms(fps)
    }
}

/// `a - b`, or zero where `b` is the larger.
pub open spec fn span(a: u64, b: u64) -> int {
    if a >= b {
        a - b
    } else {
        0
    }
}

/// The sleep after an emission: the distance between the encoder's last
/// two timestamps in whole milliseconds where that is positive, else one
/// frame period.
pub open spec fn frame_delay_ms(fps: u32, previous: Option<u64>, timestamp: Option<u64>) -> int {
    let from_timestamps = match (timestamp, previous) {
        (Some(ts), Some(prev)) => span(ts, prev) / (TICKS_PER_MS as int),
        _ => 0,
    };
    if from_timestamps > 0 {
        from_timestamps
    } else {
        frame_period_ms(fps)
    }
}

/// `numerator / denominator`, rounded to the nearest whole number, and no
/// more than `u32::MAX`.
pub open spec fn rounded_rate(numerator: int, denominator: int) -> int {
    let rate = (numerator + denominator / 2) / denominator;
    if rate > u32::MAX {
        u32::MAX as int
    } else {
        rate
    }
}

/// The frame rate over a window, in tenths of a frame per second.
pub open spec fn fps_tenths_of(frames: u32, elapsed_ms: int) -> int {
    rounded_rate(frames * 10_000, elapsed_ms)
}

/// The bit rate over a window, in kilobits per second.
pub open spec fn bitrate_kbps_of(bytes: u64, elapsed_ms: int) -> int {
    rounded_rate(bytes * 8, elapsed_ms)
}

/// `x + 1`, or `x` where it is the largest value already.
pub open spec fn bump64(x: u64) -> u64 {
    if x == u64::MAX {
        x
    } else {
        (x + 1) as u64
    }
}

/// The failure count after an encode, and the lifecycle it asks for.
pub open spec fn attributed(failures: u32, encoder_failed: bool) -> (u32, Option<SessionLifecycle>) {
    if encoder_failed {
        let count = if failures == u32::MAX {
            failures
        } else {
            (failures + 1) as u32
        };
        if count >= MAX_ENCODER_FAILURES {
            (count, Some(SessionLifecycle::Error))
        } else {
            (count, None)
        }
    } else if failures > 0 {
        (0u32, Some(SessionLifecycle::Streaming))
    } else {
        (0u32, None)
    }
}

/// A streamer at the start of a loop: nothing sent, nothing in flight, both
/// clocks at the time of the start.
pub open spec fn fresh_streamer(encoder_id: i32, fps: u32, now_ms: u64) -> Streamer {
    Streamer {
        encoder_id,
        fps,
        emitting: false,
        queue_depth: 0,
        last_send_ms: now_ms,
        last_timestamp: None,
        last_stats_ms: now_ms,
        window_bytes: 0,
        window_frames: 0,
        frames_sent: 0,
        frames_acked: 0,
        encoder_failures: 0,
    }
}

impl Streamer {
    /// What holds of the streamer between any two steps: at most one frame
    /// is in flight, none while the loop emits, and every acknowledgement
    /// counted answers a frame that was sent.
    pub open spec fn well_formed(&self) -> bool {
        &&& self.queue_depth <= 1
        &&& self.emitting ==> self.queue_depth == 0
        &&& self.frames_acked + self.queue_depth <= self.frames_sent || self.frames_sent
            == u64::MAX
        &&& self.frames_acked <= self.frames_sent
    }

    /// Whether a frame-done value acknowledges the frame in flight.
    pub open spec fn acknowledges(&self, frame_done: Option<i32>) -> bool {
        frame_done == Some(self.encoder_id)
    }

    /// Whether the streamer is as `well_formed` asks: what a caller that
    /// keeps a streamer between steps can test before the next step.
    pub fn is_well_formed(&self) -> (ok: bool)
        ensures
            ok == self.well_formed(),
    {
        self.queue_depth <= 1 && (!self.emitting || self.queue_depth == 0) && self.frames_acked
            <= self.frames_sent && (self.frames_sent == u64::MAX || self.frames_acked
            < self.frames_sent || self.queue_depth == 0)
    }

    /// A streamer at the start of the loop.
    pub fn new(encoder_id: i32, fps: u32, now_ms: u64) -> (streamer: Streamer)
        ensures
            streamer.well_formed(),
            streamer == fresh_streamer(encoder_id, fps, now_ms),
    {
        Streamer {
            encoder_id,
            fps,
            emitting: false,
            queue_depth: 0,
            last_send_ms: now_ms,
            last_timestamp: None,
            last_stats_ms: now_ms,
            window_bytes: 0,
            window_frames: 0,
            frames_sent: 0,
            frames_acked: 0,
            encoder_failures: 0,
        }
    }

    /// The time between two frames, in milliseconds.
    pub fn frame_period(&self) -> (ms: u64)
        ensures
            ms == frame_period_ms(self.fps),
            ms <= 1000,
    {
        let fps: u32 = if self.fps == 0 {
            1
        } else {
            self.fps
        };
        (1000 / fps) as u64
    }

    /// How long the loop waits for an acknowledgement.
    pub fn max_ack_wait(&self) -> (ms: u64)
        ensures
            ms == ack_wait_ms(self.fps),
            MIN_ACK_WAIT_MS <= ms <= 2000,
    {
        let wait: u64 = 2 * self.frame_period();
        if wait < MIN_ACK_WAIT_MS {
            MIN_ACK_WAIT_MS
        } else {
            wait
        }
    }

    /// The loop comes round. A stopped loop leaves. While a frame is in
    /// flight, a matching acknowledgement is counted, and the loop waits
    /// unless the acknowledgement came or the wait is over; either frees
    /// the slot. With the slot free the loop is told to emit.
    pub fn on_tick(&mut self, running: bool, frame_done: Option<i32>, now_ms: u64) -> (action:
        StreamAction)
        requires
            old(self).well_formed(),
        ensures
            final(self).well_formed(),
            final(self).frames_sent == old(self).frames_sent,
            final(self).frames_acked >= old(self).frames_acked,
            old(self).emitting ==> action is Rejected && *final(self) == *old(self),
            !old(self).emitting && !running ==> action is Stop && *final(self) == *old(self),
            !old(self).emitting && running && old(self).queue_depth == 0 ==> action is Emit
                && *final(self) == (Streamer { emitting: true, ..*old(self) }),
            !old(self).emitting && running && old(self).queue_depth > 0 ==> {
                let acked = old(self).acknowledges(frame_done);
                let counted = if acked {
                    bump64(old(self).frames_acked)
                } else {
                    old(self).frames_acked
                };
                let expired = span(now_ms, old(self).last_send_ms) >= ack_wait_ms(old(self).fps);
                if acked || expired {
                    &&& action is Emit
                    &&& *final(self) == (Streamer {
                        emitting: true,
                        queue_depth: 0,
                        frames_acked: counted,
                        ..*old(self)
                    })
                } else {
                    &&& action == (StreamAction::WaitForAck { sleep_ms: ACK_POLL_MS })
                    &&& *final(self) == *old(self)
                }
            },
    {
        if self.emitting {
            return StreamAction::Rejected;
        }
        if !running {
            return StreamAction::Stop;
        }
        if self.queue_depth > 0 {
            let acked: bool = match frame_done {
                Some(done) => done == self.encoder_id,
                None => false,
            };
            let elapsed: u64 = if now_ms >= self.last_send_ms {
                now_ms - self.last_send_ms
            } else {
                0
            };
            if !(acked || elapsed >= self.max_ack_wait()) {
                return StreamAction::WaitForAck { sleep_ms: ACK_POLL_MS };
            }
            if acked && self.frames_acked < u64::MAX {
                self.frames_acked = self.frames_acked + 1;
            }
            self.queue_depth = 0;
        }
        self.emitting = true;
        StreamAction::Emit
    }

    /// The sleep after an emission with this timestamp.
    pub fn delay_after(&self, timestamp_100ns: Option<u64>) -> (ms: u64)
        ensures
            ms == frame_delay_ms(self.fps, self.last_timestamp, timestamp_100ns),
    {
        let from_timestamps: u64 = match (timestamp_100ns, self.last_timestamp) {
            (Some(ts), Some(prev)) => if ts >= prev {
                (ts - prev) / TICKS_PER_MS
            } else {
                0
            },
            _ => 0,
        };
        if from_timestamps > 0 {
            from_timestamps
        } else {
            self.frame_period()
        }
    }

    /// The frame is out. The failure count and the lifecycle follow the
    /// encoder's outcome, the counters take the frame, the frame is in
    /// flight, and once a statistics period has passed a snapshot is made
    /// and the window starts anew.
    pub fn on_emitted(
        &mut self,
        payload_len: usize,
        timestamp_100ns: Option<u64>,
        encoder_failed: bool,
        now_ms: u64,
        capture: Option<CaptureReport>,
    ) -> (action: StreamAction)
        requires
            old(self).well_formed(),
        ensures
            final(self).well_formed(),
            final(self).frames_sent >= old(self).frames_sent,
            final(self).frames_acked == old(self).frames_acked,
            !old(self).emitting ==> action is Rejected && *final(self) == *old(self),
            old(self).emitting ==> {
                let due = span(now_ms, old(self).last_stats_ms) >= STATS_PERIOD_MS;
                let frames = if old(self).window_frames == u32::MAX {
                    u32::MAX
                } else {
                    (old(self).window_frames + 1) as u32
                };
                let bytes = if old(self).window_bytes + payload_len > u64::MAX {
                    u64::MAX
                } else {
                    (old(self).window_bytes + payload_len) as u64
                };
                &&& action matches StreamAction::Pace { lifecycle, stats, sleep_ms }
                &&& lifecycle == attributed(old(self).encoder_failures, encoder_failed).1
                &&& sleep_ms == frame_delay_ms(
                    old(self).fps,
                    old(self).last_timestamp,
                    timestamp_100ns,
                )
                &&& stats is Some <==> due
                &&& stats matches Some(snapshot) ==> {
                    &&& snapshot.well_formed()
                    &&& snapshot.fps_tenths == fps_tenths_of(
                        frames,
                        span(now_ms, old(self).last_stats_ms),
                    )
                    &&& snapshot.bitrate_kbps == bitrate_kbps_of(
                        bytes,
                        span(now_ms, old(self).last_stats_ms),
                    )
                    &&& snapshot.frames_sent == bump64(old(self).frames_sent)
                    &&& snapshot.frames_acked == old(self).frames_acked
                    &&& snapshot.last_frame_bytes == (if payload_len > u32::MAX {
                        u32::MAX
                    } else {
                        payload_len as u32
                    })
                    &&& snapshot.queue_depth == 1
                    &&& match capture {
                        Some(report) => {
                            &&& snapshot.dxgi_timeouts == report.timeouts
                            &&& snapshot.dxgi_access_lost == report.access_lost
                            &&& snapshot.dxgi_failures == report.failures
                            &&& snapshot.dxgi_last_bytes == report.last_bytes
                            &&& snapshot.capture_path@ == report.path@
                            &&& snapshot.capture_scale@ == report.scale@
                        },
                        None => {
                            &&& snapshot.dxgi_timeouts == 0
                            &&& snapshot.dxgi_access_lost == 0
                            &&& snapshot.dxgi_failures == 0
                            &&& snapshot.dxgi_last_bytes == 0
                            &&& snapshot.capture_path@ == "Unknown"@
                            &&& snapshot.capture_scale@ == "Unknown"@
                        },
                    }
                }
                &&& *final(self) == (Streamer {
                    emitting: false,
                    queue_depth: 1,
                    last_send_ms: now_ms,
                    last_timestamp: if timestamp_100ns is Some {
                        timestamp_100ns
                    } else {
                        old(self).last_timestamp
                    },
                    last_stats_ms: if due {
                        now_ms
                    } else {
                        old(self).last_stats_ms
                    },
                    window_bytes: if due {
                        0
                    } else {
                        bytes
                    },
                    window_frames: if due {
                        0
                    } else {
                        frames
                    },
                    frames_sent: bump64(old(self).frames_sent),
                    encoder_failures: attributed(old(self).encoder_failures, encoder_failed).0,
                    ..*old(self)
                })
            },
    {
        if !self.emitting {
            return StreamAction::Rejected;
        }
        let mut lifecycle: Option<SessionLifecycle> = None;
        if encoder_failed {
            if self.encoder_failures < u32::MAX {
                self.encoder_failures = self.encoder_failures + 1;
            }
            if self.encoder_failures >= MAX_ENCODER_FAILURES {
                lifecycle = Some(SessionLifecycle::Error);
            }
        } else if self.encoder_failures > 0 {
            self.encoder_failures = 0;
            lifecycle = Some(SessionLifecycle::Streaming);
        }
        let sleep_ms: u64 = self.delay_after(timestamp_100ns);
        let last_frame_bytes: u32 = if payload_len > u32::MAX as usize {
            u32::MAX
        } else {
            payload_len as u32
        };
        if self.frames_sent < u64::MAX {
            self.frames_sent = self.frames_sent + 1;
        }
        if self.window_frames < u32::MAX {
            self.window_frames = self.window_frames + 1;
        }
        self.window_bytes = if payload_len as u64 > u64::MAX - self.window_bytes {
            u64::MAX
        } else {
            self.window_bytes + payload_len as u64
        };
        self.queue_depth = 1;
        self.emitting = false;
        self.last_send_ms = now_ms;
        if timestamp_100ns.is_some() {
            self.last_timestamp = timestamp_100ns;
        }
        let elapsed: u64 = if now_ms >= self.last_stats_ms {
            now_ms - self.last_stats_ms
        } else {
            0
        };
        let mut stats: Option<SessionStats> = None;
        if elapsed >= STATS_PERIOD_MS {
            let fps_tenths: u32 = rate_of(self.window_frames as u128 * 10_000, elapsed);
            let bitrate_kbps: u32 = rate_of(self.window_bytes as u128 * 8, elapsed);
            let snapshot = match capture {
                Some(report) => SessionStats {
                    fps_tenths,
                    bitrate_kbps,
                    frames_sent: self.frames_sent,
                    frames_acked: self.frames_acked,
                    last_frame_bytes,
                    queue_depth: 1,
                    dxgi_timeouts: report.timeouts,
                    dxgi_access_lost: report.access_lost,
                    dxgi_failures: report.failures,
                    dxgi_last_bytes: report.last_bytes,
                    capture_path: report.path,
                    capture_scale: report.scale,
                },
                None => SessionStats {
                    fps_tenths,
                    bitrate_kbps,
                    frames_sent: self.frames_sent,
                    frames_acked: self.frames_acked,
                    last_frame_bytes,
                    queue_depth: 1,
                    dxgi_timeouts: 0,
                    dxgi_access_lost: 0,
                    dxgi_failures: 0,
                    dxgi_last_bytes: 0,
                    capture_path: String::from_str("Unknown"),
                    capture_scale: String::from_str("Unknown"),
                },
            };
            stats = Some(snapshot);
            self.window_bytes = 0;
            self.window_frames = 0;
            self.last_stats_ms = now_ms;
        }
        StreamAction::Pace { lifecycle, stats, sleep_ms }
    }
}

/// `numerator / elapsed_ms` rounded to the nearest whole number, at most
/// `u32::MAX`.
fn rate_of(numerator: u128, elapsed_ms: u64) -> (rate: u32)
    requires
        elapsed_ms >= 1,
        numerator <= 0xFFFF_FFFF_FFFF_FFFF * 10_000,
    ensures
        rate == rounded_rate(numerator as int, elapsed_ms as int),
{
    let rate: u128 = (numerator + (elapsed_ms / 2) as u128) / (elapsed_ms as u128);
    if rate > u32::MAX as u128 {
        u32::MAX
    } else {
        rate as u32
    }
}

/// Starts the loop unless it runs already: the flag is set, and a fresh
/// streamer comes back exactly when this call set it.
pub fn start_streaming(control: &mut StreamControl, encoder_id: i32, fps: u32, now_ms: u64) -> (started:
    Option<Streamer>)
    ensures
        final(control).running,
        old(control).running ==> started is None,
        !old(control).running ==> started == Some(fresh_streamer(encoder_id, fps, now_ms)),
        started matches Some(streamer) ==> streamer.well_formed(),
{
    if control.running {
        return None;
    }
    control.running = true;
    Some(Streamer::new(encoder_id, fps, now_ms))
}

/// Tells the loop to stop after its current cycle.
pub fn stop_streaming(control: &mut StreamControl)
    ensures
        !final(control).running,
{
    control.running = false;
}

} // verus!
