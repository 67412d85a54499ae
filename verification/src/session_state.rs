//! The session registry: one record of what the session is doing, changed
//! through fine-grained setters and read through snapshots.

use crate::app_state::{InputPermissions, SessionLifecycle, SessionStats};
use crate::codec::CodecId;
use crate::encoder::EncoderBackend;
use crate::text::clone_opt_text;
use vstd::prelude::*;
use vstd::string::*;

verus! {

/// The geometry a session was configured with.
#[derive(Debug, Clone, Copy, PartialEq, Eq, Structural)]
pub struct SessionGeometry {
    pub width: i32,
    pub height: i32,
    pub encoder_id: i32,
}

/// The record that the registry keeps.
#[derive(Debug, Clone)]
pub struct SessionState {
    pub lifecycle: SessionLifecycle,
    pub codec_id: Option<CodecId>,
    pub encoder_backend: Option<EncoderBackend>,
    pub active_device_id: Option<String>,
    pub input_permissions: InputPermissions,
    pub display_target_id: Option<String>,
    pub config: Option<SessionGeometry>,
    pub stats: SessionStats,
}

/// `value` raised to two and lowered to the next even number: the form in
/// which capture and encoder take a dimension.
pub open spec fn aligned_dimension(value: i32) -> int {
    if value < 2 {
        2
    } else {
        value - value % 2
    }
}

impl SessionState {
    /// A session that streams has a codec and a configuration.
    pub open spec fn consistent(&self) -> bool {
        self.lifecycle == SessionLifecycle::Streaming ==> self.codec_id is Some && self.config
            is Some
    }

    /// Whether a change of lifecycle from `from` to `to` clears the
    /// statistics: every change out of streaming, and every entry into
    /// the error state.
    pub open spec fn clears_stats(from: SessionLifecycle, to: SessionLifecycle) -> bool {
        ||| (from == SessionLifecycle::Streaming && to != SessionLifecycle::Streaming)
        ||| (to == SessionLifecycle::Error && from != SessionLifecycle::Error)
    }

    /// `after` is `before` with the lifecycle set to `lifecycle`: the
    /// statistics are cleared where the change clears them and kept where
    /// it does not, and nothing else is touched.
    pub open spec fn lifecycle_set(
        before: SessionState,
        after: SessionState,
        lifecycle: SessionLifecycle,
    ) -> bool {
        &&& after == (SessionState { lifecycle, stats: after.stats, ..before })
        &&& Self::clears_stats(before.lifecycle, lifecycle) ==> after.stats.is_reset()
        &&& !Self::clears_stats(before.lifecycle, lifecycle) ==> after.stats == before.stats
    }

    /// `after` is `before` with the statistics cleared and nothing else touched.
    pub open spec fn stats_cleared(before: SessionState, after: SessionState) -> bool {
        &&& after == (SessionState { stats: after.stats, ..before })
        &&& after.stats.is_reset()
    }

    /// The registry of a host that has no session: idle, nothing chosen,
    /// every kind of input allowed, statistics reset.
    pub fn new() -> (state: SessionState)
        ensures
            state.lifecycle == SessionLifecycle::Idle,
            state.codec_id is None,
            state.encoder_backend is None,
            state.active_device_id is None,
            state.display_target_id is None,
            state.config is None,
            state.input_permissions == (InputPermissions {
                enable_input: true,
                touch: true,
                pen: true,
                keyboard: true,
            }),
            state.stats.is_reset(),
            state.consistent(),
    {
        SessionState {
            lifecycle: SessionLifecycle::Idle,
            codec_id: None,
            encoder_backend: None,
            active_device_id: None,
            input_permissions: InputPermissions::default(),
            display_target_id: None,
            config: None,
            stats: SessionStats::default(),
        }
    }
}

/// `value` raised to two and lowered to the next even number.
pub fn align_dimension(value: i32) -> (aligned: i32)
    ensures
        aligned == aligned_dimension(value),
        aligned >= 2,
        aligned % 2 == 0,
        value >= 2 ==> value - 1 <= aligned <= value,
{
    if value < 2 {
        2
    } else {
        value - value % 2
    }
}

/// Records the negotiated codec.
pub fn update_codec(state: &mut SessionState, codec_id: CodecId)
    ensures
        *final(state) == (SessionState { codec_id: Some(codec_id), ..*old(state) }),
{
    state.codec_id = Some(codec_id);
}

/// Records the encoder backend.
pub fn update_backend(state: &mut SessionState, backend: EncoderBackend)
    ensures
        *final(state) == (SessionState { encoder_backend: Some(backend), ..*old(state) }),
{
    state.encoder_backend = Some(backend);
}

/// Records the active device and the permissions it was paired with.
pub fn update_active_device(
    state: &mut SessionState,
    device_id: Option<String>,
    permissions: InputPermissions,
)
    ensures
        *final(state) == (SessionState {
            active_device_id: device_id,
            input_permissions: permissions,
            ..*old(state)
        }),
{
    state.active_device_id = device_id;
    state.input_permissions = permissions;
}

/// Replaces the permissions that gate the client's input.
pub fn update_input_permissions(state: &mut SessionState, permissions: InputPermissions)
    ensures
        *final(state) == (SessionState { input_permissions: permissions, ..*old(state) }),
{
    state.input_permissions = permissions;
}

/// Records the geometry of the configured session.
pub fn update_config(state: &mut SessionState, width: i32, height: i32, encoder_id: i32)
    ensures
        *final(state) == (SessionState {
            config: Some(SessionGeometry { width, height, encoder_id }),
            ..*old(state)
        }),
{
    state.config = Some(SessionGeometry { width, height, encoder_id });
}

/// Records which display the session shows; `None` leaves the choice open.
pub fn update_display_target(state: &mut SessionState, display_id: Option<String>)
    ensures
        *final(state) == (SessionState { display_target_id: display_id, ..*old(state) }),
{
    state.display_target_id = display_id;
}

/// Sets the lifecycle. Leaving the streaming state, and entering the error
/// state, clears the statistics; any other change leaves them as they are.
pub fn update_lifecycle(state: &mut SessionState, lifecycle: SessionLifecycle)
    ensures
        SessionState::lifecycle_set(*old(state), *final(state), lifecycle),
        lifecycle != SessionLifecycle::Streaming ==> final(state).consistent(),
        old(state).codec_id is Some && old(state).config is Some ==> final(state).consistent(),
{
    let leaving_stream = match state.lifecycle {
        SessionLifecycle::Streaming => match lifecycle {
            SessionLifecycle::Streaming => false,
            _ => true,
        },
        _ => false,
    };
    let entering_error = match lifecycle {
        SessionLifecycle::Error => match state.lifecycle {
            SessionLifecycle::Error => false,
            _ => true,
        },
        _ => false,
    };
    if leaving_stream || entering_error {
        state.stats = SessionStats::default();
    }
    state.lifecycle = lifecycle;
}

/// Publishes a statistics snapshot.
pub fn update_stats(state: &mut SessionState, stats: SessionStats)
    ensures
        *final(state) == (SessionState { stats, ..*old(state) }),
{
    state.stats = stats;
}

/// Clears the statistics: every counter zero, the queue empty.
pub fn reset_stats(state: &mut SessionState)
    ensures
        SessionState::stats_cleared(*old(state), *final(state)),
        final(state).stats.well_formed(),
{
    state.stats = SessionStats::default();
}

/// A copy of the statistics.
pub fn stats_snapshot(state: &SessionState) -> (stats: SessionStats)
    ensures
        stats == state.stats,
{
    SessionStats {
        fps_tenths: state.stats.fps_tenths,
        bitrate_kbps: state.stats.bitrate_kbps,
        frames_sent: state.stats.frames_sent,
        frames_acked: state.stats.frames_acked,
        last_frame_bytes: state.stats.last_frame_bytes,
        queue_depth: state.stats.queue_depth,
        dxgi_timeouts: state.stats.dxgi_timeouts,
        dxgi_access_lost: state.stats.dxgi_access_lost,
        dxgi_failures: state.stats.dxgi_failures,
        dxgi_last_bytes: state.stats.dxgi_last_bytes,
        capture_path: state.stats.capture_path.clone(),
        capture_scale: state.stats.capture_scale.clone(),
    }
}

/// The lifecycle as it stands.
pub fn lifecycle_snapshot(state: &SessionState) -> (lifecycle: SessionLifecycle)
    ensures
        lifecycle == state.lifecycle,
{
    state.lifecycle
}

/// The configured geometry, if the session has one.
pub fn config_snapshot(state: &SessionState) -> (config: Option<SessionGeometry>)
    ensures
        config == state.config,
{
    state.config
}

/// A copy of the whole record.
pub fn snapshot(state: &SessionState) -> (copy: SessionState)
    ensures
        copy == *state,
{
    SessionState {
        lifecycle: state.lifecycle,
        codec_id: state.codec_id,
        encoder_backend: state.encoder_backend,
        active_device_id: clone_opt_text(&state.active_device_id),
        input_permissions: state.input_permissions,
        display_target_id: clone_opt_text(&state.display_target_id),
        config: state.config,
        stats: stats_snapshot(state),
    }
}

} // verus!
