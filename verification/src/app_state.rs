//! The plain records that the host reports upward: settings, paired
//! devices, permissions, lifecycle and rolling statistics.

use crate::protocol::handshake::PROTOCOL_VERSION;
use vstd::prelude::*;
use vstd::string::*;

verus! {

/// Whether the virtual display driver is installed and active.
#[derive(Debug, Clone, Copy, PartialEq, Eq, Structural)]
pub struct DriverStatus {
    pub installed: bool,
    pub active: bool,
}

/// What the transport probe found on the host.
#[derive(Debug, Clone, Copy, PartialEq, Eq, Structural)]
pub struct TransportStatus {
    pub tcp_listening: bool,
    pub tcp_connections: u32,
    pub aoap_attached: bool,
}

/// What the user can set between sessions.
#[derive(Debug, Clone)]
pub struct HostSettings {
    pub codec: String,
    pub quality: u8,
    pub refresh_cap_hz: u16,
    pub keyframe_interval: u16,
    pub input_mode: String,
}

impl Default for HostSettings {
    fn default() -> (settings: Self)
        ensures
            settings.codec@ == "H.264 High"@,
            settings.quality == 80,
            settings.refresh_cap_hz == 120,
            settings.keyframe_interval == 60,
            settings.input_mode@ == "Touch + Pen"@,
    {
        HostSettings {
            codec: String::from_str("H.264 High"),
            quality: 80,
            refresh_cap_hz: 120,
            keyframe_interval: 60,
            input_mode: String::from_str("Touch + Pen"),
        }
    }
}

/// Which kinds of input the host accepts from a device.
#[derive(Debug, Clone, Copy, PartialEq, Eq, Structural)]
pub struct InputPermissions {
    pub enable_input: bool,
    pub touch: bool,
    pub pen: bool,
    pub keyboard: bool,
}

impl Default for InputPermissions {
    fn default() -> (permissions: Self)
        ensures
            permissions == (InputPermissions {
                enable_input: true,
                touch: true,
                pen: true,
                keyboard: true,
            }),
    {
        InputPermissions { enable_input: true, touch: true, pen: true, keyboard: true }
    }
}

/// A device that was paired with this host.
#[derive(Debug, Clone)]
pub struct PairedDevice {
    pub id: String,
    pub name: String,
    pub transport: String,
    pub status: String,
    pub last_seen: Option<String>,
    pub input_permissions: InputPermissions,
}

/// The outcome of a negotiation, as it is reported.
#[derive(Debug, Clone)]
pub struct CodecSelection {
    pub codec_id: u8,
    pub codec_name: String,
    pub host_mask: u32,
    pub client_mask: u32,
}

/// The externally observable state of the session.
#[derive(Debug, Clone, Copy, PartialEq, Eq, Structural)]
pub enum SessionLifecycle {
    Idle,
    Connecting,
    Configured,
    Streaming,
    Error,
}

/// The part of the session that the status command shows.
#[derive(Debug, Clone, Copy, PartialEq, Eq, Structural)]
pub struct SessionOverview {
    pub lifecycle: SessionLifecycle,
}

/// A display of the host.
#[derive(Debug, Clone)]
pub struct DisplayInfo {
    pub id: String,
    pub name: String,
    pub active: bool,
    pub primary: bool,
    pub width: i32,
    pub height: i32,
    pub refresh_hz: i32,
    pub is_virtual: bool,
}

/// One mode that a display offers.
#[derive(Debug, Clone, Copy, PartialEq, Eq, Structural)]
pub struct DisplayMode {
    pub width: i32,
    pub height: i32,
    pub refresh_hz: i32,
}

/// The rolling statistics of the streaming loop. The frame rate is kept in
/// tenths of a frame per second.
#[derive(Debug, Clone)]
pub struct SessionStats {
    pub fps_tenths: u32,
    pub bitrate_kbps: u32,
    pub frames_sent: u64,
    pub frames_acked: u64,
    pub last_frame_bytes: u32,
    pub queue_depth: u32,
    pub dxgi_timeouts: u32,
    pub dxgi_access_lost: u32,
    pub dxgi_failures: u32,
    pub dxgi_last_bytes: u32,
    pub capture_path: String,
    pub capture_scale: String,
}

impl SessionStats {
    /// Statistics after a reset: every counter zero, both labels `Unknown`.
    pub open spec fn is_reset(&self) -> bool {
        &&& self.fps_tenths == 0
        &&& self.bitrate_kbps == 0
        &&& self.frames_sent == 0
        &&& self.frames_acked == 0
        &&& self.last_frame_bytes == 0
        &&& self.queue_depth == 0
        &&& self.dxgi_timeouts == 0
        &&& self.dxgi_access_lost == 0
        &&& self.dxgi_failures == 0
        &&& self.dxgi_last_bytes == 0
        &&& self.capture_path@ == "Unknown"@
        &&& self.capture_scale@ == "Unknown"@
    }

    /// What the statistics promise at any time while a session streams: at
    /// most one frame in flight, and no more acknowledgements than frames.
    pub open spec fn well_formed(&self) -> bool {
        &&& self.queue_depth <= 1
        &&& self.frames_acked <= self.frames_sent
    }
}

impl Default for SessionStats {
    fn default() -> (stats: Self)
        ensures
            stats.is_reset(),
            stats.well_formed(),
    {
        SessionStats {
            fps_tenths: 0,
            bitrate_kbps: 0,
            frames_sent: 0,
            frames_acked: 0,
            last_frame_bytes: 0,
            queue_depth: 0,
            dxgi_timeouts: 0,
            dxgi_access_lost: 0,
            dxgi_failures: 0,
            dxgi_last_bytes: 0,
            capture_path: String::from_str("Unknown"),
            capture_scale: String::from_str("Unknown"),
        }
    }
}

/// Everything the status command reports.
#[derive(Debug, Clone)]
pub struct AppStatus {
    pub protocol_version: u16,
    pub driver: DriverStatus,
    pub transport: TransportStatus,
    pub settings: HostSettings,
    pub devices: Vec<PairedDevice>,
    pub session: SessionOverview,
}

impl Default for AppStatus {
    fn default() -> (status: Self)
        ensures
            status.protocol_version == PROTOCOL_VERSION,
            status.driver == (DriverStatus { installed: false, active: false }),
            status.transport == (TransportStatus {
                tcp_listening: true,
                tcp_connections: 0,
                aoap_attached: false,
            }),
            status.devices@.len() == 0,
            status.session.lifecycle == SessionLifecycle::Idle,
            status.settings.quality == 80,
            status.settings.refresh_cap_hz == 120,
            status.settings.keyframe_interval == 60,
            status.settings.codec@ == "H.264 High"@,
            status.settings.input_mode@ == "Touch + Pen"@,
    {
        AppStatus {
            protocol_version: PROTOCOL_VERSION,
            driver: DriverStatus { installed: false, active: false },
            transport: TransportStatus {
                tcp_listening: true,
                tcp_connections: 0,
                aoap_attached: false,
            },
            settings: HostSettings::default(),
            devices: Vec::new(),
            session: SessionOverview { lifecycle: SessionLifecycle::Idle },
        }
    }
}

} // verus!
