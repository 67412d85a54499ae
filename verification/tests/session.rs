use uberdisplay_pc::app_state::{
    AppStatus, HostSettings, InputPermissions, SessionLifecycle, SessionStats,
};
use uberdisplay_pc::codec::{CodecId, HostPlatform};
use uberdisplay_pc::encoder::EncoderBackend;
use uberdisplay_pc::host::Host;
use uberdisplay_pc::host_transport::{mark_connected, on_stream_closed};
use uberdisplay_pc::session::{prepare_session, SessionConfig};
use uberdisplay_pc::session_state::{
    align_dimension, config_snapshot, lifecycle_snapshot, reset_stats, snapshot, stats_snapshot,
    update_active_device, update_backend, update_codec, update_config, update_display_target,
    update_input_permissions, update_lifecycle, update_stats, SessionGeometry, SessionState,
};
use uberdisplay_pc::stream_loop::Streamer;

fn config(client_codec_mask: u32, preferred_codec: Option<CodecId>) -> SessionConfig {
    SessionConfig {
        width: 1920,
        height: 1080,
        host_width: 2560,
        host_height: 1440,
        encoder_id: 7,
        client_codec_mask,
        preferred_codec,
    }
}

const CONFIGURE: [u8; 21] = [
    0x01, 0x80, 0x07, 0x00, 0x00, 0x38, 0x04, 0x00, 0x00, 0x00, 0x0A, 0x00, 0x00, 0xA0, 0x05, 0x00,
    0x00, 0x07, 0x00, 0x00, 0x00,
];

fn busy_stats() -> SessionStats {
    SessionStats {
        fps_tenths: 599,
        bitrate_kbps: 8000,
        frames_sent: 10,
        frames_acked: 9,
        last_frame_bytes: 1234,
        queue_depth: 1,
        dxgi_timeouts: 1,
        dxgi_access_lost: 2,
        dxgi_failures: 3,
        dxgi_last_bytes: 4,
        capture_path: "GPU".to_string(),
        capture_scale: "1:1".to_string(),
    }
}

fn assert_reset(stats: &SessionStats) {
    assert_eq!(stats.fps_tenths, 0);
    assert_eq!(stats.bitrate_kbps, 0);
    assert_eq!(stats.frames_sent, 0);
    assert_eq!(stats.frames_acked, 0);
    assert_eq!(stats.last_frame_bytes, 0);
    assert_eq!(stats.queue_depth, 0);
    assert_eq!(stats.dxgi_timeouts, 0);
    assert_eq!(stats.dxgi_access_lost, 0);
    assert_eq!(stats.dxgi_failures, 0);
    assert_eq!(stats.dxgi_last_bytes, 0);
    assert_eq!(stats.capture_path, "Unknown");
    assert_eq!(stats.capture_scale, "Unknown");
}

#[test]
fn defaults_are_as_documented() {
    let settings = HostSettings::default();
    assert_eq!(settings.codec, "H.264 High");
    assert_eq!(settings.quality, 80);
    assert_eq!(settings.refresh_cap_hz, 120);
    assert_eq!(settings.keyframe_interval, 60);
    assert_eq!(settings.input_mode, "Touch + Pen");
    assert_eq!(
        InputPermissions::default(),
        InputPermissions { enable_input: true, touch: true, pen: true, keyboard: true }
    );
    assert_reset(&SessionStats::default());
    let status = AppStatus::default();
    assert_eq!(status.protocol_version, 4);
    assert!(!status.driver.installed);
    assert!(!status.driver.active);
    assert!(status.transport.tcp_listening);
    assert_eq!(status.transport.tcp_connections, 0);
    assert!(!status.transport.aoap_attached);
    assert!(status.devices.is_empty());
    assert_eq!(status.session.lifecycle, SessionLifecycle::Idle);
    assert_eq!(status.settings.codec, "H.264 High");
}

#[test]
fn prepare_negotiates_and_builds_the_configure_packet() {
    let prepared = prepare_session(HostPlatform::Windows, config(0b0101, Some(CodecId::H265))).unwrap();
    assert_eq!(prepared.selection.codec_id, 3);
    assert_eq!(prepared.selection.codec_name, "AV1");
    assert_eq!(prepared.selection.host_mask, 15);
    assert_eq!(prepared.selection.client_mask, 5);
    assert_eq!(prepared.configure_bytes, CONFIGURE.to_vec());
    let elsewhere = prepare_session(HostPlatform::Linux, config(0b1111, Some(CodecId::H265))).unwrap();
    assert_eq!(elsewhere.selection.codec_id, 1);
    assert_eq!(elsewhere.selection.codec_name, "H.264");
    assert_eq!(elsewhere.selection.host_mask, 1);
}

#[test]
fn prepare_fails_without_a_common_codec() {
    let error = prepare_session(HostPlatform::Other, config(0b1110, None)).unwrap_err();
    assert_eq!(error, "No compatible codec found");
    let error = prepare_session(HostPlatform::Windows, config(16, None)).unwrap_err();
    assert_eq!(error, "No compatible codec found");
}

#[test]
fn dimensions_are_aligned_down_to_even() {
    assert_eq!(align_dimension(1920), 1920);
    assert_eq!(align_dimension(1921), 1920);
    assert_eq!(align_dimension(3), 2);
    assert_eq!(align_dimension(2), 2);
    assert_eq!(align_dimension(1), 2);
    assert_eq!(align_dimension(0), 2);
    assert_eq!(align_dimension(-5), 2);
    assert_eq!(align_dimension(i32::MIN), 2);
    assert_eq!(align_dimension(i32::MAX), i32::MAX - 1);
}

#[test]
fn setters_change_their_field_alone() {
    let mut state = SessionState::new();
    update_codec(&mut state, CodecId::Av1);
    update_backend(&mut state, EncoderBackend::Qsv);
    update_active_device(
        &mut state,
        Some("tablet".to_string()),
        InputPermissions { enable_input: true, touch: false, pen: true, keyboard: false },
    );
    update_config(&mut state, 800, 600, 5);
    update_display_target(&mut state, Some("\\\\.\\DISPLAY2".to_string()));
    update_stats(&mut state, busy_stats());
    let copy = snapshot(&state);
    assert_eq!(copy.lifecycle, SessionLifecycle::Idle);
    assert_eq!(copy.codec_id, Some(CodecId::Av1));
    assert_eq!(copy.encoder_backend, Some(EncoderBackend::Qsv));
    assert_eq!(copy.active_device_id.as_deref(), Some("tablet"));
    assert!(!copy.input_permissions.touch);
    assert!(copy.input_permissions.pen);
    assert_eq!(copy.display_target_id.as_deref(), Some("\\\\.\\DISPLAY2"));
    assert_eq!(config_snapshot(&state), Some(SessionGeometry { width: 800, height: 600, encoder_id: 5 }));
    assert_eq!(stats_snapshot(&state).frames_sent, 10);
    assert_eq!(copy.stats.capture_path, "GPU");
    update_input_permissions(
        &mut state,
        InputPermissions { enable_input: false, touch: true, pen: true, keyboard: true },
    );
    assert!(!state.input_permissions.enable_input);
    assert_eq!(state.active_device_id.as_deref(), Some("tablet"));
    update_active_device(&mut state, None, InputPermissions::default());
    assert_eq!(state.active_device_id, None);
    reset_stats(&mut state);
    assert_reset(&state.stats);
    assert_eq!(state.codec_id, Some(CodecId::Av1));
}

#[test]
fn leaving_streaming_clears_the_statistics() {
    for target in [SessionLifecycle::Idle, SessionLifecycle::Connecting, SessionLifecycle::Configured, SessionLifecycle::Error] {
        let mut state = SessionState::new();
        update_codec(&mut state, CodecId::H264);
        update_config(&mut state, 10, 10, 1);
        update_lifecycle(&mut state, SessionLifecycle::Streaming);
        update_stats(&mut state, busy_stats());
        update_lifecycle(&mut state, target);
        assert_eq!(lifecycle_snapshot(&state), target);
        assert_reset(&state.stats);
    }
}

#[test]
fn entering_error_clears_the_statistics() {
    let mut state = SessionState::new();
    update_lifecycle(&mut state, SessionLifecycle::Configured);
    update_stats(&mut state, busy_stats());
    update_lifecycle(&mut state, SessionLifecycle::Error);
    assert_reset(&state.stats);
}

#[test]
fn other_changes_keep_the_statistics() {
    let mut state = SessionState::new();
    update_stats(&mut state, busy_stats());
    update_lifecycle(&mut state, SessionLifecycle::Connecting);
    update_lifecycle(&mut state, SessionLifecycle::Configured);
    update_lifecycle(&mut state, SessionLifecycle::Streaming);
    update_lifecycle(&mut state, SessionLifecycle::Streaming);
    assert_eq!(state.stats.frames_sent, 10);
    assert_eq!(state.stats.queue_depth, 1);
    let mut failed = SessionState::new();
    update_lifecycle(&mut failed, SessionLifecycle::Error);
    update_stats(&mut failed, busy_stats());
    update_lifecycle(&mut failed, SessionLifecycle::Error);
    assert_eq!(failed.stats.frames_sent, 10);
}

#[test]
fn the_host_walks_through_its_lifecycle() {
    let mut host = Host::new(HostPlatform::Windows);
    let settings = HostSettings::default();
    assert_eq!(host.session.lifecycle, SessionLifecycle::Idle);
    host.begin_connect();
    assert_eq!(host.session.lifecycle, SessionLifecycle::Connecting);
    let exchange = host.connect_and_configure("10.0.0.2".to_string(), 1445, config(0b0101, Some(CodecId::H264)));
    assert_eq!(
        exchange.capabilities_wire,
        vec![0, 13, 0, 9, 0, 0, 0, 16, 15, 0, 0, 0, 0, 0, 0, 0]
    );
    let (selection, configure_wire) = exchange.outcome.unwrap();
    assert_eq!(selection.codec_id, 1);
    assert_eq!(selection.codec_name, "H.264");
    let mut expected = vec![0, 25, 0, 21, 0, 0, 0];
    expected.extend_from_slice(&CONFIGURE);
    assert_eq!(configure_wire, expected);
    assert_eq!(host.session.lifecycle, SessionLifecycle::Configured);
    assert_eq!(host.session.codec_id, Some(CodecId::H264));
    assert_eq!(host.session.encoder_backend, Some(EncoderBackend::Nvenc));
    assert_eq!(host.session.config, Some(SessionGeometry { width: 1920, height: 1080, encoder_id: 7 }));
    assert!(host.transport.connected);
    assert!(host.transport.reconnect_enabled);
    assert_eq!(host.transport.last_connect.as_ref().unwrap().host, "10.0.0.2");
    assert_eq!(host.transport.last_connect.as_ref().unwrap().port, 1445);
    assert_eq!(host.transport.last_caps, Some(vec![16, 15, 0, 0, 0, 0, 0, 0, 0]));
    assert_eq!(host.transport.last_configure, Some(CONFIGURE.to_vec()));

    let plan = host.start_session(&settings, 500).unwrap();
    assert_eq!(host.session.lifecycle, SessionLifecycle::Streaming);
    assert!(host.control.running);
    assert_eq!(plan.streamer, Some(Streamer::new(7, 120, 500)));
    assert_eq!(plan.codec_id, CodecId::H264);
    assert_eq!(plan.encoder_id, 7);
    assert_eq!((plan.width, plan.height), (1920, 1080));
    assert_eq!(plan.parameters.fps, 120);
    assert_eq!(plan.parameters.bitrate_kbps, 6400);
    assert_eq!(plan.parameters.keyframe_interval, 60);
    assert_eq!(plan.display_target_id, None);
    let again = host.start_session(&settings, 600).unwrap();
    assert_eq!(again.streamer, None);

    update_stats(&mut host.session, busy_stats());
    host.stop_session();
    assert_eq!(host.session.lifecycle, SessionLifecycle::Configured);
    assert!(!host.control.running);
    assert_reset(&host.session.stats);

    host.start_session(&settings, 700).unwrap();
    host.tcp_disconnect();
    assert_eq!(host.session.lifecycle, SessionLifecycle::Idle);
    assert!(!host.transport.connected);
    assert!(!host.transport.reconnect_enabled);
    assert!(!host.control.running);
    host.stop_session();
    assert_eq!(host.session.lifecycle, SessionLifecycle::Idle);
}

#[test]
fn a_session_cannot_start_before_it_is_configured() {
    let mut host = Host::new(HostPlatform::Windows);
    let settings = HostSettings::default();
    assert_eq!(host.start_session(&settings, 0).unwrap_err(), "No negotiated codec");
    update_codec(&mut host.session, CodecId::H264);
    assert_eq!(host.start_session(&settings, 0).unwrap_err(), "No session config");
    update_config(&mut host.session, 640, 480, 1);
    assert_eq!(host.start_session(&settings, 0).unwrap_err(), "TCP stream not connected");
    assert_eq!(host.session.lifecycle, SessionLifecycle::Idle);
    assert!(!host.control.running);
    mark_connected(&mut host.transport);
    assert!(host.start_session(&settings, 0).is_ok());
}

#[test]
fn a_failed_negotiation_puts_the_session_in_error() {
    let mut host = Host::new(HostPlatform::Linux);
    host.begin_connect();
    let exchange = host.connect_and_configure("h".to_string(), 1, config(0b1110, None));
    assert_eq!(exchange.capabilities_wire, vec![0, 13, 0, 9, 0, 0, 0, 16, 1, 0, 0, 0, 0, 0, 0, 0]);
    assert_eq!(exchange.outcome.unwrap_err(), "No compatible codec found");
    assert_eq!(host.session.lifecycle, SessionLifecycle::Error);
    assert!(host.transport.last_connect.is_none());
    let mut other = Host::new(HostPlatform::Windows);
    assert_eq!(other.prepare_session(config(0, None)).unwrap_err(), "No compatible codec found");
    assert_eq!(other.session.lifecycle, SessionLifecycle::Error);
    other.connect_failed();
    assert_eq!(other.session.lifecycle, SessionLifecycle::Error);
}

#[test]
fn prepare_records_the_session() {
    let mut host = Host::new(HostPlatform::Windows);
    let (selection, bytes) = host.prepare_session(config(0b1000, None)).unwrap();
    assert_eq!(selection.codec_id, 4);
    assert_eq!(selection.codec_name, "VP9");
    assert_eq!(bytes, CONFIGURE.to_vec());
    assert_eq!(host.session.lifecycle, SessionLifecycle::Configured);
    assert_eq!(host.session.codec_id, Some(CodecId::Vp9));
    assert_eq!(host.session.config, Some(SessionGeometry { width: 1920, height: 1080, encoder_id: 7 }));
}

#[test]
fn negotiate_uses_the_codec_of_the_settings() {
    let host = Host::new(HostPlatform::Windows);
    let mut settings = HostSettings::default();
    settings.codec = " vp9 ".to_string();
    let selection = host.negotiate_codec(&settings, 15).unwrap();
    assert_eq!(selection.codec_id, 4);
    assert_eq!(selection.codec_name, "VP9");
    assert_eq!(selection.host_mask, 15);
    assert_eq!(selection.client_mask, 15);
    settings.codec = "nonsense".to_string();
    assert_eq!(host.negotiate_codec(&settings, 15).unwrap().codec_id, 2);
    assert_eq!(host.negotiate_codec(&settings, 0).unwrap_err(), "No compatible codec found");
}

#[test]
fn polling_empties_the_mailboxes() {
    let mut host = Host::new(HostPlatform::Windows);
    host.transport.last_client_codec_mask = Some(3);
    host.transport.last_frame_done = Some(-4);
    assert_eq!(host.tcp_poll_status(), (Some(3), Some(-4)));
    assert_eq!(host.tcp_poll_status(), (None, None));
}

#[test]
fn the_snapshot_names_codec_and_backend() {
    let mut host = Host::new(HostPlatform::Windows);
    assert_eq!(host.session_state_snapshot(), (None, None));
    update_codec(&mut host.session, CodecId::H265);
    update_backend(&mut host.session, EncoderBackend::MediaFoundation);
    assert_eq!(host.session_state_snapshot(), (Some(2), Some("MediaFoundation".to_string())));
}

#[test]
fn the_display_target_has_a_label() {
    let mut host = Host::new(HostPlatform::Windows);
    assert_eq!(host.set_session_display_target(Some("DISPLAY3".to_string())), "DISPLAY3");
    assert_eq!(host.session.display_target_id.as_deref(), Some("DISPLAY3"));
    assert_eq!(host.set_session_display_target(None), "Auto");
    assert_eq!(host.session.display_target_id, None);
}

#[test]
fn a_lost_stream_leaves_a_consistent_host() {
    let mut host = Host::new(HostPlatform::Windows);
    host.connect_and_configure("h".to_string(), 1445, config(1, None));
    host.start_session(&HostSettings::default(), 0).unwrap();
    let reconnect = on_stream_closed(&mut host.transport, &mut host.control, &mut host.session);
    assert!(reconnect);
    assert_eq!(host.session.lifecycle, SessionLifecycle::Error);
    assert!(!host.transport.connected);
    assert!(!host.control.running);
    assert_reset(&host.session.stats);
}

#[test]
fn the_loop_can_report_errors_and_recovery() {
    let mut host = Host::new(HostPlatform::Windows);
    host.apply_stream_lifecycle(SessionLifecycle::Streaming);
    assert_eq!(host.session.lifecycle, SessionLifecycle::Idle);
    host.connect_and_configure("h".to_string(), 1445, config(1, None));
    host.start_session(&HostSettings::default(), 0).unwrap();
    update_stats(&mut host.session, busy_stats());
    host.apply_stream_lifecycle(SessionLifecycle::Error);
    assert_eq!(host.session.lifecycle, SessionLifecycle::Error);
    assert_reset(&host.session.stats);
    host.apply_stream_lifecycle(SessionLifecycle::Idle);
    assert_eq!(host.session.lifecycle, SessionLifecycle::Error);
    host.apply_stream_lifecycle(SessionLifecycle::Streaming);
    assert_eq!(host.session.lifecycle, SessionLifecycle::Streaming);
    host.tcp_disconnect();
    host.apply_stream_lifecycle(SessionLifecycle::Streaming);
    assert_eq!(host.session.lifecycle, SessionLifecycle::Idle);
}
