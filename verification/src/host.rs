//! The host as one value: the session registry, the transport and the
//! streaming flag, and the commands that move the session through its
//! lifecycle. Each command decides and records; the caller does the I/O
//! that the command asks for.

use crate::app_state::{CodecSelection, HostSettings, SessionLifecycle};
use crate::codec::{
    codec_from_wire_id, codec_id_from_name, codec_name, codec_of_name, codec_wire_id,
    default_host_mask, display_name_of, host_codec_mask, negotiated, select_codec, wire_id_of,
    CodecId, HostPlatform,
};
use crate::encoder::{backend_label, backend_name, backends_of, chosen_backend, select_backend};
use crate::host_transport::{
    disconnect, mark_connected, send_framed_packet, set_last_session, take_last_client_codec_mask,
    take_last_frame_done, HostTransport, CONTROL_STREAM_ID,
};
use crate::protocol::framing::{chunk_stream, framed, MAX_STREAM_CHUNK_LEN};
use crate::protocol::packets::{
    build_capabilities_packet, capabilities_packet, configure_packet, CapabilitiesPacket,
};
use crate::session::{configure_of, prepare_session, SessionConfig};
use crate::session_state::{
    aligned_dimension, align_dimension, update_backend, update_codec, update_config,
    update_display_target, update_lifecycle, SessionGeometry, SessionState,
};
use crate::settings_registry::{parameters_of, stream_parameters, StreamParameters};
use crate::stream_loop::{
    fresh_streamer, start_streaming, stop_streaming, StreamControl, Streamer,
};
use crate::text::clone_opt_text;
use vstd::prelude::*;
use vstd::string::*;

verus! {

/// The host: where it runs, its session, its transport and the flag of
/// its streaming loop.
#[derive(Debug)]
pub struct Host {
    pub platform: HostPlatform,
    pub session: SessionState,
    pub transport: HostTransport,
    pub control: StreamControl,
}

/// What the caller needs to run the streaming loop.
#[derive(Debug)]
pub struct StreamPlan {
    /// The fresh state of the loop; `None` where a loop runs already.
    pub streamer: Option<Streamer>,
    pub codec_id: CodecId,
    pub encoder_id: i32,
    pub width: i32,
    pub height: i32,
    pub parameters: StreamParameters,
    pub display_target_id: Option<String>,
}

/// What the caller writes after a connection is open, in this order: the
/// capabilities, and where negotiation succeeded the Configure packet.
#[derive(Debug)]
pub struct ConfigureExchange {
    pub capabilities_wire: Vec<u8>,
    pub outcome: Result<(CodecSelection, Vec<u8>), String>,
}

/// The wire bytes of a packet on the control stream.
pub open spec fn on_wire(packet: Seq<u8>) -> Seq<u8> {
    chunk_stream(CONTROL_STREAM_ID, framed(packet), MAX_STREAM_CHUNK_LEN as nat)
}

/// The capabilities that a host on `platform` announces.
pub open spec fn host_capabilities(platform: HostPlatform) -> CapabilitiesPacket {
    CapabilitiesPacket { codec_mask: default_host_mask(platform), flags: 0 }
}

impl Host {
    /// A session that streams has a codec, a configuration and a
    /// connected transport.
    pub open spec fn consistent(&self) -> bool {
        self.session.lifecycle == SessionLifecycle::Streaming ==> {
            &&& self.session.codec_id is Some
            &&& self.session.config is Some
            &&& self.transport.connected
        }
    }

    /// A host that has no session.
    pub fn new(platform: HostPlatform) -> (host: Host)
        ensures
            host.platform == platform,
            host.session.lifecycle == SessionLifecycle::Idle,
            !host.transport.connected,
            !host.control.running,
            host.consistent(),
    {
        Host {
            platform,
            session: SessionState::new(),
            transport: HostTransport::new(),
            control: StreamControl { running: false },
        }
    }

    /// Negotiates a codec with a client, the preferred one being the codec
    /// that the settings name.
    pub fn negotiate_codec(&self, settings: &HostSettings, client_mask: u32) -> (result: Result<
        CodecSelection,
        String,
    >)
        ensures
            match negotiated(
                default_host_mask(self.platform),
                client_mask,
                codec_of_name(settings.codec@),
            ) {
                Some(codec) => {
                    &&& result matches Ok(selection)
                    &&& selection.codec_id == wire_id_of(codec)
                    &&& selection.codec_name@ == display_name_of(codec)
                    &&& selection.host_mask == default_host_mask(self.platform)
                    &&& selection.client_mask == client_mask
                },
                None => result matches Err(message) && message@ == "No compatible codec found"@,
            },
    {
        let preferred = codec_id_from_name(settings.codec.as_str());
        let host_mask = host_codec_mask(self.platform);
        match select_codec(host_mask, client_mask, preferred) {
            Some(selected) => Ok(
                CodecSelection {
                    codec_id: codec_wire_id(selected),
                    codec_name: String::from_str(codec_name(selected)),
                    host_mask,
                    client_mask,
                },
            ),
            None => Err(String::from_str("No compatible codec found")),
        }
    }

    /// Prepares a session and records it. Where negotiation succeeds the
    /// codec and the geometry are recorded and the session is configured;
    /// where it fails the session is in error.
    pub fn prepare_session(&mut self, config: SessionConfig) -> (result: Result<
        (CodecSelection, Vec<u8>),
        String,
    >)
        ensures
            final(self).consistent(),
            final(self).platform == old(self).platform,
            final(self).transport == old(self).transport,
            final(self).control == old(self).control,
            match negotiated(
                default_host_mask(old(self).platform),
                config.client_codec_mask,
                config.preferred_codec,
            ) {
                Some(codec) => {
                    &&& result matches Ok(prepared)
                    &&& prepared.0.codec_id == wire_id_of(codec)
                    &&& prepared.0.codec_name@ == display_name_of(codec)
                    &&& prepared.0.host_mask == default_host_mask(old(self).platform)
                    &&& prepared.0.client_mask == config.client_codec_mask
                    &&& prepared.1@ == configure_packet(configure_of(config))
                    &&& SessionState::lifecycle_set(
                        SessionState {
                            codec_id: Some(codec),
                            config: Some(
                                SessionGeometry {
                                    width: config.width,
                                    height: config.height,
                                    encoder_id: config.encoder_id,
                                },
                            ),
                            ..old(self).session
                        },
                        final(self).session,
                        SessionLifecycle::Configured,
                    )
                },
                None => {
                    &&& result matches Err(message)
                    &&& message@ == "No compatible codec found"@
                    &&& SessionState::lifecycle_set(
                        old(self).session,
                        final(self).session,
                        SessionLifecycle::Error,
                    )
                },
            },
    {
        match prepare_session(self.platform, config) {
            Ok(prepared) => {
                if let Some(codec) = codec_from_wire_id(prepared.selection.codec_id) {
                    update_codec(&mut self.session, codec);
                }
                update_config(&mut self.session, config.width, config.height, config.encoder_id);
                update_lifecycle(&mut self.session, SessionLifecycle::Configured);
                Ok((prepared.selection, prepared.configure_bytes))
            },
            Err(message) => {
                update_lifecycle(&mut self.session, SessionLifecycle::Error);
                Err(message)
            },
        }
    }

    /// A connection is about to be opened: the session is connecting.
    pub fn begin_connect(&mut self)
        ensures
            final(self).consistent(),
            SessionState::lifecycle_set(
                old(self).session,
                final(self).session,
                SessionLifecycle::Connecting,
            ),
            final(self).platform == old(self).platform,
            final(self).transport == old(self).transport,
            final(self).control == old(self).control,
    {
        update_lifecycle(&mut self.session, SessionLifecycle::Connecting);
    }

    /// The connection could not be opened: the session is in error.
    pub fn connect_failed(&mut self)
        ensures
            final(self).consistent(),
            final(self).session == (SessionState {
                lifecycle: SessionLifecycle::Error,
                stats: final(self).session.stats,
                ..old(self).session
            }),
            final(self).session.stats.is_reset(),
            final(self).platform == old(self).platform,
            final(self).transport == old(self).transport,
            final(self).control == old(self).control,
    {
        update_lifecycle(&mut self.session, SessionLifecycle::Error);
        crate::session_state::reset_stats(&mut self.session);
    }

    /// The connection is open and the handshake written: the exchange that
    /// configures the session. The host's capabilities go out first. Then
    /// the codec is negotiated with the preferred codec first; where that
    /// succeeds, codec, geometry and backend are recorded, the packets and
    /// the address are remembered for a reconnect, the session is
    /// configured and the Configure packet goes out; where it fails the
    /// session is in error and nothing more goes out.
    pub fn connect_and_configure(
        &mut self,
        remote_host: String,
        port: u16,
        config: SessionConfig,
    ) -> (exchange: ConfigureExchange)
        ensures
            final(self).consistent(),
            final(self).platform == old(self).platform,
            final(self).control == old(self).control,
            final(self).transport == (HostTransport {
                connected: true,
                reconnect_enabled: true,
                last_connect: final(self).transport.last_connect,
                last_caps: final(self).transport.last_caps,
                last_configure: final(self).transport.last_configure,
                ..old(self).transport
            }),
            exchange.capabilities_wire@ == on_wire(
                capabilities_packet(host_capabilities(old(self).platform)),
            ),
            match negotiated(
                default_host_mask(old(self).platform),
                config.client_codec_mask,
                config.preferred_codec,
            ) {
                Some(codec) => {
                    &&& exchange.outcome matches Ok(configured)
                    &&& configured.0.codec_id == wire_id_of(codec)
                    &&& configured.0.codec_name@ == display_name_of(codec)
                    &&& configured.0.host_mask == default_host_mask(old(self).platform)
                    &&& configured.0.client_mask == config.client_codec_mask
                    &&& configured.1@ == on_wire(configure_packet(configure_of(config)))
                    &&& SessionState::lifecycle_set(
                        SessionState {
                            codec_id: Some(codec),
                            config: Some(
                                SessionGeometry {
                                    width: config.width,
                                    height: config.height,
                                    encoder_id: config.encoder_id,
                                },
                            ),
                            encoder_backend: Some(
                                chosen_backend(backends_of(old(self).platform), None),
                            ),
                            ..old(self).session
                        },
                        final(self).session,
                        SessionLifecycle::Configured,
                    )
                    &&& final(self).transport.last_connect matches Some(info)
                    &&& info.host@ == remote_host@
                    &&& info.port == port
                    &&& final(self).transport.last_caps matches Some(caps)
                    &&& caps@ == capabilities_packet(host_capabilities(old(self).platform))
                    &&& final(self).transport.last_configure matches Some(configure)
                    &&& configure@ == configure_packet(configure_of(config))
                },
                None => {
                    &&& exchange.outcome matches Err(message)
                    &&& message@ == "No compatible codec found"@
                    &&& SessionState::lifecycle_set(
                        old(self).session,
                        final(self).session,
                        SessionLifecycle::Error,
                    )
                    &&& final(self).transport.last_connect == old(self).transport.last_connect
                    &&& final(self).transport.last_caps == old(self).transport.last_caps
                    &&& final(self).transport.last_configure == old(self).transport.last_configure
                },
            },
    {
        mark_connected(&mut self.transport);
        let caps_packet = build_capabilities_packet(
            CapabilitiesPacket { codec_mask: host_codec_mask(self.platform), flags: 0 },
        );
        let capabilities_wire = match send_framed_packet(&self.transport, caps_packet.as_slice()) {
            Ok(wire) => wire,
            Err(_) => Vec::new(),
        };
        let prepared = match prepare_session(self.platform, config) {
            Ok(prepared) => prepared,
            Err(message) => {
                update_lifecycle(&mut self.session, SessionLifecycle::Error);
                return ConfigureExchange { capabilities_wire, outcome: Err(message) };
            },
        };
        if let Some(codec) = codec_from_wire_id(prepared.selection.codec_id) {
            update_codec(&mut self.session, codec);
        }
        update_config(&mut self.session, config.width, config.height, config.encoder_id);
        let configure_wire = match send_framed_packet(
            &self.transport,
            prepared.configure_bytes.as_slice(),
        ) {
            Ok(wire) => wire,
            Err(_) => Vec::new(),
        };
        set_last_session(
            &mut self.transport,
            remote_host,
            port,
            caps_packet,
            prepared.configure_bytes,
        );
        update_lifecycle(&mut self.session, SessionLifecycle::Configured);
        let backend = select_backend(self.platform, None);
        update_backend(&mut self.session, backend);
        ConfigureExchange { capabilities_wire, outcome: Ok((prepared.selection, configure_wire)) }
    }

    /// Disconnects on request: the transport is torn down, the streaming
    /// loop is told to stop, the statistics are cleared and the session is
    /// idle.
    pub fn tcp_disconnect(&mut self)
        ensures
            final(self).consistent(),
            final(self).platform == old(self).platform,
            final(self).session == (SessionState {
                lifecycle: SessionLifecycle::Idle,
                stats: final(self).session.stats,
                ..old(self).session
            }),
            final(self).session.stats.is_reset(),
            final(self).transport == (HostTransport {
                connected: false,
                reconnect_enabled: false,
                ..old(self).transport
            }),
            !final(self).control.running,
    {
        disconnect(&mut self.transport, &mut self.control, &mut self.session);
        update_lifecycle(&mut self.session, SessionLifecycle::Idle);
    }

    /// Empties both mailboxes and gives what they held: the client's codec
    /// mask and the last acknowledged encoder instance.
    pub fn tcp_poll_status(&mut self) -> (status: (Option<u32>, Option<i32>))
        ensures
            status.0 == old(self).transport.last_client_codec_mask,
            status.1 == old(self).transport.last_frame_done,
            final(self).transport == (HostTransport {
                last_client_codec_mask: None,
                last_frame_done: None,
                ..old(self).transport
            }),
            final(self).session == old(self).session,
            final(self).control == old(self).control,
            final(self).platform == old(self).platform,
    {
        let mask = take_last_client_codec_mask(&mut self.transport);
        let done = take_last_frame_done(&mut self.transport);
        (mask, done)
    }

    /// Starts streaming. A session without a negotiated codec, without a
    /// configuration or without a connection is refused and nothing
    /// changes. Otherwise the streaming flag is set, the session streams,
    /// and the plan names what the loop runs with: the dimensions aligned,
    /// the parameters from the settings, and a fresh loop state unless a
    /// loop runs already.
    pub fn start_session(&mut self, settings: &HostSettings, now_ms: u64) -> (result: Result<
        StreamPlan,
        String,
    >)
        ensures
            old(self).consistent() || result is Ok ==> final(self).consistent(),
            final(self).platform == old(self).platform,
            final(self).transport == old(self).transport,
            match (old(self).session.codec_id, old(self).session.config) {
                (None, _) => result matches Err(message) && message@ == "No negotiated codec"@
                    && *final(self) == *old(self),
                (Some(_), None) => result matches Err(message) && message@ == "No session config"@
                    && *final(self) == *old(self),
                (Some(codec), Some(config)) => if !old(self).transport.connected {
                    result matches Err(message) && message@ == "TCP stream not connected"@
                        && *final(self) == *old(self)
                } else {
                    &&& result matches Ok(plan)
                    &&& SessionState::lifecycle_set(
                        old(self).session,
                        final(self).session,
                        SessionLifecycle::Streaming,
                    )
                    &&& final(self).control.running
                    &&& plan.codec_id == codec
                    &&& plan.encoder_id == config.encoder_id
                    &&& plan.width == aligned_dimension(config.width)
                    &&& plan.height == aligned_dimension(config.height)
                    &&& plan.width >= 2 && plan.width % 2 == 0
                    &&& plan.height >= 2 && plan.height % 2 == 0
                    &&& plan.parameters == parameters_of(*settings)
                    &&& plan.display_target_id == old(self).session.display_target_id
                    &&& plan.streamer == (if old(self).control.running {
                        None
                    } else {
                        Some(
                            fresh_streamer(
                                config.encoder_id,
                                parameters_of(*settings).fps,
                                now_ms,
                            ),
                        )
                    })
                    &&& plan.streamer matches Some(streamer) ==> streamer.well_formed()
                },
            },
    {
        let codec_id = match self.session.codec_id {
            Some(codec_id) => codec_id,
            None => {
                return Err(String::from_str("No negotiated codec"));
            },
        };
        let config = match self.session.config {
            Some(config) => config,
            None => {
                return Err(String::from_str("No session config"));
            },
        };
        if !self.transport.connected {
            return Err(String::from_str("TCP stream not connected"));
        }
        let parameters = stream_parameters(settings);
        let streamer = start_streaming(
            &mut self.control,
            config.encoder_id,
            parameters.fps,
            now_ms,
        );
        update_lifecycle(&mut self.session, SessionLifecycle::Streaming);
        Ok(
            StreamPlan {
                streamer,
                codec_id,
                encoder_id: config.encoder_id,
                width: align_dimension(config.width),
                height: align_dimension(config.height),
                parameters,
                display_target_id: clone_opt_text(&self.session.display_target_id),
            },
        )
    }

    /// Stops streaming: the loop is told to stop, and the session is
    /// configured where the transport is connected, idle where it is not.
    /// Leaving the streaming state clears the statistics.
    pub fn stop_session(&mut self)
        ensures
            final(self).consistent(),
            final(self).platform == old(self).platform,
            final(self).transport == old(self).transport,
            !final(self).control.running,
            SessionState::lifecycle_set(
                old(self).session,
                final(self).session,
                if old(self).transport.connected {
                    SessionLifecycle::Configured
                } else {
                    SessionLifecycle::Idle
                },
            ),
    {
        stop_streaming(&mut self.control);
        let lifecycle = if self.transport.connected {
            SessionLifecycle::Configured
        } else {
            SessionLifecycle::Idle
        };
        update_lifecycle(&mut self.session, lifecycle);
    }

    /// The negotiated codec by its wire number and the encoder backend by
    /// its name, as far as the session has them.
    pub fn session_state_snapshot(&self) -> (snapshot: (Option<u8>, Option<String>))
        ensures
            match self.session.codec_id {
                Some(codec) => snapshot.0 == Some(wire_id_of(codec)),
                None => snapshot.0 is None,
            },
            match self.session.encoder_backend {
                Some(backend) => snapshot.1 matches Some(name) && name@ == backend_label(backend),
                None => snapshot.1 is None,
            },
    {
        let codec = match self.session.codec_id {
            Some(codec) => Some(codec_wire_id(codec)),
            None => None,
        };
        let backend = match self.session.encoder_backend {
            Some(backend) => Some(String::from_str(backend_name(backend))),
            None => None,
        };
        (codec, backend)
    }

    /// Sets the display that the session shows and gives the label that
    /// names the choice: the display's id, or `Auto` where none is set.
    pub fn set_session_display_target(&mut self, display_id: Option<String>) -> (label: String)
        ensures
            final(self).session == (SessionState {
                display_target_id: display_id,
                ..old(self).session
            }),
            final(self).platform == old(self).platform,
            final(self).transport == old(self).transport,
            final(self).control == old(self).control,
            label@ == (match display_id {
                Some(id) => id@,
                None => "Auto"@,
            }),
    {
        let label = match &display_id {
            Some(id) => id.clone(),
            None => String::from_str("Auto"),
        };
        update_display_target(&mut self.session, display_id);
        label
    }
}

impl Host {
    /// Takes up what the streaming loop says of the lifecycle. An error is
    /// recorded as it is. A return to streaming is recorded where the
    /// session has what streaming needs, a codec, a configuration and a
    /// connection, and passed over where it has not. Nothing else is for
    /// the loop to say, and is passed over.
    pub fn apply_stream_lifecycle(&mut self, lifecycle: SessionLifecycle)
        ensures
            old(self).consistent() ==> final(self).consistent(),
            final(self).platform == old(self).platform,
            final(self).transport == old(self).transport,
            final(self).control == old(self).control,
            if lifecycle == SessionLifecycle::Error || (lifecycle == SessionLifecycle::Streaming
                && old(self).session.codec_id is Some && old(self).session.config is Some
                && old(self).transport.connected) {
                SessionState::lifecycle_set(old(self).session, final(self).session, lifecycle)
            } else {
                final(self).session == old(self).session
            },
    {
        match lifecycle {
            SessionLifecycle::Error => {
                update_lifecycle(&mut self.session, SessionLifecycle::Error);
            },
            SessionLifecycle::Streaming => {
                if self.session.codec_id.is_some() && self.session.config.is_some()
                    && self.transport.connected {
                    update_lifecycle(&mut self.session, SessionLifecycle::Streaming);
                }
            },
            _ => {},
        }
    }
}

} // verus!
