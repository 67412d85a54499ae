//! Preparing a session: negotiate the codec and build the Configure packet.

use crate::app_state::CodecSelection;
use crate::codec::{
    codec_name, codec_wire_id, default_host_mask, display_name_of, host_codec_mask, negotiated,
    select_codec, wire_id_of, CodecId, HostPlatform,
};
use crate::protocol::packets::{build_configure_packet, configure_packet, ConfigurePacket};
use vstd::prelude::*;
use vstd::string::*;

verus! {

/// What a session is to be prepared with.
#[derive(Debug, Clone, Copy, PartialEq, Eq, Structural)]
pub struct SessionConfig {
    pub width: i32,
    pub height: i32,
    pub host_width: i32,
    pub host_height: i32,
    pub encoder_id: i32,
    pub client_codec_mask: u32,
    pub preferred_codec: Option<CodecId>,
}

/// A prepared session: the negotiated codec and the Configure packet.
#[derive(Debug)]
pub struct SessionPrepareResult {
    pub selection: CodecSelection,
    pub configure_bytes: Vec<u8>,
}

/// The Configure packet that `config` asks for.
pub open spec fn configure_of(config: SessionConfig) -> ConfigurePacket {
    ConfigurePacket {
        width: config.width,
        height: config.height,
        host_width: config.host_width,
        host_height: config.host_height,
        encoder_id: config.encoder_id,
    }
}

/// Prepares a session on a host of the given platform. The codec is
/// negotiated between the host's default mask and the client's mask, with
/// the preferred codec first; where the two share no codec that can be
/// chosen, the session is refused with `No compatible codec found`.
pub fn prepare_session(platform: HostPlatform, config: SessionConfig) -> (result: Result<
    SessionPrepareResult,
    String,
>)
    ensures
        match negotiated(
            default_host_mask(platform),
            config.client_codec_mask,
            config.preferred_codec,
        ) {
            Some(codec) => {
                &&& result matches Ok(prepared)
                &&& prepared.selection.codec_id == wire_id_of(codec)
                &&& prepared.selection.codec_name@ == display_name_of(codec)
                &&& prepared.selection.host_mask == default_host_mask(platform)
                &&& prepared.selection.client_mask == config.client_codec_mask
                &&& prepared.configure_bytes@ == configure_packet(configure_of(config))
            },
            None => result matches Err(message) && message@ == "No compatible codec found"@,
        },
{
    let host_mask = host_codec_mask(platform);
    let selected = match select_codec(host_mask, config.client_codec_mask, config.preferred_codec) {
        Some(codec) => codec,
        None => {
            return Err(String::from_str("No compatible codec found"));
        },
    };
    let configure = ConfigurePacket {
        width: config.width,
        height: config.height,
        host_width: config.host_width,
        host_height: config.host_height,
        encoder_id: config.encoder_id,
    };
    Ok(
        SessionPrepareResult {
            selection: CodecSelection {
                codec_id: codec_wire_id(selected),
                codec_name: String::from_str(codec_name(selected)),
                host_mask,
                client_mask: config.client_codec_mask,
            },
            configure_bytes: build_configure_packet(configure),
        },
    )
}

} // verus!
