//! The host's settings: what is accepted when they are saved, and the
//! stream parameters that follow from them.

use crate::app_state::HostSettings;
use crate::codec::{
    codec_id_from_name, codec_mask, codec_of_name, default_host_mask, host_codec_mask, mask_has,
    HostPlatform,
};
use vstd::prelude::*;
use vstd::string::*;

verus! {

/// The smallest bit rate that a session streams with, in kilobits per second.
pub const MIN_BITRATE_KBPS: u32 = 500;

/// The bit rate that one point of quality is worth, in kilobits per second.
pub const KBPS_PER_QUALITY: u32 = 80;

/// What a session streams with.
#[derive(Debug, Clone, Copy, PartialEq, Eq, Structural)]
pub struct StreamParameters {
    pub fps: u32,
    pub bitrate_kbps: u32,
    pub keyframe_interval: u32,
}

/// Whether settings can be saved on a host: their codec name is a
/// canonical one, and the host's mask offers that codec.
pub open spec fn acceptable(platform: HostPlatform, codec: Seq<char>) -> bool {
    codec_of_name(codec) matches Some(codec_id) && mask_has(default_host_mask(platform), codec_id)
}

/// The stream parameters that settings ask for: the refresh cap as the
/// frame rate and the keyframe interval, each at least one, and eighty
/// kilobits per second for every point of quality, at least five hundred.
pub open spec fn parameters_of(settings: HostSettings) -> StreamParameters {
    StreamParameters {
        fps: if settings.refresh_cap_hz == 0 {
            1
        } else {
            settings.refresh_cap_hz as u32
        },
        bitrate_kbps: if settings.quality * KBPS_PER_QUALITY < MIN_BITRATE_KBPS {
            MIN_BITRATE_KBPS
        } else {
            (settings.quality * KBPS_PER_QUALITY) as u32
        },
        keyframe_interval: if settings.keyframe_interval == 0 {
            1
        } else {
            settings.keyframe_interval as u32
        },
    }
}

/// The settings as they were read: what the store held, or the defaults
/// where the store was absent or could not be read.
pub fn load_settings(stored: Option<HostSettings>) -> (settings: HostSettings)
    ensures
        match stored {
            Some(held) => settings == held,
            None => {
                &&& settings.codec@ == "H.264 High"@
                &&& settings.quality == 80
                &&& settings.refresh_cap_hz == 120
                &&& settings.keyframe_interval == 60
                &&& settings.input_mode@ == "Touch + Pen"@
            },
        },
{
    match stored {
        Some(held) => held,
        None => HostSettings::default(),
    }
}

/// Checks settings before they are saved: a codec name that is not
/// canonical is refused as unsupported, a codec that the host's mask does
/// not offer as not available; any other settings come back to be stored.
pub fn save_settings(platform: HostPlatform, settings: HostSettings) -> (result: Result<
    HostSettings,
    String,
>)
    ensures
        match codec_of_name(settings.codec@) {
            None => result matches Err(message) && message@ == "Unsupported codec"@,
            Some(codec_id) => if mask_has(default_host_mask(platform), codec_id) {
                result == Ok::<HostSettings, String>(settings)
            } else {
                result matches Err(message) && message@ == "Codec not available on this host"@
            },
        },
        result is Ok <==> acceptable(platform, settings.codec@),
{
    let codec_id = match codec_id_from_name(settings.codec.as_str()) {
        Some(codec_id) => codec_id,
        None => {
            return Err(String::from_str("Unsupported codec"));
        },
    };
    let host_mask = host_codec_mask(platform);
    if codec_mask(codec_id) & host_mask == 0 {
        assert(!mask_has(host_mask, codec_id)) by {
            let bit = crate::codec::mask_bit_of(codec_id);
            assert(bit & host_mask == host_mask & bit) by (bit_vector);
        }
        return Err(String::from_str("Codec not available on this host"));
    }
    assert(mask_has(host_mask, codec_id)) by {
        let bit = crate::codec::mask_bit_of(codec_id);
        assert(bit & host_mask == host_mask & bit) by (bit_vector);
    }
    Ok(settings)
}

/// The stream parameters that settings ask for.
pub fn stream_parameters(settings: &HostSettings) -> (parameters: StreamParameters)
    ensures
        parameters == parameters_of(*settings),
        parameters.fps >= 1,
        parameters.keyframe_interval >= 1,
        parameters.bitrate_kbps >= MIN_BITRATE_KBPS,
{
    let fps: u32 = if settings.refresh_cap_hz == 0 {
        1
    } else {
        settings.refresh_cap_hz as u32
    };
    let by_quality: u32 = settings.quality as u32 * KBPS_PER_QUALITY;
    let bitrate_kbps: u32 = if by_quality < MIN_BITRATE_KBPS {
        MIN_BITRATE_KBPS
    } else {
        by_quality
    };
    let keyframe_interval: u32 = if settings.keyframe_interval == 0 {
        1
    } else {
        settings.keyframe_interval as u32
    };
    StreamParameters { fps, bitrate_kbps, keyframe_interval }
}

} // verus!
