//! Codec identifiers, capability masks and the negotiation between the
//! host's mask and the client's.

use crate::text::{ascii_lowercase, chars_equal, chars_of, lowercase_range, trim, trim_bounds};
use vstd::prelude::*;

verus! {

/// A video codec that the protocol can name.
#[derive(Debug, Clone, Copy, PartialEq, Eq, Structural)]
pub enum CodecId {
    H264,
    H265,
    Av1,
    Vp9,
    H266,
}

/// The kind of machine the host runs on, as far as the advertised
/// capabilities depend on it.
#[derive(Debug, Clone, Copy, PartialEq, Eq, Structural)]
pub enum HostPlatform {
    Windows,
    Linux,
    Other,
}

/// The mask bit of H.264.
pub const CODEC_MASK_H264: u32 = 1;

/// The mask bit of H.265.
pub const CODEC_MASK_H265: u32 = 2;

/// The mask bit of AV1.
pub const CODEC_MASK_AV1: u32 = 4;

/// The mask bit of VP9.
pub const CODEC_MASK_VP9: u32 = 8;

/// The mask bit of H.266.
pub const CODEC_MASK_H266: u32 = 16;

/// The stable small integer by which the wire names a codec.
pub open spec fn wire_id_of(codec: CodecId) -> u8 {
    match codec {
        CodecId::H264 => 1,
        CodecId::H265 => 2,
        CodecId::Av1 => 3,
        CodecId::Vp9 => 4,
        CodecId::H266 => 5,
    }
}

/// The single bit that stands for a codec in a capability mask.
pub open spec fn mask_bit_of(codec: CodecId) -> u32 {
    match codec {
        CodecId::H264 => CODEC_MASK_H264,
        CodecId::H265 => CODEC_MASK_H265,
        CodecId::Av1 => CODEC_MASK_AV1,
        CodecId::Vp9 => CODEC_MASK_VP9,
        CodecId::H266 => CODEC_MASK_H266,
    }
}

/// The capability mask `mask` offers `codec`.
pub open spec fn mask_has(mask: u32, codec: CodecId) -> bool {
    mask & mask_bit_of(codec) != 0
}

/// Both sides offer `codec`.
pub open spec fn offered(host_mask: u32, client_mask: u32, codec: CodecId) -> bool {
    mask_has(host_mask, codec) && mask_has(client_mask, codec)
}

/// The first codec of the fixed priority list H.265, AV1, H.264, VP9 that
/// both sides offer.
pub open spec fn first_by_priority(host_mask: u32, client_mask: u32) -> Option<CodecId> {
    if offered(host_mask, client_mask, CodecId::H265) {
        Some(CodecId::H265)
    } else if offered(host_mask, client_mask, CodecId::Av1) {
        Some(CodecId::Av1)
    } else if offered(host_mask, client_mask, CodecId::H264) {
        Some(CodecId::H264)
    } else if offered(host_mask, client_mask, CodecId::Vp9) {
        Some(CodecId::Vp9)
    } else {
        None
    }
}

/// The outcome of negotiation: the preferred codec where both sides offer
/// it, else the first common codec of the priority list, else none.
pub open spec fn negotiated(host_mask: u32, client_mask: u32, preferred: Option<CodecId>) -> Option<
    CodecId,
> {
    match preferred {
        Some(codec) if offered(host_mask, client_mask, codec) => Some(codec),
        _ => first_by_priority(host_mask, client_mask),
    }
}

/// The codec that a settings name stands for: the name is trimmed and
/// compared without regard to ASCII case.
pub open spec fn codec_of_name(name: Seq<char>) -> Option<CodecId> {
    let key = ascii_lowercase(trim(name));
    if key == "h.264"@ || key == "h.264 high"@ || key == "h264"@ {
        Some(CodecId::H264)
    } else if key == "h.265"@ || key == "h.265 hevc"@ || key == "hevc"@ || key == "h265"@ {
        Some(CodecId::H265)
    } else if key == "av1"@ {
        Some(CodecId::Av1)
    } else if key == "vp9"@ {
        Some(CodecId::Vp9)
    } else if key == "h.266"@ || key == "h266"@ {
        Some(CodecId::H266)
    } else {
        None
    }
}

/// The name under which a codec is shown.
pub open spec fn display_name_of(codec: CodecId) -> Seq<char> {
    match codec {
        CodecId::H264 => "H.264"@,
        CodecId::H265 => "H.265 HEVC"@,
        CodecId::Av1 => "AV1"@,
        CodecId::Vp9 => "VP9"@,
        CodecId::H266 => "H.266"@,
    }
}

/// The mask that a host advertises by default.
pub open spec fn default_host_mask(platform: HostPlatform) -> u32 {
    match platform {
        HostPlatform::Windows => 15,
        _ => 1,
    }
}

/// A mask offers a codec to both sides exactly when the intersection of the
/// two masks holds the codec's bit.
pub proof fn lemma_offered_is_intersection(host_mask: u32, client_mask: u32, codec: CodecId)
    ensures
        offered(host_mask, client_mask, codec) <==> mask_has(host_mask & client_mask, codec),
{
    let h = host_mask;
    let c = client_mask;
    let bit = mask_bit_of(codec);
    assert(bit == 1 || bit == 2 || bit == 4 || bit == 8 || bit == 16);
    assert((bit == 1 || bit == 2 || bit == 4 || bit == 8 || bit == 16) ==> (((h & c) & bit != 0)
        <==> (h & bit != 0 && c & bit != 0))) by (bit_vector);
}

/// Negotiation never leaves the intersection of the two masks, returns the
/// preferred codec whenever both sides offer it, and otherwise follows the
/// priority list H.265, AV1, H.264, VP9.
pub proof fn lemma_negotiation(host_mask: u32, client_mask: u32, preferred: Option<CodecId>)
    ensures
        negotiated(host_mask, client_mask, preferred) matches Some(codec) ==> mask_has(
            host_mask & client_mask,
            codec,
        ),
        preferred matches Some(codec) && mask_has(host_mask & client_mask, codec) ==> negotiated(
            host_mask,
            client_mask,
            preferred,
        ) == preferred,
        !(preferred matches Some(codec) && mask_has(host_mask & client_mask, codec)) ==> negotiated(
            host_mask,
            client_mask,
            preferred,
        ) == first_by_priority(host_mask, client_mask),
        host_mask & client_mask == 0 ==> negotiated(host_mask, client_mask, preferred) is None,
{
    lemma_offered_is_intersection(host_mask, client_mask, CodecId::H264);
    lemma_offered_is_intersection(host_mask, client_mask, CodecId::H265);
    lemma_offered_is_intersection(host_mask, client_mask, CodecId::Av1);
    lemma_offered_is_intersection(host_mask, client_mask, CodecId::Vp9);
    lemma_offered_is_intersection(host_mask, client_mask, CodecId::H266);
    let both = host_mask & client_mask;
    assert(both == 0 ==> both & 1 == 0 && both & 2 == 0 && both & 4 == 0 && both & 8 == 0 && both
        & 16 == 0) by (bit_vector);
}

/// Where the two masks share nothing but codecs of the priority list, or
/// share the preferred codec, negotiation fails exactly when they share
/// nothing at all.
pub proof fn lemma_negotiation_fails_iff_disjoint(
    host_mask: u32,
    client_mask: u32,
    preferred: Option<CodecId>,
)
    requires
        host_mask & client_mask == 0 || (host_mask & client_mask) & 15 != 0 || (
        preferred matches Some(codec) && mask_has(host_mask & client_mask, codec)),
    ensures
        negotiated(host_mask, client_mask, preferred) is None <==> host_mask & client_mask == 0,
{
    lemma_negotiation(host_mask, client_mask, preferred);
    lemma_offered_is_intersection(host_mask, client_mask, CodecId::H264);
    lemma_offered_is_intersection(host_mask, client_mask, CodecId::H265);
    lemma_offered_is_intersection(host_mask, client_mask, CodecId::Av1);
    lemma_offered_is_intersection(host_mask, client_mask, CodecId::Vp9);
    let both = host_mask & client_mask;
    assert(both & 15 != 0 ==> both & 1 != 0 || both & 2 != 0 || both & 4 != 0 || both & 8 != 0)
        by (bit_vector);
    assert(both & 15 != 0 ==> both != 0) by (bit_vector);
    if let Some(codec) = preferred {
        let bit = mask_bit_of(codec);
        assert(both & bit != 0 ==> both != 0) by (bit_vector);
    }
}

/// The codec that a settings name stands for, if it is a canonical name.
pub fn codec_id_from_name(name: &str) -> (codec: Option<CodecId>)
    ensures
        codec == codec_of_name(name@),
{
    let chars = chars_of(name);
    let (start, end) = trim_bounds(&chars);
    let key = lowercase_range(&chars, start, end);
    if chars_equal(&key, "h.264") || chars_equal(&key, "h.264 high") || chars_equal(&key, "h264") {
        Some(CodecId::H264)
    } else if chars_equal(&key, "h.265") || chars_equal(&key, "h.265 hevc") || chars_equal(
        &key,
        "hevc",
    ) || chars_equal(&key, "h265") {
        Some(CodecId::H265)
    } else if chars_equal(&key, "av1") {
        Some(CodecId::Av1)
    } else if chars_equal(&key, "vp9") {
        Some(CodecId::Vp9)
    } else if chars_equal(&key, "h.266") || chars_equal(&key, "h266") {
        Some(CodecId::H266)
    } else {
        None
    }
}

/// The name under which a codec is shown.
pub fn codec_name(codec_id: CodecId) -> (name: &'static str)
    ensures
        name@ == display_name_of(codec_id),
{
    match codec_id {
        CodecId::H264 => "H.264",
        CodecId::H265 => "H.265 HEVC",
        CodecId::Av1 => "AV1",
        CodecId::Vp9 => "VP9",
        CodecId::H266 => "H.266",
    }
}

/// The single bit that stands for a codec in a capability mask.
pub fn codec_mask(codec_id: CodecId) -> (mask: u32)
    ensures
        mask == mask_bit_of(codec_id),
{
    match codec_id {
        CodecId::H264 => CODEC_MASK_H264,
        CodecId::H265 => CODEC_MASK_H265,
        CodecId::Av1 => CODEC_MASK_AV1,
        CodecId::Vp9 => CODEC_MASK_VP9,
        CodecId::H266 => CODEC_MASK_H266,
    }
}

/// The stable small integer by which the wire names a codec.
pub fn codec_wire_id(codec_id: CodecId) -> (id: u8)
    ensures
        id == wire_id_of(codec_id),
        1 <= id <= 5,
{
    match codec_id {
        CodecId::H264 => 1,
        CodecId::H265 => 2,
        CodecId::Av1 => 3,
        CodecId::Vp9 => 4,
        CodecId::H266 => 5,
    }
}

/// The codec that the wire names by `id`, if any.
pub fn codec_from_wire_id(id: u8) -> (codec: Option<CodecId>)
    ensures
        codec matches Some(c) ==> wire_id_of(c) == id,
        codec is None <==> !(1 <= id <= 5),
{
    match id {
        1 => Some(CodecId::H264),
        2 => Some(CodecId::H265),
        3 => Some(CodecId::Av1),
        4 => Some(CodecId::Vp9),
        5 => Some(CodecId::H266),
        _ => None,
    }
}

/// The mask that a host on `platform` advertises by default: H.264, H.265,
/// AV1 and VP9 on Windows, H.264 alone elsewhere.
pub fn host_codec_mask(platform: HostPlatform) -> (mask: u32)
    ensures
        mask == default_host_mask(platform),
        mask_has(mask, CodecId::H264),
        !mask_has(mask, CodecId::H266),
        platform == HostPlatform::Windows ==> mask_has(mask, CodecId::H265) && mask_has(
            mask,
            CodecId::Av1,
        ) && mask_has(mask, CodecId::Vp9),
        platform != HostPlatform::Windows ==> !mask_has(mask, CodecId::H265) && !mask_has(
            mask,
            CodecId::Av1,
        ) && !mask_has(mask, CodecId::Vp9),
{
    assert(15u32 & 1 != 0 && 15u32 & 2 != 0 && 15u32 & 4 != 0 && 15u32 & 8 != 0 && 15u32 & 16 == 0)
        by (bit_vector);
    assert(1u32 & 1 != 0 && 1u32 & 2 == 0 && 1u32 & 4 == 0 && 1u32 & 8 == 0 && 1u32 & 16 == 0)
        by (bit_vector);
    match platform {
        HostPlatform::Windows => CODEC_MASK_H265 + CODEC_MASK_AV1 + CODEC_MASK_H264
            + CODEC_MASK_VP9,
        _ => CODEC_MASK_H264,
    }
}

/// Whether both masks offer `codec`.
fn both_offer(host_mask: u32, client_mask: u32, codec: CodecId) -> (r: bool)
    ensures
        r == offered(host_mask, client_mask, codec),
{
    proof {
        lemma_offered_is_intersection(host_mask, client_mask, codec);
    }
    (host_mask & client_mask) & codec_mask(codec) != 0
}

/// Negotiates the codec of a session from the two capability masks: the
/// preferred codec where both sides offer it, else the first common codec
/// of the priority list H.265, AV1, H.264, VP9.
pub fn select_codec(host_mask: u32, client_mask: u32, preferred: Option<CodecId>) -> (codec: Option<
    CodecId,
>)
    ensures
        codec == negotiated(host_mask, client_mask, preferred),
{
    if let Some(codec) = preferred {
        if both_offer(host_mask, client_mask, codec) {
            return Some(codec);
        }
    }
    if both_offer(host_mask, client_mask, CodecId::H265) {
        Some(CodecId::H265)
    } else if both_offer(host_mask, client_mask, CodecId::Av1) {
        Some(CodecId::Av1)
    } else if both_offer(host_mask, client_mask, CodecId::H264) {
        Some(CodecId::H264)
    } else if both_offer(host_mask, client_mask, CodecId::Vp9) {
        Some(CodecId::Vp9)
    } else {
        None
    }
}

} // verus!
