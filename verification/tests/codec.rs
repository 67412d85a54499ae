use uberdisplay_pc::codec::{
    codec_from_wire_id, codec_id_from_name, codec_mask, codec_name, codec_wire_id,
    host_codec_mask, select_codec, CodecId, HostPlatform, CODEC_MASK_AV1, CODEC_MASK_H264,
    CODEC_MASK_H265, CODEC_MASK_H266, CODEC_MASK_VP9,
};

const ALL: [CodecId; 5] = [CodecId::H264, CodecId::H265, CodecId::Av1, CodecId::Vp9, CodecId::H266];

#[test]
fn canonical_names_resolve() {
    assert_eq!(codec_id_from_name("h.264"), Some(CodecId::H264));
    assert_eq!(codec_id_from_name("h.264 high"), Some(CodecId::H264));
    assert_eq!(codec_id_from_name("h264"), Some(CodecId::H264));
    assert_eq!(codec_id_from_name("h.265"), Some(CodecId::H265));
    assert_eq!(codec_id_from_name("h.265 hevc"), Some(CodecId::H265));
    assert_eq!(codec_id_from_name("hevc"), Some(CodecId::H265));
    assert_eq!(codec_id_from_name("h265"), Some(CodecId::H265));
    assert_eq!(codec_id_from_name("av1"), Some(CodecId::Av1));
    assert_eq!(codec_id_from_name("vp9"), Some(CodecId::Vp9));
    assert_eq!(codec_id_from_name("h.266"), Some(CodecId::H266));
    assert_eq!(codec_id_from_name("h266"), Some(CodecId::H266));
}

#[test]
fn names_are_trimmed_and_case_blind() {
    assert_eq!(codec_id_from_name("  H.264 High \t\n"), Some(CodecId::H264));
    assert_eq!(codec_id_from_name("HEVC"), Some(CodecId::H265));
    assert_eq!(codec_id_from_name("\u{2003}Av1\u{a0}"), Some(CodecId::Av1));
    assert_eq!(codec_id_from_name("\r\nVP9"), Some(CodecId::Vp9));
    assert_eq!(codec_id_from_name("H.266\u{3000}"), Some(CodecId::H266));
}

#[test]
fn other_names_resolve_to_nothing() {
    assert_eq!(codec_id_from_name(""), None);
    assert_eq!(codec_id_from_name("   "), None);
    assert_eq!(codec_id_from_name("h.264high"), None);
    assert_eq!(codec_id_from_name("h 264"), None);
    assert_eq!(codec_id_from_name("mpeg2"), None);
    assert_eq!(codec_id_from_name("h.265  hevc"), None);
    assert_eq!(codec_id_from_name("\u{0}av1"), None);
    assert_eq!(codec_id_from_name("ａｖ１"), None);
}

#[test]
fn display_names_resolve_back() {
    assert_eq!(codec_name(CodecId::H264), "H.264");
    assert_eq!(codec_name(CodecId::H265), "H.265 HEVC");
    assert_eq!(codec_name(CodecId::Av1), "AV1");
    assert_eq!(codec_name(CodecId::Vp9), "VP9");
    assert_eq!(codec_name(CodecId::H266), "H.266");
    for codec in ALL {
        assert_eq!(codec_id_from_name(codec_name(codec)), Some(codec));
    }
}

#[test]
fn masks_and_wire_ids_are_stable() {
    assert_eq!(codec_mask(CodecId::H264), 1);
    assert_eq!(codec_mask(CodecId::H265), 2);
    assert_eq!(codec_mask(CodecId::Av1), 4);
    assert_eq!(codec_mask(CodecId::Vp9), 8);
    assert_eq!(codec_mask(CodecId::H266), 16);
    assert_eq!(CODEC_MASK_H264 | CODEC_MASK_H265 | CODEC_MASK_AV1 | CODEC_MASK_VP9, 15);
    assert_eq!(CODEC_MASK_H266, 16);
    for (index, codec) in ALL.iter().enumerate() {
        assert_eq!(codec_wire_id(*codec), index as u8 + 1);
        assert_eq!(codec_from_wire_id(index as u8 + 1), Some(*codec));
    }
    assert_eq!(codec_from_wire_id(0), None);
    assert_eq!(codec_from_wire_id(6), None);
    assert_eq!(codec_from_wire_id(255), None);
}

#[test]
fn host_mask_depends_on_the_platform() {
    assert_eq!(host_codec_mask(HostPlatform::Windows), 0b1111);
    assert_eq!(host_codec_mask(HostPlatform::Linux), 0b0001);
    assert_eq!(host_codec_mask(HostPlatform::Other), 0b0001);
}

#[test]
fn negotiation_tie_break_takes_av1() {
    let host = CODEC_MASK_H264 | CODEC_MASK_H265 | CODEC_MASK_AV1;
    let client = CODEC_MASK_H264 | CODEC_MASK_AV1;
    assert_eq!(select_codec(host, client, Some(CodecId::H265)), Some(CodecId::Av1));
}

#[test]
fn negotiation_prefers_the_preferred_codec() {
    assert_eq!(select_codec(15, 15, Some(CodecId::Vp9)), Some(CodecId::Vp9));
    assert_eq!(select_codec(15, 15, Some(CodecId::H264)), Some(CodecId::H264));
    assert_eq!(select_codec(31, 31, Some(CodecId::H266)), Some(CodecId::H266));
    assert_eq!(select_codec(15, 15, None), Some(CodecId::H265));
    assert_eq!(select_codec(15, 13, None), Some(CodecId::Av1));
    assert_eq!(select_codec(15, 9, None), Some(CodecId::H264));
    assert_eq!(select_codec(15, 8, None), Some(CodecId::Vp9));
}

#[test]
fn negotiation_fails_without_a_common_codec() {
    assert_eq!(select_codec(0, 0, None), None);
    assert_eq!(select_codec(1, 2, Some(CodecId::H264)), None);
    assert_eq!(select_codec(15, 0, Some(CodecId::H265)), None);
    assert_eq!(select_codec(15, 0xFFFF_FFF0, None), None);
}

#[test]
fn h266_is_taken_only_when_preferred() {
    assert_eq!(select_codec(16, 16, None), None);
    assert_eq!(select_codec(16, 16, Some(CodecId::H264)), None);
    assert_eq!(select_codec(16, 16, Some(CodecId::H266)), Some(CodecId::H266));
    assert_eq!(select_codec(17, 17, None), Some(CodecId::H264));
}

#[test]
fn negotiation_agrees_with_its_rule_on_every_small_mask() {
    let priority = [CodecId::H265, CodecId::Av1, CodecId::H264, CodecId::Vp9];
    let mut preferences: Vec<Option<CodecId>> = vec![None];
    preferences.extend(ALL.iter().map(|codec| Some(*codec)));
    for host in 0u32..64 {
        for client in 0u32..64 {
            for preferred in &preferences {
                let available = host & client;
                let expected = match preferred {
                    Some(codec) if available & codec_mask(*codec) != 0 => Some(*codec),
                    _ => priority.iter().copied().find(|codec| available & codec_mask(*codec) != 0),
                };
                let chosen = select_codec(host, client, *preferred);
                assert_eq!(chosen, expected);
                if let Some(codec) = chosen {
                    assert_ne!(available & codec_mask(codec), 0);
                }
                if available == 0 {
                    assert_eq!(chosen, None);
                }
                if available & 15 != 0 {
                    assert!(chosen.is_some());
                }
            }
        }
    }
}
