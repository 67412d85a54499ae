use uberdisplay_pc::codec::{CodecId, HostPlatform};
use uberdisplay_pc::encoder::{
    backend_name, backend_priority, detect_backends, effective_backend, has_backend,
    select_backend, select_from, EncoderBackend,
};
use uberdisplay_pc::mf_encoder::{
    estimate_timestamp_100ns, frame_duration_100ns, nv12_buffer_len, pack_pair, MfEncoder,
};

const ALL: [EncoderBackend; 5] = [
    EncoderBackend::Nvenc,
    EncoderBackend::Amf,
    EncoderBackend::Qsv,
    EncoderBackend::MediaFoundation,
    EncoderBackend::Software,
];

#[test]
fn backends_follow_the_platform() {
    assert_eq!(detect_backends(HostPlatform::Windows), ALL.to_vec());
    assert_eq!(detect_backends(HostPlatform::Linux), vec![EncoderBackend::Software]);
    assert_eq!(detect_backends(HostPlatform::Other), vec![EncoderBackend::Software]);
    assert_eq!(backend_priority(), ALL.to_vec());
}

#[test]
fn the_preferred_backend_is_taken_where_the_host_has_it() {
    for backend in ALL {
        assert_eq!(select_backend(HostPlatform::Windows, Some(backend)), backend);
        assert_eq!(select_backend(HostPlatform::Linux, Some(backend)), EncoderBackend::Software);
    }
    assert_eq!(select_backend(HostPlatform::Windows, None), EncoderBackend::Nvenc);
    assert_eq!(select_backend(HostPlatform::Other, None), EncoderBackend::Software);
}

#[test]
fn the_priority_decides_among_what_is_there() {
    let some = vec![EncoderBackend::Software, EncoderBackend::MediaFoundation, EncoderBackend::Qsv];
    assert_eq!(select_from(&some, None), EncoderBackend::Qsv);
    assert_eq!(select_from(&some, Some(EncoderBackend::Nvenc)), EncoderBackend::Qsv);
    assert_eq!(select_from(&some, Some(EncoderBackend::MediaFoundation)), EncoderBackend::MediaFoundation);
    assert_eq!(select_from(&vec![], None), EncoderBackend::Software);
    assert_eq!(select_from(&vec![], Some(EncoderBackend::Amf)), EncoderBackend::Software);
    assert_eq!(select_from(&vec![EncoderBackend::Amf], None), EncoderBackend::Amf);
    assert!(has_backend(&some, EncoderBackend::Qsv));
    assert!(!has_backend(&some, EncoderBackend::Amf));
}

#[test]
fn backends_have_their_names() {
    let names: Vec<&str> = ALL.iter().map(|backend| backend_name(*backend)).collect();
    assert_eq!(names, vec!["Nvenc", "Amf", "Qsv", "MediaFoundation", "Software"]);
}

#[test]
fn timestamps_count_ticks_of_100_nanoseconds() {
    assert_eq!(estimate_timestamp_100ns(0, 60), 0);
    assert_eq!(estimate_timestamp_100ns(1, 60), 166_666);
    assert_eq!(estimate_timestamp_100ns(60, 60), 9_999_960);
    assert_eq!(estimate_timestamp_100ns(3, 0), 30_000_000);
    assert_eq!(estimate_timestamp_100ns(3, 1), 30_000_000);
    assert_eq!(estimate_timestamp_100ns(7, 30), 2_333_331);
    assert_eq!(estimate_timestamp_100ns(5, 10_000_000), 5);
    assert_eq!(estimate_timestamp_100ns(5, 10_000_001), 0);
    assert_eq!(estimate_timestamp_100ns(u64::MAX, u32::MAX), 0);
    assert_eq!(estimate_timestamp_100ns(u64::MAX, 60), u64::MAX);
    assert_eq!(estimate_timestamp_100ns(u64::MAX / 166_666, 60), (u64::MAX / 166_666) * 166_666);
    assert_eq!(estimate_timestamp_100ns(u64::MAX / 166_666 + 1, 60), u64::MAX);
}

#[test]
fn timestamps_never_go_back() {
    for fps in [0u32, 1, 24, 60, 144, 10_000_000, u32::MAX] {
        let mut last = 0;
        for index in (0u64..5000).chain([u64::MAX / 2, u64::MAX - 1, u64::MAX]) {
            let timestamp = estimate_timestamp_100ns(index, fps);
            assert!(timestamp >= last);
            last = timestamp;
        }
    }
}

#[test]
fn only_h264_and_h265_can_be_encoded() {
    let encoder = MfEncoder::new(CodecId::H264, 1921, 1081, 8000, 60, 30).unwrap();
    assert_eq!(encoder.codec_id, CodecId::H264);
    assert_eq!((encoder.width, encoder.height), (1920, 1080));
    assert_eq!(encoder.bitrate_kbps, 8000);
    assert_eq!(encoder.fps, 60);
    assert_eq!(encoder.keyframe_interval, 30);
    assert_eq!(encoder.frame_index, 0);
    assert!(encoder.last_error.is_none());
    let small = MfEncoder::new(CodecId::H265, 0, -7, 1, 0, 0).unwrap();
    assert_eq!((small.width, small.height), (2, 2));
    for codec in [CodecId::Av1, CodecId::Vp9, CodecId::H266] {
        assert_eq!(
            MfEncoder::new(codec, 1920, 1080, 8000, 60, 30).unwrap_err(),
            "Media Foundation encoder supports H.264/H.265 only"
        );
    }
}

#[test]
fn dummy_frames_follow_the_budget() {
    let mut encoder = MfEncoder::new(CodecId::H264, 1920, 1080, 8000, 60, 30).unwrap();
    let (payload, timestamp) = encoder.encode_frame(None);
    assert_eq!(payload.len(), 16_666);
    assert!(payload.iter().all(|byte| *byte == 0));
    assert_eq!(timestamp, Some(166_666));
    assert_eq!(encoder.frame_index, 1);
    for index in 2u64..=61 {
        let (payload, timestamp) = encoder.encode_frame(None);
        let expected = if index % 30 == 0 { 33_332 } else { 16_666 };
        assert_eq!(payload.len(), expected);
        assert_eq!(timestamp, Some(index * 166_666));
    }
}

#[test]
fn h265_frames_take_nine_tenths() {
    let mut encoder = MfEncoder::new(CodecId::H265, 1920, 1080, 8000, 60, 2).unwrap();
    assert_eq!(encoder.encode_frame(None).0.len(), 14_999);
    assert_eq!(encoder.encode_frame(None).0.len(), 29_998);
}

#[test]
fn dummy_frames_stay_within_their_bounds() {
    let tiny = MfEncoder::new(CodecId::H264, 16, 16, 0, 60, 0).unwrap();
    assert_eq!(tiny.dummy_frame_len(1), 128);
    assert_eq!(tiny.dummy_frame_len(0), 128);
    let tiny_hevc = MfEncoder::new(CodecId::H265, 16, 16, 0, 60, 1).unwrap();
    assert_eq!(tiny_hevc.dummy_frame_len(1), 230);
    let huge = MfEncoder::new(CodecId::H264, 16, 16, u32::MAX, 0, 4).unwrap();
    assert_eq!(huge.dummy_frame_len(1), 524_288);
    assert_eq!(huge.dummy_frame_len(4), 786_432);
    assert_eq!(huge.dummy_frame_len(0), 786_432);
    let huge_hevc = MfEncoder::new(CodecId::H265, 16, 16, u32::MAX, 1, 4).unwrap();
    assert_eq!(huge_hevc.dummy_frame_len(1), 471_859);
    assert_eq!(huge_hevc.dummy_frame_len(8), 786_432);
    let edge = MfEncoder::new(CodecId::H264, 16, 16, 1024, 1000, 0).unwrap();
    assert_eq!(edge.dummy_frame_len(5), 128);
    let just = MfEncoder::new(CodecId::H264, 16, 16, 1032, 1000, 0).unwrap();
    assert_eq!(just.dummy_frame_len(5), 129);
}

#[test]
fn the_frame_index_stops_at_its_largest_value() {
    let mut encoder = MfEncoder::new(CodecId::H264, 16, 16, 8000, 60, 0).unwrap();
    encoder.frame_index = u64::MAX - 1;
    let (_, first) = encoder.encode_frame(None);
    assert_eq!(encoder.frame_index, u64::MAX);
    let (_, second) = encoder.encode_frame(None);
    assert_eq!(encoder.frame_index, u64::MAX);
    assert_eq!(first, Some(u64::MAX));
    assert_eq!(second, Some(u64::MAX));
}

#[test]
fn the_last_error_is_taken_once() {
    let mut encoder = MfEncoder::new(CodecId::H264, 16, 16, 8000, 60, 0).unwrap();
    assert_eq!(encoder.take_last_error(), None);
    encoder.record_error("MF ProcessInput failed".to_string());
    assert_eq!(encoder.take_last_error(), Some("MF ProcessInput failed".to_string()));
    assert_eq!(encoder.take_last_error(), None);
}

#[test]
fn hardware_frames_are_taken_where_they_deliver() {
    let mut encoder = MfEncoder::new(CodecId::H264, 16, 16, 8000, 60, 0).unwrap();
    encoder.record_error("earlier".to_string());
    let timestamp = encoder.begin_hardware_frame();
    assert_eq!(timestamp, 0);
    assert_eq!(encoder.frame_index, 1);
    let frame = encoder.encode_frame(Some(Ok((vec![9, 8, 7], timestamp))));
    assert_eq!(frame, (vec![9, 8, 7], Some(0)));
    assert_eq!(encoder.frame_index, 1);
    assert_eq!(encoder.last_error, None);
    assert_eq!(encoder.begin_hardware_frame(), 166_666);
}

#[test]
fn a_hardware_encoder_that_fails_gives_way_to_the_dummy_frame() {
    let mut encoder = MfEncoder::new(CodecId::H264, 16, 16, 8000, 60, 0).unwrap();
    let (payload, timestamp) = encoder.encode_frame(Some(Err("MF ProcessInput failed".to_string())));
    assert_eq!(payload, vec![0u8; 16_666]);
    assert_eq!(timestamp, Some(166_666));
    assert_eq!(encoder.take_last_error(), Some("MF ProcessInput failed".to_string()));
    encoder.record_error("kept".to_string());
    let (payload, timestamp) = encoder.encode_frame(Some(Ok((vec![], 5))));
    assert_eq!(payload.len(), 16_666);
    assert_eq!(timestamp, Some(333_332));
    assert_eq!(encoder.last_error.as_deref(), Some("kept"));
    assert_eq!(encoder.frame_index, 2);
}

#[test]
fn media_type_attributes_are_computed() {
    assert_eq!(frame_duration_100ns(60), 166_666);
    assert_eq!(frame_duration_100ns(0), 10_000_000);
    assert_eq!(frame_duration_100ns(u32::MAX), 0);
    assert_eq!(pack_pair(1920, 1080), (1920u64 << 32) | 1080);
    assert_eq!(pack_pair(u32::MAX, u32::MAX), u64::MAX);
    assert_eq!(pack_pair(0, 7), 7);
    assert_eq!(nv12_buffer_len(1920, 1080), 3_110_400);
    assert_eq!(nv12_buffer_len(0, -4), 1);
    assert_eq!(nv12_buffer_len(3, 1), 4);
    assert_eq!(nv12_buffer_len(i32::MAX, i32::MAX), 6_917_529_021_198_630_913);
}

#[test]
fn a_session_without_hardware_shows_the_software_encoder() {
    for backend in ALL {
        assert_eq!(effective_backend(backend, true), backend);
        assert_eq!(effective_backend(backend, false), EncoderBackend::Software);
    }
}
