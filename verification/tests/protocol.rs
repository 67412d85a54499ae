use uberdisplay_pc::le_bytes::{
    push_i32_le, push_u16_le, push_u32_le, read_i16_le, read_i32_le, read_u16_le, read_u32_le,
};
use uberdisplay_pc::protocol::framing::{
    encode_stream_packet, write_stream_chunks, MAX_STREAM_CHUNK_LEN,
};
use uberdisplay_pc::protocol::handshake::{build_host_handshake, HandshakeError};
use uberdisplay_pc::protocol::packets::{
    build_capabilities_packet, build_configure_packet, build_frame_packet, build_state_packet,
    parse_client_packet, CapabilitiesPacket, ClientPacket, ConfigurePacket, FrameDonePacket,
    FramePacket, InputKeyPacket, KeyboardPacket, PacketError, PenPacket, TouchPoint,
};

fn with_type(data_type: u8, payload: &[u8]) -> Vec<u8> {
    [data_type].iter().chain(payload.iter()).copied().collect::<Vec<_>>()
}

#[test]
fn encodes_stream_packet_with_length_prefix() {
    let packet = encode_stream_packet(3, &[1, 2, 3]);
    assert_eq!(packet[0..4], 4u32.to_le_bytes());
    assert_eq!(packet[4], 3);
    assert_eq!(&packet[5..], &[1, 2, 3]);
}

#[test]
fn splits_packets_into_multiple_chunks() {
    let packet = vec![0u8; MAX_STREAM_CHUNK_LEN + 10];
    let mut out = Vec::new();
    write_stream_chunks(2, &packet, &mut out);

    let first_len = u16::from_le_bytes([out[1], out[2]]) as usize;
    assert_eq!(out[0], 2);
    assert_eq!(first_len, MAX_STREAM_CHUNK_LEN);
    let second_offset = 1 + 2 + first_len;
    assert_eq!(out[second_offset], 2);
    let second_len = u16::from_le_bytes([out[second_offset + 1], out[second_offset + 2]]) as usize;
    assert_eq!(second_len, 10);
}

#[test]
fn builds_handshake_with_null_terminator() {
    let bytes = build_host_handshake(4).expect("valid version");
    assert_eq!(bytes, b"KELOCUBE_MIRR_004\0");
}

#[test]
fn rejects_versions_out_of_range() {
    let err = build_host_handshake(1000).expect_err("should fail");
    assert!(matches!(err, HandshakeError::VersionOutOfRange));
}

#[test]
fn builds_configure_packet() {
    let packet = build_configure_packet(ConfigurePacket {
        width: 1920,
        height: 1080,
        host_width: 2560,
        host_height: 1440,
        encoder_id: 7,
    });

    assert_eq!(packet[0], 1);
    assert_eq!(i32::from_le_bytes(packet[1..5].try_into().unwrap()), 1920);
    assert_eq!(i32::from_le_bytes(packet[5..9].try_into().unwrap()), 1080);
    assert_eq!(i32::from_le_bytes(packet[9..13].try_into().unwrap()), 2560);
    assert_eq!(i32::from_le_bytes(packet[13..17].try_into().unwrap()), 1440);
    assert_eq!(i32::from_le_bytes(packet[17..21].try_into().unwrap()), 7);
}

#[test]
fn builds_frame_packet_with_meta() {
    let packet = build_frame_packet(FramePacket {
        frame_meta: 2,
        h264_bytes: &[0x01, 0x02],
    });

    assert_eq!(packet, vec![3, 2, 0x01, 0x02]);
}

#[test]
fn parses_touch_packet() {
    let payload = [
        2u8,
        1, 1, 10, 0, 20, 0, 30, 0,
        2, 0, 40, 0, 50, 0, 60, 0,
    ];
    let packet = parse_client_packet(&with_type(8, &payload)).unwrap();

    match packet {
        ClientPacket::Touch(touch) => {
            assert_eq!(touch.points.len(), 2);
            assert_eq!(touch.points[0].pointer_id, 1);
            assert_eq!(touch.points[1].down, false);
        }
        _ => panic!("unexpected packet"),
    }
}

#[test]
fn parses_pen_packet() {
    let payload = [1u8, 10, 0, 11, 0, 12, 0, 13, 0, 14, 0];
    let packet = parse_client_packet(&with_type(9, &payload)).unwrap();

    match packet {
        ClientPacket::Pen(pen) => {
            assert_eq!(pen.flags, 1);
            assert_eq!(pen.pressure, 12);
        }
        _ => panic!("unexpected packet"),
    }
}

#[test]
fn parses_keyboard_packet() {
    let payload = [1u8, 5, 0, 0, 0];
    let packet = parse_client_packet(&with_type(15, &payload)).unwrap();

    assert_eq!(packet, ClientPacket::Keyboard(KeyboardPacket { down: true, key_index: 5 }));
}

#[test]
fn parses_input_key_packet() {
    let payload = [1u8, 2, 9, 0, 0, 0];
    let packet = parse_client_packet(&with_type(13, &payload)).unwrap();

    assert_eq!(
        packet,
        ClientPacket::InputKey(InputKeyPacket {
            down: true,
            button_index: 2,
            action: 9,
        })
    );
}

#[test]
fn handshake_bytes_are_exact() {
    let bytes = build_host_handshake(4).unwrap();
    assert_eq!(
        bytes,
        vec![
            0x4B, 0x45, 0x4C, 0x4F, 0x43, 0x55, 0x42, 0x45, 0x5F, 0x4D, 0x49, 0x52, 0x52, 0x5F,
            0x30, 0x30, 0x34, 0x00
        ]
    );
}

#[test]
fn handshake_pads_every_version_to_three_digits() {
    assert_eq!(build_host_handshake(0).unwrap(), b"KELOCUBE_MIRR_000\0");
    assert_eq!(build_host_handshake(42).unwrap(), b"KELOCUBE_MIRR_042\0");
    assert_eq!(build_host_handshake(999).unwrap(), b"KELOCUBE_MIRR_999\0");
    for version in 0u16..=999 {
        let expected = format!("KELOCUBE_MIRR_{:03}\0", version);
        assert_eq!(build_host_handshake(version).unwrap(), expected.as_bytes());
    }
    assert!(build_host_handshake(u16::MAX).is_err());
}

#[test]
fn handshake_error_has_its_message() {
    assert_eq!(
        HandshakeError::VersionOutOfRange.message(),
        "handshake version must be between 0 and 999"
    );
}

#[test]
fn configure_packet_bytes_are_exact() {
    let packet = build_configure_packet(ConfigurePacket {
        width: 1920,
        height: 1080,
        host_width: 2560,
        host_height: 1440,
        encoder_id: 7,
    });
    assert_eq!(
        packet,
        vec![
            0x01, 0x80, 0x07, 0x00, 0x00, 0x38, 0x04, 0x00, 0x00, 0x00, 0x0A, 0x00, 0x00, 0xA0,
            0x05, 0x00, 0x00, 0x07, 0x00, 0x00, 0x00
        ]
    );
}

#[test]
fn configure_packet_encodes_negative_fields() {
    let packet = build_configure_packet(ConfigurePacket {
        width: -1,
        height: i32::MIN,
        host_width: i32::MAX,
        host_height: -256,
        encoder_id: 0,
    });
    assert_eq!(&packet[1..5], &(-1i32).to_le_bytes());
    assert_eq!(&packet[5..9], &i32::MIN.to_le_bytes());
    assert_eq!(&packet[9..13], &i32::MAX.to_le_bytes());
    assert_eq!(&packet[13..17], &(-256i32).to_le_bytes());
    assert_eq!(&packet[17..21], &0i32.to_le_bytes());
}

#[test]
fn state_packet_keeps_its_payload() {
    assert_eq!(build_state_packet(&[9, 8, 7]), vec![0, 9, 8, 7]);
    assert_eq!(build_state_packet(&[]), vec![0]);
}

#[test]
fn capabilities_packet_round_trips() {
    let caps = CapabilitiesPacket { codec_mask: 0x0000_000F, flags: 0x8000_0001 };
    let bytes = build_capabilities_packet(caps);
    assert_eq!(bytes, vec![16, 0x0F, 0, 0, 0, 0x01, 0, 0, 0x80]);
    assert_eq!(parse_client_packet(&bytes).unwrap(), ClientPacket::Capabilities(caps));
}

#[test]
fn parses_frame_done() {
    let bytes = with_type(4, &7i32.to_le_bytes());
    assert_eq!(
        parse_client_packet(&bytes).unwrap(),
        ClientPacket::FrameDone(FrameDonePacket { encoder_id: 7 })
    );
    let negative = with_type(4, &(-2i32).to_le_bytes());
    assert_eq!(
        parse_client_packet(&negative).unwrap(),
        ClientPacket::FrameDone(FrameDonePacket { encoder_id: -2 })
    );
    assert_eq!(parse_client_packet(&[4, 1, 2, 3]), Err(PacketError::PayloadTooShort));
}

#[test]
fn touch_round_trip_gives_both_points() {
    let bytes = [
        0x08, 0x02, 0x01, 0x01, 0x0A, 0x00, 0x14, 0x00, 0x1E, 0x00, 0x02, 0x00, 0x28, 0x00, 0x32,
        0x00, 0x3C, 0x00,
    ];
    match parse_client_packet(&bytes).unwrap() {
        ClientPacket::Touch(touch) => {
            assert_eq!(
                touch.points,
                vec![
                    TouchPoint { pointer_id: 1, down: true, x: 10, y: 20, size: 30 },
                    TouchPoint { pointer_id: 2, down: false, x: 40, y: 50, size: 60 },
                ]
            );
        }
        other => panic!("unexpected packet {:?}", other),
    }
}

#[test]
fn touch_reads_negative_coordinates() {
    let bytes = [8u8, 1, 3, 7, 0xFF, 0xFF, 0x00, 0x80, 0xFE, 0x7F];
    match parse_client_packet(&bytes).unwrap() {
        ClientPacket::Touch(touch) => {
            assert_eq!(
                touch.points,
                vec![TouchPoint { pointer_id: 3, down: true, x: -1, y: i16::MIN, size: 32766 }]
            );
        }
        other => panic!("unexpected packet {:?}", other),
    }
}

#[test]
fn touch_with_wrong_length_is_a_mismatch() {
    for count in 0u8..=255 {
        let right = 8 * count as usize;
        for len in [0usize, 1, 7, 8, 9, right + 1, right + 8] {
            if len == right {
                continue;
            }
            let mut bytes = vec![8u8, count];
            bytes.extend(std::iter::repeat(0u8).take(len));
            assert_eq!(parse_client_packet(&bytes), Err(PacketError::TouchLengthMismatch));
        }
        if count > 0 {
            let mut short = vec![8u8, count];
            short.extend(std::iter::repeat(0u8).take(right - 1));
            assert_eq!(parse_client_packet(&short), Err(PacketError::TouchLengthMismatch));
        }
    }
    assert_eq!(parse_client_packet(&[8]), Err(PacketError::PayloadTooShort));
    match parse_client_packet(&[8, 0]).unwrap() {
        ClientPacket::Touch(touch) => assert!(touch.points.is_empty()),
        other => panic!("unexpected packet {:?}", other),
    }
}

#[test]
fn fixed_bodies_of_wrong_length_are_too_short() {
    assert_eq!(parse_client_packet(&[]), Err(PacketError::PayloadTooShort));
    assert_eq!(parse_client_packet(&with_type(9, &[0; 10])), Err(PacketError::PayloadTooShort));
    assert_eq!(parse_client_packet(&with_type(9, &[0; 12])), Err(PacketError::PayloadTooShort));
    assert_eq!(parse_client_packet(&with_type(13, &[0; 5])), Err(PacketError::PayloadTooShort));
    assert_eq!(parse_client_packet(&with_type(13, &[0; 7])), Err(PacketError::PayloadTooShort));
    assert_eq!(parse_client_packet(&with_type(15, &[0; 4])), Err(PacketError::PayloadTooShort));
    assert_eq!(parse_client_packet(&with_type(15, &[0; 6])), Err(PacketError::PayloadTooShort));
    assert_eq!(parse_client_packet(&with_type(16, &[0; 7])), Err(PacketError::PayloadTooShort));
}

#[test]
fn unknown_data_types_are_refused_with_their_number() {
    for data_type in 0u8..=255 {
        if [4u8, 8, 9, 13, 15, 16].contains(&data_type) {
            continue;
        }
        assert_eq!(
            parse_client_packet(&with_type(data_type, &[1, 2, 3])),
            Err(PacketError::UnsupportedDataType(data_type))
        );
    }
}

#[test]
fn packet_errors_have_their_messages() {
    assert_eq!(PacketError::PayloadTooShort.message(), "packet payload too short");
    assert_eq!(PacketError::TouchLengthMismatch.message(), "touch packet length mismatch");
    assert_eq!(PacketError::UnsupportedDataType(2).message(), "unsupported data type 2");
    assert_eq!(PacketError::UnsupportedDataType(255).message(), "unsupported data type 255");
}

#[test]
fn pen_packet_reads_every_field() {
    let payload = [0x81u8, 10, 0, 11, 0, 12, 0, 0xFF, 0xFF, 14, 0];
    assert_eq!(
        parse_client_packet(&with_type(9, &payload)).unwrap(),
        ClientPacket::Pen(PenPacket {
            flags: 0x81,
            x: 10,
            y: 11,
            pressure: 12,
            rotation: -1,
            tilt: 14
        })
    );
}

#[test]
fn chunk_split_headers_and_bodies() {
    let packet: Vec<u8> = (0..65_545u32).map(|i| (i % 251) as u8).collect();
    let mut out = vec![0xAAu8];
    write_stream_chunks(2, &packet, &mut out);
    assert_eq!(out.len(), 1 + 3 + 65_535 + 3 + 10);
    assert_eq!(out[0], 0xAA);
    assert_eq!(&out[1..4], &[0x02, 0xFF, 0xFF]);
    assert_eq!(&out[4..4 + 65_535], &packet[..65_535]);
    let second = 4 + 65_535;
    assert_eq!(&out[second..second + 3], &[0x02, 0x0A, 0x00]);
    assert_eq!(&out[second + 3..], &packet[65_535..]);
}

#[test]
fn chunking_an_empty_packet_writes_nothing() {
    let mut out = vec![1u8, 2];
    write_stream_chunks(0, &[], &mut out);
    assert_eq!(out, vec![1, 2]);
}

#[test]
fn a_packet_of_exactly_one_chunk_has_one_header() {
    let packet = vec![7u8; MAX_STREAM_CHUNK_LEN];
    let mut out = Vec::new();
    write_stream_chunks(1, &packet, &mut out);
    assert_eq!(out.len(), 3 + MAX_STREAM_CHUNK_LEN);
    assert_eq!(&out[..3], &[1, 0xFF, 0xFF]);
}

#[test]
fn stream_packet_counts_the_type_byte() {
    assert_eq!(encode_stream_packet(9, &[]), vec![1, 0, 0, 0, 9]);
    let payload = vec![5u8; 300];
    let packet = encode_stream_packet(0, &payload);
    assert_eq!(&packet[..5], &[0x2D, 0x01, 0, 0, 0]);
    assert_eq!(&packet[5..], &payload[..]);
}

#[test]
fn little_endian_fields_agree_with_the_standard_library() {
    for value in [0u16, 1, 255, 256, 0x1234, 0x8000, u16::MAX] {
        let mut out = vec![0xEE];
        push_u16_le(&mut out, value);
        assert_eq!(&out[1..], &value.to_le_bytes());
        assert_eq!(read_u16_le(out[1], out[2]), value);
        assert_eq!(read_i16_le(out[1], out[2]), value as i16);
    }
    for value in [0u32, 1, 255, 256, 65_535, 65_536, 0x1234_5678, 0x8000_0000, u32::MAX] {
        let mut out = Vec::new();
        push_u32_le(&mut out, value);
        assert_eq!(out, value.to_le_bytes());
        assert_eq!(read_u32_le(out[0], out[1], out[2], out[3]), value);
        assert_eq!(read_i32_le(out[0], out[1], out[2], out[3]), value as i32);
        let mut signed = Vec::new();
        push_i32_le(&mut signed, value as i32);
        assert_eq!(signed, (value as i32).to_le_bytes());
    }
}
