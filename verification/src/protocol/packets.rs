//! The typed application packets: what the host builds and what it parses
//! from the client, byte for byte.

use crate::le_bytes::{
    i16_from_le, i32_from_le, i32_le, push_i32_le, push_u32_le, read_i16_le, read_i32_le,
    read_u32_le, u32_from_le, u32_le,
};
use crate::text::{decimal, push_decimal};
use vstd::prelude::*;
use vstd::string::*;

verus! {

/// State, host to client: an opaque payload.
pub const DATA_TYPE_STATE: u8 = 0;

/// Configure, host to client.
pub const DATA_TYPE_CONFIGURE: u8 = 1;

/// Frame, host to client.
pub const DATA_TYPE_FRAME: u8 = 3;

/// FrameDone, client to host: the number this host and its client agree on.
pub const DATA_TYPE_FRAME_DONE: u8 = 4;

/// Touch, client to host.
pub const DATA_TYPE_TOUCH: u8 = 8;

/// Pen, client to host.
pub const DATA_TYPE_PEN: u8 = 9;

/// InputKey, client to host.
pub const DATA_TYPE_INPUT_KEY: u8 = 13;

/// Keyboard, client to host.
pub const DATA_TYPE_KEYBOARD: u8 = 15;

/// Capabilities, both ways: the number this host and its client agree on.
pub const DATA_TYPE_CAPABILITIES: u8 = 16;

/// Why a packet from the client could not be parsed.
#[derive(Debug, Clone, Copy, PartialEq, Eq, Structural)]
pub enum PacketError {
    /// The packet is empty, or a body of fixed size has another length.
    PayloadTooShort,
    /// A touch body whose length is not one byte and eight per point.
    TouchLengthMismatch,
    /// A data type that the host does not read.
    UnsupportedDataType(u8),
}

impl PacketError {
    /// The text that describes the error to a person; an unsupported data
    /// type is named with its number.
    pub fn message(&self) -> (text: String)
        ensures
            text@ == match *self {
                PacketError::PayloadTooShort => "packet payload too short"@,
                PacketError::TouchLengthMismatch => "touch packet length mismatch"@,
                PacketError::UnsupportedDataType(data_type) => "unsupported data type "@
                    + decimal(data_type as nat),
            },
    {
        match self {
            PacketError::PayloadTooShort => String::from_str("packet payload too short"),
            PacketError::TouchLengthMismatch => String::from_str("touch packet length mismatch"),
            PacketError::UnsupportedDataType(data_type) => {
                let mut text = String::from_str("unsupported data type ");
                push_decimal(&mut text, *data_type as u64);
                text
            },
        }
    }
}

/// The geometry of a session and the label of its encoder instance.
#[derive(Debug, Clone, Copy, PartialEq, Eq, Structural)]
pub struct ConfigurePacket {
    pub width: i32,
    pub height: i32,
    pub host_width: i32,
    pub host_height: i32,
    pub encoder_id: i32,
}

/// One compressed frame with its meta byte.
#[derive(Debug, PartialEq)]
pub struct FramePacket<'a> {
    pub frame_meta: u8,
    pub h264_bytes: &'a [u8],
}

/// The codecs one side offers, and flags.
#[derive(Debug, Clone, Copy, PartialEq, Eq, Structural)]
pub struct CapabilitiesPacket {
    pub codec_mask: u32,
    pub flags: u32,
}

/// The client's acknowledgement of a frame, by encoder instance.
#[derive(Debug, Clone, Copy, PartialEq, Eq, Structural)]
pub struct FrameDonePacket {
    pub encoder_id: i32,
}

/// One pointer of a touch packet.
#[derive(Debug, Clone, Copy, PartialEq, Eq, Structural)]
pub struct TouchPoint {
    pub pointer_id: u8,
    pub down: bool,
    pub x: i16,
    pub y: i16,
    pub size: i16,
}

/// The pointers that touch the tablet.
#[derive(Debug, PartialEq)]
pub struct TouchPacket {
    pub points: Vec<TouchPoint>,
}

/// The state of the pen.
#[derive(Debug, Clone, Copy, PartialEq, Eq, Structural)]
pub struct PenPacket {
    pub flags: u8,
    pub x: i16,
    pub y: i16,
    pub pressure: i16,
    pub rotation: i16,
    pub tilt: i16,
}

/// A key of the keyboard going down or up.
#[derive(Debug, Clone, Copy, PartialEq, Eq, Structural)]
pub struct KeyboardPacket {
    pub down: bool,
    pub key_index: i32,
}

/// A button of the tablet or the pen going down or up, with its action.
#[derive(Debug, Clone, Copy, PartialEq, Eq, Structural)]
pub struct InputKeyPacket {
    pub down: bool,
    pub button_index: u8,
    pub action: i32,
}

/// A packet that the client sends.
#[derive(Debug, PartialEq)]
pub enum ClientPacket {
    Touch(TouchPacket),
    Pen(PenPacket),
    Keyboard(KeyboardPacket),
    InputKey(InputKeyPacket),
    Capabilities(CapabilitiesPacket),
    FrameDone(FrameDonePacket),
}

/// What a client packet holds, with the touch points as a sequence.
pub enum ClientPacketView {
    Touch(Seq<TouchPoint>),
    Pen(PenPacket),
    Keyboard(KeyboardPacket),
    InputKey(InputKeyPacket),
    Capabilities(CapabilitiesPacket),
    FrameDone(FrameDonePacket),
}

impl View for TouchPacket {
    type V = Seq<TouchPoint>;

    open spec fn view(&self) -> Seq<TouchPoint> {
        self.points@
    }
}

impl View for ClientPacket {
    type V = ClientPacketView;

    open spec fn view(&self) -> ClientPacketView {
        match *self {
            ClientPacket::Touch(touch) => ClientPacketView::Touch(touch@),
            ClientPacket::Pen(pen) => ClientPacketView::Pen(pen),
            ClientPacket::Keyboard(keyboard) => ClientPacketView::Keyboard(keyboard),
            ClientPacket::InputKey(key) => ClientPacketView::InputKey(key),
            ClientPacket::Capabilities(caps) => ClientPacketView::Capabilities(caps),
            ClientPacket::FrameDone(done) => ClientPacketView::FrameDone(done),
        }
    }
}

/// A State packet: the data type 0, then the payload as it is.
pub open spec fn state_packet(payload: Seq<u8>) -> Seq<u8> {
    seq![DATA_TYPE_STATE] + payload
}

/// A Configure packet: the data type 1, then the five fields in order.
pub open spec fn configure_packet(packet: ConfigurePacket) -> Seq<u8> {
    seq![DATA_TYPE_CONFIGURE] + i32_le(packet.width) + i32_le(packet.height) + i32_le(
        packet.host_width,
    ) + i32_le(packet.host_height) + i32_le(packet.encoder_id)
}

/// A Frame packet: the data type 3, the meta byte, then the bitstream.
pub open spec fn frame_packet(frame_meta: u8, bitstream: Seq<u8>) -> Seq<u8> {
    seq![DATA_TYPE_FRAME, frame_meta] + bitstream
}

/// A Capabilities packet: its data type, the codec mask, the flags.
pub open spec fn capabilities_packet(packet: CapabilitiesPacket) -> Seq<u8> {
    seq![DATA_TYPE_CAPABILITIES] + u32_le(packet.codec_mask) + u32_le(packet.flags)
}

/// The touch point number `index` of a touch body.
pub open spec fn touch_point_at(payload: Seq<u8>, index: int) -> TouchPoint {
    let at = 1 + 8 * index;
    TouchPoint {
        pointer_id: payload[at],
        down: payload[at + 1] != 0,
        x: i16_from_le(payload[at + 2], payload[at + 3]),
        y: i16_from_le(payload[at + 4], payload[at + 5]),
        size: i16_from_le(payload[at + 6], payload[at + 7]),
    }
}

/// What a touch body parses to: a count byte, then eight bytes per point.
pub open spec fn parsed_touch(payload: Seq<u8>) -> Result<Seq<TouchPoint>, PacketError> {
    if payload.len() == 0 {
        Err(PacketError::PayloadTooShort)
    } else if payload.len() != 1 + 8 * payload[0] {
        Err(PacketError::TouchLengthMismatch)
    } else {
        Ok(Seq::new(payload[0] as nat, |index: int| touch_point_at(payload, index)))
    }
}

/// What a pen body parses to: exactly eleven bytes.
pub open spec fn parsed_pen(payload: Seq<u8>) -> Result<PenPacket, PacketError> {
    if payload.len() != 11 {
        Err(PacketError::PayloadTooShort)
    } else {
        Ok(
            PenPacket {
                flags: payload[0],
                x: i16_from_le(payload[1], payload[2]),
                y: i16_from_le(payload[3], payload[4]),
                pressure: i16_from_le(payload[5], payload[6]),
                rotation: i16_from_le(payload[7], payload[8]),
                tilt: i16_from_le(payload[9], payload[10]),
            },
        )
    }
}

/// What a keyboard body parses to: exactly five bytes.
pub open spec fn parsed_keyboard(payload: Seq<u8>) -> Result<KeyboardPacket, PacketError> {
    if payload.len() != 5 {
        Err(PacketError::PayloadTooShort)
    } else {
        Ok(
            KeyboardPacket {
                down: payload[0] != 0,
                key_index: i32_from_le(payload[1], payload[2], payload[3], payload[4]),
            },
        )
    }
}

/// What an input key body parses to: exactly six bytes.
pub open spec fn parsed_input_key(payload: Seq<u8>) -> Result<InputKeyPacket, PacketError> {
    if payload.len() != 6 {
        Err(PacketError::PayloadTooShort)
    } else {
        Ok(
            InputKeyPacket {
                down: payload[0] != 0,
                button_index: payload[1],
                action: i32_from_le(payload[2], payload[3], payload[4], payload[5]),
            },
        )
    }
}

/// What a capabilities body parses to: exactly eight bytes.
pub open spec fn parsed_capabilities(payload: Seq<u8>) -> Result<CapabilitiesPacket, PacketError> {
    if payload.len() != 8 {
        Err(PacketError::PayloadTooShort)
    } else {
        Ok(
            CapabilitiesPacket {
                codec_mask: u32_from_le(payload[0], payload[1], payload[2], payload[3]),
                flags: u32_from_le(payload[4], payload[5], payload[6], payload[7]),
            },
        )
    }
}

/// What a frame-done body parses to: exactly four bytes.
pub open spec fn parsed_frame_done(payload: Seq<u8>) -> Result<FrameDonePacket, PacketError> {
    if payload.len() != 4 {
        Err(PacketError::PayloadTooShort)
    } else {
        Ok(
            FrameDonePacket {
                encoder_id: i32_from_le(payload[0], payload[1], payload[2], payload[3]),
            },
        )
    }
}

/// What a packet from the client parses to: the first byte is the data
/// type, the rest the body of that type.
pub open spec fn parsed_client_packet(bytes: Seq<u8>) -> Result<ClientPacketView, PacketError> {
    if bytes.len() == 0 {
        Err(PacketError::PayloadTooShort)
    } else {
        let payload = bytes.subrange(1, bytes.len() as int);
        let data_type = bytes[0];
        if data_type == DATA_TYPE_TOUCH {
            match parsed_touch(payload) {
                Ok(points) => Ok(ClientPacketView::Touch(points)),
                Err(error) => Err(error),
            }
        } else if data_type == DATA_TYPE_PEN {
            match parsed_pen(payload) {
                Ok(pen) => Ok(ClientPacketView::Pen(pen)),
                Err(error) => Err(error),
            }
        } else if data_type == DATA_TYPE_INPUT_KEY {
            match parsed_input_key(payload) {
                Ok(key) => Ok(ClientPacketView::InputKey(key)),
                Err(error) => Err(error),
            }
        } else if data_type == DATA_TYPE_KEYBOARD {
            match parsed_keyboard(payload) {
                Ok(keyboard) => Ok(ClientPacketView::Keyboard(keyboard)),
                Err(error) => Err(error),
            }
        } else if data_type == DATA_TYPE_CAPABILITIES {
            match parsed_capabilities(payload) {
                Ok(caps) => Ok(ClientPacketView::Capabilities(caps)),
                Err(error) => Err(error),
            }
        } else if data_type == DATA_TYPE_FRAME_DONE {
            match parsed_frame_done(payload) {
                Ok(done) => Ok(ClientPacketView::FrameDone(done)),
                Err(error) => Err(error),
            }
        } else {
            Err(PacketError::UnsupportedDataType(data_type))
        }
    }
}

/// The view of a parse result: the packet by its view, the error as it is.
pub open spec fn client_result_view(result: Result<ClientPacket, PacketError>) -> Result<
    ClientPacketView,
    PacketError,
> {
    match result {
        Ok(packet) => Ok(packet@),
        Err(error) => Err(error),
    }
}

/// A touch body with a count byte whose length is not one byte and eight
/// per counted point is refused as a length mismatch, whatever the count.
pub proof fn lemma_touch_length_mismatch(payload: Seq<u8>)
    requires
        payload.len() >= 1,
        payload.len() != 1 + 8 * payload[0],
    ensures
        parsed_touch(payload) == Err::<Seq<TouchPoint>, PacketError>(
            PacketError::TouchLengthMismatch,
        ),
        parsed_client_packet(seq![DATA_TYPE_TOUCH] + payload) == Err::<
            ClientPacketView,
            PacketError,
        >(PacketError::TouchLengthMismatch),
{
    let bytes = seq![DATA_TYPE_TOUCH] + payload;
    assert(bytes.subrange(1, bytes.len() as int) =~= payload);
}

/// Builds a State packet around an opaque payload.
pub fn build_state_packet(payload: &[u8]) -> (buffer: Vec<u8>)
    ensures
        buffer@ == state_packet(payload@),
{
    let mut buffer: Vec<u8> = Vec::new();
    buffer.push(DATA_TYPE_STATE);
    buffer.extend_from_slice(payload);
    assert(buffer@ =~= state_packet(payload@));
    buffer
}

/// Builds a Configure packet: 21 bytes, every field little-endian.
pub fn build_configure_packet(packet: ConfigurePacket) -> (buffer: Vec<u8>)
    ensures
        buffer@ == configure_packet(packet),
        buffer@.len() == 21,
{
    let mut buffer: Vec<u8> = Vec::new();
    buffer.push(DATA_TYPE_CONFIGURE);
    push_i32_le(&mut buffer, packet.width);
    push_i32_le(&mut buffer, packet.height);
    push_i32_le(&mut buffer, packet.host_width);
    push_i32_le(&mut buffer, packet.host_height);
    push_i32_le(&mut buffer, packet.encoder_id);
    assert(buffer@ =~= configure_packet(packet));
    buffer
}

/// Builds a Frame packet around a compressed bitstream.
pub fn build_frame_packet(packet: FramePacket<'_>) -> (buffer: Vec<u8>)
    ensures
        buffer@ == frame_packet(packet.frame_meta, packet.h264_bytes@),
{
    let mut buffer: Vec<u8> = Vec::new();
    buffer.push(DATA_TYPE_FRAME);
    buffer.push(packet.frame_meta);
    buffer.extend_from_slice(packet.h264_bytes);
    assert(buffer@ =~= frame_packet(packet.frame_meta, packet.h264_bytes@));
    buffer
}

/// Builds a Capabilities packet: nine bytes.
pub fn build_capabilities_packet(packet: CapabilitiesPacket) -> (buffer: Vec<u8>)
    ensures
        buffer@ == capabilities_packet(packet),
        buffer@.len() == 9,
{
    let mut buffer: Vec<u8> = Vec::new();
    buffer.push(DATA_TYPE_CAPABILITIES);
    push_u32_le(&mut buffer, packet.codec_mask);
    push_u32_le(&mut buffer, packet.flags);
    assert(buffer@ =~= capabilities_packet(packet));
    buffer
}

/// Parses a packet from the client. An empty packet and a body of the wrong
/// fixed size give `PayloadTooShort`, a touch body of the wrong length
/// `TouchLengthMismatch`, any data type the host does not read
/// `UnsupportedDataType` with that type.
pub fn parse_client_packet(bytes: &[u8]) -> (result: Result<ClientPacket, PacketError>)
    ensures
        client_result_view(result) == parsed_client_packet(bytes@),
{
    if bytes.len() == 0 {
        return Err(PacketError::PayloadTooShort);
    }
    let data_type: u8 = bytes[0];
    let payload: &[u8] = &bytes[1..bytes.len()];
    if data_type == DATA_TYPE_TOUCH {
        match parse_touch_packet(payload) {
            Ok(touch) => Ok(ClientPacket::Touch(touch)),
            Err(error) => Err(error),
        }
    } else if data_type == DATA_TYPE_PEN {
        match parse_pen_packet(payload) {
            Ok(pen) => Ok(ClientPacket::Pen(pen)),
            Err(error) => Err(error),
        }
    } else if data_type == DATA_TYPE_INPUT_KEY {
        match parse_input_key_packet(payload) {
            Ok(key) => Ok(ClientPacket::InputKey(key)),
            Err(error) => Err(error),
        }
    } else if data_type == DATA_TYPE_KEYBOARD {
        match parse_keyboard_packet(payload) {
            Ok(keyboard) => Ok(ClientPacket::Keyboard(keyboard)),
            Err(error) => Err(error),
        }
    } else if data_type == DATA_TYPE_CAPABILITIES {
        match parse_capabilities_packet(payload) {
            Ok(caps) => Ok(ClientPacket::Capabilities(caps)),
            Err(error) => Err(error),
        }
    } else if data_type == DATA_TYPE_FRAME_DONE {
        match parse_frame_done_packet(payload) {
            Ok(done) => Ok(ClientPacket::FrameDone(done)),
            Err(error) => Err(error),
        }
    } else {
        Err(PacketError::UnsupportedDataType(data_type))
    }
}

/// Parses a touch body: a count, then eight bytes per point.
pub fn parse_touch_packet(payload: &[u8]) -> (result: Result<TouchPacket, PacketError>)
    ensures
        match result {
            Ok(touch) => parsed_touch(payload@) == Ok::<Seq<TouchPoint>, PacketError>(touch@),
            Err(error) => parsed_touch(payload@) == Err::<Seq<TouchPoint>, PacketError>(error),
        },
{
    if payload.len() == 0 {
        return Err(PacketError::PayloadTooShort);
    }
    let count: usize = payload[0] as usize;
    if payload.len() != 1 + count * 8 {
        return Err(PacketError::TouchLengthMismatch);
    }
    let mut points: Vec<TouchPoint> = Vec::new();
    let mut index: usize = 0;
    while index < count
        invariant
            index <= count,
            count == payload@[0],
            payload@.len() == 1 + 8 * count,
            points@.len() == index,
            forall|k: int| 0 <= k < index ==> points@[k] == touch_point_at(payload@, k),
        decreases count - index,
    {
        let at: usize = 1 + 8 * index;
        points.push(
            TouchPoint {
                pointer_id: payload[at],
                down: payload[at + 1] != 0,
                x: read_i16_le(payload[at + 2], payload[at + 3]),
                y: read_i16_le(payload[at + 4], payload[at + 5]),
                size: read_i16_le(payload[at + 6], payload[at + 7]),
            },
        );
        index += 1;
    }
    assert(points@ =~= Seq::new(payload@[0] as nat, |k: int| touch_point_at(payload@, k)));
    Ok(TouchPacket { points })
}

/// Parses a pen body of exactly eleven bytes.
pub fn parse_pen_packet(payload: &[u8]) -> (result: Result<PenPacket, PacketError>)
    ensures
        result == parsed_pen(payload@),
{
    if payload.len() != 11 {
        return Err(PacketError::PayloadTooShort);
    }
    Ok(
        PenPacket {
            flags: payload[0],
            x: read_i16_le(payload[1], payload[2]),
            y: read_i16_le(payload[3], payload[4]),
            pressure: read_i16_le(payload[5], payload[6]),
            rotation: read_i16_le(payload[7], payload[8]),
            tilt: read_i16_le(payload[9], payload[10]),
        },
    )
}

/// Parses a keyboard body of exactly five bytes.
pub fn parse_keyboard_packet(payload: &[u8]) -> (result: Result<KeyboardPacket, PacketError>)
    ensures
        result == parsed_keyboard(payload@),
{
    if payload.len() != 5 {
        return Err(PacketError::PayloadTooShort);
    }
    Ok(
        KeyboardPacket {
            down: payload[0] != 0,
            key_index: read_i32_le(payload[1], payload[2], payload[3], payload[4]),
        },
    )
}

/// Parses an input key body of exactly six bytes.
pub fn parse_input_key_packet(payload: &[u8]) -> (result: Result<InputKeyPacket, PacketError>)
    ensures
        result == parsed_input_key(payload@),
{
    if payload.len() != 6 {
        return Err(PacketError::PayloadTooShort);
    }
    Ok(
        InputKeyPacket {
            down: payload[0] != 0,
            button_index: payload[1],
            action: read_i32_le(payload[2], payload[3], payload[4], payload[5]),
        },
    )
}

/// Parses a capabilities body of exactly eight bytes.
pub fn parse_capabilities_packet(payload: &[u8]) -> (result: Result<
    CapabilitiesPacket,
    PacketError,
>)
    ensures
        result == parsed_capabilities(payload@),
{
    if payload.len() != 8 {
        return Err(PacketError::PayloadTooShort);
    }
    Ok(
        CapabilitiesPacket {
            codec_mask: read_u32_le(payload[0], payload[1], payload[2], payload[3]),
            flags: read_u32_le(payload[4], payload[5], payload[6], payload[7]),
        },
    )
}

/// Parses a frame-done body of exactly four bytes.
pub fn parse_frame_done_packet(payload: &[u8]) -> (result: Result<FrameDonePacket, PacketError>)
    ensures
        result == parsed_frame_done(payload@),
{
    if payload.len() != 4 {
        return Err(PacketError::PayloadTooShort);
    }
    Ok(
        FrameDonePacket {
            encoder_id: read_i32_le(payload[0], payload[1], payload[2], payload[3]),
        },
    )
}

} // verus!
