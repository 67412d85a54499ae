//! The two framing layers: a length prefix around each application packet,
//! and stream chunks of bounded size around the framed bytes.

use crate::le_bytes::{push_u16_le, push_u32_le, u16_from_le, u16_le, u32_from_le, u32_le};
use vstd::prelude::*;

verus! {

/// The largest number of body bytes that one stream chunk carries.
pub const MAX_STREAM_CHUNK_LEN: usize = 65535;

/// The number of bytes in a chunk header: stream id and 16-bit body length.
pub const STREAM_CHUNK_HEADER_LEN: usize = 3;

/// The number of bytes in the length prefix of a framed packet.
pub const PACKET_LEN_PREFIX: usize = 4;

/// A length that the 32-bit length prefix can state.
pub open spec fn fits_length_prefix(len: nat) -> bool {
    len <= u32::MAX
}

/// The length prefix for a packet of `len` bytes. A length beyond 32 bits
/// keeps its low 32 bits only.
pub open spec fn length_prefix(len: nat) -> Seq<u8> {
    u32_le((len % 0x1_0000_0000) as u32)
}

/// A packet body behind its length prefix.
pub open spec fn framed(packet: Seq<u8>) -> Seq<u8> {
    length_prefix(packet.len()) + packet
}

/// A framed application packet: length prefix, data type, payload.
pub open spec fn stream_packet(data_type: u8, payload: Seq<u8>) -> Seq<u8> {
    framed(seq![data_type] + payload)
}

/// The number of body bytes in the first chunk cut from `remaining` bytes
/// with chunks of at most `chunk_size`.
pub open spec fn first_chunk_len(remaining: nat, chunk_size: nat) -> nat {
    if remaining < chunk_size {
        remaining
    } else {
        chunk_size
    }
}

/// One chunk on the wire: stream id, body length, body.
pub open spec fn stream_chunk(stream_id: u8, body: Seq<u8>) -> Seq<u8> {
    seq![stream_id] + u16_le(body.len() as u16) + body
}

/// The wire image of `packet` cut into chunks of at most `chunk_size` body
/// bytes on stream `stream_id`. Nothing is emitted for an empty packet.
pub open spec fn chunk_stream(stream_id: u8, packet: Seq<u8>, chunk_size: nat) -> Seq<u8>
    recommends
        1 <= chunk_size <= MAX_STREAM_CHUNK_LEN,
    decreases packet.len(),
{
    if packet.len() == 0 || chunk_size == 0 {
        Seq::empty()
    } else {
        let n = first_chunk_len(packet.len(), chunk_size) as int;
        stream_chunk(stream_id, packet.subrange(0, n)) + chunk_stream(
            stream_id,
            packet.subrange(n, packet.len() as int),
            chunk_size,
        )
    }
}

/// The low 32 bits of `len + 1`, computed without overflow.
fn length_with_type_byte(len: usize) -> (n: u32)
    ensures
        n == (len + 1) % 0x1_0000_0000,
{
    let wide: u64 = len as u64;
    (((wide % 0x1_0000_0000) + 1) % 0x1_0000_0000) as u32
}

/// Frames an application packet: a 32-bit little-endian length that counts
/// the data type byte and the payload, then the data type, then the payload.
pub fn encode_stream_packet(data_type: u8, payload: &[u8]) -> (buffer: Vec<u8>)
    ensures
        buffer@ == stream_packet(data_type, payload@),
{
    let mut buffer: Vec<u8> = Vec::new();
    push_u32_le(&mut buffer, length_with_type_byte(payload.len()));
    buffer.push(data_type);
    buffer.extend_from_slice(payload);
    assert(buffer@ =~= stream_packet(data_type, payload@));
    buffer
}

/// Appends `packet` to `out` as stream chunks of at most
/// `MAX_STREAM_CHUNK_LEN` body bytes, each behind its three-byte header.
pub fn write_stream_chunks(stream_id: u8, packet: &[u8], out: &mut Vec<u8>)
    ensures
        final(out)@ == old(out)@ + chunk_stream(stream_id, packet@, MAX_STREAM_CHUNK_LEN as nat),
{
    let mut offset: usize = 0;
    assert(packet@.subrange(0, packet@.len() as int) =~= packet@);
    while offset < packet.len()
        invariant
            offset <= packet.len(),
            old(out)@ + chunk_stream(stream_id, packet@, MAX_STREAM_CHUNK_LEN as nat) == out@
                + chunk_stream(
                stream_id,
                packet@.subrange(offset as int, packet@.len() as int),
                MAX_STREAM_CHUNK_LEN as nat,
            ),
        decreases packet.len() - offset,
    {
        let remaining: usize = packet.len() - offset;
        let chunk_len: usize = if remaining < MAX_STREAM_CHUNK_LEN {
            remaining
        } else {
            MAX_STREAM_CHUNK_LEN
        };
        let ghost rest = packet@.subrange(offset as int, packet@.len() as int);
        let ghost before = out@;
        out.push(stream_id);
        push_u16_le(out, chunk_len as u16);
        out.extend_from_slice(&packet[offset..offset + chunk_len]);
        proof {
            let body = rest.subrange(0, chunk_len as int);
            assert(packet@.subrange(offset as int, offset + chunk_len) =~= body);
            assert(out@ =~= before + stream_chunk(stream_id, body));
            assert(rest.subrange(chunk_len as int, rest.len() as int) =~= packet@.subrange(
                offset + chunk_len,
                packet@.len() as int,
            ));
        }
        offset += chunk_len;
    }
    assert(packet@.subrange(offset as int, packet@.len() as int) =~= Seq::<u8>::empty());
}

/// The position of the reassembly buffer that takes the chunks of
/// `stream_id`: stream 0 has the first, every other stream the last.
pub open spec fn stream_slot(stream_id: u8) -> int {
    if stream_id == 0 {
        0
    } else {
        1
    }
}

/// The body length that the chunk header at the front of `wire` declares.
pub open spec fn declared_chunk_len(wire: Seq<u8>) -> int {
    u16_from_le(wire[1], wire[2]) as int
}

/// A whole chunk, header and body, stands at the front of `wire`.
pub open spec fn chunk_ready(wire: Seq<u8>) -> bool {
    wire.len() >= STREAM_CHUNK_HEADER_LEN && wire.len() >= STREAM_CHUNK_HEADER_LEN
        + declared_chunk_len(wire)
}

/// The packet length that the prefix at the front of `buffer` declares.
pub open spec fn declared_packet_len(buffer: Seq<u8>) -> int {
    u32_from_le(buffer[0], buffer[1], buffer[2], buffer[3]) as int
}

/// A whole packet, prefix and body, stands at the front of `buffer`.
pub open spec fn packet_ready(buffer: Seq<u8>) -> bool {
    buffer.len() >= PACKET_LEN_PREFIX && buffer.len() >= PACKET_LEN_PREFIX + declared_packet_len(
        buffer,
    )
}

/// The packets that stand complete at the front of a reassembly buffer, in
/// order, each without its length prefix.
pub open spec fn complete_packets(buffer: Seq<u8>) -> Seq<Seq<u8>>
    decreases buffer.len(),
{
    if packet_ready(buffer) {
        let end = PACKET_LEN_PREFIX + declared_packet_len(buffer);
        seq![buffer.subrange(PACKET_LEN_PREFIX as int, end)] + complete_packets(
            buffer.subrange(end, buffer.len() as int),
        )
    } else {
        Seq::empty()
    }
}

/// What stays in a reassembly buffer once its complete packets are taken.
pub open spec fn incomplete_tail(buffer: Seq<u8>) -> Seq<u8>
    decreases buffer.len(),
{
    if packet_ready(buffer) {
        let end = PACKET_LEN_PREFIX + declared_packet_len(buffer);
        incomplete_tail(buffer.subrange(end, buffer.len() as int))
    } else {
        buffer
    }
}

/// A proper prefix of a framed packet holds no complete packet.
pub proof fn lemma_partial_frame_not_ready(packet: Seq<u8>, received: Seq<u8>)
    requires
        fits_length_prefix(packet.len()),
        received.len() < framed(packet).len(),
        received == framed(packet).subrange(0, received.len() as int),
    ensures
        !packet_ready(received),
        complete_packets(received) == Seq::<Seq<u8>>::empty(),
        incomplete_tail(received) == received,
{
    crate::le_bytes::lemma_u32_le_round_trip(packet.len() as u32);
    if received.len() >= 4 {
        assert(received[0] == framed(packet)[0]);
        assert(received[1] == framed(packet)[1]);
        assert(received[2] == framed(packet)[2]);
        assert(received[3] == framed(packet)[3]);
    }
}

/// A framed packet, received whole, yields exactly that packet.
pub proof fn lemma_whole_frame_ready(packet: Seq<u8>)
    requires
        fits_length_prefix(packet.len()),
    ensures
        packet_ready(framed(packet)),
        complete_packets(framed(packet)) == seq![packet],
        incomplete_tail(framed(packet)) == Seq::<u8>::empty(),
{
    crate::le_bytes::lemma_u32_le_round_trip(packet.len() as u32);
    let whole = framed(packet);
    assert(declared_packet_len(whole) == packet.len());
    let end = PACKET_LEN_PREFIX + declared_packet_len(whole);
    assert(whole.subrange(PACKET_LEN_PREFIX as int, end) =~= packet);
    let rest = whole.subrange(end, whole.len() as int);
    assert(rest =~= Seq::<u8>::empty());
    assert(!packet_ready(rest));
    assert(complete_packets(rest) == Seq::<Seq<u8>>::empty());
    assert(incomplete_tail(rest) == rest);
    assert(incomplete_tail(whole) == incomplete_tail(rest));
    assert(complete_packets(whole) =~= seq![packet]);
}

} // verus!
