//! The transport as the session sees it: what goes out framed and chunked,
//! what a reader makes of the bytes that come in, the single-slot
//! mailboxes, and the policy for reconnecting. The socket itself stays
//! outside; this module decides and the caller writes, reads and sleeps.

use crate::le_bytes::{lemma_u16_le_round_trip, push_u32_le, read_u16_le, read_u32_le};
use crate::protocol::framing::{
    chunk_ready, chunk_stream, complete_packets, declared_chunk_len, declared_packet_len,
    first_chunk_len, framed, incomplete_tail, lemma_partial_frame_not_ready,
    lemma_whole_frame_ready, fits_length_prefix, packet_ready, stream_chunk, stream_slot,
    write_stream_chunks, MAX_STREAM_CHUNK_LEN, PACKET_LEN_PREFIX, STREAM_CHUNK_HEADER_LEN,
};
use crate::app_state::{InputPermissions, SessionLifecycle};
use crate::protocol::handshake::{build_host_handshake, handshake_bytes, PROTOCOL_VERSION};
use crate::protocol::packets::{
    parse_client_packet, parsed_client_packet, ClientPacket, ClientPacketView,
    PacketError,
};
use crate::session_state::{reset_stats, update_lifecycle, SessionState};
use crate::stream_loop::{stop_streaming, StreamControl};
use crate::text::clone_bytes;
use vstd::prelude::*;
use vstd::string::*;

verus! {

/// The packets of a list, each by its bytes.
pub open spec fn packet_views(packets: Seq<Vec<u8>>) -> Seq<Seq<u8>> {
    Seq::new(packets.len(), |i: int| packets[i]@)
}

/// What a reader holds between two reads: the bytes that do not yet make a
/// whole chunk, and one reassembly buffer for stream 0 and one for the rest.
pub struct ReaderModel {
    pub pending: Seq<u8>,
    pub control: Seq<u8>,
    pub aux: Seq<u8>,
}

/// The reader of the inbound byte stream.
#[derive(Debug)]
pub struct StreamReader {
    pub pending: Vec<u8>,
    pub control: Vec<u8>,
    pub aux: Vec<u8>,
}

impl View for StreamReader {
    type V = ReaderModel;

    open spec fn view(&self) -> ReaderModel {
        ReaderModel { pending: self.pending@, control: self.control@, aux: self.aux@ }
    }
}

impl ReaderModel {
    /// The reassembly buffer for `stream_id`.
    pub open spec fn buffer_of(self, stream_id: u8) -> Seq<u8> {
        if stream_slot(stream_id) == 0 {
            self.control
        } else {
            self.aux
        }
    }

    /// The model with `buffer` in the place of the buffer for `stream_id`.
    pub open spec fn with_buffer(self, stream_id: u8, buffer: Seq<u8>) -> ReaderModel {
        if stream_slot(stream_id) == 0 {
            ReaderModel { control: buffer, ..self }
        } else {
            ReaderModel { aux: buffer, ..self }
        }
    }

    /// Takes every whole chunk from the front of the pending bytes: each
    /// body joins the buffer of its stream, and the packets that are then
    /// complete leave that buffer. Gives the reader afterwards and the
    /// packets in the order in which they became complete.
    pub open spec fn absorb(self) -> (ReaderModel, Seq<Seq<u8>>)
        decreases self.pending.len(),
    {
        if chunk_ready(self.pending) {
            let end = STREAM_CHUNK_HEADER_LEN + declared_chunk_len(self.pending);
            let stream_id = self.pending[0];
            let joined = self.buffer_of(stream_id) + self.pending.subrange(
                STREAM_CHUNK_HEADER_LEN as int,
                end,
            );
            let next = ReaderModel {
                pending: self.pending.subrange(end, self.pending.len() as int),
                ..self.with_buffer(stream_id, incomplete_tail(joined))
            };
            let (last, more) = next.absorb();
            (last, complete_packets(joined) + more)
        } else {
            (self, Seq::empty())
        }
    }

    /// The reader after `bytes` arrived, and the packets they completed.
    pub open spec fn fed(self, bytes: Seq<u8>) -> (ReaderModel, Seq<Seq<u8>>) {
        (ReaderModel { pending: self.pending + bytes, ..self }).absorb()
    }
}

/// The views of two lists, one after the other, are the views of the joined list.
pub proof fn lemma_packet_views_concat(a: Seq<Vec<u8>>, b: Seq<Vec<u8>>)
    ensures
        packet_views(a + b) == packet_views(a) + packet_views(b),
{
    assert(packet_views(a + b) =~= packet_views(a) + packet_views(b));
}

/// Takes the complete packets from the front of a reassembly buffer: each
/// stands behind a 32-bit little-endian length. What is left in the buffer
/// is the incomplete tail.
pub fn parse_stream_buffer(buffer: &mut Vec<u8>) -> (packets: Vec<Vec<u8>>)
    ensures
        packet_views(packets@) == complete_packets(old(buffer)@),
        final(buffer)@ == incomplete_tail(old(buffer)@),
{
    let mut packets: Vec<Vec<u8>> = Vec::new();
    let mut offset: usize = 0;
    let total: usize = buffer.len();
    assert(buffer@.subrange(0, total as int) =~= buffer@);
    assert(packet_views(packets@) =~= Seq::<Seq<u8>>::empty());
    loop
        invariant
            offset <= total,
            total == buffer@.len(),
            buffer@ == old(buffer)@,
            complete_packets(buffer@) == packet_views(packets@) + complete_packets(
                buffer@.subrange(offset as int, total as int),
            ),
            incomplete_tail(buffer@) == incomplete_tail(
                buffer@.subrange(offset as int, total as int),
            ),
        ensures
            offset <= total,
            total == buffer@.len(),
            buffer@ == old(buffer)@,
            complete_packets(buffer@) == packet_views(packets@),
            incomplete_tail(buffer@) == buffer@.subrange(offset as int, total as int),
        decreases total - offset,
    {
        let ghost rest = buffer@.subrange(offset as int, total as int);
        let remaining: usize = total - offset;
        if remaining < PACKET_LEN_PREFIX {
            assert(!packet_ready(rest));
            break;
        }
        let declared: u32 = read_u32_le(
            buffer[offset],
            buffer[offset + 1],
            buffer[offset + 2],
            buffer[offset + 3],
        );
        assert(declared == declared_packet_len(rest));
        if ((remaining - PACKET_LEN_PREFIX) as u64) < declared as u64 {
            assert(!packet_ready(rest));
            break;
        }
        let start: usize = offset + PACKET_LEN_PREFIX;
        let end: usize = start + declared as usize;
        let mut payload: Vec<u8> = Vec::new();
        payload.extend_from_slice(slice_of(buffer, start, end));
        proof {
            assert(packet_ready(rest));
            assert(payload@ =~= rest.subrange(PACKET_LEN_PREFIX as int, PACKET_LEN_PREFIX + declared));
            assert(rest.subrange(PACKET_LEN_PREFIX + declared, rest.len() as int)
                =~= buffer@.subrange(end as int, total as int));
            let ghost before = packets@;
            lemma_packet_views_concat(before, seq![payload]);
            assert(packet_views(seq![payload]) =~= seq![payload@]);
            assert(before.push(payload) =~= before + seq![payload]);
        }
        packets.push(payload);
        offset = end;
    }
    let tail = buffer.split_off(offset);
    *buffer = tail;
    packets
}

/// The part `v[from..to]` of a vector.
fn slice_of(v: &Vec<u8>, from: usize, to: usize) -> (part: &[u8])
    requires
        from <= to <= v@.len(),
    ensures
        part@ == v@.subrange(from as int, to as int),
{
    let whole: &[u8] = v.as_slice();
    &whole[from..to]
}

impl StreamReader {
    /// A reader that has seen nothing.
    pub fn new() -> (reader: StreamReader)
        ensures
            reader@.pending.len() == 0,
            reader@.control.len() == 0,
            reader@.aux.len() == 0,
    {
        StreamReader { pending: Vec::new(), control: Vec::new(), aux: Vec::new() }
    }

    /// Takes the bytes of one read. Every chunk that is whole is consumed:
    /// its body joins the reassembly buffer of its stream (stream 0 the
    /// first, any other the second), and the packets that are then complete
    /// are handed out in order. What does not yet make a whole chunk waits
    /// for the next read.
    pub fn feed(&mut self, bytes: &[u8]) -> (packets: Vec<Vec<u8>>)
        ensures
            final(self)@ == old(self)@.fed(bytes@).0,
            packet_views(packets@) == old(self)@.fed(bytes@).1,
    {
        self.pending.extend_from_slice(bytes);
        assert(self.pending@ =~= old(self).pending@ + bytes@);
        let ghost start = self@;
        let mut packets: Vec<Vec<u8>> = Vec::new();
        let total: usize = self.pending.len();
        let mut offset: usize = 0;
        assert(self.pending@.subrange(0, total as int) =~= self.pending@);
        assert(packet_views(packets@) =~= Seq::<Seq<u8>>::empty());
        loop
            invariant
                offset <= total,
                total == self.pending@.len(),
                self.pending@ == start.pending,
                start.absorb().0 == (ReaderModel {
                    pending: self.pending@.subrange(offset as int, total as int),
                    ..self@
                }).absorb().0,
                start.absorb().1 == packet_views(packets@) + (ReaderModel {
                    pending: self.pending@.subrange(offset as int, total as int),
                    ..self@
                }).absorb().1,
            ensures
                offset <= total,
                total == self.pending@.len(),
                start.absorb().0 == (ReaderModel {
                    pending: self.pending@.subrange(offset as int, total as int),
                    ..self@
                }),
                start.absorb().1 == packet_views(packets@),
            decreases total - offset,
        {
            let ghost current = ReaderModel {
                pending: self.pending@.subrange(offset as int, total as int),
                ..self@
            };
            let remaining: usize = total - offset;
            if remaining < STREAM_CHUNK_HEADER_LEN {
                assert(!chunk_ready(current.pending));
                break;
            }
            let stream_id: u8 = self.pending[offset];
            let body_len: usize = read_u16_le(self.pending[offset + 1], self.pending[offset + 2])
                as usize;
            assert(body_len == declared_chunk_len(current.pending));
            if remaining - STREAM_CHUNK_HEADER_LEN < body_len {
                assert(!chunk_ready(current.pending));
                break;
            }
            let from: usize = offset + STREAM_CHUNK_HEADER_LEN;
            let to: usize = from + body_len;
            let ghost body = current.pending.subrange(
                STREAM_CHUNK_HEADER_LEN as int,
                STREAM_CHUNK_HEADER_LEN + body_len,
            );
            let ghost joined = current.buffer_of(stream_id) + body;
            let mut found: Vec<Vec<u8>>;
            if stream_id == 0 {
                self.control.extend_from_slice(slice_of(&self.pending, from, to));
                assert(self.control@ =~= joined);
                found = parse_stream_buffer(&mut self.control);
            } else {
                self.aux.extend_from_slice(slice_of(&self.pending, from, to));
                assert(self.aux@ =~= joined);
                found = parse_stream_buffer(&mut self.aux);
            }
            proof {
                assert(chunk_ready(current.pending));
                assert(current.pending.subrange(
                    STREAM_CHUNK_HEADER_LEN + body_len,
                    current.pending.len() as int,
                ) =~= self.pending@.subrange(to as int, total as int));
                lemma_packet_views_concat(packets@, found@);
            }
            packets.append(&mut found);
            offset = to;
        }
        let tail = self.pending.split_off(offset);
        self.pending = tail;
        packets
    }
}

/// A reader that holds the first `sent` bytes of a framed packet in the
/// buffer of the packet's stream, and the chunks of the remaining bytes as
/// its pending input, ends with that buffer empty and exactly the packet.
proof fn lemma_absorb_frame(
    reader: ReaderModel,
    stream_id: u8,
    packet: Seq<u8>,
    chunk_size: nat,
    sent: int,
)
    requires
        fits_length_prefix(packet.len()),
        1 <= chunk_size <= MAX_STREAM_CHUNK_LEN,
        0 <= sent < framed(packet).len(),
        reader.buffer_of(stream_id) == framed(packet).subrange(0, sent),
        reader.pending == chunk_stream(
            stream_id,
            framed(packet).subrange(sent, framed(packet).len() as int),
            chunk_size,
        ),
    ensures
        reader.absorb() == (
            ReaderModel { pending: Seq::empty(), ..reader.with_buffer(stream_id, Seq::empty()) },
            seq![packet],
        ),
    decreases framed(packet).len() - sent,
{
    let whole = framed(packet);
    let unsent = whole.subrange(sent, whole.len() as int);
    let n = first_chunk_len(unsent.len(), chunk_size) as int;
    let body = unsent.subrange(0, n);
    let after = unsent.subrange(n, unsent.len() as int);
    let rest_wire = chunk_stream(stream_id, after, chunk_size);
    let pending = reader.pending;
    assert(pending == stream_chunk(stream_id, body) + rest_wire);
    lemma_u16_le_round_trip(n as u16);
    assert(pending[0] == stream_id);
    assert(pending[1] == crate::le_bytes::u16_le(n as u16)[0]);
    assert(pending[2] == crate::le_bytes::u16_le(n as u16)[1]);
    assert(declared_chunk_len(pending) == n);
    assert(chunk_ready(pending));
    let end = STREAM_CHUNK_HEADER_LEN + n;
    assert(pending.subrange(STREAM_CHUNK_HEADER_LEN as int, end) =~= body);
    assert(pending.subrange(end, pending.len() as int) =~= rest_wire);
    let joined = reader.buffer_of(stream_id) + body;
    assert(joined =~= whole.subrange(0, sent + n));
    assert(after =~= whole.subrange(sent + n, whole.len() as int));
    let cleared = ReaderModel {
        pending: Seq::empty(),
        ..reader.with_buffer(stream_id, Seq::empty())
    };
    if sent + n == whole.len() {
        assert(joined =~= whole);
        lemma_whole_frame_ready(packet);
        assert(rest_wire =~= Seq::<u8>::empty());
        let next = ReaderModel {
            pending: rest_wire,
            ..reader.with_buffer(stream_id, incomplete_tail(joined))
        };
        assert(next == cleared);
        assert(!chunk_ready(next.pending));
        assert(next.absorb() == (next, Seq::<Seq<u8>>::empty()));
        assert(complete_packets(joined) + Seq::<Seq<u8>>::empty() =~= seq![packet]);
    } else {
        lemma_partial_frame_not_ready(packet, joined);
        let next = ReaderModel {
            pending: rest_wire,
            ..reader.with_buffer(stream_id, incomplete_tail(joined))
        };
        lemma_absorb_frame(next, stream_id, packet, chunk_size, sent + n);
        assert(ReaderModel {
            pending: Seq::empty(),
            ..next.with_buffer(stream_id, Seq::empty())
        } == cleared);
        assert(Seq::<Seq<u8>>::empty() + seq![packet] =~= seq![packet]);
    }
}

/// Framing round trip: whatever the chunk size between 1 and
/// `MAX_STREAM_CHUNK_LEN`, a reader with nothing pending and nothing in the
/// buffer of the packet's stream that is fed the chunks of a framed packet
/// hands out exactly that packet and is left as it was.
pub proof fn lemma_framing_round_trip(
    reader: ReaderModel,
    stream_id: u8,
    packet: Seq<u8>,
    chunk_size: nat,
)
    requires
        fits_length_prefix(packet.len()),
        1 <= chunk_size <= MAX_STREAM_CHUNK_LEN,
        reader.pending.len() == 0,
        reader.buffer_of(stream_id).len() == 0,
    ensures
        reader.fed(chunk_stream(stream_id, framed(packet), chunk_size)) == (reader, seq![packet]),
{
    let whole = framed(packet);
    let wire = chunk_stream(stream_id, whole, chunk_size);
    let start = ReaderModel { pending: reader.pending + wire, ..reader };
    assert(reader.pending + wire =~= wire);
    assert(whole.subrange(0, whole.len() as int) =~= whole);
    assert(reader.buffer_of(stream_id) =~= whole.subrange(0, 0));
    lemma_absorb_frame(start, stream_id, packet, chunk_size, 0);
    assert(reader.pending =~= Seq::<u8>::empty());
    assert(reader.buffer_of(stream_id) =~= Seq::<u8>::empty());
    assert(ReaderModel {
        pending: Seq::empty(),
        ..start.with_buffer(stream_id, Seq::empty())
    } == reader);
}

/// The stream on which the host sends its packets.
pub const CONTROL_STREAM_ID: u8 = 0;

/// The number of attempts that a reconnect makes before it gives up.
pub const RECONNECT_ATTEMPTS: u32 = 3;

/// Why the transport could not take a packet.
#[derive(Debug, Clone, Copy, PartialEq, Eq, Structural)]
pub enum TransportError {
    /// No connection is open.
    NotConnected,
}

impl TransportError {
    /// The text that describes the error to a person.
    pub fn message(&self) -> (text: String)
        ensures
            text@ == "TCP stream not connected"@,
    {
        String::from_str("TCP stream not connected")
    }
}

/// Where the last connection went.
#[derive(Debug, Clone)]
pub struct ConnectInfo {
    pub host: String,
    pub port: u16,
}

/// What the transport remembers beside its socket: the flags, the two
/// single-slot mailboxes, and the snapshot that a reconnect replays.
#[derive(Debug)]
pub struct HostTransport {
    pub connected: bool,
    pub reconnect_enabled: bool,
    pub reconnecting: bool,
    pub last_client_codec_mask: Option<u32>,
    pub last_frame_done: Option<i32>,
    pub last_connect: Option<ConnectInfo>,
    pub last_caps: Option<Vec<u8>>,
    pub last_configure: Option<Vec<u8>>,
}

/// What became of a packet from the client.
#[derive(Debug)]
pub enum Dispatch {
    /// The client's codec mask was put in its mailbox.
    CapabilitiesStored,
    /// The acknowledged encoder instance was put in its mailbox.
    FrameDoneStored,
    /// Input that the permissions allow: it goes on to whoever injects it.
    Forward(ClientPacket),
    /// Input that the permissions refuse: it goes nowhere.
    Gated,
    /// Not a packet that the host reads: it is dropped, the connection stays.
    Malformed(PacketError),
}

/// The state of the reconnect worker: how many attempts it has scheduled.
#[derive(Debug, Clone, Copy, PartialEq, Eq, Structural)]
pub struct ReconnectWorker {
    pub attempts: u32,
}

/// What the reconnect worker reports.
#[derive(Debug, Clone, Copy, PartialEq, Eq, Structural)]
pub enum ReconnectEvent {
    /// The worker starts.
    Start,
    /// The worker has slept for its backoff.
    Slept,
    /// The attempt to connect failed.
    ConnectFailed,
    /// The attempt to connect succeeded and the handshake is written.
    Connected,
}

/// What the reconnect worker does next.
#[derive(Debug)]
pub enum ReconnectAction {
    /// Open the socket to this address, write the handshake, report back.
    Connect { host: String, port: u16 },
    /// Sleep this long, then report that the worker has slept.
    Sleep { ms: u64 },
    /// Send the remembered capabilities and configure packets, then leave.
    Replay { caps: Vec<u8>, configure: Vec<u8> },
    /// Leave.
    Done,
}

/// Whether the permissions let an input packet through. Input as a whole
/// must be enabled, and so must the packet's kind; input keys have no kind
/// of their own and pass.
pub open spec fn input_allowed(permissions: InputPermissions, packet: ClientPacketView) -> bool {
    match packet {
        ClientPacketView::Touch(_) => permissions.enable_input && permissions.touch,
        ClientPacketView::Pen(_) => permissions.enable_input && permissions.pen,
        ClientPacketView::Keyboard(_) => permissions.enable_input && permissions.keyboard,
        _ => true,
    }
}

/// The sleep before attempt number `attempt`, counted from zero.
pub open spec fn backoff_ms(attempt: u32) -> u64 {
    if attempt == 0 {
        1500
    } else if attempt == 1 {
        3000
    } else {
        6000
    }
}

/// What a claim on the reconnect guard gives: the guard afterwards, and
/// whether the claim won.
pub open spec fn claim(reconnecting: bool) -> (bool, bool) {
    (true, !reconnecting)
}

/// Input gating: with input disabled, no touch, pen or keyboard packet
/// passes, whatever the flags of the kinds say.
pub proof fn lemma_input_gating(permissions: InputPermissions, packet: ClientPacketView)
    requires
        !permissions.enable_input,
        packet is Touch || packet is Pen || packet is Keyboard,
    ensures
        !input_allowed(permissions, packet),
{
}

/// Reconnect single-flight: of two claims on the guard, one after the
/// other with no release between them, at most one wins, and exactly one
/// where the guard was free; the guard is held afterwards.
pub proof fn lemma_reconnect_single_flight(reconnecting: bool)
    ensures
        ({
            let first = claim(reconnecting);
            let second = claim(first.0);
            &&& second.0
            &&& !(first.1 && second.1)
            &&& !reconnecting ==> first.1 && !second.1
            &&& reconnecting ==> !first.1 && !second.1
        }),
{
}

impl HostTransport {
    /// A transport that was never connected.
    pub fn new() -> (transport: HostTransport)
        ensures
            !transport.connected,
            !transport.reconnect_enabled,
            !transport.reconnecting,
            transport.last_client_codec_mask is None,
            transport.last_frame_done is None,
            transport.last_connect is None,
            transport.last_caps is None,
            transport.last_configure is None,
    {
        HostTransport {
            connected: false,
            reconnect_enabled: false,
            reconnecting: false,
            last_client_codec_mask: None,
            last_frame_done: None,
            last_connect: None,
            last_caps: None,
            last_configure: None,
        }
    }
}

/// Remembers where the session connected to and the two packets that
/// opened it, so that a reconnect can replay them.
pub fn set_last_session(
    transport: &mut HostTransport,
    host: String,
    port: u16,
    caps_packet: Vec<u8>,
    configure_packet: Vec<u8>,
)
    ensures
        *final(transport) == (HostTransport {
            last_connect: Some(ConnectInfo { host, port }),
            last_caps: Some(caps_packet),
            last_configure: Some(configure_packet),
            ..*old(transport)
        }),
{
    transport.last_connect = Some(ConnectInfo { host, port });
    transport.last_caps = Some(caps_packet);
    transport.last_configure = Some(configure_packet);
}

/// The bytes that go out first on a fresh connection: the handshake for
/// the protocol version this host speaks.
pub fn opening_handshake() -> (bytes: Vec<u8>)
    ensures
        bytes@ == handshake_bytes(PROTOCOL_VERSION),
{
    match build_host_handshake(PROTOCOL_VERSION) {
        Ok(bytes) => bytes,
        Err(_) => Vec::new(),
    }
}

/// Records that the socket is open and the handshake written: the
/// transport is connected and automatic reconnect is armed.
pub fn mark_connected(transport: &mut HostTransport)
    ensures
        *final(transport) == (HostTransport {
            connected: true,
            reconnect_enabled: true,
            ..*old(transport)
        }),
{
    transport.connected = true;
    transport.reconnect_enabled = true;
}

/// Tears the connection down on request: the transport is no longer
/// connected, automatic reconnect is disarmed, the streaming loop is told
/// to stop and the statistics are cleared.
pub fn disconnect(
    transport: &mut HostTransport,
    control: &mut StreamControl,
    session: &mut SessionState,
)
    ensures
        *final(transport) == (HostTransport {
            connected: false,
            reconnect_enabled: false,
            ..*old(transport)
        }),
        !final(control).running,
        SessionState::stats_cleared(*old(session), *final(session)),
{
    transport.connected = false;
    transport.reconnect_enabled = false;
    stop_streaming(control);
    reset_stats(session);
}

/// Whether a connection is open.
pub fn is_connected(transport: &HostTransport) -> (connected: bool)
    ensures
        connected == transport.connected,
{
    transport.connected
}

/// Prepares a packet for the wire: its length as 32 bits little-endian,
/// the packet, and all of it cut into chunks on the control stream. The
/// bytes are what the caller writes to the socket, in full. Without a
/// connection nothing is prepared.
pub fn send_framed_packet(transport: &HostTransport, packet: &[u8]) -> (result: Result<
    Vec<u8>,
    TransportError,
>)
    ensures
        match result {
            Ok(wire) => transport.connected && wire@ == chunk_stream(
                CONTROL_STREAM_ID,
                framed(packet@),
                MAX_STREAM_CHUNK_LEN as nat,
            ),
            Err(error) => !transport.connected && error == TransportError::NotConnected,
        },
{
    if !transport.connected {
        return Err(TransportError::NotConnected);
    }
    let mut framed_bytes: Vec<u8> = Vec::new();
    let declared: u32 = ((packet.len() as u64) % 0x1_0000_0000) as u32;
    push_u32_le(&mut framed_bytes, declared);
    framed_bytes.extend_from_slice(packet);
    assert(framed_bytes@ =~= framed(packet@));
    let mut chunked: Vec<u8> = Vec::new();
    write_stream_chunks(CONTROL_STREAM_ID, framed_bytes.as_slice(), &mut chunked);
    assert(chunked@ =~= chunk_stream(
        CONTROL_STREAM_ID,
        framed(packet@),
        MAX_STREAM_CHUNK_LEN as nat,
    ));
    Ok(chunked)
}

/// Empties the mailbox of the client's codec mask and gives what it held.
pub fn take_last_client_codec_mask(transport: &mut HostTransport) -> (mask: Option<u32>)
    ensures
        mask == old(transport).last_client_codec_mask,
        *final(transport) == (HostTransport { last_client_codec_mask: None, ..*old(transport) }),
{
    transport.last_client_codec_mask.take()
}

/// Empties the mailbox of the last acknowledgement and gives what it held.
pub fn take_last_frame_done(transport: &mut HostTransport) -> (done: Option<i32>)
    ensures
        done == old(transport).last_frame_done,
        *final(transport) == (HostTransport { last_frame_done: None, ..*old(transport) }),
{
    transport.last_frame_done.take()
}

/// Whether the permissions let an input packet through.
pub fn gate_input(permissions: InputPermissions, packet: &ClientPacket) -> (allowed: bool)
    ensures
        allowed == input_allowed(permissions, packet@),
{
    match packet {
        ClientPacket::Touch(_) => permissions.enable_input && permissions.touch,
        ClientPacket::Pen(_) => permissions.enable_input && permissions.pen,
        ClientPacket::Keyboard(_) => permissions.enable_input && permissions.keyboard,
        _ => true,
    }
}

/// Handles one packet from the client. Capabilities and acknowledgements
/// overwrite their mailboxes. Input is forwarded where the permissions
/// allow it and dropped where they do not. What does not parse is dropped.
pub fn dispatch_packet(
    transport: &mut HostTransport,
    permissions: InputPermissions,
    payload: &[u8],
) -> (outcome: Dispatch)
    ensures
        match parsed_client_packet(payload@) {
            Err(error) => outcome matches Dispatch::Malformed(e) && e == error && *final(transport)
                == *old(transport),
            Ok(ClientPacketView::Capabilities(caps)) => outcome is CapabilitiesStored
                && *final(transport) == (HostTransport {
                last_client_codec_mask: Some(caps.codec_mask),
                ..*old(transport)
            }),
            Ok(ClientPacketView::FrameDone(done)) => outcome is FrameDoneStored && *final(transport)
                == (HostTransport { last_frame_done: Some(done.encoder_id), ..*old(transport) }),
            Ok(input) => *final(transport) == *old(transport) && if input_allowed(
                permissions,
                input,
            ) {
                outcome matches Dispatch::Forward(packet) && packet@ == input
            } else {
                outcome is Gated
            },
        },
        !permissions.enable_input ==> !(outcome matches Dispatch::Forward(packet) && (packet
            is Touch || packet is Pen || packet is Keyboard)),
{
    match parse_client_packet(payload) {
        Err(error) => Dispatch::Malformed(error),
        Ok(ClientPacket::Capabilities(caps)) => {
            transport.last_client_codec_mask = Some(caps.codec_mask);
            Dispatch::CapabilitiesStored
        },
        Ok(ClientPacket::FrameDone(done)) => {
            transport.last_frame_done = Some(done.encoder_id);
            Dispatch::FrameDoneStored
        },
        Ok(packet) => {
            if gate_input(permissions, &packet) {
                Dispatch::Forward(packet)
            } else {
                Dispatch::Gated
            }
        },
    }
}

/// The inbound stream ended or failed: the transport is no longer
/// connected, the streaming loop is told to stop, the statistics are
/// cleared. With automatic reconnect armed the session is in error and the
/// caller starts a reconnect; without, the session is idle.
pub fn on_stream_closed(
    transport: &mut HostTransport,
    control: &mut StreamControl,
    session: &mut SessionState,
) -> (reconnect: bool)
    ensures
        reconnect == old(transport).reconnect_enabled,
        *final(transport) == (HostTransport { connected: false, ..*old(transport) }),
        !final(control).running,
        *final(session) == (SessionState {
            lifecycle: if reconnect {
                SessionLifecycle::Error
            } else {
                SessionLifecycle::Idle
            },
            stats: final(session).stats,
            ..*old(session)
        }),
        final(session).stats.is_reset(),
        final(session).consistent(),
{
    transport.connected = false;
    stop_streaming(control);
    reset_stats(session);
    if transport.reconnect_enabled {
        update_lifecycle(session, SessionLifecycle::Error);
        true
    } else {
        update_lifecycle(session, SessionLifecycle::Idle);
        false
    }
}

/// Claims the reconnect guard. The claim wins exactly when no worker
/// holds the guard; the winner is the worker, and the session is
/// connecting. A claim that loses changes nothing.
pub fn attempt_reconnect(transport: &mut HostTransport, session: &mut SessionState) -> (worker:
    Option<ReconnectWorker>)
    ensures
        final(transport).reconnecting == claim(old(transport).reconnecting).0,
        worker is Some == claim(old(transport).reconnecting).1,
        *final(transport) == (HostTransport { reconnecting: true, ..*old(transport) }),
        worker matches Some(state) ==> state.attempts == 0 && SessionState::lifecycle_set(
            *old(session),
            *final(session),
            SessionLifecycle::Connecting,
        ),
        worker is None ==> *final(session) == *old(session),
{
    if transport.reconnecting {
        return None;
    }
    transport.reconnecting = true;
    update_lifecycle(session, SessionLifecycle::Connecting);
    Some(ReconnectWorker { attempts: 0 })
}

/// The sleep before attempt number `attempt`, counted from zero: 1500,
/// 3000 and 6000 ms; there is no fourth attempt.
pub fn reconnect_backoff(attempt: u32) -> (delay: Option<u64>)
    ensures
        attempt < RECONNECT_ATTEMPTS ==> delay == Some(backoff_ms(attempt)),
        attempt >= RECONNECT_ATTEMPTS ==> delay is None,
{
    if attempt == 0 {
        Some(1500)
    } else if attempt == 1 {
        Some(3000)
    } else if attempt == 2 {
        Some(6000)
    } else {
        None
    }
}

/// The worker leaves: a session that is still not connected is in error,
/// and the guard is free again.
fn finish_reconnect(transport: &mut HostTransport, session: &mut SessionState)
    ensures
        *final(transport) == (HostTransport { reconnecting: false, ..*old(transport) }),
        !old(transport).connected ==> SessionState::lifecycle_set(
            *old(session),
            *final(session),
            SessionLifecycle::Error,
        ),
        old(transport).connected ==> *final(session) == *old(session),
{
    if !transport.connected {
        update_lifecycle(session, SessionLifecycle::Error);
    }
    transport.reconnecting = false;
}

/// One step of the reconnect worker.
///
/// A worker makes at most three attempts, each after its backoff of 1500,
/// 3000 and 6000 ms. When it starts and after each failed attempt it
/// sleeps for the next backoff, or leaves when the three attempts are
/// made. When it has slept it connects to the remembered address. A worker
/// that finds the transport connected when it starts or has slept, or has
/// no address to go to, leaves at once. After a successful attempt the
/// session is configured, and the worker replays the remembered
/// capabilities and configure packets where it has both. A worker that
/// leaves puts a session that is not connected in error and frees the guard.
pub fn reconnect_step(
    transport: &mut HostTransport,
    session: &mut SessionState,
    worker: &mut ReconnectWorker,
    event: ReconnectEvent,
) -> (action: ReconnectAction)
    ensures
        *final(transport) == (HostTransport {
            reconnecting: final(transport).reconnecting,
            ..*old(transport)
        }),
        action is Connect || action is Sleep ==> final(transport).reconnecting == old(
            transport
        ).reconnecting && *final(session) == *old(session),
        action is Replay || action is Done ==> !final(transport).reconnecting,
        action is Done ==> if old(transport).connected {
            event != ReconnectEvent::Connected ==> *final(session) == *old(session)
        } else {
            final(session).lifecycle == SessionLifecycle::Error
        },
        match event {
            ReconnectEvent::Start => {
                if old(transport).connected || old(transport).last_connect is None {
                    &&& action is Done
                    &&& *final(worker) == *old(worker)
                    &&& !old(transport).connected ==> SessionState::lifecycle_set(
                        *old(session),
                        *final(session),
                        SessionLifecycle::Error,
                    )
                } else if old(worker).attempts < RECONNECT_ATTEMPTS {
                    &&& action == (ReconnectAction::Sleep { ms: backoff_ms(old(worker).attempts) })
                    &&& final(worker).attempts == old(worker).attempts + 1
                } else {
                    &&& action is Done
                    &&& *final(worker) == *old(worker)
                    &&& SessionState::lifecycle_set(
                        *old(session),
                        *final(session),
                        SessionLifecycle::Error,
                    )
                }
            },
            ReconnectEvent::Slept => {
                &&& *final(worker) == *old(worker)
                &&& if old(transport).connected {
                    action is Done
                } else {
                    match old(transport).last_connect {
                        Some(info) => action matches ReconnectAction::Connect { host, port }
                            && host@ == info.host@ && port == info.port,
                        None => action is Done && SessionState::lifecycle_set(
                            *old(session),
                            *final(session),
                            SessionLifecycle::Error,
                        ),
                    }
                }
            },
            ReconnectEvent::ConnectFailed => {
                if old(worker).attempts < RECONNECT_ATTEMPTS {
                    &&& action == (ReconnectAction::Sleep { ms: backoff_ms(old(worker).attempts) })
                    &&& final(worker).attempts == old(worker).attempts + 1
                } else {
                    &&& action is Done
                    &&& *final(worker) == *old(worker)
                    &&& !old(transport).connected ==> SessionState::lifecycle_set(
                        *old(session),
                        *final(session),
                        SessionLifecycle::Error,
                    )
                }
            },
            ReconnectEvent::Connected => {
                &&& *final(worker) == *old(worker)
                &&& final(session).lifecycle == (if old(transport).connected {
                    SessionLifecycle::Configured
                } else {
                    SessionLifecycle::Error
                })
                &&& final(session).codec_id == old(session).codec_id
                &&& final(session).encoder_backend == old(session).encoder_backend
                &&& final(session).active_device_id == old(session).active_device_id
                &&& final(session).input_permissions == old(session).input_permissions
                &&& final(session).display_target_id == old(session).display_target_id
                &&& final(session).config == old(session).config
                &&& old(transport).connected ==> SessionState::lifecycle_set(
                    *old(session),
                    *final(session),
                    SessionLifecycle::Configured,
                )
                &&& match (old(transport).last_caps, old(transport).last_configure) {
                    (Some(caps_packet), Some(configure_packet)) => action
                        matches ReconnectAction::Replay { caps, configure } && caps@
                        == caps_packet@ && configure@ == configure_packet@,
                    _ => action is Done,
                }
            },
        },
{
    match event {
        ReconnectEvent::Start => {
            if transport.connected || transport.last_connect.is_none() {
                finish_reconnect(transport, session);
                return ReconnectAction::Done;
            }
            schedule_attempt(transport, session, worker)
        },
        ReconnectEvent::Slept => {
            if transport.connected {
                finish_reconnect(transport, session);
                return ReconnectAction::Done;
            }
            match &transport.last_connect {
                Some(info) => ReconnectAction::Connect { host: info.host.clone(), port: info.port },
                None => {
                    finish_reconnect(transport, session);
                    ReconnectAction::Done
                },
            }
        },
        ReconnectEvent::ConnectFailed => schedule_attempt(transport, session, worker),
        ReconnectEvent::Connected => {
            update_lifecycle(session, SessionLifecycle::Configured);
            let action = match (&transport.last_caps, &transport.last_configure) {
                (Some(caps_packet), Some(configure_packet)) => ReconnectAction::Replay {
                    caps: clone_bytes(caps_packet),
                    configure: clone_bytes(configure_packet),
                },
                _ => ReconnectAction::Done,
            };
            finish_reconnect(transport, session);
            action
        },
    }
}

/// The sleep before the next attempt, or the end of the worker where the
/// attempts are used up.
fn schedule_attempt(
    transport: &mut HostTransport,
    session: &mut SessionState,
    worker: &mut ReconnectWorker,
) -> (action: ReconnectAction)
    ensures
        if old(worker).attempts < RECONNECT_ATTEMPTS {
            &&& action == (ReconnectAction::Sleep { ms: backoff_ms(old(worker).attempts) })
            &&& final(worker).attempts == old(worker).attempts + 1
            &&& *final(transport) == *old(transport)
            &&& *final(session) == *old(session)
        } else {
            &&& action is Done
            &&& *final(worker) == *old(worker)
            &&& *final(transport) == (HostTransport { reconnecting: false, ..*old(transport) })
            &&& !old(transport).connected ==> SessionState::lifecycle_set(
                *old(session),
                *final(session),
                SessionLifecycle::Error,
            )
            &&& old(transport).connected ==> *final(session) == *old(session)
        },
{
    match reconnect_backoff(worker.attempts) {
        Some(ms) => {
            worker.attempts = worker.attempts + 1;
            ReconnectAction::Sleep { ms }
        },
        None => {
            finish_reconnect(transport, session);
            ReconnectAction::Done
        },
    }
}

/// The input packets of a list, each by what it holds.
pub open spec fn input_views(packets: Seq<ClientPacket>) -> Seq<ClientPacketView> {
    Seq::new(packets.len(), |i: int| packets[i]@)
}

/// The two mailboxes after a run of packets: the codec mask of the last
/// capabilities among them and the encoder instance of the last
/// acknowledgement, or what the mailboxes held where there was none.
pub open spec fn mailboxes_after(mask: Option<u32>, done: Option<i32>, packets: Seq<Seq<u8>>) -> (
    Option<u32>,
    Option<i32>,
)
    decreases packets.len(),
{
    if packets.len() == 0 {
        (mask, done)
    } else {
        let before = mailboxes_after(mask, done, packets.drop_last());
        match parsed_client_packet(packets.last()) {
            Ok(ClientPacketView::Capabilities(caps)) => (Some(caps.codec_mask), before.1),
            Ok(ClientPacketView::FrameDone(frame)) => (before.0, Some(frame.encoder_id)),
            _ => before,
        }
    }
}

/// The input that a run of packets forwards under the permissions, in
/// order: every packet that parses to input and that the permissions allow.
pub open spec fn forwarded_input(permissions: InputPermissions, packets: Seq<Seq<u8>>) -> Seq<
    ClientPacketView,
>
    decreases packets.len(),
{
    if packets.len() == 0 {
        Seq::empty()
    } else {
        let before = forwarded_input(permissions, packets.drop_last());
        match parsed_client_packet(packets.last()) {
            Ok(ClientPacketView::Capabilities(_)) => before,
            Ok(ClientPacketView::FrameDone(_)) => before,
            Ok(input) => if input_allowed(permissions, input) {
                before.push(input)
            } else {
                before
            },
            Err(_) => before,
        }
    }
}

/// Input gating over a whole run of packets: with input disabled, nothing
/// that is forwarded is a touch, pen or keyboard packet, whatever the
/// flags of the kinds say.
pub proof fn lemma_disabled_input_is_not_forwarded(
    permissions: InputPermissions,
    packets: Seq<Seq<u8>>,
)
    requires
        !permissions.enable_input,
    ensures
        forall|i: int|
            0 <= i < forwarded_input(permissions, packets).len() ==> {
                let input = #[trigger] forwarded_input(permissions, packets)[i];
                !(input is Touch) && !(input is Pen) && !(input is Keyboard)
            },
    decreases packets.len(),
{
    if packets.len() > 0 {
        lemma_disabled_input_is_not_forwarded(permissions, packets.drop_last());
    }
}

/// Takes the bytes of one read through the reader and handles every packet
/// they complete, in order: capabilities and acknowledgements go to their
/// mailboxes, allowed input is handed back for whoever injects it, and
/// everything else is dropped.
pub fn receive(
    reader: &mut StreamReader,
    transport: &mut HostTransport,
    permissions: InputPermissions,
    bytes: &[u8],
) -> (forwarded: Vec<ClientPacket>)
    ensures
        final(reader)@ == old(reader)@.fed(bytes@).0,
        input_views(forwarded@) == forwarded_input(permissions, old(reader)@.fed(bytes@).1),
        *final(transport) == (HostTransport {
            last_client_codec_mask: mailboxes_after(
                old(transport).last_client_codec_mask,
                old(transport).last_frame_done,
                old(reader)@.fed(bytes@).1,
            ).0,
            last_frame_done: mailboxes_after(
                old(transport).last_client_codec_mask,
                old(transport).last_frame_done,
                old(reader)@.fed(bytes@).1,
            ).1,
            ..*old(transport)
        }),
{
    let packets = reader.feed(bytes);
    let ghost all = packet_views(packets@);
    let mut forwarded: Vec<ClientPacket> = Vec::new();
    let mut index: usize = 0;
    assert(input_views(forwarded@) =~= Seq::<ClientPacketView>::empty());
    while index < packets.len()
        invariant
            index <= packets.len(),
            all == packet_views(packets@),
            input_views(forwarded@) == forwarded_input(permissions, all.subrange(0, index as int)),
            *transport == (HostTransport {
                last_client_codec_mask: mailboxes_after(
                    old(transport).last_client_codec_mask,
                    old(transport).last_frame_done,
                    all.subrange(0, index as int),
                ).0,
                last_frame_done: mailboxes_after(
                    old(transport).last_client_codec_mask,
                    old(transport).last_frame_done,
                    all.subrange(0, index as int),
                ).1,
                ..*old(transport)
            }),
        decreases packets.len() - index,
    {
        let ghost before = all.subrange(0, index as int);
        let ghost after = all.subrange(0, index + 1);
        assert(after.drop_last() =~= before);
        assert(after.last() == packets@[index as int]@);
        let ghost held = forwarded@;
        match dispatch_packet(transport, permissions, packets[index].as_slice()) {
            Dispatch::Forward(input) => {
                forwarded.push(input);
                assert(input_views(forwarded@) =~= input_views(held).push(input@));
            },
            _ => {},
        }
        index += 1;
    }
    assert(all.subrange(0, packets@.len() as int) =~= all);
    forwarded
}

} // verus!
