//! The framed wire protocol: handshake, stream chunks and application packets.

pub mod framing;
pub mod handshake;
pub mod packets;
