//! The prelude that the host writes before any other byte of a connection.

use vstd::prelude::*;
use vstd::string::*;

verus! {

/// Why a handshake could not be built.
#[derive(Debug, Clone, Copy, PartialEq, Eq, Structural)]
pub enum HandshakeError {
    /// The protocol version does not fit in three decimal digits.
    VersionOutOfRange,
}

impl HandshakeError {
    /// The text that describes the error to a person.
    pub fn message(&self) -> (text: String)
        ensures
            text@ == "handshake version must be between 0 and 999"@,
    {
        String::from_str("handshake version must be between 0 and 999")
    }
}

/// The protocol version that this host speaks.
pub const PROTOCOL_VERSION: u16 = 4;

/// The largest version that the handshake can state.
pub const MAX_HANDSHAKE_VERSION: u16 = 999;

/// The ASCII bytes of `KELOCUBE_MIRR_`.
pub open spec fn handshake_base() -> Seq<u8> {
    seq![
        0x4Bu8,
        0x45u8,
        0x4Cu8,
        0x4Fu8,
        0x43u8,
        0x55u8,
        0x42u8,
        0x45u8,
        0x5Fu8,
        0x4Du8,
        0x49u8,
        0x52u8,
        0x52u8,
        0x5Fu8,
    ]
}

/// The ASCII digit for `d`, where `d` is below ten.
pub open spec fn ascii_digit(d: int) -> u8 {
    (48 + d) as u8
}

/// `version` as three ASCII decimal digits, padded with zeros on the left.
pub open spec fn three_digits(version: u16) -> Seq<u8> {
    seq![
        ascii_digit(version as int / 100),
        ascii_digit(version as int / 10 % 10),
        ascii_digit(version as int % 10),
    ]
}

/// The whole handshake for `version`: base, three digits, a NUL.
pub open spec fn handshake_bytes(version: u16) -> Seq<u8> {
    handshake_base() + three_digits(version) + seq![0u8]
}

/// Builds the host's handshake: `KELOCUBE_MIRR_`, the version as three
/// zero-padded decimal digits, and a trailing NUL. A version above 999 is
/// refused.
pub fn build_host_handshake(version: u16) -> (result: Result<Vec<u8>, HandshakeError>)
    ensures
        match result {
            Ok(bytes) => version <= MAX_HANDSHAKE_VERSION && bytes@ == handshake_bytes(version),
            Err(error) => version > MAX_HANDSHAKE_VERSION && error
                == HandshakeError::VersionOutOfRange,
        },
{
    if version > MAX_HANDSHAKE_VERSION {
        return Err(HandshakeError::VersionOutOfRange);
    }
    let base: [u8; 14] = [
        0x4B,
        0x45,
        0x4C,
        0x4F,
        0x43,
        0x55,
        0x42,
        0x45,
        0x5F,
        0x4D,
        0x49,
        0x52,
        0x52,
        0x5F,
    ];
    let mut buffer: Vec<u8> = Vec::new();
    let mut i: usize = 0;
    while i < 14
        invariant
            i <= 14,
            base@ == handshake_base(),
            buffer@ == handshake_base().subrange(0, i as int),
        decreases 14 - i,
    {
        buffer.push(base[i]);
        assert(buffer@ =~= handshake_base().subrange(0, i + 1));
        i += 1;
    }
    buffer.push((48 + version / 100) as u8);
    buffer.push((48 + version / 10 % 10) as u8);
    buffer.push((48 + version % 10) as u8);
    buffer.push(0);
    assert(buffer@ =~= handshake_bytes(version));
    Ok(buffer)
}

} // verus!
