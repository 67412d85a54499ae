//! UTF-16 text as the platform's interfaces take and give it.

use crate::le_bytes::{push_u16_le, read_u16_le, u16_from_le, u16_le};
use crate::text::chars_of;
use vstd::prelude::*;
use vstd::string::*;

verus! {

/// The text that `String::from_utf8_lossy` makes of bytes.
pub uninterp spec fn utf8_lossy(bytes: Seq<u8>) -> Seq<char>;

/// A code unit that is the first half of a surrogate pair.
pub open spec fn is_high_surrogate(unit: u16) -> bool {
    0xD800 <= unit <= 0xDBFF
}

/// A code unit that is the second half of a surrogate pair.
pub open spec fn is_low_surrogate(unit: u16) -> bool {
    0xDC00 <= unit <= 0xDFFF
}

/// The character that a surrogate pair stands for.
pub open spec fn pair_char(high: u16, low: u16) -> char {
    (0x10000 + (high - 0xD800) * 0x400 + (low - 0xDC00)) as char
}

/// What UTF-16 code units decode to, one entry per character or per
/// surrogate without its partner: a high surrogate with a low one behind
/// it is one character, any other surrogate is no character, and every
/// other unit is the character with that number.
pub open spec fn utf16_scalars(units: Seq<u16>) -> Seq<Option<char>>
    decreases units.len(),
{
    if units.len() == 0 {
        Seq::empty()
    } else if is_high_surrogate(units[0]) && units.len() >= 2 && is_low_surrogate(units[1]) {
        seq![Some(pair_char(units[0], units[1]))] + utf16_scalars(
            units.subrange(2, units.len() as int),
        )
    } else if is_high_surrogate(units[0]) || is_low_surrogate(units[0]) {
        seq![None::<char>] + utf16_scalars(units.drop_first())
    } else {
        seq![Some(units[0] as char)] + utf16_scalars(units.drop_first())
    }
}

/// The text of UTF-16 code units, with the replacement character U+FFFD
/// for every surrogate without its partner.
pub open spec fn utf16_lossy(units: Seq<u16>) -> Seq<char> {
    Seq::new(
        utf16_scalars(units).len(),
        |i: int|
            match utf16_scalars(units)[i] {
                Some(c) => c,
                None => '\u{FFFD}',
            },
    )
}

/// The text of UTF-16 code units where every surrogate has its partner;
/// nothing where one has not.
pub open spec fn utf16_strict(units: Seq<u16>) -> Option<Seq<char>> {
    if forall|i: int| 0 <= i < utf16_scalars(units).len() ==> utf16_scalars(units)[i] is Some {
        Some(utf16_lossy(units))
    } else {
        None
    }
}

/// The UTF-16 code units of one character: itself below U+10000, a
/// surrogate pair from there on.
pub open spec fn utf16_units(c: char) -> Seq<u16> {
    let n = c as u32 as int;
    if n < 0x10000 {
        seq![n as u16]
    } else {
        seq![(0xD800 + (n - 0x10000) / 0x400) as u16, (0xDC00 + (n - 0x10000) % 0x400) as u16]
    }
}

/// The UTF-16 code units of a text.
pub open spec fn encode_utf16(s: Seq<char>) -> Seq<u16>
    decreases s.len(),
{
    if s.len() == 0 {
        Seq::empty()
    } else {
        encode_utf16(s.drop_last()) + utf16_units(s.last())
    }
}

/// Code units as bytes, each unit little-endian.
pub open spec fn units_le(units: Seq<u16>) -> Seq<u8>
    decreases units.len(),
{
    if units.len() == 0 {
        Seq::empty()
    } else {
        units_le(units.drop_last()) + u16_le(units.last())
    }
}

/// The code units that pairs of little-endian bytes stand for; a last odd
/// byte is left out.
pub open spec fn units_from_le(bytes: Seq<u8>) -> Seq<u16> {
    Seq::new(bytes.len() / 2, |i: int| u16_from_le(bytes[2 * i], bytes[2 * i + 1]))
}

/// The number of code units before the first zero, or all of them.
pub open spec fn len_before_nul(units: Seq<u16>) -> nat
    decreases units.len(),
{
    if units.len() == 0 || units[0] == 0 {
        0
    } else {
        1 + len_before_nul(units.drop_first())
    }
}

/// `String::from_utf16_lossy`: the text of the code units, with the
/// replacement character U+FFFD in the place of every surrogate that has
/// no partner.
#[verifier::external_body]
pub(crate) fn decode_utf16_lossy(units: &[u16]) -> (text: String)
    ensures
        text@ == utf16_lossy(units@),
{
    String::from_utf16_lossy(units)
}

/// `String::from_utf16`: the text of the code units, or nothing where a
/// surrogate has no partner.
#[verifier::external_body]
pub(crate) fn decode_utf16(units: &[u16]) -> (text: Option<String>)
    ensures
        match text {
            Some(decoded) => utf16_strict(units@) == Some(decoded@),
            None => utf16_strict(units@) is None,
        },
{
    String::from_utf16(units).ok()
}

/// `String::from_utf8_lossy`: the text that the standard library makes of
/// the bytes, which is the same for the same bytes; the contract names it
/// and says no more of it.
#[verifier::external_body]
pub(crate) fn decode_utf8_lossy(bytes: &[u8]) -> (text: String)
    ensures
        text@ == utf8_lossy(bytes@),
{
    String::from_utf8_lossy(bytes).into_owned()
}

/// Appends the UTF-16 code units of `c` to `out`.
fn push_utf16(out: &mut Vec<u16>, c: char)
    ensures
        final(out)@ == old(out)@ + utf16_units(c),
{
    let n: u32 = c as u32;
    if n < 0x10000 {
        out.push(n as u16);
    } else {
        let m: u32 = n - 0x10000;
        out.push((0xD800 + m / 0x400) as u16);
        out.push((0xDC00 + m % 0x400) as u16);
    }
    assert(out@ =~= old(out)@ + utf16_units(c));
}

/// The UTF-16 code units of `value`.
pub fn utf16_of(value: &str) -> (units: Vec<u16>)
    ensures
        units@ == encode_utf16(value@),
{
    let chars = chars_of(value);
    let mut units: Vec<u16> = Vec::new();
    let mut i: usize = 0;
    while i < chars.len()
        invariant
            i <= chars.len(),
            units@ == encode_utf16(chars@.subrange(0, i as int)),
        decreases chars.len() - i,
    {
        let ghost before = chars@.subrange(0, i as int);
        let ghost after = chars@.subrange(0, i + 1);
        assert(after.drop_last() =~= before);
        push_utf16(&mut units, chars[i]);
        i += 1;
    }
    assert(chars@.subrange(0, chars.len() as int) =~= chars@);
    units
}

/// `value` as the platform takes a string: its UTF-16 code units and a
/// closing zero.
pub fn to_wide(value: &str) -> (wide: Vec<u16>)
    ensures
        wide@ == encode_utf16(value@).push(0),
{
    let mut wide = utf16_of(value);
    wide.push(0);
    wide
}

/// `value` as the bytes of its UTF-16 code units, each little-endian, with
/// no closing zero.
pub fn to_wide_bytes(value: &str) -> (bytes: Vec<u8>)
    ensures
        bytes@ == units_le(encode_utf16(value@)),
{
    let units = utf16_of(value);
    let mut bytes: Vec<u8> = Vec::new();
    let mut i: usize = 0;
    while i < units.len()
        invariant
            i <= units.len(),
            bytes@ == units_le(units@.subrange(0, i as int)),
        decreases units.len() - i,
    {
        let ghost before = units@.subrange(0, i as int);
        let ghost after = units@.subrange(0, i + 1);
        assert(after.drop_last() =~= before);
        push_u16_le(&mut bytes, units[i]);
        i += 1;
    }
    assert(units@.subrange(0, units.len() as int) =~= units@);
    bytes
}

/// The code units that pairs of little-endian bytes stand for.
pub fn wide_from_bytes(bytes: &[u8]) -> (units: Vec<u16>)
    ensures
        units@ == units_from_le(bytes@),
{
    let total: usize = bytes.len();
    let count: usize = total / 2;
    let mut units: Vec<u16> = Vec::new();
    let mut i: usize = 0;
    while i < count
        invariant
            i <= count,
            2 * count <= total,
            total == bytes@.len(),
            count == bytes@.len() / 2,
            units@.len() == i,
            forall|k: int| 0 <= k < i ==> units@[k] == u16_from_le(bytes@[2 * k], bytes@[2 * k + 1]),
        decreases count - i,
    {
        units.push(read_u16_le(bytes[2 * i], bytes[2 * i + 1]));
        i += 1;
    }
    assert(units@ =~= units_from_le(bytes@));
    units
}

/// The number of code units before the first zero.
fn position_of_nul(buffer: &[u16]) -> (len: usize)
    ensures
        len == len_before_nul(buffer@),
        len <= buffer@.len(),
{
    let mut i: usize = 0;
    assert(buffer@.subrange(0, buffer@.len() as int) =~= buffer@);
    while i < buffer.len() && buffer[i] != 0
        invariant
            i <= buffer@.len(),
            len_before_nul(buffer@) == i + len_before_nul(
                buffer@.subrange(i as int, buffer@.len() as int),
            ),
        decreases buffer.len() - i,
    {
        let ghost rest = buffer@.subrange(i as int, buffer@.len() as int);
        assert(rest.drop_first() =~= buffer@.subrange(i + 1, buffer@.len() as int));
        i += 1;
    }
    i
}

/// The text in a buffer that the platform filled: the code units up to the
/// first zero, decoded leniently.
pub fn utf16_to_string(buffer: &[u16]) -> (text: String)
    ensures
        text@ == utf16_lossy(buffer@.subrange(0, len_before_nul(buffer@) as int)),
{
    let len = position_of_nul(buffer);
    decode_utf16_lossy(&buffer[0..len])
}

} // verus!
