//! Byte-level encoding primitives for the request/response container protocol:
//! little-endian integer fields and the length-prefixed UTF-16LE string format.

use vstd::prelude::*;

verus! {

/// Little-endian encoding of a 16-bit value.
pub open spec fn spec_le16(v: u16) -> Seq<u8> {
    seq![(v & 0xFF) as u8, ((v >> 8) & 0xFF) as u8]
}

/// Little-endian encoding of a 32-bit value.
pub open spec fn spec_le32(v: u32) -> Seq<u8> {
    seq![
        (v & 0xFF) as u8,
        ((v >> 8) & 0xFF) as u8,
        ((v >> 16) & 0xFF) as u8,
        ((v >> 24) & 0xFF) as u8,
    ]
}

/// Little-endian encoding of a 64-bit value.
pub open spec fn spec_le64(v: u64) -> Seq<u8> {
    seq![
        (v & 0xFF) as u8,
        ((v >> 8) & 0xFF) as u8,
        ((v >> 16) & 0xFF) as u8,
        ((v >> 24) & 0xFF) as u8,
        ((v >> 32) & 0xFF) as u8,
        ((v >> 40) & 0xFF) as u8,
        ((v >> 48) & 0xFF) as u8,
        ((v >> 56) & 0xFF) as u8,
    ]
}

/// The 16-bit value stored little-endian at offset `i` of `b`.
pub open spec fn spec_u16_at(b: Seq<u8>, i: int) -> u16 {
    (b[i] as u16) | ((b[i + 1] as u16) << 8)
}

/// The 32-bit value stored little-endian at offset `i` of `b`.
pub open spec fn spec_u32_at(b: Seq<u8>, i: int) -> u32 {
    (b[i] as u32) | ((b[i + 1] as u32) << 8) | ((b[i + 2] as u32) << 16) | ((b[i + 3] as u32)
        << 24)
}

/// Appends one byte to `buf`.
pub fn write_u8(buf: &mut Vec<u8>, val: u8)
    ensures
        final(buf)@ == old(buf)@ + seq![val],
{
    buf.push(val);
    assert(final(buf)@ =~= old(buf)@ + seq![val]);
}

/// Appends the little-endian encoding of `val` to `buf`.
pub fn write_u16(buf: &mut Vec<u8>, val: u16)
    ensures
        final(buf)@ == old(buf)@ + spec_le16(val),
{
    buf.push((val & 0xFF) as u8);
    buf.push(((val >> 8) & 0xFF) as u8);
    assert(final(buf)@ =~= old(buf)@ + spec_le16(val));
}

/// Appends the little-endian encoding of `val` to `buf`.
pub fn write_u32(buf: &mut Vec<u8>, val: u32)
    ensures
        final(buf)@ == old(buf)@ + spec_le32(val),
{
    buf.push((val & 0xFF) as u8);
    buf.push(((val >> 8) & 0xFF) as u8);
    buf.push(((val >> 16) & 0xFF) as u8);
    buf.push(((val >> 24) & 0xFF) as u8);
    assert(final(buf)@ =~= old(buf)@ + spec_le32(val));
}

/// Appends the little-endian encoding of `val` to `buf`.
pub fn write_u64(buf: &mut Vec<u8>, val: u64)
    ensures
        final(buf)@ == old(buf)@ + spec_le64(val),
{
    buf.push((val & 0xFF) as u8);
    buf.push(((val >> 8) & 0xFF) as u8);
    buf.push(((val >> 16) & 0xFF) as u8);
    buf.push(((val >> 24) & 0xFF) as u8);
    buf.push(((val >> 32) & 0xFF) as u8);
    buf.push(((val >> 40) & 0xFF) as u8);
    buf.push(((val >> 48) & 0xFF) as u8);
    buf.push(((val >> 56) & 0xFF) as u8);
    assert(final(buf)@ =~= old(buf)@ + spec_le64(val));
}

/// Appends all of `data` to `buf`.
pub fn write_buffer(buf: &mut Vec<u8>, data: &[u8])
    ensures
        final(buf)@ == old(buf)@ + data@,
{
    let n = data.len();
    for i in 0..n
        invariant
            n == data@.len(),
            buf@ == old(buf)@ + data@.take(i as int),
    {
        buf.push(data[i]);
        assert(buf@ =~= old(buf)@ + data@.take(i + 1));
    }
    assert(final(buf)@ =~= old(buf)@ + data@);
}

/// Reads the 16-bit little-endian value at `offset`.
pub fn read_u16_at(buf: &[u8], offset: usize) -> (r: u16)
    requires
        offset + 2 <= buf@.len(),
    ensures
        r == spec_u16_at(buf@, offset as int),
{
    (buf[offset] as u16) | ((buf[offset + 1] as u16) << 8)
}

/// Reads the 32-bit little-endian value at `offset`.
pub fn read_u32_at(buf: &[u8], offset: usize) -> (r: u32)
    requires
        offset + 4 <= buf@.len(),
    ensures
        r == spec_u32_at(buf@, offset as int),
{
    (buf[offset] as u32) | ((buf[offset + 1] as u32) << 8) | ((buf[offset + 2] as u32) << 16) | (
    (buf[offset + 3] as u32) << 24)
}

/// Writing a 16-bit value and reading it back yields the value.
pub proof fn lemma_le16_roundtrip(v: u16)
    ensures
        spec_u16_at(spec_le16(v), 0) == v,
{
    assert(((v & 0xFF) as u8 as u16) | ((((v >> 8) & 0xFF) as u8 as u16) << 8) == v)
        by (bit_vector);
}

/// Writing a 32-bit value and reading it back yields the value.
pub proof fn lemma_le32_roundtrip(v: u32)
    ensures
        spec_u32_at(spec_le32(v), 0) == v,
{
    assert(((v & 0xFF) as u8 as u32) | ((((v >> 8) & 0xFF) as u8 as u32) << 8) | ((((v >> 16)
        & 0xFF) as u8 as u32) << 16) | ((((v >> 24) & 0xFF) as u8 as u32) << 24) == v)
        by (bit_vector);
}

/// UTF-16LE encoding of a sequence of ASCII bytes: each byte becomes the
/// pair (byte, 0).
pub open spec fn spec_utf16le_ascii(s: Seq<u8>) -> Seq<u8>
    decreases s.len(),
{
    if s.len() == 0 {
        Seq::empty()
    } else {
        spec_utf16le_ascii(s.drop_last()) + seq![s.last(), 0u8]
    }
}

/// The protocol's string format: a character count (including the
/// terminator), the UTF-16LE characters, and a 16-bit null terminator.
/// The empty string is a single zero byte.
pub open spec fn spec_ptp_string(s: Seq<u8>) -> Seq<u8> {
    if s.len() == 0 {
        seq![0u8]
    } else {
        seq![(s.len() + 1) as u8] + spec_utf16le_ascii(s) + seq![0u8, 0u8]
    }
}

/// Appends the string format encoding of the ASCII bytes `s` to `buf`.
pub fn write_string(buf: &mut Vec<u8>, s: &[u8])
    requires
        s@.len() <= 254,
    ensures
        final(buf)@ == old(buf)@ + spec_ptp_string(s@),
{
    let n = s.len();
    if n == 0 {
        buf.push(0);
        assert(final(buf)@ =~= old(buf)@ + spec_ptp_string(s@));
        return ;
    }
    buf.push((n + 1) as u8);
    for i in 0..n
        invariant
            n == s@.len(),
            n <= 254,
            buf@ == old(buf)@ + seq![(n + 1) as u8] + spec_utf16le_ascii(s@.take(i as int)),
    {
        buf.push(s[i]);
        buf.push(0);
        proof {
            assert(s@.take(i + 1).drop_last() =~= s@.take(i as int));
            assert(buf@ =~= old(buf)@ + seq![(n + 1) as u8] + spec_utf16le_ascii(
                s@.take(i + 1),
            ));
        }
    }
    buf.push(0);
    buf.push(0);
    proof {
        assert(s@.take(n as int) =~= s@);
        assert(final(buf)@ =~= old(buf)@ + spec_ptp_string(s@));
    }
}

/// The UTF-16LE encoding of ASCII bytes is twice as long as its input.
pub proof fn lemma_utf16le_ascii_len(s: Seq<u8>)
    ensures
        spec_utf16le_ascii(s).len() == 2 * s.len(),
    decreases s.len(),
{
    if s.len() > 0 {
        lemma_utf16le_ascii_len(s.drop_last());
    }
}

/// The string format takes one byte for the empty string and otherwise the
/// count byte, two bytes per character and the two terminator bytes.
pub proof fn lemma_ptp_string_len(s: Seq<u8>)
    ensures
        spec_ptp_string(s).len() == if s.len() == 0 {
            1int
        } else {
            2 * (s.len() as int) + 3
        },
{
    lemma_utf16le_ascii_len(s);
}

/// True when the two byte slices hold the same bytes.
pub fn bytes_eq(a: &[u8], b: &[u8]) -> (r: bool)
    ensures
        r == (a@ == b@),
{
    if a.len() != b.len() {
        proof {
            assert(a@.len() != b@.len());
        }
        return false;
    }
    let n = a.len();
    for i in 0..n
        invariant
            n == a@.len(),
            n == b@.len(),
            forall|j: int| 0 <= j < i ==> a@[j] == b@[j],
    {
        if a[i] != b[i] {
            return false;
        }
    }
    proof {
        assert(a@ =~= b@);
    }
    true
}

} // verus!
