//! Byte-level model of the bitmap file container.
//!
//! A clipboard device-independent bitmap is an info header, an optional color
//! table and the pixel bits, without the leading file header that a decoder
//! needs. This module synthesizes that header field by field at its documented
//! offset and width, in little-endian byte order, and proves that prepending
//! it leaves the payload — in particular the dimensions declared in its info
//! header — unchanged.

use vstd::prelude::*;

verus! {

/// Length in bytes of the synthesized bitmap file header.
pub const FILE_HEADER_LEN: usize = 14;

/// Length in bytes of the base bitmap info header.
pub const INFO_HEADER_LEN: usize = 40;

/// Smallest payload the watcher accepts: the base info header plus one
/// color-table entry, the size of the fixed bitmap-info structure.
pub const MIN_PAYLOAD_LEN: usize = 44;

/// The little-endian byte encoding of a 32-bit value.
pub open spec fn u32_le(v: u32) -> Seq<u8> {
    seq![
        (v & 0xff) as u8,
        ((v >> 8) & 0xff) as u8,
        ((v >> 16) & 0xff) as u8,
        ((v >> 24) & 0xff) as u8,
    ]
}

/// The unsigned value of the four little-endian bytes at offset `i`.
pub open spec fn le32_at(b: Seq<u8>, i: int) -> int {
    b[i] + b[i + 1] * 0x100 + b[i + 2] * 0x10000 + b[i + 3] * 0x1000000
}

/// Reinterpret an unsigned 32-bit value as a two's-complement signed one.
pub open spec fn as_signed32(v: int) -> int {
    if v >= 0x8000_0000 {
        v - 0x1_0000_0000
    } else {
        v
    }
}

/// The width a payload's info header declares: a signed 32-bit field at
/// payload offset 4.
pub open spec fn dib_width(p: Seq<u8>) -> int {
    as_signed32(le32_at(p, 4))
}

/// The height a payload's info header declares: a signed 32-bit field at
/// payload offset 8. A negative value marks a top-down bitmap of the
/// corresponding positive height.
pub open spec fn dib_height(p: Seq<u8>) -> int {
    as_signed32(le32_at(p, 8))
}

/// The synthesized file header for a payload of `payload_len` bytes: the
/// two-byte magic tag, the total file size, two reserved zero fields, and the
/// fixed offset of the pixel bits behind the file and base info headers.
pub open spec fn file_header_seq(payload_len: u32) -> Seq<u8> {
    seq![0x42u8, 0x4du8] + u32_le((payload_len + FILE_HEADER_LEN) as u32) + seq![
        0u8,
        0u8,
        0u8,
        0u8,
    ] + u32_le((FILE_HEADER_LEN + INFO_HEADER_LEN) as u32)
}

/// A synthesized file header is exactly `FILE_HEADER_LEN` bytes long.
pub proof fn lemma_file_header_len(payload_len: u32)
    ensures
        file_header_seq(payload_len).len() == FILE_HEADER_LEN,
{
}

/// The little-endian encoding of a 32-bit value reads back as that value.
pub proof fn lemma_u32_le_value(v: u32)
    ensures
        le32_at(u32_le(v), 0) == v,
{
    assert((v & 0xff) < 0x100 && ((v >> 8) & 0xff) < 0x100 && ((v >> 16) & 0xff) < 0x100 && ((v
        >> 24) & 0xff) < 0x100) by (bit_vector);
    assert((v & 0xff) + ((v >> 8) & 0xff) * 0x100 + ((v >> 16) & 0xff) * 0x10000 + ((v >> 24)
        & 0xff) * 0x1000000 == v) by (bit_vector);
}

/// Append the little-endian bytes of a 32-bit value.
pub fn push_u32_le(out: &mut Vec<u8>, v: u32)
    ensures
        final(out)@ == old(out)@ + u32_le(v),
{
    out.push((v & 0xff) as u8);
    out.push(((v >> 8) & 0xff) as u8);
    out.push(((v >> 16) & 0xff) as u8);
    out.push(((v >> 24) & 0xff) as u8);
    assert(final(out)@ =~= old(out)@ + u32_le(v));
}

/// Build the file header for a payload of `payload_len` bytes.
pub fn synthesize_file_header(payload_len: u32) -> (h: Vec<u8>)
    requires
        payload_len <= u32::MAX - FILE_HEADER_LEN,
    ensures
        h@ == file_header_seq(payload_len),
{
    let mut h: Vec<u8> = Vec::new();
    h.push(0x42);
    h.push(0x4d);
    push_u32_le(&mut h, payload_len + FILE_HEADER_LEN as u32);
    h.push(0);
    h.push(0);
    h.push(0);
    h.push(0);
    push_u32_le(&mut h, (FILE_HEADER_LEN + INFO_HEADER_LEN) as u32);
    assert(h@ =~= file_header_seq(payload_len));
    h
}

/// Prepend the synthesized file header to a copy of the payload, yielding a
/// standalone decodable bitmap file.
pub fn assemble_bmp_file(payload: &Vec<u8>) -> (r: Vec<u8>)
    requires
        payload@.len() <= u32::MAX - FILE_HEADER_LEN,
    ensures
        r@ == file_header_seq(payload@.len() as u32) + payload@,
{
    let mut r = synthesize_file_header(payload.len() as u32);
    let mut i: usize = 0;
    while i < payload.len()
        invariant
            i <= payload@.len(),
            payload@.len() <= u32::MAX - FILE_HEADER_LEN,
            r@ == file_header_seq(payload@.len() as u32) + payload@.subrange(0, i as int),
        decreases payload@.len() - i,
    {
        r.push(payload[i]);
        assert(r@ =~= file_header_seq(payload@.len() as u32) + payload@.subrange(0, i + 1));
        i = i + 1;
    }
    assert(payload@.subrange(0, payload@.len() as int) =~= payload@);
    r
}

/// The synthesized header's fields read back as specified: the magic tag at
/// the start, the total file size — header plus payload — behind it, zeroed
/// reserved fields, and the fixed pixel-data offset at the end.
pub proof fn lemma_file_header_fields(payload_len: u32)
    requires
        payload_len <= u32::MAX - FILE_HEADER_LEN,
    ensures
        file_header_seq(payload_len)[0] == 0x42u8,
        file_header_seq(payload_len)[1] == 0x4du8,
        le32_at(file_header_seq(payload_len), 2) == payload_len + FILE_HEADER_LEN,
        file_header_seq(payload_len)[6] == 0u8 && file_header_seq(payload_len)[7] == 0u8
            && file_header_seq(payload_len)[8] == 0u8 && file_header_seq(payload_len)[9] == 0u8,
        le32_at(file_header_seq(payload_len), 10) == FILE_HEADER_LEN + INFO_HEADER_LEN,
{
    lemma_u32_le_value((payload_len + FILE_HEADER_LEN) as u32);
    lemma_u32_le_value((FILE_HEADER_LEN + INFO_HEADER_LEN) as u32);
    assert(le32_at(file_header_seq(payload_len), 2) == le32_at(
        u32_le((payload_len + FILE_HEADER_LEN) as u32),
        0,
    ));
    assert(le32_at(file_header_seq(payload_len), 10) == le32_at(
        u32_le((FILE_HEADER_LEN + INFO_HEADER_LEN) as u32),
        0,
    ));
}

/// Assembly shifts every payload byte by the file header's length, so the
/// dimension fields of the payload's info header reappear unchanged at their
/// file offsets.
pub proof fn lemma_assembly_keeps_dimensions(p: Seq<u8>)
    requires
        p.len() >= 12,
    ensures
        le32_at(file_header_seq(p.len() as u32) + p, FILE_HEADER_LEN as int) == le32_at(p, 0),
        le32_at(file_header_seq(p.len() as u32) + p, FILE_HEADER_LEN + 4) == le32_at(p, 4),
        le32_at(file_header_seq(p.len() as u32) + p, FILE_HEADER_LEN + 8) == le32_at(p, 8),
{
    lemma_file_header_len(p.len() as u32);
}

} // verus!
