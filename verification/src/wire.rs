//! Fixed-width integers as bytes.
//!
//! Every integer on the wire is little-endian; signed integers are in two's
//! complement. The functions here say what those encodings are, write them to
//! a buffer and read them back.
use vstd::prelude::*;

verus! {

/// The two bytes of `x`, least significant first.
pub open spec fn u16_le(x: u16) -> Seq<u8> {
    seq![(x % 256) as u8, (x / 256) as u8]
}

/// The four bytes of `x`, least significant first.
pub open spec fn u32_le(x: u32) -> Seq<u8> {
    seq![
        (x % 256) as u8,
        (x / 0x100 % 256) as u8,
        (x / 0x1_0000 % 256) as u8,
        (x / 0x100_0000) as u8,
    ]
}

/// The eight bytes of `x`, least significant first.
pub open spec fn u64_le(x: u64) -> Seq<u8> {
    seq![
        (x % 256) as u8,
        (x / 0x100 % 256) as u8,
        (x / 0x1_0000 % 256) as u8,
        (x / 0x100_0000 % 256) as u8,
        (x / 0x1_0000_0000 % 256) as u8,
        (x / 0x100_0000_0000 % 256) as u8,
        (x / 0x1_0000_0000_0000 % 256) as u8,
        (x / 0x100_0000_0000_0000) as u8,
    ]
}

/// The number that the first two bytes of `s` encode.
pub open spec fn le_u16(s: Seq<u8>) -> u16
    recommends
        s.len() >= 2,
{
    (s[0] + 0x100 * s[1]) as u16
}

/// The number that the first four bytes of `s` encode.
pub open spec fn le_u32(s: Seq<u8>) -> u32
    recommends
        s.len() >= 4,
{
    (s[0] + 0x100 * s[1] + 0x1_0000 * s[2] + 0x100_0000 * s[3]) as u32
}

/// The number that the first eight bytes of `s` encode.
pub open spec fn le_u64(s: Seq<u8>) -> u64
    recommends
        s.len() >= 8,
{
    (s[0] + 0x100 * s[1] + 0x1_0000 * s[2] + 0x100_0000 * s[3] + 0x1_0000_0000 * s[4]
        + 0x100_0000_0000 * s[5] + 0x1_0000_0000_0000 * s[6] + 0x100_0000_0000_0000 * s[7]) as u64
}

/// The 32-bit pattern that stands for `x` in two's complement.
pub open spec fn i32_bits(x: i32) -> u32 {
    if x < 0 {
        (x + 0x1_0000_0000) as u32
    } else {
        x as u32
    }
}

/// The signed number that the pattern `u` stands for in two's complement.
pub open spec fn bits_i32(u: u32) -> i32 {
    if u >= 0x8000_0000 {
        (u - 0x1_0000_0000) as i32
    } else {
        u as i32
    }
}

/// The 64-bit pattern that stands for `x` in two's complement.
pub open spec fn i64_bits(x: i64) -> u64 {
    if x < 0 {
        (x + 0x1_0000_0000_0000_0000) as u64
    } else {
        x as u64
    }
}

/// The signed number that the pattern `u` stands for in two's complement.
pub open spec fn bits_i64(u: u64) -> i64 {
    if u >= 0x8000_0000_0000_0000 {
        (u - 0x1_0000_0000_0000_0000) as i64
    } else {
        u as i64
    }
}

/// The four bytes of `x` in two's complement, least significant first.
pub open spec fn i32_le(x: i32) -> Seq<u8> {
    u32_le(i32_bits(x))
}

/// The eight bytes of `x` in two's complement, least significant first.
pub open spec fn i64_le(x: i64) -> Seq<u8> {
    u64_le(i64_bits(x))
}

/// The signed number that the first four bytes of `s` encode.
pub open spec fn le_i32(s: Seq<u8>) -> i32
    recommends
        s.len() >= 4,
{
    bits_i32(le_u32(s))
}

/// The signed number that the first eight bytes of `s` encode.
pub open spec fn le_i64(s: Seq<u8>) -> i64
    recommends
        s.len() >= 8,
{
    bits_i64(le_u64(s))
}

/// Reading an encoded 16-bit number gives the number back.
pub proof fn lemma_u16_read_back(x: u16)
    ensures
        u16_le(x).len() == 2,
        le_u16(u16_le(x)) == x,
{
}

/// Encoding the number that two bytes say gives the two bytes back.
pub proof fn lemma_u16_written_back(s: Seq<u8>)
    requires
        s.len() == 2,
    ensures
        u16_le(le_u16(s)) == s,
{
    assert(u16_le(le_u16(s)) =~= s);
}

/// Dividing by a power of 256 is dividing by 256 that many times.
proof fn lemma_shift_bytes_u32(x: u32)
    ensures
        x / 0x1_0000 == x / 0x100 / 0x100,
        x / 0x100_0000 == x / 0x100 / 0x100 / 0x100,
{
    assert(x / 0x1_0000 == x / 0x100 / 0x100) by (bit_vector);
    assert(x / 0x100_0000 == x / 0x100 / 0x100 / 0x100) by (bit_vector);
}

/// Dividing by a power of 256 is dividing by 256 that many times.
proof fn lemma_shift_bytes_u64(x: u64)
    ensures
        x / 0x1_0000 == x / 0x100 / 0x100,
        x / 0x100_0000 == x / 0x1_0000 / 0x100,
        x / 0x1_0000_0000 == x / 0x100_0000 / 0x100,
        x / 0x100_0000_0000 == x / 0x1_0000_0000 / 0x100,
        x / 0x1_0000_0000_0000 == x / 0x100_0000_0000 / 0x100,
        x / 0x100_0000_0000_0000 == x / 0x1_0000_0000_0000 / 0x100,
{
    assert(x / 0x1_0000 == x / 0x100 / 0x100) by (bit_vector);
    assert(x / 0x100_0000 == x / 0x1_0000 / 0x100) by (bit_vector);
    assert(x / 0x1_0000_0000 == x / 0x100_0000 / 0x100) by (bit_vector);
    assert(x / 0x100_0000_0000 == x / 0x1_0000_0000 / 0x100) by (bit_vector);
    assert(x / 0x1_0000_0000_0000 == x / 0x100_0000_0000 / 0x100) by (bit_vector);
    assert(x / 0x100_0000_0000_0000 == x / 0x1_0000_0000_0000 / 0x100) by (bit_vector);
}

/// Reading an encoded 32-bit number gives the number back.
pub proof fn lemma_u32_read_back(x: u32)
    ensures
        u32_le(x).len() == 4,
        le_u32(u32_le(x)) == x,
{
    lemma_shift_bytes_u32(x);
}

/// Encoding the number that four bytes say gives the four bytes back.
pub proof fn lemma_u32_written_back(s: Seq<u8>)
    requires
        s.len() == 4,
    ensures
        u32_le(le_u32(s)) == s,
{
    let v = le_u32(s);
    lemma_shift_bytes_u32(v);
    assert(v / 0x100 == s[1] + 0x100 * s[2] + 0x1_0000 * s[3]);
    assert(v / 0x100 / 0x100 == s[2] + 0x100 * s[3]);
    assert(u32_le(v) =~= s);
}

/// Reading an encoded 64-bit number gives the number back.
pub proof fn lemma_u64_read_back(x: u64)
    ensures
        u64_le(x).len() == 8,
        le_u64(u64_le(x)) == x,
{
    lemma_shift_bytes_u64(x);
}

/// Encoding the number that eight bytes say gives the eight bytes back.
pub proof fn lemma_u64_written_back(s: Seq<u8>)
    requires
        s.len() == 8,
    ensures
        u64_le(le_u64(s)) == s,
{
    let v = le_u64(s);
    lemma_shift_bytes_u64(v);
    assert(v / 0x100 == s[1] + 0x100 * s[2] + 0x1_0000 * s[3] + 0x100_0000 * s[4] + 0x1_0000_0000
        * s[5] + 0x100_0000_0000 * s[6] + 0x1_0000_0000_0000 * s[7]);
    assert(v / 0x1_0000 == s[2] + 0x100 * s[3] + 0x1_0000 * s[4] + 0x100_0000 * s[5]
        + 0x1_0000_0000 * s[6] + 0x100_0000_0000 * s[7]);
    assert(v / 0x100_0000 == s[3] + 0x100 * s[4] + 0x1_0000 * s[5] + 0x100_0000 * s[6]
        + 0x1_0000_0000 * s[7]);
    assert(v / 0x1_0000_0000 == s[4] + 0x100 * s[5] + 0x1_0000 * s[6] + 0x100_0000 * s[7]);
    assert(v / 0x100_0000_0000 == s[5] + 0x100 * s[6] + 0x1_0000 * s[7]);
    assert(v / 0x1_0000_0000_0000 == s[6] + 0x100 * s[7]);
    assert(u64_le(v) =~= s);
}

/// Two's complement loses nothing in 32 bits: a signed number and its bit
/// pattern determine each other.
pub proof fn lemma_twos_complement_32(x: i32, u: u32)
    ensures
        bits_i32(i32_bits(x)) == x,
        i32_bits(bits_i32(u)) == u,
{
}

/// Two's complement loses nothing in 64 bits: a signed number and its bit
/// pattern determine each other.
pub proof fn lemma_twos_complement_64(x: i64, u: u64)
    ensures
        bits_i64(i64_bits(x)) == x,
        i64_bits(bits_i64(u)) == u,
{
}

/// Reading an encoded signed 32-bit number gives the number back.
pub proof fn lemma_i32_read_back(x: i32)
    ensures
        i32_le(x).len() == 4,
        le_i32(i32_le(x)) == x,
{
    lemma_u32_read_back(i32_bits(x));
}

/// Reading an encoded signed 64-bit number gives the number back.
pub proof fn lemma_i64_read_back(x: i64)
    ensures
        i64_le(x).len() == 8,
        le_i64(i64_le(x)) == x,
{
    lemma_u64_read_back(i64_bits(x));
}

/// Appends the little-endian encoding of `x` to `out`.
pub fn put_u16(out: &mut Vec<u8>, x: u16)
    ensures
        final(out)@ == old(out)@ + u16_le(x),
{
    out.push((x % 256) as u8);
    out.push((x / 256) as u8);
    assert(out@ =~= old(out)@ + u16_le(x));
}

/// Appends the little-endian encoding of `x` to `out`.
pub fn put_u32(out: &mut Vec<u8>, x: u32)
    ensures
        final(out)@ == old(out)@ + u32_le(x),
{
    out.push((x % 256) as u8);
    out.push((x / 0x100 % 256) as u8);
    out.push((x / 0x1_0000 % 256) as u8);
    out.push((x / 0x100_0000) as u8);
    assert(out@ =~= old(out)@ + u32_le(x));
}

/// Appends the little-endian encoding of `x` to `out`.
pub fn put_u64(out: &mut Vec<u8>, x: u64)
    ensures
        final(out)@ == old(out)@ + u64_le(x),
{
    out.push((x % 256) as u8);
    out.push((x / 0x100 % 256) as u8);
    out.push((x / 0x1_0000 % 256) as u8);
    out.push((x / 0x100_0000 % 256) as u8);
    out.push((x / 0x1_0000_0000 % 256) as u8);
    out.push((x / 0x100_0000_0000 % 256) as u8);
    out.push((x / 0x1_0000_0000_0000 % 256) as u8);
    out.push((x / 0x100_0000_0000_0000) as u8);
    assert(out@ =~= old(out)@ + u64_le(x));
}

/// Appends the two's complement little-endian encoding of `x` to `out`.
pub fn put_i32(out: &mut Vec<u8>, x: i32)
    ensures
        final(out)@ == old(out)@ + i32_le(x),
{
    let bits: u32 = if x >= 0 {
        x as u32
    } else {
        (x - i32::MIN) as u32 + 0x8000_0000
    };
    put_u32(out, bits);
}

/// Appends the two's complement little-endian encoding of `x` to `out`.
pub fn put_i64(out: &mut Vec<u8>, x: i64)
    ensures
        final(out)@ == old(out)@ + i64_le(x),
{
    let bits: u64 = if x >= 0 {
        x as u64
    } else {
        (x - i64::MIN) as u64 + 0x8000_0000_0000_0000
    };
    put_u64(out, bits);
}

/// Appends every byte of `bytes` to `out`.
pub fn put_bytes(out: &mut Vec<u8>, bytes: &[u8])
    ensures
        final(out)@ == old(out)@ + bytes@,
{
    let mut i: usize = 0;
    while i < bytes.len()
        invariant
            i <= bytes@.len(),
            out@ == old(out)@ + bytes@.subrange(0, i as int),
        decreases bytes@.len() - i,
    {
        out.push(bytes[i]);
        i += 1;
        assert(out@ =~= old(out)@ + bytes@.subrange(0, i as int));
    }
    assert(bytes@.subrange(0, i as int) =~= bytes@);
}

/// Reads the little-endian 16-bit number that starts at `at`.
pub fn get_u16(bytes: &[u8], at: usize) -> (x: u16)
    requires
        at + 2 <= bytes@.len(),
    ensures
        x == le_u16(bytes@.subrange(at as int, at + 2)),
{
    bytes[at] as u16 + 0x100 * (bytes[at + 1] as u16)
}

/// Reads the little-endian 32-bit number that starts at `at`.
pub fn get_u32(bytes: &[u8], at: usize) -> (x: u32)
    requires
        at + 4 <= bytes@.len(),
    ensures
        x == le_u32(bytes@.subrange(at as int, at + 4)),
{
    bytes[at] as u32 + 0x100 * (bytes[at + 1] as u32) + 0x1_0000 * (bytes[at + 2] as u32)
        + 0x100_0000 * (bytes[at + 3] as u32)
}

/// Reads the little-endian 64-bit number that starts at `at`.
pub fn get_u64(bytes: &[u8], at: usize) -> (x: u64)
    requires
        at + 8 <= bytes@.len(),
    ensures
        x == le_u64(bytes@.subrange(at as int, at + 8)),
{
    bytes[at] as u64 + 0x100 * (bytes[at + 1] as u64) + 0x1_0000 * (bytes[at + 2] as u64)
        + 0x100_0000 * (bytes[at + 3] as u64) + 0x1_0000_0000 * (bytes[at + 4] as u64)
        + 0x100_0000_0000 * (bytes[at + 5] as u64) + 0x1_0000_0000_0000 * (bytes[at + 6] as u64)
        + 0x100_0000_0000_0000 * (bytes[at + 7] as u64)
}

/// Reads the two's complement little-endian 32-bit number that starts at `at`.
pub fn get_i32(bytes: &[u8], at: usize) -> (x: i32)
    requires
        at + 4 <= bytes@.len(),
    ensures
        x == le_i32(bytes@.subrange(at as int, at + 4)),
{
    let bits: u32 = get_u32(bytes, at);
    if bits < 0x8000_0000 {
        bits as i32
    } else {
        (bits - 0x8000_0000) as i32 + i32::MIN
    }
}

/// Reads the two's complement little-endian 64-bit number that starts at `at`.
pub fn get_i64(bytes: &[u8], at: usize) -> (x: i64)
    requires
        at + 8 <= bytes@.len(),
    ensures
        x == le_i64(bytes@.subrange(at as int, at + 8)),
{
    let bits: u64 = get_u64(bytes, at);
    if bits < 0x8000_0000_0000_0000 {
        bits as i64
    } else {
        (bits - 0x8000_0000_0000_0000) as i64 + i64::MIN
    }
}

} // verus!
