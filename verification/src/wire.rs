//! Big-endian integer encoding as used on the wire (XDR words and hypers).
use vstd::prelude::*;
use vstd::arithmetic::div_mod::lemma_fundamental_div_mod_converse;

verus! {

/// The four big-endian bytes of a 32-bit word, most significant first.
pub open spec fn be32(x: u32) -> Seq<u8> {
    seq![
        (x / 0x1000000) as u8,
        ((x / 0x10000) % 0x100) as u8,
        ((x / 0x100) % 0x100) as u8,
        (x % 0x100) as u8,
    ]
}

/// The 32-bit word whose big-endian bytes are `b[0..4]`.
pub open spec fn from_be32(b: Seq<u8>) -> u32
    recommends
        b.len() >= 4,
{
    (b[0] * 0x1000000 + b[1] * 0x10000 + b[2] * 0x100 + b[3]) as u32
}

/// The eight big-endian bytes of a 64-bit hyper, most significant first.
pub open spec fn be64(x: u64) -> Seq<u8> {
    be32((x / 0x1_0000_0000) as u32) + be32((x % 0x1_0000_0000) as u32)
}

/// The 64-bit hyper whose big-endian bytes are `b[0..8]`.
pub open spec fn from_be64(b: Seq<u8>) -> u64
    recommends
        b.len() >= 8,
{
    (from_be32(b) * 0x1_0000_0000 + from_be32(b.subrange(4, 8))) as u64
}

/// Two's complement bit pattern of a signed word.
pub open spec fn i32_bits(x: i32) -> u32 {
    if x >= 0 {
        x as u32
    } else {
        (x + 0x1_0000_0000) as u32
    }
}

/// The signed word with the given two's complement bit pattern.
pub open spec fn bits_i32(u: u32) -> i32 {
    if u < 0x8000_0000 {
        u as i32
    } else {
        (u - 0x1_0000_0000) as i32
    }
}

/// Two's complement bit pattern of a signed hyper.
pub open spec fn i64_bits(x: i64) -> u64 {
    if x >= 0 {
        x as u64
    } else {
        (x + 0x1_0000_0000_0000_0000) as u64
    }
}

/// The signed hyper with the given two's complement bit pattern.
pub open spec fn bits_i64(u: u64) -> i64 {
    if u < 0x8000_0000_0000_0000 {
        u as i64
    } else {
        (u - 0x1_0000_0000_0000_0000) as i64
    }
}

/// Reading back the bytes of a word gives the word.
pub proof fn lemma_be32_roundtrip(x: u32)
    ensures
        be32(x).len() == 4,
        from_be32(be32(x)) == x,
{
}

/// A word read from four bytes writes back to the same four bytes.
pub proof fn lemma_be32_bytes_roundtrip(b: Seq<u8>)
    requires
        b.len() == 4,
    ensures
        be32(from_be32(b)) == b,
{
    let v = from_be32(b);
    let (b0, b1, b2, b3) = (b[0] as int, b[1] as int, b[2] as int, b[3] as int);
    assert(v == b0 * 0x1000000 + b1 * 0x10000 + b2 * 0x100 + b3);
    lemma_fundamental_div_mod_converse(v as int, 0x1000000, b0, b1 * 0x10000 + b2 * 0x100 + b3);
    lemma_fundamental_div_mod_converse(v as int, 0x10000, b0 * 0x100 + b1, b2 * 0x100 + b3);
    lemma_fundamental_div_mod_converse(b0 * 0x100 + b1, 0x100, b0, b1);
    lemma_fundamental_div_mod_converse(v as int, 0x100, b0 * 0x10000 + b1 * 0x100 + b2, b3);
    lemma_fundamental_div_mod_converse(b0 * 0x10000 + b1 * 0x100 + b2, 0x100, b0 * 0x100 + b1, b2);
    assert(be32(from_be32(b)) =~= b);
}

/// Reading back the bytes of a hyper gives the hyper.
pub proof fn lemma_be64_roundtrip(x: u64)
    ensures
        be64(x).len() == 8,
        from_be64(be64(x)) == x,
{
    let hi = (x / 0x1_0000_0000) as u32;
    let lo = (x % 0x1_0000_0000) as u32;
    lemma_be32_roundtrip(hi);
    lemma_be32_roundtrip(lo);
    assert(be64(x).subrange(4, 8) =~= be32(lo));
    assert(from_be32(be64(x)) == from_be32(be32(hi)));
}

/// A hyper read from eight bytes writes back to the same eight bytes.
pub proof fn lemma_be64_bytes_roundtrip(b: Seq<u8>)
    requires
        b.len() == 8,
    ensures
        be64(from_be64(b)) == b,
{
    let hi = from_be32(b);
    let lo = from_be32(b.subrange(4, 8));
    assert(from_be64(b) / 0x1_0000_0000 == hi);
    assert(from_be64(b) % 0x1_0000_0000 == lo);
    lemma_be32_bytes_roundtrip(b.subrange(0, 4));
    lemma_be32_bytes_roundtrip(b.subrange(4, 8));
    assert(from_be32(b.subrange(0, 4)) == hi);
    assert(be64(from_be64(b)) =~= b);
}

pub proof fn lemma_i32_bits_roundtrip(x: i32)
    ensures
        bits_i32(i32_bits(x)) == x,
{
}

pub proof fn lemma_bits_i32_roundtrip(u: u32)
    ensures
        i32_bits(bits_i32(u)) == u,
{
}

pub proof fn lemma_i64_bits_roundtrip(x: i64)
    ensures
        bits_i64(i64_bits(x)) == x,
{
}

pub proof fn lemma_bits_i64_roundtrip(u: u64)
    ensures
        i64_bits(bits_i64(u)) == u,
{
}

/// Appends `x` as four big-endian bytes.
pub fn push_be32(out: &mut Vec<u8>, x: u32)
    ensures
        final(out)@ == old(out)@ + be32(x),
{
    out.push((x / 0x1000000) as u8);
    out.push(((x / 0x10000) % 0x100) as u8);
    out.push(((x / 0x100) % 0x100) as u8);
    out.push((x % 0x100) as u8);
    assert(final(out)@ =~= old(out)@ + be32(x));
}

/// Appends `x` as eight big-endian bytes.
pub fn push_be64(out: &mut Vec<u8>, x: u64)
    ensures
        final(out)@ == old(out)@ + be64(x),
{
    push_be32(out, (x / 0x1_0000_0000) as u32);
    push_be32(out, (x % 0x1_0000_0000) as u32);
    assert(final(out)@ =~= old(out)@ + be64(x));
}

/// Appends a run of bytes.
pub fn push_bytes(out: &mut Vec<u8>, bytes: &[u8])
    ensures
        final(out)@ == old(out)@ + bytes@,
{
    let n = bytes.len();
    let mut i: usize = 0;
    while i < n
        invariant
            n == bytes@.len(),
            i <= n,
            out@ == old(out)@ + bytes@.subrange(0, i as int),
        decreases n - i,
    {
        out.push(bytes[i]);
        i = i + 1;
        assert(out@ =~= old(out)@ + bytes@.subrange(0, i as int));
    }
    assert(bytes@.subrange(0, n as int) =~= bytes@);
}

/// Reads the big-endian word stored at `bytes[pos..pos + 4]`.
pub fn read_be32(bytes: &[u8], pos: usize) -> (r: u32)
    requires
        pos + 4 <= bytes@.len(),
    ensures
        r == from_be32(bytes@.subrange(pos as int, pos + 4)),
{
    let _n = bytes.len();
    let b0 = bytes[pos] as u32;
    let b1 = bytes[pos + 1] as u32;
    let b2 = bytes[pos + 2] as u32;
    let b3 = bytes[pos + 3] as u32;
    b0 * 0x1000000 + b1 * 0x10000 + b2 * 0x100 + b3
}

/// Reads the big-endian hyper stored at `bytes[pos..pos + 8]`.
pub fn read_be64(bytes: &[u8], pos: usize) -> (r: u64)
    requires
        pos + 8 <= bytes@.len(),
    ensures
        r == from_be64(bytes@.subrange(pos as int, pos + 8)),
{
    let _n = bytes.len();
    let hi = read_be32(bytes, pos) as u64;
    let lo = read_be32(bytes, pos + 4) as u64;
    let ghost s = bytes@.subrange(pos as int, pos + 8);
    assert(s.subrange(4, 8) =~= bytes@.subrange(pos + 4, pos + 8));
    assert(from_be32(s) == from_be32(bytes@.subrange(pos as int, pos + 4)));
    hi * 0x1_0000_0000 + lo
}

/// The two's complement bit pattern of a signed word.
pub fn i32_to_bits(x: i32) -> (r: u32)
    ensures
        r == i32_bits(x),
{
    if x >= 0 {
        x as u32
    } else {
        ((x as i64) + 0x1_0000_0000) as u32
    }
}

/// The signed word with the given bit pattern.
pub fn bits_to_i32(u: u32) -> (r: i32)
    ensures
        r == bits_i32(u),
{
    if u < 0x8000_0000 {
        u as i32
    } else {
        ((u as i64) - 0x1_0000_0000) as i32
    }
}

/// The two's complement bit pattern of a signed hyper.
pub fn i64_to_bits(x: i64) -> (r: u64)
    ensures
        r == i64_bits(x),
{
    if x >= 0 {
        x as u64
    } else {
        ((x as i128) + 0x1_0000_0000_0000_0000) as u64
    }
}

/// The signed hyper with the given bit pattern.
pub fn bits_to_i64(u: u64) -> (r: i64)
    ensures
        r == bits_i64(u),
{
    if u < 0x8000_0000_0000_0000 {
        u as i64
    } else {
        ((u as i128) - 0x1_0000_0000_0000_0000) as i64
    }
}

} // verus!
