//! Byte-order helpers.
//!
//! Header fields are stored on the wire most significant byte first.  The
//! kernel-side programs load them with plain little-endian loads, so a field
//! is handled in two forms: its *value* (network order decoded) and its *raw*
//! form (the integer a little-endian load of the same bytes yields).  The two
//! differ by a byte swap.

use vstd::prelude::*;

verus! {

/// The 16-bit byte swap.
pub open spec fn swap16(x: u16) -> u16 {
    ((x % 256) * 256 + x / 256) as u16
}

/// The 32-bit byte swap.
pub open spec fn swap32(x: u32) -> u32 {
    ((x % 256) * 16777216 + ((x / 256) % 256) * 65536 + ((x / 65536) % 256) * 256 + x
        / 16777216) as u32
}

/// Swaps the two bytes of `x`.
pub fn swap_bytes16(x: u16) -> (r: u16)
    ensures
        r == swap16(x),
{
    (x % 256) * 256 + x / 256
}

/// Reverses the four bytes of `x`.
pub fn swap_bytes32(x: u32) -> (r: u32)
    ensures
        r == swap32(x),
{
    (x % 256) * 16777216 + ((x / 256) % 256) * 65536 + ((x / 65536) % 256) * 256 + x / 16777216
}

/// Swapping twice gives the value back.
pub proof fn lemma_swap16_involution(x: u16)
    ensures
        swap16(swap16(x)) == x,
{
    assert(((((x % 256) * 256 + x / 256) as u16 % 256) * 256 + ((x % 256) * 256 + x / 256) as u16
        / 256) as u16 == x) by (bit_vector);
}

/// Swapping twice gives the value back.
pub proof fn lemma_swap32_involution(x: u32)
    ensures
        swap32(swap32(x)) == x,
{
    let y: u32 = swap32(x);
    assert(y == ((x % 256) * 16777216 + ((x / 256) % 256) * 65536 + ((x / 65536) % 256) * 256 + x
        / 16777216) as u32);
    assert(y == ((x % 256) * 16777216 + ((x / 256) % 256) * 65536 + ((x / 65536) % 256) * 256 + x
        / 16777216) as u32 ==> ((y % 256) * 16777216 + ((y / 256) % 256) * 65536 + ((y / 65536)
        % 256) * 256 + y / 16777216) as u32 == x) by (bit_vector);
}

} // verus!

verus! {

/// The eight little-endian bytes of `x`.
pub open spec fn u64_le_bytes(x: u64) -> Seq<u8> {
    seq![
        (x % 256) as u8,
        ((x / 256) % 256) as u8,
        ((x / 65536) % 256) as u8,
        ((x / 16777216) % 256) as u8,
        ((x / 4294967296) % 256) as u8,
        ((x / 1099511627776) % 256) as u8,
        ((x / 281474976710656) % 256) as u8,
        (x / 72057594037927936) as u8,
    ]
}

/// The 64-bit value stored little-endian at `i`.
pub open spec fn le_u64_at(s: Seq<u8>, i: int) -> u64 {
    (s[i] + 256 * s[i + 1] + 65536 * s[i + 2] + 16777216 * s[i + 3] + 4294967296 * s[i + 4]
        + 1099511627776 * s[i + 5] + 281474976710656 * s[i + 6] + 72057594037927936 * s[i
        + 7]) as u64
}

/// Reading back the bytes of a value gives the value.
pub proof fn lemma_u64_le_roundtrip(x: u64, s: Seq<u8>, i: int)
    requires
        0 <= i,
        i + 8 <= s.len(),
        s.subrange(i, i + 8) == u64_le_bytes(x),
    ensures
        le_u64_at(s, i) == x,
{
    let b = u64_le_bytes(x);
    assert(s[i] == b[0]);
    assert(s[i + 1] == b[1]);
    assert(s[i + 2] == b[2]);
    assert(s[i + 3] == b[3]);
    assert(s[i + 4] == b[4]);
    assert(s[i + 5] == b[5]);
    assert(s[i + 6] == b[6]);
    assert(s[i + 7] == b[7]);
    assert((((x % 256) as u8) + 256 * (((x / 256) % 256) as u8) + 65536 * (((x / 65536)
        % 256) as u8) + 16777216 * (((x / 16777216) % 256) as u8) + 4294967296 * (((x
        / 4294967296) % 256) as u8) + 1099511627776 * (((x / 1099511627776) % 256) as u8)
        + 281474976710656 * (((x / 281474976710656) % 256) as u8) + 72057594037927936 * ((x
        / 72057594037927936) as u8)) as u64 == x) by (bit_vector);
}

/// Appends the eight little-endian bytes of `x`.
pub fn push_u64_le(out: &mut Vec<u8>, x: u64)
    ensures
        final(out)@ == old(out)@ + u64_le_bytes(x),
{
    out.push((x % 256) as u8);
    out.push(((x / 256) % 256) as u8);
    out.push(((x / 65536) % 256) as u8);
    out.push(((x / 16777216) % 256) as u8);
    out.push(((x / 4294967296) % 256) as u8);
    out.push(((x / 1099511627776) % 256) as u8);
    out.push(((x / 281474976710656) % 256) as u8);
    out.push((x / 72057594037927936) as u8);
    assert(final(out)@ =~= old(out)@ + u64_le_bytes(x));
}

/// Reads the 64-bit value stored little-endian at `i`.
pub fn load_u64_le(s: &[u8], i: usize) -> (r: u64)
    requires
        i + 8 <= s@.len(),
    ensures
        r == le_u64_at(s@, i as int),
{
    s[i] as u64 + 256 * (s[i + 1] as u64) + 65536 * (s[i + 2] as u64) + 16777216 * (s[i
        + 3] as u64) + 4294967296 * (s[i + 4] as u64) + 1099511627776 * (s[i + 5] as u64)
        + 281474976710656 * (s[i + 6] as u64) + 72057594037927936 * (s[i + 7] as u64)
}

/// Appends `n` zero bytes.
pub fn push_zeros(out: &mut Vec<u8>, n: usize)
    ensures
        final(out)@ == old(out)@ + Seq::new(n as nat, |i: int| 0u8),
{
    let ghost start = out@;
    let mut k: usize = 0;
    while k < n
        invariant
            k <= n,
            out@ == start + Seq::new(k as nat, |i: int| 0u8),
        decreases n - k,
    {
        out.push(0u8);
        k = k + 1;
        assert(out@ =~= start + Seq::new(k as nat, |i: int| 0u8));
    }
}

/// Appends the bytes of `src`.
pub fn push_bytes(out: &mut Vec<u8>, src: &[u8])
    ensures
        final(out)@ == old(out)@ + src@,
{
    let ghost start = out@;
    let mut k: usize = 0;
    while k < src.len()
        invariant
            k <= src@.len(),
            out@ == start + src@.subrange(0, k as int),
        decreases src@.len() - k,
    {
        out.push(src[k]);
        k = k + 1;
        assert(out@ =~= start + src@.subrange(0, k as int));
    }
    assert(src@.subrange(0, src@.len() as int) =~= src@);
}

} // verus!
