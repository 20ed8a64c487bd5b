//! Incremental update of the IPv4 header checksum when an address changes.

use crate::wire::{swap16, swap32, swap_bytes16, swap_bytes32};
use vstd::prelude::*;

verus! {

/// Subtraction with end-around borrow, as the router computes it on 16-bit words.
pub open spec fn ones_sub(c: u16, n: u16) -> u16 {
    if c < n {
        (c - n + 65535) as u16
    } else {
        (c - n) as u16
    }
}

/// Addition with end-around carry, as the router computes it on 16-bit words.
pub open spec fn ones_add(c: u16, o: u16) -> u16 {
    if c + o > 65535 {
        (c + o - 65535) as u16
    } else {
        (c + o) as u16
    }
}

/// The high 16-bit word of an address.
pub open spec fn hi_word(x: u32) -> u16 {
    (x / 65536) as u16
}

/// The low 16-bit word of an address.
pub open spec fn lo_word(x: u32) -> u16 {
    (x % 65536) as u16
}

/// The adjusted checksum, all values in host order: the words of the new
/// address are taken out and those of the old one put back.
pub open spec fn spec_adjust(check: u16, old_ip: u32, new_ip: u32) -> u16 {
    ones_add(
        ones_sub(ones_add(ones_sub(check, hi_word(new_ip)), hi_word(old_ip)), lo_word(new_ip)),
        lo_word(old_ip),
    )
}

/// Two integers that agree modulo 0xFFFF, the modulus of one's-complement sums.
pub open spec fn congruent_ffff(a: int, b: int) -> bool {
    (a - b) % 65535 == 0
}

fn sub_ones(c: u16, n: u16) -> (r: u16)
    ensures
        r == ones_sub(c, n),
{
    if c < n {
        ((c as u32 + 65535 - n as u32)) as u16
    } else {
        c - n
    }
}

fn add_ones(c: u16, o: u16) -> (r: u16)
    ensures
        r == ones_add(c, o),
{
    let s: u32 = c as u32 + o as u32;
    if s > 65535 {
        (s - 65535) as u16
    } else {
        s as u16
    }
}

/// The adjusted checksum differs from `check - new + old` (on 16-bit words)
/// by a multiple of 0xFFFF.
pub proof fn lemma_adjust_congruent(check: u16, old_ip: u32, new_ip: u32)
    ensures
        congruent_ffff(
            spec_adjust(check, old_ip, new_ip) as int,
            check - hi_word(new_ip) - lo_word(new_ip) + hi_word(old_ip) + lo_word(old_ip),
        ),
{
    let n1: u16 = hi_word(new_ip);
    let o1: u16 = hi_word(old_ip);
    let n2: u16 = lo_word(new_ip);
    let o2: u16 = lo_word(old_ip);
    let a: u16 = ones_sub(check, n1);
    let b: u16 = ones_add(a, o1);
    let c: u16 = ones_sub(b, n2);
    let d: u16 = ones_add(c, o2);
    let ka: int = if check < n1 { 1 } else { 0 };
    let kb: int = if a + o1 > 65535 { -1 } else { 0 };
    let kc: int = if b < n2 { 1 } else { 0 };
    let kd: int = if c + o2 > 65535 { -1 } else { 0 };
    assert(a == check - n1 + 65535 * ka);
    assert(b == a + o1 + 65535 * kb);
    assert(c == b - n2 + 65535 * kc);
    assert(d == c + o2 + 65535 * kd);
    let k: int = ka + kb + kc + kd;
    assert(d - (check - n1 - n2 + o1 + o2) == 65535 * k);
    assert(-2 <= k <= 2);
    assert((65535 * k) % 65535 == 0) by {
        if k == -2 {
        } else if k == -1 {
        } else if k == 0 {
        } else if k == 1 {
        } else {
        }
    }
}

/// Adjusts an IPv4 header checksum after one address of the header changed
/// from `old_ip` to `new_ip`.  All three values are raw (little-endian loads
/// of network-order fields) and so is the result.
pub fn adjust_checksum_be(check: u16, old_ip: u32, new_ip: u32) -> (r: u16)
    ensures
        swap16(r) == spec_adjust(swap16(check), swap32(old_ip), swap32(new_ip)),
        congruent_ffff(
            swap16(r) as int,
            swap16(check) - hi_word(swap32(new_ip)) - lo_word(swap32(new_ip)) + hi_word(
                swap32(old_ip),
            ) + lo_word(swap32(old_ip)),
        ),
{
    let old_host: u32 = swap_bytes32(old_ip);
    let new_host: u32 = swap_bytes32(new_ip);
    let n1: u16 = (new_host / 65536) as u16;
    let o1: u16 = (old_host / 65536) as u16;
    let n2: u16 = (new_host % 65536) as u16;
    let o2: u16 = (old_host % 65536) as u16;

    let mut c: u16 = swap_bytes16(check);
    c = sub_ones(c, n1);
    c = add_ones(c, o1);
    c = sub_ones(c, n2);
    c = add_ones(c, o2);

    let r: u16 = swap_bytes16(c);
    proof {
        crate::wire::lemma_swap16_involution(c);
        lemma_adjust_congruent(swap16(check), old_host, new_host);
    }
    r
}

} // verus!
