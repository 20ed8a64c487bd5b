//! Layout of the Ethernet / IPv4 / UDP headers the programs look at, and
//! bounds-checked field access on packet bytes.

use crate::wire::{swap16, swap32};
use vstd::prelude::*;

verus! {

/// Length of an Ethernet header.
pub const ETH_HDR_LEN: usize = 14;

/// Length of an IPv4 header without options.
pub const IPV4_HDR_LEN: usize = 20;

/// Length of a UDP header.
pub const UDP_HDR_LEN: usize = 8;

/// Offset of the destination MAC address.
pub const ETH_DST: usize = 0;

/// Offset of the source MAC address.
pub const ETH_SRC: usize = 6;

/// Offset of the EtherType field.
pub const ETH_TYPE: usize = 12;

/// EtherType of IPv4.
pub const ETHER_TYPE_IPV4: u16 = 0x0800;

/// Offset of the IPv4 protocol field.
pub const IP_PROTO: usize = 23;

/// Offset of the IPv4 header checksum.
pub const IP_CHECK: usize = 24;

/// Offset of the IPv4 source address.
pub const IP_SRC: usize = 26;

/// Offset of the IPv4 destination address.
pub const IP_DST: usize = 30;

/// IP protocol number of UDP.
pub const IP_PROTO_UDP: u8 = 17;

/// Offset of the UDP source port (IPv4 header without options).
pub const UDP_SRC: usize = 34;

/// Offset of the UDP destination port.
pub const UDP_DST: usize = 36;

/// Offset of the UDP checksum.
pub const UDP_CHECK: usize = 40;

/// Offset of the UDP payload.
pub const UDP_PAYLOAD: usize = 42;

/// XDP action, abort processing.
pub const XDP_ABORTED: u32 = 0;

/// XDP action, drop the packet.
pub const XDP_DROP: u32 = 1;

/// XDP action, let the packet through.
pub const XDP_PASS: u32 = 2;

/// XDP action, send the packet back out of the interface it came in on.
pub const XDP_TX: u32 = 3;

/// XDP action, the packet was redirected.
pub const XDP_REDIRECT: u32 = 4;

/// Ring-buffer submit flag: do not wake the reader.
pub const BPF_RB_NO_WAKEUP: u64 = 1;

/// Ring-buffer submit flag: wake the reader whatever its position.
pub const BPF_RB_FORCE_WAKEUP: u64 = 2;

/// TC action, continue with the next action.
pub const TC_ACT_PIPE: i32 = 3;

/// The raw form of the 16-bit field at `i`: a little-endian load of its bytes.
pub open spec fn raw16_at(p: Seq<u8>, i: int) -> u16 {
    (p[i] + 256 * p[i + 1]) as u16
}

/// The value of the 16-bit field at `i`, decoded in network order.
pub open spec fn be16_at(p: Seq<u8>, i: int) -> u16 {
    (256 * p[i] + p[i + 1]) as u16
}

/// The raw form of the 32-bit field at `i`: a little-endian load of its bytes.
pub open spec fn raw32_at(p: Seq<u8>, i: int) -> u32 {
    (p[i] + 256 * p[i + 1] + 65536 * p[i + 2] + 16777216 * p[i + 3]) as u32
}

/// The value of the 32-bit field at `i`, decoded in network order.
pub open spec fn be32_at(p: Seq<u8>, i: int) -> u32 {
    (16777216 * p[i] + 65536 * p[i + 1] + 256 * p[i + 2] + p[i + 3]) as u32
}

/// `p` with the raw 16-bit value `v` stored at `i` (little-endian store).
pub open spec fn put_raw16(p: Seq<u8>, i: int, v: u16) -> Seq<u8> {
    p.update(i, (v % 256) as u8).update(i + 1, (v / 256) as u8)
}

/// `p` with the raw 32-bit value `v` stored at `i` (little-endian store).
pub open spec fn put_raw32(p: Seq<u8>, i: int, v: u32) -> Seq<u8> {
    p.update(i, (v % 256) as u8).update(i + 1, ((v / 256) % 256) as u8).update(
        i + 2,
        ((v / 65536) % 256) as u8,
    ).update(i + 3, (v / 16777216) as u8)
}

/// A raw load is the byte swap of the network-order value.
pub proof fn lemma_raw16_is_swapped(p: Seq<u8>, i: int)
    requires
        0 <= i,
        i + 1 < p.len(),
    ensures
        raw16_at(p, i) == swap16(be16_at(p, i)),
        be16_at(p, i) == swap16(raw16_at(p, i)),
{
    let a: u8 = p[i];
    let b: u8 = p[i + 1];
    assert(((a + 256 * b) as u16) == swap16((256 * a + b) as u16) && ((256 * a + b) as u16)
        == swap16((a + 256 * b) as u16)) by (bit_vector);
}

/// A raw load is the byte swap of the network-order value.
pub proof fn lemma_raw32_is_swapped(p: Seq<u8>, i: int)
    requires
        0 <= i,
        i + 3 < p.len(),
    ensures
        raw32_at(p, i) == swap32(be32_at(p, i)),
        be32_at(p, i) == swap32(raw32_at(p, i)),
{
    let a: u8 = p[i];
    let b: u8 = p[i + 1];
    let c: u8 = p[i + 2];
    let d: u8 = p[i + 3];
    assert(((a + 256 * b + 65536 * c + 16777216 * d) as u32) == swap32(
        (16777216 * a + 65536 * b + 256 * c + d) as u32,
    ) && ((16777216 * a + 65536 * b + 256 * c + d) as u32) == swap32(
        (a + 256 * b + 65536 * c + 16777216 * d) as u32,
    )) by (bit_vector);
}

/// Storing a raw value and loading it again gives it back.
pub proof fn lemma_put_raw16_load(p: Seq<u8>, i: int, v: u16)
    requires
        0 <= i,
        i + 1 < p.len(),
    ensures
        raw16_at(put_raw16(p, i, v), i) == v,
        be16_at(put_raw16(p, i, v), i) == swap16(v),
        put_raw16(p, i, v).len() == p.len(),
{
    let q = put_raw16(p, i, v);
    assert(q[i] == (v % 256) as u8);
    assert(q[i + 1] == (v / 256) as u8);
    assert((((v % 256) as u8) + 256 * ((v / 256) as u8)) as u16 == v && (256 * ((v % 256) as u8)
        + ((v / 256) as u8)) as u16 == swap16(v)) by (bit_vector);
}

/// Storing a raw value and loading it again gives it back.
pub proof fn lemma_put_raw32_load(p: Seq<u8>, i: int, v: u32)
    requires
        0 <= i,
        i + 3 < p.len(),
    ensures
        raw32_at(put_raw32(p, i, v), i) == v,
        be32_at(put_raw32(p, i, v), i) == swap32(v),
        put_raw32(p, i, v).len() == p.len(),
{
    let q = put_raw32(p, i, v);
    assert(q[i] == (v % 256) as u8);
    assert(q[i + 1] == ((v / 256) % 256) as u8);
    assert(q[i + 2] == ((v / 65536) % 256) as u8);
    assert(q[i + 3] == (v / 16777216) as u8);
    assert((((v % 256) as u8) + 256 * (((v / 256) % 256) as u8) + 65536 * (((v / 65536)
        % 256) as u8) + 16777216 * ((v / 16777216) as u8)) as u32 == v && (16777216 * ((v
        % 256) as u8) + 65536 * (((v / 256) % 256) as u8) + 256 * (((v / 65536) % 256) as u8) + ((v
        / 16777216) as u8)) as u32 == swap32(v)) by (bit_vector);
}

/// Loads the raw 16-bit field at `i`.
pub fn load_raw16(p: &[u8], i: usize) -> (r: u16)
    requires
        i + 1 < p@.len(),
    ensures
        r == raw16_at(p@, i as int),
{
    p[i] as u16 + 256 * (p[i + 1] as u16)
}

/// Loads the 16-bit field at `i` in network order.
pub fn load_be16(p: &[u8], i: usize) -> (r: u16)
    requires
        i + 1 < p@.len(),
    ensures
        r == be16_at(p@, i as int),
{
    256 * (p[i] as u16) + p[i + 1] as u16
}

/// Loads the raw 32-bit field at `i`.
pub fn load_raw32(p: &[u8], i: usize) -> (r: u32)
    requires
        i + 3 < p@.len(),
    ensures
        r == raw32_at(p@, i as int),
{
    p[i] as u32 + 256 * (p[i + 1] as u32) + 65536 * (p[i + 2] as u32) + 16777216 * (p[i
        + 3] as u32)
}

/// Loads the 32-bit field at `i` in network order.
pub fn load_be32(p: &[u8], i: usize) -> (r: u32)
    requires
        i + 3 < p@.len(),
    ensures
        r == be32_at(p@, i as int),
{
    16777216 * (p[i] as u32) + 65536 * (p[i + 1] as u32) + 256 * (p[i + 2] as u32) + p[i
        + 3] as u32
}

/// Stores the raw 16-bit value `v` at `i`.
pub fn store_raw16(p: &mut Vec<u8>, i: usize, v: u16)
    requires
        i + 1 < old(p)@.len(),
    ensures
        final(p)@ == put_raw16(old(p)@, i as int, v),
{
    let len: usize = p.len();
    assert(i + 1 < len);
    let i1: usize = i + 1;
    p.set(i, (v % 256) as u8);
    p.set(i1, (v / 256) as u8);
}

/// Stores the raw 32-bit value `v` at `i`.
pub fn store_raw32(p: &mut Vec<u8>, i: usize, v: u32)
    requires
        i + 3 < old(p)@.len(),
    ensures
        final(p)@ == put_raw32(old(p)@, i as int, v),
{
    let len: usize = p.len();
    assert(i + 3 < len);
    let i1: usize = i + 1;
    let i2: usize = i + 2;
    let i3: usize = i + 3;
    p.set(i, (v % 256) as u8);
    p.set(i1, ((v / 256) % 256) as u8);
    p.set(i2, ((v / 65536) % 256) as u8);
    p.set(i3, (v / 16777216) as u8);
}

/// Whether `size` bytes starting at `offset` lie inside a packet of `len` bytes.
pub open spec fn in_bounds(len: nat, offset: int, size: int) -> bool {
    offset + size <= len
}

/// Copies `size` bytes at `offset` out of `buf`, refusing a read that would
/// leave the buffer.
pub fn read(buf: &[u8], offset: usize, size: usize) -> (r: Result<Vec<u8>, &'static str>)
    ensures
        r is Ok <==> in_bounds(buf@.len(), offset as int, size as int),
        r matches Ok(v) ==> v@ == buf@.subrange(offset as int, offset + size),
{
    if offset > buf.len() || size > buf.len() - offset {
        return Err("Offset out of buffer scope");
    }
    Ok(read_unchecked(buf, offset, size))
}

/// Copies `size` bytes at `pos` out of `buf`; the caller guarantees the bounds.
pub fn read_unchecked(buf: &[u8], pos: usize, size: usize) -> (r: Vec<u8>)
    requires
        pos + size <= buf@.len(),
    ensures
        r@ == buf@.subrange(pos as int, pos + size),
{
    let mut out: Vec<u8> = Vec::with_capacity(size);
    let mut k: usize = 0;
    let n: usize = buf.len();
    while k < size
        invariant
            n == buf@.len(),
            pos + size <= buf@.len(),
            k <= size,
            out@ == buf@.subrange(pos as int, pos + k),
        decreases size - k,
    {
        out.push(buf[pos + k]);
        k = k + 1;
        assert(out@ =~= buf@.subrange(pos as int, pos + k));
    }
    out
}

/// What an XDP program asks of an AF_XDP socket map: send the frame to the
/// socket registered for `queue`, or answer with the action `fallback` when
/// there is none.
#[derive(Clone, Copy, Debug, PartialEq, Eq, Structural)]
pub struct XskRedirect {
    pub queue: u32,
    pub fallback: u64,
}

/// The request the redirecting programs make: the frame's receive queue,
/// falling back to passing the frame on.
pub open spec fn xsk_request(rx_queue: u32) -> XskRedirect {
    XskRedirect { queue: rx_queue, fallback: XDP_PASS as u64 }
}

/// The UDP four-tuple of an IPv4 packet, all in host order.
#[derive(Clone, Copy, Debug, PartialEq, Eq, Structural)]
pub struct Endpoints {
    pub src_addr: u32,
    pub src_port: u16,
    pub dst_addr: u32,
    pub dst_port: u16,
}

/// The four-tuple read from the IPv4 and UDP headers of a frame that starts at `base`.
pub open spec fn spec_endpoints(p: Seq<u8>, base: int) -> Endpoints {
    Endpoints {
        src_addr: be32_at(p, base + IP_SRC),
        src_port: be16_at(p, base + UDP_SRC),
        dst_addr: be32_at(p, base + IP_DST),
        dst_port: be16_at(p, base + UDP_DST),
    }
}

/// Reads the four-tuple of the frame at `base`; `None` when the IPv4 and UDP
/// headers do not fit in the buffer.
pub fn udp_endpoints(p: &[u8], base: usize) -> (r: Option<Endpoints>)
    ensures
        r is Some <==> base + UDP_PAYLOAD <= p@.len(),
        r matches Some(e) ==> e == spec_endpoints(p@, base as int),
{
    if base > p.len() || UDP_PAYLOAD > p.len() - base {
        return None;
    }
    Some(
        Endpoints {
            src_addr: load_be32(p, base + IP_SRC),
            src_port: load_be16(p, base + UDP_SRC),
            dst_addr: load_be32(p, base + IP_DST),
            dst_port: load_be16(p, base + UDP_DST),
        },
    )
}

/// An IPv4 packet carrying UDP, by its EtherType and protocol fields.
pub open spec fn is_ipv4_udp(p: Seq<u8>) -> bool {
    &&& UDP_PAYLOAD <= p.len()
    &&& be16_at(p, ETH_TYPE as int) == ETHER_TYPE_IPV4
    &&& p[IP_PROTO as int] == IP_PROTO_UDP
}

} // verus!
