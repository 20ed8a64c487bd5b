//! What the router promises across its operations: rewrites keep the IPv4
//! header checksum valid, mirroring undoes itself, an added route forwards
//! packets both ways, removal undoes addition, and the policy decides the
//! packets no rule claims.

use crate::checksum::{congruent_ffff, hi_word, lemma_adjust_congruent, lo_word, spec_adjust};
use crate::packet::{
    be16_at, be32_at, is_ipv4_udp, lemma_put_raw16_load, lemma_put_raw32_load,
    lemma_raw16_is_swapped, lemma_raw32_is_swapped, raw16_at, raw32_at, IP_DST, IP_SRC,
    UDP_DST, UDP_PAYLOAD, UDP_SRC,
};
use crate::router::{
    forwarded, keys_consistent, lemma_route_key_injective, mirror_hit, mirrored, packet_half,
    policy_named, route_key, spec_mirror_add, spec_mirror_remove, spec_policy_handler,
    spec_process, spec_process_udp, spec_route_add, spec_route_remove, tables_wf, wire_half,
    ApiReply, HalfRoute, Policy, RouterView, SocketAddress, XdpAction, MIRROR_TEST_PORT,
};
use crate::wire::{lemma_swap16_involution, swap16, swap32};
use vstd::prelude::*;

verus! {

/// The sum of the ten 16-bit words of the IPv4 header (no options), each
/// taken in network order.
pub open spec fn ip_header_sum(p: Seq<u8>) -> int {
    be16_at(p, 14) + be16_at(p, 16) + be16_at(p, 18) + be16_at(p, 20) + be16_at(p, 22) + be16_at(
        p,
        24,
    ) + be16_at(p, 26) + be16_at(p, 28) + be16_at(p, 30) + be16_at(p, 32)
}

/// The IPv4 header checksum verifies: the one's-complement sum of the header
/// words is all ones, i.e. their sum is a multiple of 0xFFFF.
pub open spec fn ipv4_checksum_ok(p: Seq<u8>) -> bool {
    ip_header_sum(p) % 65535 == 0
}

/// Mirroring a packet twice gives the packet back.
pub proof fn law_mirror_involution(p: Seq<u8>)
    requires
        UDP_PAYLOAD <= p.len(),
    ensures
        mirrored(mirrored(p)) == p,
{
    assert(mirrored(mirrored(p)) =~= p);
}

/// Mirroring leaves the IPv4 header sum unchanged: it only exchanges the
/// source and destination address words.
pub proof fn law_mirror_keeps_header_sum(p: Seq<u8>)
    requires
        UDP_PAYLOAD <= p.len(),
    ensures
        ip_header_sum(mirrored(p)) == ip_header_sum(p),
        mirrored(p).len() == p.len(),
{
    let q = mirrored(p);
    assert(be16_at(q, 26) == be16_at(p, 30));
    assert(be16_at(q, 28) == be16_at(p, 32));
    assert(be16_at(q, 30) == be16_at(p, 26));
    assert(be16_at(q, 32) == be16_at(p, 28));
    assert(be16_at(q, 14) == be16_at(p, 14));
    assert(be16_at(q, 16) == be16_at(p, 16));
    assert(be16_at(q, 18) == be16_at(p, 18));
    assert(be16_at(q, 20) == be16_at(p, 20));
    assert(be16_at(q, 22) == be16_at(p, 22));
    assert(be16_at(q, 24) == be16_at(p, 24));
}

/// The two 16-bit words of a network-order 32-bit field.
pub proof fn lemma_be32_words(p: Seq<u8>, i: int)
    requires
        0 <= i,
        i + 3 < p.len(),
    ensures
        hi_word(be32_at(p, i)) == be16_at(p, i),
        lo_word(be32_at(p, i)) == be16_at(p, i + 2),
{
    let a: u8 = p[i];
    let b: u8 = p[i + 1];
    let c: u8 = p[i + 2];
    let d: u8 = p[i + 3];
    assert((((16777216 * a + 65536 * b + 256 * c + d) as u32) / 65536) as u16 == (256 * a
        + b) as u16 && (((16777216 * a + 65536 * b + 256 * c + d) as u32) % 65536) as u16 == (256
        * c + d) as u16) by (bit_vector);
}

/// The header fields of a forwarded packet.
pub proof fn lemma_forwarded_fields(p: Seq<u8>, h: HalfRoute)
    requires
        UDP_PAYLOAD <= p.len(),
    ensures
        forwarded(p, h).len() == p.len(),
        forall|i: int| 12 <= i < 24 ==> #[trigger] forwarded(p, h)[i] == p[i],
        be16_at(forwarded(p, h), 24) == spec_adjust(
            be16_at(p, 24),
            be32_at(p, IP_SRC as int),
            swap32(h.reflexive_addr),
        ),
        be16_at(forwarded(p, h), 26) == be16_at(p, 30),
        be16_at(forwarded(p, h), 28) == be16_at(p, 32),
        be32_at(forwarded(p, h), IP_SRC as int) == be32_at(p, IP_DST as int),
        be32_at(forwarded(p, h), IP_DST as int) == swap32(h.reflexive_addr),
        be16_at(forwarded(p, h), UDP_SRC as int) == swap16(h.router_port),
        be16_at(forwarded(p, h), UDP_DST as int) == swap16(h.reflexive_port),
{
    let old_src = raw32_at(p, IP_SRC as int);
    let old_dst = raw32_at(p, IP_DST as int);
    let q0 = crate::router::swapped(p, 0, 6, 6);
    let q1 = crate::packet::put_raw32(q0, IP_SRC as int, old_dst);
    let q2 = crate::packet::put_raw32(q1, IP_DST as int, h.reflexive_addr);
    let c = crate::router::spec_adjust_raw(raw16_at(p, 24), old_src, h.reflexive_addr);
    let q3 = crate::packet::put_raw16(q2, 24, c);
    let q4 = crate::packet::put_raw16(q3, UDP_SRC as int, h.router_port);
    let q5 = crate::packet::put_raw16(q4, UDP_DST as int, h.reflexive_port);
    let q = crate::packet::put_raw16(q5, 40, 0);
    assert(q == forwarded(p, h));
    lemma_put_raw32_load(q0, IP_SRC as int, old_dst);
    lemma_put_raw32_load(q1, IP_DST as int, h.reflexive_addr);
    lemma_put_raw16_load(q2, 24, c);
    lemma_put_raw16_load(q3, UDP_SRC as int, h.router_port);
    lemma_put_raw16_load(q4, UDP_DST as int, h.reflexive_port);
    lemma_raw32_is_swapped(p, IP_DST as int);
    lemma_raw32_is_swapped(p, IP_SRC as int);
    lemma_raw16_is_swapped(p, 24);
    lemma_swap16_involution(spec_adjust(swap16(raw16_at(p, 24)), swap32(old_src), swap32(h.reflexive_addr)));
    assert(be32_at(q1, IP_SRC as int) == be32_at(p, IP_DST as int));
    assert(be32_at(q, IP_SRC as int) == be32_at(q1, IP_SRC as int));
    assert(be32_at(q, IP_DST as int) == be32_at(q2, IP_DST as int));
    assert(be16_at(q, 24) == be16_at(q3, 24));
    assert(be16_at(q, UDP_SRC as int) == be16_at(q4, UDP_SRC as int));
    assert(be16_at(q, UDP_DST as int) == be16_at(q5, UDP_DST as int));
    assert(be16_at(q1, 26) == be16_at(p, 30));
    assert(be16_at(q1, 28) == be16_at(p, 32));
    assert(be16_at(q, 26) == be16_at(q1, 26));
    assert(be16_at(q, 28) == be16_at(q1, 28));
}

/// Forwarding along a route changes the IPv4 header sum only by a multiple of
/// 0xFFFF, so a header whose checksum verified still verifies.
pub proof fn law_forward_keeps_checksum(p: Seq<u8>, h: HalfRoute)
    requires
        UDP_PAYLOAD <= p.len(),
    ensures
        congruent_ffff(ip_header_sum(forwarded(p, h)), ip_header_sum(p)),
        ipv4_checksum_ok(p) ==> ipv4_checksum_ok(forwarded(p, h)),
{
    let q = forwarded(p, h);
    lemma_forwarded_fields(p, h);
    let x: u32 = swap32(h.reflexive_addr);
    let old_src: u32 = be32_at(p, IP_SRC as int);
    lemma_be32_words(p, IP_SRC as int);
    lemma_be32_words(q, IP_DST as int);
    lemma_adjust_congruent(be16_at(p, 24), old_src, x);
    assert(be16_at(q, 14) == be16_at(p, 14));
    assert(be16_at(q, 16) == be16_at(p, 16));
    assert(be16_at(q, 18) == be16_at(p, 18));
    assert(be16_at(q, 20) == be16_at(p, 20));
    assert(be16_at(q, 22) == be16_at(p, 22));
    let d: int = be16_at(q, 24) - (be16_at(p, 24) - hi_word(x) - lo_word(x) + hi_word(old_src)
        + lo_word(old_src));
    assert(ip_header_sum(q) - ip_header_sum(p) == d);
    vstd::arithmetic::div_mod::lemma_mod_equivalence(ip_header_sum(q), ip_header_sum(p), 65535);
}

/// Whatever the tables, the router never turns a valid IPv4 header checksum
/// into an invalid one.
pub proof fn law_process_keeps_checksum(t: RouterView, p: Seq<u8>)
    ensures
        ipv4_checksum_ok(p) ==> ipv4_checksum_ok(spec_process(t, p).1),
        spec_process(t, p).1.len() == p.len(),
{
    if UDP_PAYLOAD <= p.len() {
        law_mirror_keeps_header_sum(p);
        let key = route_key(packet_half(p));
        if t.routes.contains_key(key) {
            law_forward_keeps_checksum(p, t.routes[key].1);
            lemma_forwarded_fields(p, t.routes[key].1);
        }
    }
}

/// The UDP step never turns a valid IPv4 header checksum into an invalid
/// one: mirroring exchanges address words, forwarding adjusts the checksum
/// for the address it replaces.
pub proof fn law_process_udp_keeps_checksum(t: RouterView, p: Seq<u8>)
    requires
        UDP_PAYLOAD <= p.len(),
    ensures
        ipv4_checksum_ok(p) ==> ipv4_checksum_ok(spec_process_udp(t, p).1),
        spec_process_udp(t, p).1.len() == p.len(),
{
    law_mirror_keeps_header_sum(p);
    let key = route_key(packet_half(p));
    if t.routes.contains_key(key) {
        law_forward_keeps_checksum(p, t.routes[key].1);
        lemma_forwarded_fields(p, t.routes[key].1);
    }
}

/// On an IPv4/UDP packet the router's verdict is that of its UDP step, so
/// what is proved of the one (such as `law_route_add_forwards`) holds of the
/// other.
pub proof fn law_process_is_udp_step(t: RouterView, p: Seq<u8>)
    requires
        is_ipv4_udp(p),
    ensures
        spec_process(t, p) == spec_process_udp(t, p),
{
}

/// Only a transmit verdict rewrites the packet.
pub proof fn law_only_tx_rewrites(t: RouterView, p: Seq<u8>)
    ensures
        spec_process(t, p).0 != Ok::<XdpAction, crate::router::XdpError>(XdpAction::Tx) ==> spec_process(t, p).1 == p,
{
}

/// The raw half route a UDP packet looks up, from its host-order fields.
proof fn lemma_packet_half(p: Seq<u8>)
    requires
        UDP_PAYLOAD <= p.len(),
    ensures
        packet_half(p) == wire_half(
            be32_at(p, IP_SRC as int),
            be16_at(p, UDP_SRC as int),
            be16_at(p, UDP_DST as int),
        ),
{
    lemma_raw32_is_swapped(p, IP_SRC as int);
    lemma_raw16_is_swapped(p, UDP_SRC as int);
    lemma_raw16_is_swapped(p, UDP_DST as int);
}

/// Read after write: once the route between `a:p` (router port `sport`) and
/// `b:q` (router port `dport`) is added, a UDP packet from `a:p` to router
/// port `sport` leaves towards `b:q` from router port `dport`, with the
/// router's address as source; and a packet from `b:q` to router port
/// `dport` leaves towards `a:p` from router port `sport`.
pub proof fn law_route_add_forwards(
    t: RouterView,
    a: u32,
    p: u16,
    sport: u16,
    b: u32,
    q: u16,
    dport: u16,
    pkt: Seq<u8>,
)
    requires
        spec_route_add(t, SocketAddress::V4 { addr: a, port: p }, sport, SocketAddress::V4 { addr: b, port: q }, dport).1 == ApiReply::Done,
        is_ipv4_udp(pkt),
        (be32_at(pkt, IP_SRC as int) == a && be16_at(pkt, UDP_SRC as int) == p && be16_at(pkt, UDP_DST as int) == sport)
            || (be32_at(pkt, IP_SRC as int) == b && be16_at(pkt, UDP_SRC as int) == q && be16_at(pkt, UDP_DST as int) == dport),
        be16_at(pkt, UDP_DST as int) != MIRROR_TEST_PORT,
        !mirror_hit(t, swap16(be16_at(pkt, UDP_DST as int))),
    ensures
        ({
            let t2 = spec_route_add(t, SocketAddress::V4 { addr: a, port: p }, sport, SocketAddress::V4 { addr: b, port: q }, dport).0;
            let (r, out) = spec_process(t2, pkt);
            &&& r == Ok::<XdpAction, crate::router::XdpError>(XdpAction::Tx)
            &&& out.len() == pkt.len()
            &&& be32_at(out, IP_SRC as int) == be32_at(pkt, IP_DST as int)
            &&& be16_at(pkt, UDP_DST as int) == sport && be32_at(pkt, IP_SRC as int) == a && be16_at(pkt, UDP_SRC as int) == p ==> {
                &&& be32_at(out, IP_DST as int) == b
                &&& be16_at(out, UDP_DST as int) == q
                &&& be16_at(out, UDP_SRC as int) == dport
            }
            &&& be16_at(pkt, UDP_DST as int) == dport && be32_at(pkt, IP_SRC as int) == b && be16_at(pkt, UDP_SRC as int) == q ==> {
                &&& be32_at(out, IP_DST as int) == a
                &&& be16_at(out, UDP_DST as int) == p
                &&& be16_at(out, UDP_SRC as int) == sport
            }
        }),
{
    let h1 = wire_half(a, p, sport);
    let h2 = wire_half(b, q, dport);
    let k1 = route_key(h1);
    let k2 = route_key(h2);
    let t2 = spec_route_add(t, SocketAddress::V4 { addr: a, port: p }, sport, SocketAddress::V4 { addr: b, port: q }, dport).0;
    lemma_packet_half(pkt);
    lemma_route_key_injective(h1, h2);
    lemma_raw16_is_swapped(pkt, UDP_DST as int);
    crate::router::law_half_route_roundtrip(HalfRoute { reflexive_addr: a, reflexive_port: p, router_port: sport });
    crate::router::law_half_route_roundtrip(HalfRoute { reflexive_addr: b, reflexive_port: q, router_port: dport });
    assert(t2.routes[k1].1 == h2);
    assert(t2.routes[k2].1 == h1);
    let key = route_key(packet_half(pkt));
    if be32_at(pkt, IP_SRC as int) == a && be16_at(pkt, UDP_SRC as int) == p && be16_at(pkt, UDP_DST as int) == sport {
        assert(key == k1);
        lemma_forwarded_fields(pkt, h2);
    }
    if be32_at(pkt, IP_SRC as int) == b && be16_at(pkt, UDP_SRC as int) == q && be16_at(pkt, UDP_DST as int) == dport {
        assert(key == k2);
        lemma_forwarded_fields(pkt, h1);
    }
}

/// Removing a route that was just added succeeds and gives the tables back.
pub proof fn law_route_add_then_remove(t: RouterView, src: SocketAddress, sport: u16, dst: SocketAddress, dport: u16)
    requires
        spec_route_add(t, src, sport, dst, dport).1 == ApiReply::Done,
    ensures
        spec_route_remove(spec_route_add(t, src, sport, dst, dport).0, src, sport, dst, dport) == (t, ApiReply::Done),
{
    let t2 = spec_route_add(t, src, sport, dst, dport).0;
    let (h1, h2) = crate::router::route_halves(src, sport, dst, dport).unwrap();
    let k1 = route_key(h1);
    let k2 = route_key(h2);
    assert(t2.routes.remove(k1).remove(k2) =~= t.routes);
    assert(t2.mirrors == t.mirrors);
}

/// Every route entry has a partner going the other way: the entry under key
/// `k` holds the half route whose key is `k`, and the entry of its other half
/// points back to it.
pub open spec fn symmetric_routes(m: Map<u64, (HalfRoute, HalfRoute)>) -> bool {
    forall|k: u64|
        m.contains_key(k) ==> {
            &&& route_key(#[trigger] m[k].0) == k
            &&& m.contains_key(route_key(m[k].1))
            &&& m[route_key(m[k].1)].1 == m[k].0
        }
}

/// Adding a route keeps the route table symmetric.
pub proof fn law_route_add_keeps_symmetry(t: RouterView, src: SocketAddress, sport: u16, dst: SocketAddress, dport: u16)
    requires
        symmetric_routes(t.routes),
    ensures
        symmetric_routes(spec_route_add(t, src, sport, dst, dport).0.routes),
{
    if spec_route_add(t, src, sport, dst, dport).1 == ApiReply::Done {
        let (h1, h2) = crate::router::route_halves(src, sport, dst, dport).unwrap();
        let k1 = route_key(h1);
        let k2 = route_key(h2);
        let m = spec_route_add(t, src, sport, dst, dport).0.routes;
        lemma_route_key_injective(h1, h2);
        assert forall|k: u64| m.contains_key(k) implies {
            &&& route_key(#[trigger] m[k].0) == k
            &&& m.contains_key(route_key(m[k].1))
            &&& m[route_key(m[k].1)].1 == m[k].0
        } by {
            if k != k1 && k != k2 {
                assert(t.routes.contains_key(k));
                assert(route_key(t.routes[k].0) == k);
                let o = route_key(t.routes[k].1);
                assert(t.routes.contains_key(o));
                assert(o != k1 && o != k2);
            }
        }
    }
}

/// Removing a route whose two halves belong together keeps the route table
/// symmetric.
pub proof fn law_route_remove_keeps_symmetry(t: RouterView, src: SocketAddress, sport: u16, dst: SocketAddress, dport: u16)
    requires
        symmetric_routes(t.routes),
        crate::router::route_halves(src, sport, dst, dport) matches Some((h1, h2)) && (t.routes.contains_key(route_key(h1)) ==> t.routes[route_key(h1)].1 == h2),
    ensures
        symmetric_routes(spec_route_remove(t, src, sport, dst, dport).0.routes),
{
    if spec_route_remove(t, src, sport, dst, dport).1 == ApiReply::Done {
        let (h1, h2) = crate::router::route_halves(src, sport, dst, dport).unwrap();
        let k1 = route_key(h1);
        let k2 = route_key(h2);
        let m = spec_route_remove(t, src, sport, dst, dport).0.routes;
        assert forall|k: u64| m.contains_key(k) implies {
            &&& route_key(#[trigger] m[k].0) == k
            &&& m.contains_key(route_key(m[k].1))
            &&& m[route_key(m[k].1)].1 == m[k].0
        } by {
            assert(t.routes.contains_key(k));
            assert(route_key(t.routes[k].0) == k);
            let o = route_key(t.routes[k].1);
            assert(t.routes.contains_key(o));
            assert(route_key(t.routes[o].0) == o);
            assert(route_key(t.routes[k1].0) == k1);
            lemma_route_key_injective(t.routes[k1].0, h1);
            if o == k1 {
                lemma_route_key_injective(t.routes[o].0, h1);
                assert(t.routes[k].0 == h2);
                assert(k == k2);
            }
            if o == k2 {
                assert(route_key(t.routes[k1].1) == k2);
                assert(t.routes[k2].1 == h1);
                assert(route_key(t.routes[k].0) == k);
                assert(t.routes[o].1 == t.routes[k].0);
                assert(k == k1);
            }
        }
    }
}

/// Read after write: once port `port` (host order) is added as a mirror, a
/// UDP packet to that port is sent back to its sender.
pub proof fn law_mirror_add_mirrors(t: RouterView, port: u16, pkt: Seq<u8>)
    requires
        spec_mirror_add(t, port).1 == ApiReply::Done,
        is_ipv4_udp(pkt),
        be16_at(pkt, UDP_DST as int) == port,
    ensures
        spec_process(spec_mirror_add(t, port).0, pkt) == (Ok::<XdpAction, crate::router::XdpError>(XdpAction::Tx), mirrored(pkt)),
{
    lemma_raw16_is_swapped(pkt, UDP_DST as int);
}

/// Removing a mirror that was just added succeeds and gives the tables back.
pub proof fn law_mirror_add_then_remove(t: RouterView, port: u16)
    requires
        spec_mirror_add(t, port).1 == ApiReply::Done,
    ensures
        spec_mirror_remove(spec_mirror_add(t, port).0, port) == (t, ApiReply::Done),
{
    let t2 = spec_mirror_add(t, port).0;
    assert(t2.mirrors.remove(swap16(port)) =~= t.mirrors);
}

/// The policy decides the UDP packets that no mirror and no route claims:
/// after "drop" they are dropped, after "accept" passed on, untouched.
pub proof fn law_policy_decides_unmatched(t: RouterView, name: Seq<char>, pkt: Seq<u8>)
    requires
        policy_named(name) is Some,
        is_ipv4_udp(pkt),
        be16_at(pkt, UDP_DST as int) != MIRROR_TEST_PORT,
        !mirror_hit(t, raw16_at(pkt, UDP_DST as int)),
        !t.routes.contains_key(route_key(packet_half(pkt))),
    ensures
        spec_process(spec_policy_handler(t, name).0, pkt) == (
            Ok::<XdpAction, crate::router::XdpError>(
                if policy_named(name) == Some(Policy::Drop) {
                    XdpAction::Drop
                } else {
                    XdpAction::Pass
                },
            ),
            pkt,
        ),
{
}

} // verus!

verus! {

/// Where the route table sends the packets of half route `h`, if anywhere.
pub open spec fn route_of(m: Map<u64, (HalfRoute, HalfRoute)>, h: HalfRoute) -> Option<HalfRoute> {
    if m.contains_key(route_key(h)) {
        Some(m[route_key(h)].1)
    } else {
        None
    }
}

/// The route table pairs half routes both ways: `a` is routed to `b`
/// exactly when `b` is routed to `a`.
pub open spec fn pairwise_symmetric(m: Map<u64, (HalfRoute, HalfRoute)>) -> bool {
    forall|a: HalfRoute, b: HalfRoute|
        #![trigger route_of(m, a), route_of(m, b)]
        route_of(m, a) == Some(b) <==> route_of(m, b) == Some(a)
}

/// Per-entry symmetry gives the pairwise form, for a table whose entries lie
/// under their own keys.
proof fn lemma_symmetric_gives_pairwise(m: Map<u64, (HalfRoute, HalfRoute)>)
    requires
        keys_consistent(m),
        symmetric_routes(m),
    ensures
        pairwise_symmetric(m),
{
    assert forall|a: HalfRoute, b: HalfRoute|
        #![trigger route_of(m, a), route_of(m, b)]
        route_of(m, a) == Some(b) <==> route_of(m, b) == Some(a) by {
        let ka = route_key(a);
        let kb = route_key(b);
        if m.contains_key(ka) {
            assert(route_key(m[ka].0) == ka);
            lemma_route_key_injective(m[ka].0, a);
        }
        if m.contains_key(kb) {
            assert(route_key(m[kb].0) == kb);
            lemma_route_key_injective(m[kb].0, b);
        }
    }
}

/// The pairwise form of symmetry gives per-entry symmetry, for a table whose
/// entries lie under their own keys.
proof fn lemma_pairwise_gives_symmetric(m: Map<u64, (HalfRoute, HalfRoute)>)
    requires
        keys_consistent(m),
        pairwise_symmetric(m),
    ensures
        symmetric_routes(m),
{
    assert forall|k: u64| m.contains_key(k) implies {
        &&& route_key(#[trigger] m[k].0) == k
        &&& m.contains_key(route_key(m[k].1))
        &&& m[route_key(m[k].1)].1 == m[k].0
    } by {
        let a = m[k].0;
        let b = m[k].1;
        assert(route_key(a) == k);
        assert(route_of(m, a) == Some(b));
        assert(route_of(m, b) == Some(a));
    }
}

/// Adding a route keeps every entry under its own key.
proof fn lemma_route_add_keeps_keys(t: RouterView, src: SocketAddress, sport: u16, dst: SocketAddress, dport: u16)
    requires
        keys_consistent(t.routes),
    ensures
        keys_consistent(spec_route_add(t, src, sport, dst, dport).0.routes),
{
}

/// Removing a route keeps every entry under its own key.
proof fn lemma_route_remove_keeps_keys(t: RouterView, src: SocketAddress, sport: u16, dst: SocketAddress, dport: u16)
    requires
        keys_consistent(t.routes),
    ensures
        keys_consistent(spec_route_remove(t, src, sport, dst, dport).0.routes),
{
}

/// Whatever its answer, adding a route keeps the route table pairing half
/// routes both ways: a route is stored in both directions or not at all.
pub proof fn law_route_add_keeps_pairwise_symmetry(t: RouterView, src: SocketAddress, sport: u16, dst: SocketAddress, dport: u16)
    requires
        tables_wf(t),
        pairwise_symmetric(t.routes),
    ensures
        pairwise_symmetric(spec_route_add(t, src, sport, dst, dport).0.routes),
{
    lemma_pairwise_gives_symmetric(t.routes);
    law_route_add_keeps_symmetry(t, src, sport, dst, dport);
    lemma_route_add_keeps_keys(t, src, sport, dst, dport);
    lemma_symmetric_gives_pairwise(spec_route_add(t, src, sport, dst, dport).0.routes);
}

/// Removing a route whose two halves are paired with each other keeps the
/// route table pairing half routes both ways.
pub proof fn law_route_remove_keeps_pairwise_symmetry(t: RouterView, src: SocketAddress, sport: u16, dst: SocketAddress, dport: u16)
    requires
        tables_wf(t),
        pairwise_symmetric(t.routes),
        crate::router::route_halves(src, sport, dst, dport) matches Some((h1, h2)) && (route_of(t.routes, h1) is Some ==> route_of(t.routes, h1) == Some(h2)),
    ensures
        pairwise_symmetric(spec_route_remove(t, src, sport, dst, dport).0.routes),
{
    lemma_pairwise_gives_symmetric(t.routes);
    law_route_remove_keeps_symmetry(t, src, sport, dst, dport);
    lemma_route_remove_keeps_keys(t, src, sport, dst, dport);
    lemma_symmetric_gives_pairwise(spec_route_remove(t, src, sport, dst, dport).0.routes);
}

} // verus!

verus! {

/// The policy only decides for UDP: an IPv4 frame that holds a whole IPv4
/// header and carries any other protocol is passed on untouched, whatever
/// the tables hold (a drop policy does not drop TCP or ICMP).
pub proof fn law_non_udp_passes(t: RouterView, p: Seq<u8>)
    requires
        34 <= p.len(),
        p[12] == 0x08u8,
        p[13] == 0x00u8,
        p[23] != 17u8,
    ensures
        spec_process(t, p) == (Ok::<XdpAction, crate::router::XdpError>(XdpAction::Pass), p),
        crate::router::spec_router_xdp(t, p) == 2,
{
    assert(be16_at(p, 12) == 0x0800);
}

/// For anything but an IPv4 UDP frame the verdict does not depend on the
/// tables at all.
pub proof fn law_only_udp_consults_tables(t1: RouterView, t2: RouterView, p: Seq<u8>)
    requires
        !(UDP_PAYLOAD <= p.len() && be16_at(p, 12) == 0x0800 && p[23] == 17u8),
    ensures
        spec_process(t1, p) == spec_process(t2, p),
{
}

} // verus!
