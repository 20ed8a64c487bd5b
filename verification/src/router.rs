//! The UDP router: the shared rule tables, the XDP verdict on each packet
//! (mirror, forward along a route, drop or pass) and the control operations
//! that edit the tables.

use crate::checksum::{adjust_checksum_be, spec_adjust};
use crate::packet::{
    be16_at, load_be16, load_raw16, load_raw32, put_raw16, put_raw32, raw16_at, raw32_at,
    store_raw16, store_raw32, ETHER_TYPE_IPV4, ETH_HDR_LEN, ETH_TYPE, IP_CHECK, IP_DST, IP_PROTO,
    IP_PROTO_UDP, IP_SRC, UDP_CHECK, UDP_DST, UDP_PAYLOAD, UDP_SRC,
};
use crate::wire::{swap16, swap32, swap_bytes16, swap_bytes32};
use std::collections::HashMap;
use vstd::std_specs::iter::IteratorSpec;
use crate::cli::{args_view, given_text, scan, spec_scan_command_line, text_value, CliError, OptionSpec, ValueKind};
use vstd::prelude::*;

verus! {

broadcast use vstd::std_specs::hash::group_hash_axioms;

/// Slots of the global rule array.
#[derive(Clone, Copy, Debug, PartialEq, Eq, Structural)]
pub enum GlobalRule {
    Policy,
    Size,
}

impl GlobalRule {
    /// The slot index of the rule.
    pub fn index(self) -> (r: u32)
        ensures
            r == (match self {
                GlobalRule::Policy => 0u32,
                GlobalRule::Size => 1u32,
            }),
    {
        match self {
            GlobalRule::Policy => 0,
            GlobalRule::Size => 1,
        }
    }
}

/// What happens to UDP packets that match no mirror and no route.
#[derive(Clone, Copy, Debug, PartialEq, Eq, Structural)]
pub enum Policy {
    Accept,
    Drop,
}

/// The byte a policy is stored as.
pub open spec fn policy_byte(p: Policy) -> u8 {
    match p {
        Policy::Accept => 0u8,
        Policy::Drop => 1u8,
    }
}

impl Policy {
    /// The byte the policy is stored as in the global rule array.
    pub fn as_u8(self) -> (r: u8)
        ensures
            r == policy_byte(self),
    {
        match self {
            Policy::Accept => 0,
            Policy::Drop => 1,
        }
    }
}

/// Number of slots of the global rule array.
pub const GLOBAL_MAP_SIZE: u32 = 1;

/// Capacity of the mirror table: the kernel map holds one entry per 16-bit
/// port but the largest one, as the router program declares it.
pub const MIRROR_MAP_SIZE: u32 = 65535;

/// Capacity of the route table, as the router program declares its kernel
/// map.
pub const REDIR_MAP_SIZE: u32 = 65535;

/// UDP port that is always mirrored back to its sender, for testing.
pub const MIRROR_TEST_PORT: u16 = 65500;

/// One side of a route: a peer (`reflexive_addr:reflexive_port`) and the
/// router port it talks to.
#[derive(Clone, Copy, Debug, PartialEq, Eq, Structural)]
pub struct HalfRoute {
    pub reflexive_addr: u32,
    pub reflexive_port: u16,
    pub router_port: u16,
}

/// Each field byte-swapped.
pub open spec fn swapped_half(h: HalfRoute) -> HalfRoute {
    HalfRoute {
        reflexive_addr: swap32(h.reflexive_addr),
        reflexive_port: swap16(h.reflexive_port),
        router_port: swap16(h.router_port),
    }
}

impl HalfRoute {
    /// A half route from its three fields.
    pub fn new(reflexive_addr: u32, reflexive_port: u16, router_port: u16) -> (r: HalfRoute)
        ensures
            r == (HalfRoute { reflexive_addr, reflexive_port, router_port }),
    {
        HalfRoute { reflexive_addr, reflexive_port, router_port }
    }

    /// The raw (wire-order) form of a half route given in host order: each
    /// field byte-swapped, as on the little-endian hosts the programs run on
    /// (a raw field is a little-endian load of network-order bytes).
    pub fn to_be(&self) -> (r: HalfRoute)
        ensures
            r == swapped_half(*self),
    {
        HalfRoute {
            reflexive_addr: swap_bytes32(self.reflexive_addr),
            reflexive_port: swap_bytes16(self.reflexive_port),
            router_port: swap_bytes16(self.router_port),
        }
    }

    /// The host-order form of a half route given in raw (wire-order) form:
    /// each field byte-swapped, as on little-endian hosts.
    pub fn from_be(&self) -> (r: HalfRoute)
        ensures
            r == swapped_half(*self),
    {
        HalfRoute {
            reflexive_addr: swap_bytes32(self.reflexive_addr),
            reflexive_port: swap_bytes16(self.reflexive_port),
            router_port: swap_bytes16(self.router_port),
        }
    }
}

/// Converting a half route to wire order and back gives it back, and so does
/// the opposite round trip.
pub proof fn law_half_route_roundtrip(h: HalfRoute)
    ensures
        swapped_half(swapped_half(h)) == h,
{
    crate::wire::lemma_swap32_involution(h.reflexive_addr);
    crate::wire::lemma_swap16_involution(h.reflexive_port);
    crate::wire::lemma_swap16_involution(h.router_port);
}

/// The table key of a half route: its three fields packed into 64 bits.
pub open spec fn route_key(h: HalfRoute) -> u64 {
    (h.reflexive_addr * 4294967296 + h.reflexive_port * 65536 + h.router_port) as u64
}

/// Distinct half routes have distinct keys.
pub proof fn lemma_route_key_injective(a: HalfRoute, b: HalfRoute)
    ensures
        route_key(a) == route_key(b) ==> a == b,
{
    let ka: int = a.reflexive_addr * 4294967296 + a.reflexive_port * 65536 + a.router_port;
    let kb: int = b.reflexive_addr * 4294967296 + b.reflexive_port * 65536 + b.router_port;
    assert(ka < 18446744073709551616);
    assert(kb < 18446744073709551616);
    if ka == kb {
        assert(a.reflexive_addr == b.reflexive_addr);
        assert(a.reflexive_port == b.reflexive_port);
    }
}

fn key_of(h: &HalfRoute) -> (k: u64)
    ensures
        k == route_key(*h),
{
    (h.reflexive_addr as u64) * 4294967296 + (h.reflexive_port as u64) * 65536
        + h.router_port as u64
}

/// Why a packet could not be processed.
#[derive(Clone, Copy, Debug, PartialEq, Eq, Structural)]
pub enum XdpError {
    /// A header lies (partly) outside the packet.
    Outside,
}

/// The verdicts of an XDP program.
#[derive(Clone, Copy, Debug, PartialEq, Eq, Structural)]
pub enum XdpAction {
    Aborted,
    Drop,
    Pass,
    Tx,
    Redirect,
}

/// The kernel's number of a verdict.
pub open spec fn action_code(a: XdpAction) -> u32 {
    match a {
        XdpAction::Aborted => 0u32,
        XdpAction::Drop => 1u32,
        XdpAction::Pass => 2u32,
        XdpAction::Tx => 3u32,
        XdpAction::Redirect => 4u32,
    }
}

impl XdpAction {
    /// The kernel's number of the verdict.
    pub fn code(self) -> (r: u32)
        ensures
            r == action_code(self),
    {
        match self {
            XdpAction::Aborted => 0,
            XdpAction::Drop => 1,
            XdpAction::Pass => 2,
            XdpAction::Tx => 3,
            XdpAction::Redirect => 4,
        }
    }
}

/// `p` with the `n` bytes at `a` and the `n` bytes at `b` exchanged.
pub open spec fn swapped(p: Seq<u8>, a: int, b: int, n: int) -> Seq<u8> {
    Seq::new(
        p.len(),
        |i: int|
            if a <= i < a + n {
                p[i - a + b]
            } else if b <= i < b + n {
                p[i - b + a]
            } else {
                p[i]
            },
    )
}

/// Exchanges the `n` bytes at `a` with the `n` bytes at `b`.
pub fn swap_ranges(p: &mut Vec<u8>, a: usize, b: usize, n: usize)
    requires
        a + n <= b,
        b + n <= old(p)@.len(),
    ensures
        final(p)@ == swapped(old(p)@, a as int, b as int, n as int),
{
    let ghost p0 = p@;
    let len: usize = p.len();
    let mut k: usize = 0;
    while k < n
        invariant
            len == p0.len(),
            a + n <= b,
            b + n <= p0.len(),
            k <= n,
            p@ == swapped(p0, a as int, b as int, k as int),
        decreases n - k,
    {
        let x: u8 = p[a + k];
        let y: u8 = p[b + k];
        p.set(a + k, y);
        p.set(b + k, x);
        k = k + 1;
        assert(p@ =~= swapped(p0, a as int, b as int, k as int));
    }
}

/// The packet sent back to its sender: MAC addresses, IPv4 addresses and UDP
/// ports exchanged.
pub open spec fn mirrored(p: Seq<u8>) -> Seq<u8> {
    swapped(swapped(swapped(p, 0, 6, 6), IP_SRC as int, IP_DST as int, 4), UDP_SRC as int, UDP_DST as int, 2)
}

/// The checksum the router writes, in raw form.
pub open spec fn spec_adjust_raw(check: u16, old_ip: u32, new_ip: u32) -> u16 {
    swap16(spec_adjust(swap16(check), swap32(old_ip), swap32(new_ip)))
}

/// The packet forwarded along a route whose other side is `h` (raw form):
/// MAC addresses exchanged, the router becomes the source, `h`'s peer the
/// destination, with the checksum adjusted and the UDP checksum cleared.
pub open spec fn forwarded(p: Seq<u8>, h: HalfRoute) -> Seq<u8> {
    let old_src = raw32_at(p, IP_SRC as int);
    let old_dst = raw32_at(p, IP_DST as int);
    let q0 = swapped(p, 0, 6, 6);
    let q1 = put_raw32(q0, IP_SRC as int, old_dst);
    let q2 = put_raw32(q1, IP_DST as int, h.reflexive_addr);
    let q3 = put_raw16(
        q2,
        IP_CHECK as int,
        spec_adjust_raw(raw16_at(p, IP_CHECK as int), old_src, h.reflexive_addr),
    );
    let q4 = put_raw16(q3, UDP_SRC as int, h.router_port);
    let q5 = put_raw16(q4, UDP_DST as int, h.reflexive_port);
    put_raw16(q5, UDP_CHECK as int, 0)
}

/// The tables as the verdicts and contracts see them.
pub struct RouterView {
    pub policy: u8,
    pub mirrors: Map<u16, u8>,
    pub routes: Map<u64, (HalfRoute, HalfRoute)>,
}

/// The key under which a UDP packet looks for a route: its source address
/// and port and its destination port, all raw.
pub open spec fn packet_half(p: Seq<u8>) -> HalfRoute {
    HalfRoute {
        reflexive_addr: raw32_at(p, IP_SRC as int),
        reflexive_port: raw16_at(p, UDP_SRC as int),
        router_port: raw16_at(p, UDP_DST as int),
    }
}

/// Whether the mirror table asks to send packets to raw port `port` back.
pub open spec fn mirror_hit(t: RouterView, port: u16) -> bool {
    t.mirrors.contains_key(port) && t.mirrors[port] == 1
}

/// The verdict and resulting packet for a UDP packet (headers known to fit).
pub open spec fn spec_process_udp(t: RouterView, p: Seq<u8>) -> (Result<XdpAction, XdpError>, Seq<u8>) {
    let key = route_key(packet_half(p));
    if be16_at(p, UDP_DST as int) == MIRROR_TEST_PORT {
        (Ok(XdpAction::Tx), mirrored(p))
    } else if mirror_hit(t, raw16_at(p, UDP_DST as int)) {
        (Ok(XdpAction::Tx), mirrored(p))
    } else if t.routes.contains_key(key) {
        (Ok(XdpAction::Tx), forwarded(p, t.routes[key].1))
    } else if t.policy == policy_byte(Policy::Drop) {
        (Ok(XdpAction::Drop), p)
    } else {
        (Ok(XdpAction::Pass), p)
    }
}

/// The verdict of the router on packet `p` and the packet it leaves behind.
pub open spec fn spec_process(t: RouterView, p: Seq<u8>) -> (Result<XdpAction, XdpError>, Seq<u8>) {
    if p.len() < ETH_HDR_LEN {
        (Err(XdpError::Outside), p)
    } else if be16_at(p, ETH_TYPE as int) != ETHER_TYPE_IPV4 {
        (Ok(XdpAction::Pass), p)
    } else if p.len() < UDP_SRC {
        (Err(XdpError::Outside), p)
    } else if p[IP_PROTO as int] != IP_PROTO_UDP {
        (Ok(XdpAction::Pass), p)
    } else if p.len() < UDP_PAYLOAD {
        (Err(XdpError::Outside), p)
    } else {
        spec_process_udp(t, p)
    }
}

/// The rule tables shared by the XDP program and the control API: the global
/// policy, the mirrored ports and the routes (keys and values raw).
pub struct RouterTables {
    policy: u8,
    mirrors: HashMap<u16, u8>,
    routes: HashMap<u64, (HalfRoute, HalfRoute)>,
}

impl View for RouterTables {
    type V = RouterView;

    closed spec fn view(&self) -> RouterView {
        RouterView { policy: self.policy, mirrors: self.mirrors@, routes: self.routes@ }
    }
}

/// Every route entry is stored under the key of its first half.
pub open spec fn keys_consistent(m: Map<u64, (HalfRoute, HalfRoute)>) -> bool {
    forall|k: u64| m.contains_key(k) ==> route_key(#[trigger] m[k].0) == k
}

/// Well-formed tables: each route entry under its own key, and every mirror
/// entry set (1), as the control operations write them.
pub open spec fn tables_wf(t: RouterView) -> bool {
    &&& keys_consistent(t.routes)
    &&& forall|p: u16| #[trigger] t.mirrors.contains_key(p) ==> t.mirrors[p] == 1
}

impl RouterTables {
    #[verifier::type_invariant]
    spec fn well_formed(self) -> bool {
        &&& keys_consistent(self.routes@)
        &&& forall|p: u16| #[trigger] self.mirrors@.contains_key(p) ==> self.mirrors@[p] == 1
    }
}

impl RouterTables {
    /// Empty tables with the policy `Accept`, as the program starts out.
    pub fn new() -> (r: RouterTables)
        ensures
            r@.policy == policy_byte(Policy::Accept),
            r@.mirrors == Map::<u16, u8>::empty(),
            r@.routes == Map::<u64, (HalfRoute, HalfRoute)>::empty(),
            tables_wf(r@),
    {
        RouterTables { policy: 0, mirrors: HashMap::new(), routes: HashMap::new() }
    }

    fn forward(pkt: &mut Vec<u8>, h: HalfRoute)
        requires
            UDP_PAYLOAD <= old(pkt)@.len(),
        ensures
            final(pkt)@ == forwarded(old(pkt)@, h),
    {
        let ghost p0 = pkt@;
        swap_ranges(pkt, 0, 6, 6);
        let old_src: u32 = load_raw32(pkt.as_slice(), IP_SRC);
        let old_dst: u32 = load_raw32(pkt.as_slice(), IP_DST);
        let check: u16 = load_raw16(pkt.as_slice(), IP_CHECK);
        assert(old_src == raw32_at(p0, IP_SRC as int));
        assert(old_dst == raw32_at(p0, IP_DST as int));
        assert(check == raw16_at(p0, IP_CHECK as int));
        store_raw32(pkt, IP_SRC, old_dst);
        store_raw32(pkt, IP_DST, h.reflexive_addr);
        let new_check: u16 = adjust_checksum_be(check, old_src, h.reflexive_addr);
        proof {
            crate::wire::lemma_swap16_involution(new_check);
        }
        store_raw16(pkt, IP_CHECK, new_check);
        store_raw16(pkt, UDP_SRC, h.router_port);
        store_raw16(pkt, UDP_DST, h.reflexive_port);
        store_raw16(pkt, UDP_CHECK, 0);
    }

    fn mirror(pkt: &mut Vec<u8>)
        requires
            UDP_PAYLOAD <= old(pkt)@.len(),
        ensures
            final(pkt)@ == mirrored(old(pkt)@),
    {
        swap_ranges(pkt, 0, 6, 6);
        swap_ranges(pkt, IP_SRC, IP_DST, 4);
        swap_ranges(pkt, UDP_SRC, UDP_DST, 2);
    }

    /// The router's verdict on a UDP packet whose headers fit, which it may
    /// rewrite in place.
    pub fn process_udp(&self, pkt: &mut Vec<u8>) -> (r: Result<XdpAction, XdpError>)
        requires
            UDP_PAYLOAD <= old(pkt)@.len(),
        ensures
            (r, final(pkt)@) == spec_process_udp(self@, old(pkt)@),
    {
        let dest: u16 = load_raw16(pkt.as_slice(), UDP_DST);
        if load_be16(pkt.as_slice(), UDP_DST) == MIRROR_TEST_PORT {
            Self::mirror(pkt);
            return Ok(XdpAction::Tx);
        }
        match self.mirrors.get(&dest) {
            Some(found) => {
                if *found == 1u8 {
                    Self::mirror(pkt);
                    return Ok(XdpAction::Tx);
                }
            },
            None => {},
        }
        let key_half = HalfRoute::new(
            load_raw32(pkt.as_slice(), IP_SRC),
            load_raw16(pkt.as_slice(), UDP_SRC),
            dest,
        );
        let key: u64 = key_of(&key_half);
        match self.routes.get(&key) {
            Some(found) => {
                let other: HalfRoute = found.1;
                Self::forward(pkt, other);
                return Ok(XdpAction::Tx);
            },
            None => {},
        }
        if self.policy == Policy::Drop.as_u8() {
            return Ok(XdpAction::Drop);
        }
        Ok(XdpAction::Pass)
    }

    /// The router's verdict on packet `pkt`, which it may rewrite in place.
    pub fn process(&self, pkt: &mut Vec<u8>) -> (r: Result<XdpAction, XdpError>)
        ensures
            (r, final(pkt)@) == spec_process(self@, old(pkt)@),
    {
        if pkt.len() < ETH_HDR_LEN {
            return Err(XdpError::Outside);
        }
        if load_be16(pkt.as_slice(), ETH_TYPE) != ETHER_TYPE_IPV4 {
            return Ok(XdpAction::Pass);
        }
        if pkt.len() < UDP_SRC {
            return Err(XdpError::Outside);
        }
        if pkt[IP_PROTO] != IP_PROTO_UDP {
            return Ok(XdpAction::Pass);
        }
        if pkt.len() < UDP_PAYLOAD {
            return Err(XdpError::Outside);
        }
        self.process_udp(pkt)
    }
}


/// A socket address as the control API receives it.
#[derive(Clone, Copy, Debug, PartialEq, Eq, Structural)]
pub enum SocketAddress {
    V4 { addr: u32, port: u16 },
    V6 { port: u16 },
}

/// The answer of a control operation.
#[derive(Clone, Copy, Debug, PartialEq, Eq, Structural)]
pub enum ApiReply {
    Done,
    PolicySet,
    BadPolicy,
    AlreadyExist,
    DoesNotExist,
    ShouldNotHappen,
    Ipv6NotSupported,
}

impl ApiReply {
    /// The text sent back to the client.
    pub fn message(&self) -> (r: &'static str)
        ensures
            match *self {
                ApiReply::Done => r@ == "OK\n"@,
                ApiReply::PolicySet => r@ == "Ok(())"@,
                ApiReply::BadPolicy => r@ == "Error: Bad policy"@,
                ApiReply::AlreadyExist => r@ == "Error: Already exist"@,
                ApiReply::DoesNotExist => r@ == "Error: Does not exist"@,
                ApiReply::ShouldNotHappen => r@ == "Error: Should not happen"@,
                ApiReply::Ipv6NotSupported => r@ == "Error: IPv6 not supported"@,
            },
    {
        match *self {
            ApiReply::Done => "OK\n",
            ApiReply::PolicySet => "Ok(())",
            ApiReply::BadPolicy => "Error: Bad policy",
            ApiReply::AlreadyExist => "Error: Already exist",
            ApiReply::DoesNotExist => "Error: Does not exist",
            ApiReply::ShouldNotHappen => "Error: Should not happen",
            ApiReply::Ipv6NotSupported => "Error: IPv6 not supported",
        }
    }
}

/// The tables with a new policy byte.
pub open spec fn with_policy(t: RouterView, p: Policy) -> RouterView {
    RouterView { policy: policy_byte(p), mirrors: t.mirrors, routes: t.routes }
}

/// The policy named `name`, if any.
pub open spec fn policy_named(name: Seq<char>) -> Option<Policy> {
    if name == "accept"@ {
        Some(Policy::Accept)
    } else if name == "drop"@ {
        Some(Policy::Drop)
    } else {
        None
    }
}

/// Effect and answer of the policy operation.
pub open spec fn spec_policy_handler(t: RouterView, name: Seq<char>) -> (RouterView, ApiReply) {
    match policy_named(name) {
        Some(p) => (with_policy(t, p), ApiReply::PolicySet),
        None => (t, ApiReply::BadPolicy),
    }
}

/// Effect and answer of adding a mirrored port (`port` in host order).
pub open spec fn spec_mirror_add(t: RouterView, port: u16) -> (RouterView, ApiReply) {
    let k = swap16(port);
    if t.mirrors.contains_key(k) {
        (t, ApiReply::AlreadyExist)
    } else {
        (RouterView { policy: t.policy, mirrors: t.mirrors.insert(k, 1), routes: t.routes }, ApiReply::Done)
    }
}

/// Effect and answer of removing a mirrored port (`port` in host order).
pub open spec fn spec_mirror_remove(t: RouterView, port: u16) -> (RouterView, ApiReply) {
    let k = swap16(port);
    if !t.mirrors.contains_key(k) {
        (t, ApiReply::DoesNotExist)
    } else {
        (RouterView { policy: t.policy, mirrors: t.mirrors.remove(k), routes: t.routes }, ApiReply::Done)
    }
}

/// The raw half route of a peer `addr:port` talking to router port `router_port`
/// (all three in host order).
pub open spec fn wire_half(addr: u32, port: u16, router_port: u16) -> HalfRoute {
    swapped_half(HalfRoute { reflexive_addr: addr, reflexive_port: port, router_port })
}

/// The two half routes of a route request, when both addresses are IPv4.
pub open spec fn route_halves(src: SocketAddress, sport: u16, dst: SocketAddress, dport: u16) -> Option<(HalfRoute, HalfRoute)> {
    match src {
        SocketAddress::V4 { addr: a, port: p } => match dst {
            SocketAddress::V4 { addr: b, port: q } => Some((wire_half(a, p, sport), wire_half(b, q, dport))),
            SocketAddress::V6 { .. } => None,
        },
        SocketAddress::V6 { .. } => None,
    }
}

/// Effect and answer of adding the route between `src` (talking to router
/// port `sport`) and `dst` (talking to router port `dport`).
pub open spec fn spec_route_add(t: RouterView, src: SocketAddress, sport: u16, dst: SocketAddress, dport: u16) -> (RouterView, ApiReply) {
    match route_halves(src, sport, dst, dport) {
        None => (t, ApiReply::Ipv6NotSupported),
        Some((h1, h2)) => if t.routes.contains_key(route_key(h1)) {
            (t, ApiReply::AlreadyExist)
        } else if t.routes.contains_key(route_key(h2)) {
            (t, ApiReply::ShouldNotHappen)
        } else {
            (
                RouterView {
                    policy: t.policy,
                    mirrors: t.mirrors,
                    routes: t.routes.insert(route_key(h1), (h1, h2)).insert(route_key(h2), (h2, h1)),
                },
                ApiReply::Done,
            )
        },
    }
}

/// Effect and answer of removing the route between `src` and `dst`.
pub open spec fn spec_route_remove(t: RouterView, src: SocketAddress, sport: u16, dst: SocketAddress, dport: u16) -> (RouterView, ApiReply) {
    match route_halves(src, sport, dst, dport) {
        None => (t, ApiReply::Ipv6NotSupported),
        Some((h1, h2)) => if !t.routes.contains_key(route_key(h1)) {
            (t, ApiReply::DoesNotExist)
        } else if !t.routes.contains_key(route_key(h2)) {
            (t, ApiReply::ShouldNotHappen)
        } else {
            (
                RouterView {
                    policy: t.policy,
                    mirrors: t.mirrors,
                    routes: t.routes.remove(route_key(h1)).remove(route_key(h2)),
                },
                ApiReply::Done,
            )
        },
    }
}

/// How many new entries a route request stores: two, or one when both of
/// its halves are the same half route (a peer routed to itself through one
/// router port), whose second store updates the first.
pub open spec fn route_slots(src: SocketAddress, sport: u16, dst: SocketAddress, dport: u16) -> nat {
    match route_halves(src, sport, dst, dport) {
        Some((h1, h2)) => if route_key(h1) == route_key(h2) {
            1
        } else {
            2
        },
        None => 0,
    }
}

/// Whether a route request would insert into the route table.
pub open spec fn route_add_inserts(t: RouterView, src: SocketAddress, sport: u16, dst: SocketAddress, dport: u16) -> bool {
    spec_route_add(t, src, sport, dst, dport).1 == ApiReply::Done
}

/// One line of the route listing: both halves in host order.
pub open spec fn listed_route(e: (HalfRoute, HalfRoute)) -> (HalfRoute, HalfRoute) {
    (swapped_half(e.0), swapped_half(e.1))
}

/// Whether `e` lists some entry of the route table.
pub open spec fn is_listed_entry(t: RouterView, e: (HalfRoute, HalfRoute)) -> bool {
    exists|k: u64| t.routes.contains_key(k) && e == listed_route(#[trigger] t.routes[k])
}

fn wire_half_of(addr: u32, port: u16, router_port: u16) -> (h: HalfRoute)
    ensures
        h == wire_half(addr, port, router_port),
{
    HalfRoute::new(addr, port, router_port).to_be()
}

impl RouterTables {
    /// Number of entries in the route table.
    pub fn route_count(&self) -> (r: usize)
        ensures
            r == self@.routes.len(),
    {
        self.routes.len()
    }

    /// Number of entries in the mirror table.
    pub fn mirror_count(&self) -> (r: usize)
        ensures
            r == self@.mirrors.len(),
    {
        self.mirrors.len()
    }

    /// The byte of the global policy.
    pub fn policy(&self) -> (r: u8)
        ensures
            r == self@.policy,
    {
        self.policy
    }

    /// Whether `port` (host order) is mirrored.
    pub fn has_mirror(&self, port: u16) -> (r: bool)
        ensures
            r == self@.mirrors.contains_key(swap16(port)),
    {
        let k: u16 = swap_bytes16(port);
        self.mirrors.contains_key(&k)
    }

    /// Whether adding this route would insert into the route table (rather
    /// than be refused), which is when the table needs room for two entries.
    pub fn would_insert_route(&self, src: SocketAddress, sport: u16, dst: SocketAddress, dport: u16) -> (r: bool)
        ensures
            r == route_add_inserts(self@, src, sport, dst, dport),
    {
        match Self::halves(src, sport, dst, dport) {
            Some((h1, h2)) => {
                let k1: u64 = key_of(&h1);
                let k2: u64 = key_of(&h2);
                !self.routes.contains_key(&k1) && !self.routes.contains_key(&k2)
            },
            None => false,
        }
    }

    /// How many new entries adding this route stores (see `route_slots`), so
    /// that a caller can check the table has room for them.
    pub fn route_slots_needed(src: SocketAddress, sport: u16, dst: SocketAddress, dport: u16) -> (r: usize)
        ensures
            r == route_slots(src, sport, dst, dport),
    {
        match Self::halves(src, sport, dst, dport) {
            Some((h1, h2)) => if key_of(&h1) == key_of(&h2) {
                1
            } else {
                2
            },
            None => 0,
        }
    }

    /// Stores a new global policy.
    pub fn set_policy(&mut self, policy: Policy)
        ensures
            final(self)@ == with_policy(old(self)@, policy),
            tables_wf(final(self)@),
    {
        proof {
            use_type_invariant(&*self);
        }
        self.policy = policy.as_u8();
    }

    /// Sets the policy named `name` ("accept" or "drop").
    pub fn policy_handler(&mut self, name: &str) -> (r: ApiReply)
        ensures
            (final(self)@, r) == spec_policy_handler(old(self)@, name@),
            tables_wf(final(self)@),
    {
        proof {
            use_type_invariant(&*self);
        }
        let given: String = name.to_owned();
        let accept: String = String::from_str("accept");
        let drop: String = String::from_str("drop");
        if given == accept {
            self.set_policy(Policy::Accept);
            ApiReply::PolicySet
        } else if given == drop {
            self.set_policy(Policy::Drop);
            ApiReply::PolicySet
        } else {
            ApiReply::BadPolicy
        }
    }

    /// Mirrors UDP packets sent to `port` (host order) back to their sender.
    pub fn mirror_add(&mut self, port: u16) -> (r: ApiReply)
        requires
            !old(self)@.mirrors.contains_key(swap16(port)) ==> old(self)@.mirrors.len() < MIRROR_MAP_SIZE,
        ensures
            (final(self)@, r) == spec_mirror_add(old(self)@, port),
            tables_wf(final(self)@),
    {
        proof {
            use_type_invariant(&*self);
        }
        let k: u16 = swap_bytes16(port);
        if self.mirrors.contains_key(&k) {
            return ApiReply::AlreadyExist;
        }
        let mut mirrors: HashMap<u16, u8> = HashMap::new();
        std::mem::swap(&mut mirrors, &mut self.mirrors);
        mirrors.insert(k, 1u8);
        self.mirrors = mirrors;
        ApiReply::Done
    }

    /// Stops mirroring `port` (host order).
    pub fn mirror_remove(&mut self, port: u16) -> (r: ApiReply)
        ensures
            (final(self)@, r) == spec_mirror_remove(old(self)@, port),
            tables_wf(final(self)@),
    {
        proof {
            use_type_invariant(&*self);
        }
        let k: u16 = swap_bytes16(port);
        if !self.mirrors.contains_key(&k) {
            return ApiReply::DoesNotExist;
        }
        let mut mirrors: HashMap<u16, u8> = HashMap::new();
        std::mem::swap(&mut mirrors, &mut self.mirrors);
        mirrors.remove(&k);
        self.mirrors = mirrors;
        ApiReply::Done
    }

    /// The mirrored ports, in host order, each once.
    pub fn mirror_list(&self) -> (r: Vec<u16>)
        ensures
            r@.len() == self@.mirrors.len(),
            forall|i: int| 0 <= i < r@.len() ==> self@.mirrors.contains_key(swap16(#[trigger] r@[i])),
            forall|k: u16| self@.mirrors.contains_key(k) ==> r@.contains(swap16(k)),
    {
        let ghost keys = vstd::std_specs::hash::spec_keys_iter(&self.mirrors).remaining();
        proof {
            vstd::std_specs::hash::axiom_spec_keys_iter(&self.mirrors);
        }
        let mut out: Vec<u16> = Vec::new();
        for k in it: self.mirrors.keys()
            invariant
                it.seq() == keys,
                out@.len() == it.index(),
                forall|i: int| 0 <= i < it.index() ==> out@[i] == swap16(*it.seq()[i]),
        {
            out.push(swap_bytes16(*k));
        }
        assert forall|i: int| 0 <= i < out@.len() implies self@.mirrors.contains_key(swap16(#[trigger] out@[i])) by {
            crate::wire::lemma_swap16_involution(*keys[i]);
            assert(keys.unref()[i] == *keys[i]);
            assert(keys.unref().contains(*keys[i]));
        }
        assert forall|k: u16| self@.mirrors.contains_key(k) implies out@.contains(swap16(k)) by {
            assert(keys.unref().to_set().contains(k));
            let j: int = choose|j: int| 0 <= j < keys.unref().len() && keys.unref()[j] == k;
            assert(out@[j] == swap16(k));
        }
        out
    }

    /// The two half routes of a route request in raw (map) form: the peer
    /// `src` with router port `sport`, and `dst` with `dport`; `None` unless
    /// both addresses are IPv4.
    pub fn halves(src: SocketAddress, sport: u16, dst: SocketAddress, dport: u16) -> (r: Option<(HalfRoute, HalfRoute)>)
        ensures
            r == route_halves(src, sport, dst, dport),
    {
        match src {
            SocketAddress::V4 { addr: a, port: p } => match dst {
                SocketAddress::V4 { addr: b, port: q } => Some(
                    (wire_half_of(a, p, sport), wire_half_of(b, q, dport)),
                ),
                SocketAddress::V6 { .. } => None,
            },
            SocketAddress::V6 { .. } => None,
        }
    }

    /// Adds the route between peer `src`, talking to router port `sport`,
    /// and peer `dst`, talking to router port `dport`, in both directions.
    pub fn route_add(&mut self, src: SocketAddress, sport: u16, dst: SocketAddress, dport: u16) -> (r: ApiReply)
        requires
            route_add_inserts(old(self)@, src, sport, dst, dport) ==> old(self)@.routes.len()
                + route_slots(src, sport, dst, dport) <= REDIR_MAP_SIZE,
        ensures
            (final(self)@, r) == spec_route_add(old(self)@, src, sport, dst, dport),
            tables_wf(final(self)@),
    {
        proof {
            use_type_invariant(&*self);
        }
        let (h1, h2) = match Self::halves(src, sport, dst, dport) {
            Some(hs) => hs,
            None => {
                return ApiReply::Ipv6NotSupported;
            },
        };
        let k1: u64 = key_of(&h1);
        let k2: u64 = key_of(&h2);
        if self.routes.contains_key(&k1) {
            return ApiReply::AlreadyExist;
        }
        if self.routes.contains_key(&k2) {
            return ApiReply::ShouldNotHappen;
        }
        let mut routes: HashMap<u64, (HalfRoute, HalfRoute)> = HashMap::new();
        std::mem::swap(&mut routes, &mut self.routes);
        routes.insert(k1, (h1, h2));
        routes.insert(k2, (h2, h1));
        self.routes = routes;
        ApiReply::Done
    }

    /// Removes the route between `src` (router port `sport`) and `dst`
    /// (router port `dport`), both directions.
    pub fn route_remove(&mut self, src: SocketAddress, sport: u16, dst: SocketAddress, dport: u16) -> (r: ApiReply)
        ensures
            (final(self)@, r) == spec_route_remove(old(self)@, src, sport, dst, dport),
            tables_wf(final(self)@),
    {
        proof {
            use_type_invariant(&*self);
        }
        let (h1, h2) = match Self::halves(src, sport, dst, dport) {
            Some(hs) => hs,
            None => {
                return ApiReply::Ipv6NotSupported;
            },
        };
        let k1: u64 = key_of(&h1);
        let k2: u64 = key_of(&h2);
        if !self.routes.contains_key(&k1) {
            return ApiReply::DoesNotExist;
        }
        if !self.routes.contains_key(&k2) {
            return ApiReply::ShouldNotHappen;
        }
        let mut routes: HashMap<u64, (HalfRoute, HalfRoute)> = HashMap::new();
        std::mem::swap(&mut routes, &mut self.routes);
        routes.remove(&k1);
        routes.remove(&k2);
        self.routes = routes;
        ApiReply::Done
    }

    /// The routes, one entry per table entry, both halves in host order.
    pub fn route_list(&self) -> (r: Vec<(HalfRoute, HalfRoute)>)
        ensures
            r@.len() == self@.routes.len(),
            forall|i: int| 0 <= i < r@.len() ==> is_listed_entry(self@, #[trigger] r@[i]),
            forall|k: u64|
                self@.routes.contains_key(k) ==> r@.contains(listed_route(#[trigger] self@.routes[k])),
    {
        let ghost keys = vstd::std_specs::hash::spec_keys_iter(&self.routes).remaining();
        proof {
            vstd::std_specs::hash::axiom_spec_keys_iter(&self.routes);
        }
        let mut out: Vec<(HalfRoute, HalfRoute)> = Vec::new();
        for k in it: self.routes.keys()
            invariant
                it.seq() == keys,
                keys.unref().to_set() == self@.routes.dom(),
                out@.len() == it.index(),
                forall|i: int| 0 <= i < it.index() ==> out@[i] == listed_route(self@.routes[*it.seq()[i]]),
        {
            proof {
                assert(keys.unref()[it.index()] == *k);
                assert(keys.unref().contains(*k));
            }
            match self.routes.get(k) {
                Some(e) => {
                    out.push((e.0.from_be(), e.1.from_be()));
                },
                None => {},
            }
        }
        assert forall|i: int| 0 <= i < out@.len() implies is_listed_entry(self@, #[trigger] out@[i]) by {
            let k: u64 = *keys[i];
            assert(keys.unref()[i] == k);
            assert(keys.unref().contains(k));
            assert(self@.routes.contains_key(k) && out@[i] == listed_route(self@.routes[k]));
        }
        assert forall|k: u64| self@.routes.contains_key(k) implies out@.contains(listed_route(#[trigger] self@.routes[k])) by {
            assert(keys.unref().to_set().contains(k));
            let j: int = choose|j: int| 0 <= j < keys.unref().len() && keys.unref()[j] == k;
            assert(out@[j] == listed_route(self@.routes[k]));
        }
        out
    }
}

/// The number the XDP entry point returns: the verdict's code, or `Aborted`
/// when a header lies outside the packet.
pub open spec fn spec_router_xdp(t: RouterView, p: Seq<u8>) -> u32 {
    match spec_process(t, p).0 {
        Ok(a) => action_code(a),
        Err(_) => action_code(XdpAction::Aborted),
    }
}

/// The XDP entry point of the router.
pub fn router_xdp(tables: &RouterTables, pkt: &mut Vec<u8>) -> (r: u32)
    ensures
        r == spec_router_xdp(tables@, old(pkt)@),
        final(pkt)@ == spec_process(tables@, old(pkt)@).1,
{
    match tables.process(pkt) {
        Ok(a) => a.code(),
        Err(e) => match e {
            XdpError::Outside => XdpAction::Aborted.code(),
        },
    }
}

/// Options of the routing tool.
#[derive(Debug)]
pub struct Opt {
    /// Interface to attach the router to.
    pub iface: String,
    /// Address the control API listens on.
    pub bind: String,
}

/// The routing tool's options: `-i/--iface <name>`, `-b/--bind <address>`.
pub open spec fn options_table() -> Seq<OptionSpec> {
    seq![
        OptionSpec { long: "iface", short: Some('i'), kind: ValueKind::Text },
        OptionSpec { long: "bind", short: Some('b'), kind: ValueKind::Text },
    ]
}

fn options() -> (r: Vec<OptionSpec>)
    ensures
        r@ == options_table(),
{
    let mut t: Vec<OptionSpec> = Vec::new();
    t.push(OptionSpec { long: "iface", short: Some('i'), kind: ValueKind::Text });
    t.push(OptionSpec { long: "bind", short: Some('b'), kind: ValueKind::Text });
    assert(t@ =~= options_table());
    t
}

/// Reads the routing tool's command line (program name first).  Defaults:
/// interface `eth0`, API on `127.0.0.1:6707`.
pub fn parse(args: &Vec<String>) -> (r: Result<Opt, CliError>)
    ensures
        match (r, spec_scan_command_line(options_table(), args_view(args@), false)) {
            (Ok(o), Ok(g)) => o.iface@ == given_text(g[0], "eth0"@) && o.bind@ == given_text(g[1], "127.0.0.1:6707"@),
            (Err(e), Err((k, a))) => e.kind == k && e.arg@ == a,
            _ => false,
        },
{
    let table: Vec<OptionSpec> = options();
    let vals: Vec<Option<String>> = match scan(&table, args, false) {
        Ok(v) => v,
        Err(e) => {
            return Err(e);
        },
    };
    Ok(Opt { iface: text_value(&vals, 0, "eth0"), bind: text_value(&vals, 1, "127.0.0.1:6707") })
}

} // verus!
