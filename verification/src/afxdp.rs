//! AF_XDP kernel bypass: which packets the XDP program hands to the AF_XDP
//! socket, its counters, the layout of the shared frame area, and what user
//! space does with the received frames.

use crate::packet::{
    be16_at, load_be16, ETHER_TYPE_IPV4, ETH_TYPE, IP_PROTO, IP_PROTO_UDP, UDP_DST, UDP_SRC,
    xsk_request, XskRedirect, XDP_PASS, XDP_REDIRECT,
};
use crate::router::{swap_ranges, swapped};
use crate::sums::{checked_sum, sum_of};
use vstd::prelude::*;

verus! {

/// The UDP port whose packets are redirected.
pub const REDIR_PORT: u16 = 12345;

/// Exact frame length of the redirected test packets:
/// Ethernet 14 + IPv4 20 + UDP 8 + payload 123.
pub const WG_REDIR_ETHER_LEN: usize = 165;

/// Number of frames in the shared frame area.
pub const PACKET_RING_SIZE: u32 = 128;

/// Size of the receive queue.
pub const RX_QUEUE_SIZE: u32 = 8;

/// Size of the transmit queue.
pub const TX_QUEUE_SIZE: u32 = 8;

/// Size of one frame; equal to the page alignment the kernel needs.
pub const PACKET_LEN: u32 = 4096;

/// Size of the shared frame area.
pub const UMEM_SIZE: usize = 524288;

/// The receive queue the socket binds to.
pub const QUEUE_ID: u32 = 0;

/// Per-CPU counters of the redirecting program.
#[derive(Clone, Copy, Debug, PartialEq, Eq, Structural)]
pub struct Stat {
    pub total_packets: usize,
    pub redir_packets: usize,
    pub redir_failed_packets: usize,
}

/// A packet to redirect: exactly the test length, IPv4, UDP to the redirect port.
pub open spec fn spec_should_redirect(p: Seq<u8>) -> bool {
    &&& p.len() == WG_REDIR_ETHER_LEN
    &&& be16_at(p, ETH_TYPE as int) == ETHER_TYPE_IPV4
    &&& p[IP_PROTO as int] == IP_PROTO_UDP
    &&& be16_at(p, UDP_DST as int) == REDIR_PORT
}

/// Whether the frame goes to the AF_XDP socket.
pub fn should_redirect(pkt: &[u8]) -> (r: bool)
    ensures
        r == spec_should_redirect(pkt@),
{
    if pkt.len() < WG_REDIR_ETHER_LEN {
        return false;
    }
    if pkt.len() != WG_REDIR_ETHER_LEN {
        return false;
    }
    if load_be16(pkt, ETH_TYPE) != ETHER_TYPE_IPV4 {
        return false;
    }
    if pkt[IP_PROTO] != IP_PROTO_UDP {
        return false;
    }
    load_be16(pkt, UDP_DST) == REDIR_PORT
}

impl Stat {
    /// All counters at zero.
    pub fn new() -> (r: Stat)
        ensures
            r == (Stat { total_packets: 0, redir_packets: 0, redir_failed_packets: 0 }),
    {
        Stat { total_packets: 0, redir_packets: 0, redir_failed_packets: 0 }
    }

    /// Counts a packet seen.
    pub fn inc_stat_total(&mut self)
        ensures
            *final(self) == (Stat { total_packets: old(self).total_packets.wrapping_add(1), ..*old(self) }),
    {
        self.total_packets = self.total_packets.wrapping_add(1);
    }

    /// Counts a packet chosen for redirection.
    pub fn inc_stat_redir(&mut self)
        ensures
            *final(self) == (Stat { redir_packets: old(self).redir_packets.wrapping_add(1), ..*old(self) }),
    {
        self.redir_packets = self.redir_packets.wrapping_add(1);
    }

    /// Counts a redirection that did not happen.
    pub fn inc_stat_redir_failed(&mut self)
        ensures
            *final(self) == (Stat {
                redir_failed_packets: old(self).redir_failed_packets.wrapping_add(1),
                ..*old(self)
            }),
    {
        self.redir_failed_packets = self.redir_failed_packets.wrapping_add(1);
    }
}

/// The verdict of the redirecting program and its counters afterwards, given
/// what redirecting to the socket map returned (consulted only for packets
/// chosen for redirection; `Err` when the map refused).
pub open spec fn spec_redirect_to_afxdp(s: Stat, p: Seq<u8>, redirect: Result<u32, i64>) -> (u32, Stat) {
    let s1 = Stat { total_packets: s.total_packets.wrapping_add(1), ..s };
    if !spec_should_redirect(p) {
        (XDP_PASS, s1)
    } else {
        let s2 = Stat { redir_packets: s1.redir_packets.wrapping_add(1), ..s1 };
        let s3 = Stat { redir_failed_packets: s2.redir_failed_packets.wrapping_add(1), ..s2 };
        match redirect {
            Ok(action) => if action != XDP_REDIRECT {
                (action, s3)
            } else {
                (action, s2)
            },
            Err(_) => (XDP_PASS, s3),
        }
    }
}

/// Failures never outnumber redirections, nor redirections packets.
pub open spec fn counters_ordered(s: Stat) -> bool {
    s.redir_failed_packets <= s.redir_packets <= s.total_packets
}

/// The counters stay ordered across calls (as long as the total does not
/// wrap around): a failure is only counted for a packet chosen for
/// redirection, which is itself counted.
pub proof fn law_redirect_counters(s: Stat, p: Seq<u8>, redirect: Result<u32, i64>)
    requires
        counters_ordered(s),
        s.total_packets < usize::MAX,
    ensures
        counters_ordered(spec_redirect_to_afxdp(s, p, redirect).1),
{
}

/// The redirecting XDP program on a frame received on queue `rx_queue`.  It
/// returns its verdict and the request it made of the socket map, if any;
/// `redirect` is the map's answer to that request.
pub fn poc_redirect_to_afxdp(stat: &mut Stat, pkt: &[u8], rx_queue: u32, redirect: Result<u32, i64>) -> (r: (u32, Option<XskRedirect>))
    ensures
        (r.0, *final(stat)) == spec_redirect_to_afxdp(*old(stat), pkt@, redirect),
        r.1 == (if spec_should_redirect(pkt@) {
            Some(xsk_request(rx_queue))
        } else {
            None::<XskRedirect>
        }),
{
    stat.inc_stat_total();
    if should_redirect(pkt) {
        stat.inc_stat_redir();
        let request = XskRedirect { queue: rx_queue, fallback: XDP_PASS as u64 };
        match redirect {
            Ok(action) => {
                if action != XDP_REDIRECT {
                    stat.inc_stat_redir_failed();
                }
                return (action, Some(request));
            },
            Err(_) => {
                stat.inc_stat_redir_failed();
                return (XDP_PASS, Some(request));
            },
        }
    }
    (XDP_PASS, None)
}

/// The offsets of all frames of the shared area, handed to the kernel's fill
/// queue at start-up.
pub fn frame_offsets() -> (r: Vec<u64>)
    ensures
        r@.len() == PACKET_RING_SIZE,
        forall|i: int| 0 <= i < r@.len() ==> #[trigger] r@[i] == i * PACKET_LEN,
        forall|i: int| 0 <= i < r@.len() ==> r@[i] + PACKET_LEN <= UMEM_SIZE,
{
    let mut out: Vec<u64> = Vec::with_capacity(PACKET_RING_SIZE as usize);
    let mut i: u32 = 0;
    while i < PACKET_RING_SIZE
        invariant
            i <= PACKET_RING_SIZE,
            out@.len() == i,
            forall|j: int| 0 <= j < out@.len() ==> #[trigger] out@[j] == j * PACKET_LEN,
        decreases PACKET_RING_SIZE - i,
    {
        out.push(i as u64 * PACKET_LEN as u64);
        i = i + 1;
    }
    out
}

/// Exchanges the UDP source and destination ports of the frame that starts
/// at `addr` in the frame area, as the user-space loop does before sending
/// the frame back; `false`, and nothing changed, when the UDP ports do not
/// fit in the area.
pub fn swap_udp_ports(area: &mut Vec<u8>, addr: usize) -> (r: bool)
    ensures
        r == (addr + UDP_DST + 2 <= old(area)@.len()),
        r ==> final(area)@ == swapped(old(area)@, addr + UDP_SRC, addr + UDP_DST, 2),
        !r ==> final(area)@ == old(area)@,
{
    let len: usize = area.len();
    if addr > len || UDP_DST + 2 > len - addr {
        return false;
    }
    swap_ranges(area, addr + UDP_SRC, addr + UDP_DST, 2);
    true
}

/// Swapping the ports twice gives the frame back.
pub proof fn law_swap_ports_involution(p: Seq<u8>, addr: int)
    requires
        0 <= addr,
        addr + UDP_DST + 2 <= p.len(),
    ensures
        swapped(swapped(p, addr + UDP_SRC, addr + UDP_DST, 2), addr + UDP_SRC, addr + UDP_DST, 2) == p,
{
    assert(swapped(swapped(p, addr + UDP_SRC, addr + UDP_DST, 2), addr + UDP_SRC, addr + UDP_DST, 2) =~= p);
}

/// Bookkeeping of the user-space forwarding loop: what it last reported of
/// the rings and of the drop counter, and how many frames the kernel has
/// confirmed sent.
#[derive(Clone, Copy, Debug, PartialEq, Eq, Structural)]
pub struct RedirMonitor {
    pub was_rx_used: u32,
    pub was_rx_free: u32,
    pub was_dropped: u64,
    pub counter: i32,
    pub was_counter: i32,
}

impl RedirMonitor {
    /// Nothing reported yet.
    pub fn new() -> (r: RedirMonitor)
        ensures
            r == (RedirMonitor {
                was_rx_used: u32::MAX,
                was_rx_free: u32::MAX,
                was_dropped: 0,
                counter: 0,
                was_counter: 0,
            }),
    {
        RedirMonitor { was_rx_used: u32::MAX, was_rx_free: u32::MAX, was_dropped: 0, counter: 0, was_counter: 0 }
    }

    /// Takes in the fill levels of the receive ring; `true` when they changed
    /// since last reported (and are now to be reported).
    pub fn observe_rings(&mut self, rx_used: u32, rx_free: u32) -> (r: bool)
        ensures
            r == (old(self).was_rx_used != rx_used || old(self).was_rx_free != rx_free),
            *final(self) == (if r {
                RedirMonitor { was_rx_used: rx_used, was_rx_free: rx_free, ..*old(self) }
            } else {
                *old(self)
            }),
    {
        if self.was_rx_used != rx_used || self.was_rx_free != rx_free {
            self.was_rx_used = rx_used;
            self.was_rx_free = rx_free;
            true
        } else {
            false
        }
    }

    /// Takes in the kernel's drop counter; `true` when it changed since last
    /// reported.
    pub fn observe_dropped(&mut self, dropped: u64) -> (r: bool)
        ensures
            r == (old(self).was_dropped != dropped),
            *final(self) == (RedirMonitor { was_dropped: dropped, ..*old(self) }),
    {
        if self.was_dropped != dropped {
            self.was_dropped = dropped;
            true
        } else {
            false
        }
    }

    /// A pass that received nothing: the number of frames sent, when it
    /// changed since last reported.
    pub fn idle(&mut self) -> (r: Option<i32>)
        ensures
            r == (if old(self).counter != old(self).was_counter {
                Some(old(self).counter)
            } else {
                None::<i32>
            }),
            *final(self) == (RedirMonitor { was_counter: old(self).counter, ..*old(self) }),
    {
        if self.was_counter != self.counter {
            self.was_counter = self.counter;
            Some(self.counter)
        } else {
            None
        }
    }

    /// Counts one transmission the kernel confirmed.
    pub fn completed(&mut self)
        requires
            old(self).counter < i32::MAX,
        ensures
            *final(self) == (RedirMonitor { counter: (old(self).counter + 1) as i32, ..*old(self) }),
    {
        self.counter = self.counter + 1;
    }
}

/// Total packets over all CPUs.
pub open spec fn sum_total(s: Seq<Stat>) -> int {
    sum_of(s.map_values(|x: Stat| x.total_packets))
}

/// Redirected packets over all CPUs.
pub open spec fn sum_redir(s: Seq<Stat>) -> int {
    sum_of(s.map_values(|x: Stat| x.redir_packets))
}

/// Failed redirections over all CPUs.
pub open spec fn sum_failed(s: Seq<Stat>) -> int {
    sum_of(s.map_values(|x: Stat| x.redir_failed_packets))
}

/// The three counters of each CPU, one sequence per counter.
fn columns(stats: &Vec<Stat>) -> (r: (Vec<usize>, Vec<usize>, Vec<usize>))
    ensures
        r.0@ == stats@.map_values(|x: Stat| x.total_packets),
        r.1@ == stats@.map_values(|x: Stat| x.redir_packets),
        r.2@ == stats@.map_values(|x: Stat| x.redir_failed_packets),
{
    let mut t: Vec<usize> = Vec::new();
    let mut d: Vec<usize> = Vec::new();
    let mut f: Vec<usize> = Vec::new();
    let mut i: usize = 0;
    while i < stats.len()
        invariant
            i <= stats@.len(),
            t@ == stats@.take(i as int).map_values(|x: Stat| x.total_packets),
            d@ == stats@.take(i as int).map_values(|x: Stat| x.redir_packets),
            f@ == stats@.take(i as int).map_values(|x: Stat| x.redir_failed_packets),
        decreases stats@.len() - i,
    {
        t.push(stats[i].total_packets);
        d.push(stats[i].redir_packets);
        f.push(stats[i].redir_failed_packets);
        i = i + 1;
        assert(t@ =~= stats@.take(i as int).map_values(|x: Stat| x.total_packets));
        assert(d@ =~= stats@.take(i as int).map_values(|x: Stat| x.redir_packets));
        assert(f@ =~= stats@.take(i as int).map_values(|x: Stat| x.redir_failed_packets));
    }
    assert(stats@.take(stats@.len() as int) =~= stats@);
    (t, d, f)
}

/// The counters summed over all CPUs, as the report prints them; `None` when
/// a total does not fit in a `usize`.
pub fn totals(stats: &Vec<Stat>) -> (r: Option<Stat>)
    ensures
        r is Some <==> (sum_total(stats@) <= usize::MAX && sum_redir(stats@) <= usize::MAX
            && sum_failed(stats@) <= usize::MAX),
        r matches Some(t) ==> t.total_packets == sum_total(stats@) && t.redir_packets == sum_redir(
            stats@,
        ) && t.redir_failed_packets == sum_failed(stats@),
{
    let (t, d, f) = columns(stats);
    match (checked_sum(&t), checked_sum(&d), checked_sum(&f)) {
        (Some(a), Some(b), Some(c)) => Some(Stat { total_packets: a, redir_packets: b, redir_failed_packets: c }),
        _ => None,
    }
}

} // verus!
