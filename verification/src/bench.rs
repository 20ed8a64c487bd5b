//! Benchmark of ring buffer against perf buffer delivery: the XDP program's
//! choice and counters, the records it sends, how user space decodes them,
//! and how the final report is graded.

use crate::packet::{
    be16_at, load_be16, spec_endpoints, udp_endpoints, Endpoints, ETHER_TYPE_IPV4, ETH_TYPE,
    IP_PROTO, IP_PROTO_UDP, UDP_PAYLOAD, BPF_RB_FORCE_WAKEUP, XDP_PASS,
};
use crate::wire::{le_u64_at, lemma_u64_le_roundtrip, load_u64_le, push_bytes, push_u64_le, push_zeros, u64_le_bytes};
use crate::cli::{
    args_view, flag_value, given_number, given_text, number_value, scan,
    spec_scan_command_line, text_value, CliError, OptionSpec, ValueKind,
};
use crate::sums::{checked_sum, sum_of};
use vstd::prelude::*;

verus! {

/// Largest packet a ring event holds.
pub const MAX_MTU: usize = 1500;

/// Only packets of exactly this length are benchmarked:
/// Ethernet 14 + IPv4 20 + UDP 8 + payload 123.
pub const TESTING_PACKET_LEN: usize = 165;

/// Delivery mode: count only.
pub const SEND_NOT: u8 = 0;

/// Delivery mode: perf event array.
pub const SEND_VIA_PERF: u8 = 1;

/// Delivery mode: ring buffer, consumer polls with a delay.
pub const SEND_VIA_RING_WITH_DELAY: u8 = 2;

/// Delivery mode: ring buffer, consumer woken by epoll.
pub const SEND_VIA_RING_WITH_EPOLL: u8 = 3;

/// Size of the ring buffer.
pub const RING_SIZE: u32 = 67108864;

/// Number of receive buffers per CPU for perf events.
pub const PERF_BUF_COUNT: usize = 100;

/// Capacity of each perf receive buffer.
pub const PERF_BUF_SIZE: usize = 9000;

/// Size of a perf event header: time stamp and length, 8 bytes each.
pub const PERF_EVENT_SIZE: usize = 16;

/// Size of a ring event: time stamp, length, packet area, padded to 8 bytes.
pub const RING_EVENT_SIZE: usize = 1520;

/// Header of a perf event; the packet bytes follow it.
#[derive(Clone, Copy, Debug, PartialEq, Eq, Structural)]
pub struct PerfEvent {
    pub time: u64,
    pub len: usize,
}

/// A ring event: time stamp, length and the packet.
#[derive(Clone, Copy, Debug)]
pub struct RingEvent {
    pub time: u64,
    pub len: usize,
    pub buf: [u8; MAX_MTU],
}

/// Per-CPU counters of the benchmark program.
#[derive(Clone, Copy, Debug, PartialEq, Eq, Structural)]
pub struct Stat {
    pub total_packets: usize,
    pub ring_lost_packets: usize,
}

/// What the benchmark program did with a packet.
#[derive(Clone, Copy, Debug, PartialEq, Eq, Structural)]
pub enum Delivery {
    /// Not of the benchmarked length; not counted.
    Skipped,
    /// Counted only.
    Counted,
    /// Sent as a perf event with this header.
    Perf(PerfEvent),
    /// Submitted to the ring buffer, with these submit flags.
    RingSubmitted(u64),
    /// The ring entry was discarded because copying the packet failed.
    RingDiscarded,
    /// The ring buffer had no room.
    RingLost,
}

/// The benchmark program's action and counters for a packet of `len` bytes
/// at time `time`, given whether the ring granted an entry (`reserved`) and
/// whether copying the packet into it succeeded (`loaded`).
pub open spec fn spec_process(mode: u8, len: usize, time: u64, s: Stat, reserved: bool, loaded: bool) -> (Delivery, Stat) {
    if len != TESTING_PACKET_LEN {
        (Delivery::Skipped, s)
    } else {
        let s1 = Stat { total_packets: s.total_packets.wrapping_add(1), ..s };
        if mode == SEND_VIA_PERF {
            (Delivery::Perf(PerfEvent { time, len }), s1)
        } else if mode == SEND_VIA_RING_WITH_DELAY || mode == SEND_VIA_RING_WITH_EPOLL {
            if !reserved {
                (Delivery::RingLost, Stat { ring_lost_packets: s1.ring_lost_packets.wrapping_add(1), ..s1 })
            } else if loaded {
                (Delivery::RingSubmitted(BPF_RB_FORCE_WAKEUP), s1)
            } else {
                (Delivery::RingDiscarded, s1)
            }
        } else {
            (Delivery::Counted, s1)
        }
    }
}

/// The bytes of a ring event holding `packet` at time `time`: time stamp and
/// length little-endian, the packet, zero bytes to the full event size.
pub open spec fn ring_event_bytes(time: u64, packet: Seq<u8>) -> Seq<u8> {
    u64_le_bytes(time) + u64_le_bytes(packet.len() as u64) + packet + Seq::new(
        (RING_EVENT_SIZE - PERF_EVENT_SIZE - packet.len()) as nat,
        |i: int| 0u8,
    )
}

/// The ring event the program writes for `packet`.
pub fn encode_ring_event(time: u64, packet: &[u8]) -> (r: Vec<u8>)
    requires
        packet@.len() <= MAX_MTU,
    ensures
        r@ == ring_event_bytes(time, packet@),
        r@.len() == RING_EVENT_SIZE,
{
    let mut out: Vec<u8> = Vec::with_capacity(RING_EVENT_SIZE);
    push_u64_le(&mut out, time);
    push_u64_le(&mut out, packet.len() as u64);
    push_bytes(&mut out, packet);
    push_zeros(&mut out, RING_EVENT_SIZE - PERF_EVENT_SIZE - packet.len());
    out
}

/// A decoded event: its time stamp and packet bytes.
pub struct EventRecord {
    pub time: u64,
    pub packet: Vec<u8>,
}

/// Time stamp and packet of a ring entry; none when the entry is shorter
/// than a ring event or claims more than a ring event's packet area.
pub open spec fn spec_decode_ring_event(item: Seq<u8>) -> Option<(u64, Seq<u8>)> {
    if item.len() < RING_EVENT_SIZE {
        None
    } else if le_u64_at(item, 8) > MAX_MTU {
        None
    } else {
        Some((le_u64_at(item, 0), item.subrange(PERF_EVENT_SIZE as int, PERF_EVENT_SIZE + le_u64_at(item, 8))))
    }
}

/// Reads a ring entry.
pub fn decode_ring_event(item: &[u8]) -> (r: Option<EventRecord>)
    ensures
        match (r, spec_decode_ring_event(item@)) {
            (Some(e), Some((t, p))) => e.time == t && e.packet@ == p,
            (None, None) => true,
            _ => false,
        },
{
    if item.len() < RING_EVENT_SIZE {
        return None;
    }
    let time: u64 = load_u64_le(item, 0);
    let len: u64 = load_u64_le(item, 8);
    if len > MAX_MTU as u64 {
        return None;
    }
    let packet: Vec<u8> = crate::packet::read_unchecked(item, PERF_EVENT_SIZE, len as usize);
    Some(EventRecord { time, packet })
}

/// What the program writes into the ring, user space reads back unchanged.
pub proof fn law_ring_event_roundtrip(time: u64, packet: Seq<u8>)
    requires
        packet.len() <= MAX_MTU,
    ensures
        spec_decode_ring_event(ring_event_bytes(time, packet)) == Some((time, packet)),
{
    let e = ring_event_bytes(time, packet);
    assert(e.len() == RING_EVENT_SIZE);
    assert(e.subrange(0, 8) =~= u64_le_bytes(time));
    assert(e.subrange(8, 16) =~= u64_le_bytes(packet.len() as u64));
    lemma_u64_le_roundtrip(time, e, 0);
    lemma_u64_le_roundtrip(packet.len() as u64, e, 8);
    assert(e.subrange(16, 16 + packet.len() as int) =~= packet);
}

/// A perf event as user space handles it: time stamp, packet length and the
/// UDP four-tuple of the packet.
#[derive(Clone, Copy, Debug, PartialEq, Eq, Structural)]
pub struct PerfRecord {
    pub time: u64,
    pub len: usize,
    pub endpoints: Endpoints,
}

/// The record of a perf buffer; none when the buffer is too short for the
/// header or the packet, or the packet is not a complete IPv4/UDP packet.
pub open spec fn spec_decode_perf_record(buf: Seq<u8>) -> Option<PerfRecord> {
    if buf.len() < PERF_EVENT_SIZE {
        None
    } else {
        let len = le_u64_at(buf, 8);
        if PERF_EVENT_SIZE + len > buf.len() {
            None
        } else {
            let pkt = buf.subrange(PERF_EVENT_SIZE as int, PERF_EVENT_SIZE + len);
            if pkt.len() < UDP_PAYLOAD || be16_at(pkt, ETH_TYPE as int) != ETHER_TYPE_IPV4 || pkt[IP_PROTO as int] != IP_PROTO_UDP {
                None
            } else {
                Some(PerfRecord { time: le_u64_at(buf, 0), len: len as usize, endpoints: spec_endpoints(pkt, 0) })
            }
        }
    }
}

/// Decodes a perf buffer: the event header and the addresses and ports of
/// the packet after it.
pub fn decode_perf_record(buf: &[u8]) -> (r: Option<PerfRecord>)
    ensures
        r == spec_decode_perf_record(buf@),
{
    if buf.len() < PERF_EVENT_SIZE {
        return None;
    }
    let time: u64 = load_u64_le(buf, 0);
    let len: u64 = load_u64_le(buf, 8);
    let avail: usize = buf.len() - PERF_EVENT_SIZE;
    if len > avail as u64 {
        return None;
    }
    let n: usize = len as usize;
    let pkt: Vec<u8> = crate::packet::read_unchecked(buf, PERF_EVENT_SIZE, n);
    if pkt.len() < UDP_PAYLOAD {
        return None;
    }
    if load_be16(pkt.as_slice(), ETH_TYPE) != ETHER_TYPE_IPV4 {
        return None;
    }
    if pkt[IP_PROTO] != IP_PROTO_UDP {
        return None;
    }
    match udp_endpoints(pkt.as_slice(), 0) {
        Some(endpoints) => Some(PerfRecord { time, len: n, endpoints }),
        None => None,
    }
}

/// The two ring modes differ only in how user space waits; the kernel
/// program treats them the same.
pub proof fn law_ring_modes_agree(len: usize, time: u64, s: Stat, reserved: bool, loaded: bool)
    ensures
        spec_process(2, len, time, s, reserved, loaded) == spec_process(3, len, time, s, reserved, loaded),
{
}

/// In either ring mode a packet of the benchmarked length is submitted (with
/// the reader woken) whenever the ring grants the entry and the copy
/// succeeds; it is lost, and counted as lost, only when the ring refuses the
/// entry.  Either way it is counted once.
pub proof fn law_ring_delivers(mode: u8, time: u64, s: Stat, loaded: bool)
    requires
        mode == 2 || mode == 3,
    ensures
        loaded ==> spec_process(mode, 165, time, s, true, loaded).0 == Delivery::RingSubmitted(2),
        !loaded ==> spec_process(mode, 165, time, s, true, loaded).0 == Delivery::RingDiscarded,
        spec_process(mode, 165, time, s, false, loaded).0 == Delivery::RingLost,
        spec_process(mode, 165, time, s, true, loaded).1 == (Stat {
            total_packets: s.total_packets.wrapping_add(1),
            ..s
        }),
        spec_process(mode, 165, time, s, false, loaded).1 == (Stat {
            total_packets: s.total_packets.wrapping_add(1),
            ring_lost_packets: s.ring_lost_packets.wrapping_add(1),
        }),
{
}

/// Perf mode sends every packet of the benchmarked length with its capture
/// time and length, and the baseline only counts it; outside the ring modes
/// only the total changes.  Other lengths are ignored and not counted in any
/// mode.
pub proof fn law_perf_delivers(mode: u8, len: usize, time: u64, s: Stat, reserved: bool, loaded: bool)
    ensures
        mode == 1 && len == 165 ==> spec_process(mode, len, time, s, reserved, loaded).0
            == Delivery::Perf((PerfEvent { time, len: 165 })),
        len != 165 ==> spec_process(mode, len, time, s, reserved, loaded) == (Delivery::Skipped, s),
        mode != 1 && mode != 2 && mode != 3 && len == 165 ==> spec_process(mode, len, time, s, reserved, loaded).0
            == Delivery::Counted,
        mode != 2 && mode != 3 && len == 165 ==> spec_process(mode, len, time, s, reserved, loaded).1
            == (Stat { total_packets: s.total_packets.wrapping_add(1), ..s }),
{
}

/// The bytes a perf event carries for `packet` at time `time`: the header
/// (time stamp, length, both little-endian) followed by the packet.
pub open spec fn perf_record_bytes(time: u64, packet: Seq<u8>) -> Seq<u8> {
    u64_le_bytes(time) + u64_le_bytes(packet.len() as u64) + packet
}

/// The perf event the program sends for `packet`.
pub fn encode_perf_record(time: u64, packet: &[u8]) -> (r: Vec<u8>)
    ensures
        r@ == perf_record_bytes(time, packet@),
{
    let mut out: Vec<u8> = Vec::new();
    push_u64_le(&mut out, time);
    push_u64_le(&mut out, packet.len() as u64);
    push_bytes(&mut out, packet);
    out
}

/// What the program sends through the perf array, user space decodes as the
/// time stamp, the length and the addresses of the packet (when it is a
/// complete IPv4/UDP packet).
pub proof fn law_perf_record_roundtrip(time: u64, packet: Seq<u8>)
    requires
        packet.len() <= usize::MAX,
    ensures
        spec_decode_perf_record(perf_record_bytes(time, packet)) == (if packet.len() < UDP_PAYLOAD
            || be16_at(packet, ETH_TYPE as int) != ETHER_TYPE_IPV4 || packet[IP_PROTO as int]
            != IP_PROTO_UDP {
            None
        } else {
            Some(PerfRecord { time, len: packet.len() as usize, endpoints: spec_endpoints(packet, 0) })
        }),
{
    let e = perf_record_bytes(time, packet);
    assert(e.subrange(0, 8) =~= u64_le_bytes(time));
    assert(e.subrange(8, 16) =~= u64_le_bytes(packet.len() as u64));
    lemma_u64_le_roundtrip(time, e, 0);
    lemma_u64_le_roundtrip(packet.len() as u64, e, 8);
    assert(e.subrange(16, 16 + packet.len() as int) =~= packet);
}

/// The ring-lost counter stays within the packet count.
pub open spec fn counters_bounded(s: Stat) -> bool {
    s.ring_lost_packets <= s.total_packets
}

/// A packet is counted as lost only when it is also counted, so the total
/// bounds the lost count across calls (as long as the total does not wrap
/// around).
pub proof fn law_bench_counters(mode: u8, len: usize, time: u64, s: Stat, reserved: bool, loaded: bool)
    requires
        counters_bounded(s),
        s.total_packets < usize::MAX,
    ensures
        counters_bounded(spec_process(mode, len, time, s, reserved, loaded).1),
{
}

/// The benchmark XDP program in delivery mode `mode` on `packet`, captured at
/// time `time`; it always lets the packet through.  The event it sends (perf)
/// or submits (ring buffer) is returned.
pub fn process(mode: u8, time: u64, packet: &[u8], stat: &mut Stat, reserved: bool, loaded: bool) -> (r: (u32, Delivery, Option<Vec<u8>>))
    ensures
        r.0 == XDP_PASS,
        (r.1, *final(stat)) == spec_process(mode, packet@.len() as usize, time, *old(stat), reserved, loaded),
        match (r.1, r.2) {
            (Delivery::Perf(_), Some(e)) => e@ == perf_record_bytes(time, packet@),
            (Delivery::RingSubmitted(_), Some(e)) => {
                &&& e@ == ring_event_bytes(time, packet@)
                &&& spec_decode_ring_event(e@) == Some((time, packet@))
            },
            (Delivery::Perf(_), None) => false,
            (Delivery::RingSubmitted(_), None) => false,
            (_, Some(_)) => false,
            _ => true,
        },
{
    let len: usize = packet.len();
    if len != TESTING_PACKET_LEN {
        return (XDP_PASS, Delivery::Skipped, None);
    }
    stat.total_packets = stat.total_packets.wrapping_add(1);
    if mode == SEND_VIA_PERF {
        (XDP_PASS, Delivery::Perf(PerfEvent { time, len }), Some(encode_perf_record(time, packet)))
    } else if mode == SEND_VIA_RING_WITH_DELAY || mode == SEND_VIA_RING_WITH_EPOLL {
        if !reserved {
            stat.ring_lost_packets = stat.ring_lost_packets.wrapping_add(1);
            (XDP_PASS, Delivery::RingLost, None)
        } else if loaded {
            let event: Vec<u8> = encode_ring_event(time, packet);
            proof {
                law_ring_event_roundtrip(time, packet@);
            }
            (XDP_PASS, Delivery::RingSubmitted(BPF_RB_FORCE_WAKEUP), Some(event))
        } else {
            (XDP_PASS, Delivery::RingDiscarded, None)
        }
    } else {
        (XDP_PASS, Delivery::Counted, None)
    }
}

/// Time from capture in the kernel to processing in user space.
pub fn latency(now: u64, time: u64) -> (r: u64)
    requires
        time <= now,
    ensures
        r == now - time,
{
    now - time
}

/// Which program the benchmark loads, and how user space receives.
#[derive(Clone, Copy, Debug, PartialEq, Eq, Structural)]
pub enum BenchProgram {
    RingWithDelay,
    RingWithEpoll,
    Perf,
    Baseline,
}

/// The program for the chosen options: ring buffer (with a delay when one is
/// given, else epoll) wins over perf, and with neither the baseline runs.
pub open spec fn spec_select_program(ring: bool, ring_delay: Option<u32>, perf: bool) -> BenchProgram {
    if ring {
        if ring_delay is Some {
            BenchProgram::RingWithDelay
        } else {
            BenchProgram::RingWithEpoll
        }
    } else if perf {
        BenchProgram::Perf
    } else {
        BenchProgram::Baseline
    }
}

/// Asking for the ring buffer always loads a ring-buffer program, whether or
/// not perf is asked for too: with a delay the polling one, without the epoll
/// one; perf is loaded only without the ring, and the baseline only when
/// neither is asked for.
pub proof fn law_ring_wins(ring: bool, ring_delay: Option<u32>, perf: bool)
    ensures
        ring ==> spec_select_program(ring, ring_delay, perf) != BenchProgram::Perf
            && spec_select_program(ring, ring_delay, perf) != BenchProgram::Baseline,
        (spec_select_program(ring, ring_delay, perf) == BenchProgram::RingWithEpoll) <==> (ring
            && (ring_delay is None)),
        (spec_select_program(ring, ring_delay, perf) == BenchProgram::RingWithDelay) <==> (ring
            && (ring_delay is Some)),
        (spec_select_program(ring, ring_delay, perf) == BenchProgram::Perf) <==> (!ring && perf),
        (spec_select_program(ring, ring_delay, perf) == BenchProgram::Baseline) <==> (!ring
            && !perf),
{
}

/// Chooses the program to load.
pub fn select_program(ring: bool, ring_delay: Option<u32>, perf: bool) -> (r: BenchProgram)
    ensures
        r == spec_select_program(ring, ring_delay, perf),
{
    if ring {
        if ring_delay.is_some() {
            BenchProgram::RingWithDelay
        } else {
            BenchProgram::RingWithEpoll
        }
    } else if perf {
        BenchProgram::Perf
    } else {
        BenchProgram::Baseline
    }
}

impl BenchProgram {
    /// Name of the XDP program in the object file.
    pub fn bee(&self) -> (r: &'static str)
        ensures
            match *self {
                BenchProgram::RingWithDelay => r@ == "poc_ring_with_delay"@,
                BenchProgram::RingWithEpoll => r@ == "poc_ring_with_epoll"@,
                BenchProgram::Perf => r@ == "poc_perf"@,
                BenchProgram::Baseline => r@ == "poc_none"@,
            },
    {
        match *self {
            BenchProgram::RingWithDelay => "poc_ring_with_delay",
            BenchProgram::RingWithEpoll => "poc_ring_with_epoll",
            BenchProgram::Perf => "poc_perf",
            BenchProgram::Baseline => "poc_none",
        }
    }

    /// Short name of the delivery mode.
    pub fn mode(&self) -> (r: &'static str)
        ensures
            match *self {
                BenchProgram::RingWithDelay => r@ == "RING"@,
                BenchProgram::RingWithEpoll => r@ == "RING"@,
                BenchProgram::Perf => r@ == "PERF"@,
                BenchProgram::Baseline => r@ == "NONE"@,
            },
    {
        match *self {
            BenchProgram::RingWithDelay => "RING",
            BenchProgram::RingWithEpoll => "RING",
            BenchProgram::Perf => "PERF",
            BenchProgram::Baseline => "NONE",
        }
    }

    /// The delivery mode number the program is built with.
    pub fn send_mode(&self) -> (r: u8)
        ensures
            r == (match *self {
                BenchProgram::RingWithDelay => SEND_VIA_RING_WITH_DELAY,
                BenchProgram::RingWithEpoll => SEND_VIA_RING_WITH_EPOLL,
                BenchProgram::Perf => SEND_VIA_PERF,
                BenchProgram::Baseline => SEND_NOT,
            }),
    {
        match *self {
            BenchProgram::RingWithDelay => SEND_VIA_RING_WITH_DELAY,
            BenchProgram::RingWithEpoll => SEND_VIA_RING_WITH_EPOLL,
            BenchProgram::Perf => SEND_VIA_PERF,
            BenchProgram::Baseline => SEND_NOT,
        }
    }
}

/// Severity of a report line.
#[derive(Clone, Copy, Debug, PartialEq, Eq, Structural)]
pub enum Level {
    Error,
    Warn,
    Info,
}

/// How the integer lines of the report are graded.
#[derive(Clone, Copy, Debug, PartialEq, Eq, Structural)]
pub struct ReportPlan {
    /// Packets counted as received.
    pub recv_packets: usize,
    pub latency_level: Level,
    pub throughput_level: Level,
    /// Throughput shown in thousands of packets per second.
    pub throughput_in_kilo: bool,
    pub lost_level: Level,
}

/// The report grading: without perf and ring the kernel's total stands for
/// the received count; latency is a warning once any was measured;
/// throughput is an error at zero and shown in thousands above 10000
/// packets; any loss is an error.
pub open spec fn spec_plan_report(perf: bool, ring: bool, total_packets: usize, recv_packets: usize, latency_sum: usize, lost_packets: usize) -> ReportPlan {
    let recv = if !perf && !ring { total_packets } else { recv_packets };
    ReportPlan {
        recv_packets: recv,
        latency_level: if latency_sum == 0 { Level::Info } else { Level::Warn },
        throughput_level: if recv == 0 { Level::Error } else { Level::Warn },
        throughput_in_kilo: recv > 10000,
        lost_level: if lost_packets == 0 { Level::Info } else { Level::Error },
    }
}

/// Grades the integer lines of the final report.
pub fn plan_report(perf: bool, ring: bool, total_packets: usize, recv_packets: usize, latency_sum: usize, lost_packets: usize) -> (r: ReportPlan)
    ensures
        r == spec_plan_report(perf, ring, total_packets, recv_packets, latency_sum, lost_packets),
{
    let recv: usize = if !perf && !ring { total_packets } else { recv_packets };
    ReportPlan {
        recv_packets: recv,
        latency_level: if latency_sum == 0 { Level::Info } else { Level::Warn },
        throughput_level: if recv == 0 { Level::Error } else { Level::Warn },
        throughput_in_kilo: recv > 10000,
        lost_level: if lost_packets == 0 { Level::Info } else { Level::Error },
    }
}

/// Packets counted over all CPUs.
pub open spec fn sum_total(s: Seq<Stat>) -> int {
    sum_of(s.map_values(|x: Stat| x.total_packets))
}

/// Packets lost for want of ring space over all CPUs.
pub open spec fn sum_lost(s: Seq<Stat>) -> int {
    sum_of(s.map_values(|x: Stat| x.ring_lost_packets))
}

/// The two counters of each CPU, one sequence per counter.
fn columns(stats: &Vec<Stat>) -> (r: (Vec<usize>, Vec<usize>))
    ensures
        r.0@ == stats@.map_values(|x: Stat| x.total_packets),
        r.1@ == stats@.map_values(|x: Stat| x.ring_lost_packets),
{
    let mut t: Vec<usize> = Vec::new();
    let mut l: Vec<usize> = Vec::new();
    let mut i: usize = 0;
    while i < stats.len()
        invariant
            i <= stats@.len(),
            t@ == stats@.take(i as int).map_values(|x: Stat| x.total_packets),
            l@ == stats@.take(i as int).map_values(|x: Stat| x.ring_lost_packets),
        decreases stats@.len() - i,
    {
        t.push(stats[i].total_packets);
        l.push(stats[i].ring_lost_packets);
        i = i + 1;
        assert(t@ =~= stats@.take(i as int).map_values(|x: Stat| x.total_packets));
        assert(l@ =~= stats@.take(i as int).map_values(|x: Stat| x.ring_lost_packets));
    }
    assert(stats@.take(stats@.len() as int) =~= stats@);
    (t, l)
}

/// The packets counted on all CPUs; `None` when the total does not fit.
pub fn total_packets(stats: &Vec<Stat>) -> (r: Option<usize>)
    ensures
        r is Some <==> sum_total(stats@) <= usize::MAX,
        r matches Some(n) ==> n == sum_total(stats@),
{
    checked_sum(&columns(stats).0)
}

/// The packets lost for want of ring space on all CPUs; `None` when the
/// total does not fit.
pub fn ring_lost_packets(stats: &Vec<Stat>) -> (r: Option<usize>)
    ensures
        r is Some <==> sum_lost(stats@) <= usize::MAX,
        r matches Some(n) ==> n == sum_lost(stats@),
{
    checked_sum(&columns(stats).1)
}

/// Options of the benchmark tool.
#[derive(Debug)]
pub struct Opt {
    /// Run this many milliseconds instead of waiting for Ctrl-C.
    pub timeout: Option<u64>,
    /// Interface to attach to.
    pub iface: String,
    /// Deliver through the perf event array.
    pub perf: bool,
    /// Deliver through the ring buffer.
    pub ring: bool,
    /// Poll the ring buffer with this delay (µs) instead of epoll.
    pub ring_delay: Option<u32>,
}

/// The benchmark tool's options: `-t/--timeout <ms>`, `-i/--iface <name>`,
/// `-p/--perf`, `-r/--ring`, `--ring-delay <µs>`.
pub open spec fn options_table() -> Seq<OptionSpec> {
    seq![
        OptionSpec { long: "timeout", short: Some('t'), kind: ValueKind::U64 },
        OptionSpec { long: "iface", short: Some('i'), kind: ValueKind::Text },
        OptionSpec { long: "perf", short: Some('p'), kind: ValueKind::Flag },
        OptionSpec { long: "ring", short: Some('r'), kind: ValueKind::Flag },
        OptionSpec { long: "ring-delay", short: None, kind: ValueKind::U32 },
    ]
}

fn options() -> (r: Vec<OptionSpec>)
    ensures
        r@ == options_table(),
{
    let mut t: Vec<OptionSpec> = Vec::new();
    t.push(OptionSpec { long: "timeout", short: Some('t'), kind: ValueKind::U64 });
    t.push(OptionSpec { long: "iface", short: Some('i'), kind: ValueKind::Text });
    t.push(OptionSpec { long: "perf", short: Some('p'), kind: ValueKind::Flag });
    t.push(OptionSpec { long: "ring", short: Some('r'), kind: ValueKind::Flag });
    t.push(OptionSpec { long: "ring-delay", short: None, kind: ValueKind::U32 });
    assert(t@ =~= options_table());
    t
}

/// Reads the benchmark tool's command line (program name first).  Defaults:
/// no timeout, interface `eth0`, neither perf nor ring, no ring delay.
pub fn parse(args: &Vec<String>) -> (r: Result<Opt, CliError>)
    ensures
        match (r, spec_scan_command_line(options_table(), args_view(args@), false)) {
            (Ok(o), Ok(g)) => {
                &&& o.timeout == (match given_number(g[0], u64::MAX as int) {
                    Some(n) => Some(n as u64),
                    None => None,
                })
                &&& o.iface@ == given_text(g[1], "eth0"@)
                &&& o.perf == g[2] is Some
                &&& o.ring == g[3] is Some
                &&& o.ring_delay == (match given_number(g[4], u32::MAX as int) {
                    Some(n) => Some(n as u32),
                    None => None,
                })
            },
            (Err(e), Err((k, a))) => e.kind == k && e.arg@ == a,
            _ => false,
        },
{
    let table: Vec<OptionSpec> = options();
    let vals: Vec<Option<String>> = match scan(&table, args, false) {
        Ok(v) => v,
        Err(e) => {
            return Err(e);
        },
    };
    let ring_delay: Option<u32> = match number_value(&vals, 4, u32::MAX as u64) {
        Some(n) => Some(n as u32),
        None => None,
    };
    Ok(
        Opt {
            timeout: number_value(&vals, 0, u64::MAX),
            iface: text_value(&vals, 1, "eth0"),
            perf: flag_value(&vals, 2),
            ring: flag_value(&vals, 3),
            ring_delay,
        },
    )
}

} // verus!
