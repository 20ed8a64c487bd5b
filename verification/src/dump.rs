//! Packet capture through a ring buffer: how large a ring entry the XDP
//! program reserves for a packet, what it writes there, its counters, and how
//! user space reads the entries back.

use crate::packet::{ETH_HDR_LEN, XDP_PASS};
use crate::wire::{le_u64_at, lemma_u64_le_roundtrip, load_u64_le, push_bytes, push_u64_le, push_zeros, u64_le_bytes};
use crate::cli::{args_view, given_text, scan, spec_scan_command_line, text_value, CliError, OptionSpec, ValueKind};
use vstd::prelude::*;

verus! {

/// Size of the ring buffer.
pub const RING_SIZE: u32 = 67108864;

/// Size of the header in front of each captured packet.
pub const EVENT_HDR: usize = 16;

/// Entry size for small packets.
pub const BUCKET_SMALL: usize = 256;

/// Entry size for medium packets.
pub const BUCKET_MEDIUM: usize = 1024;

/// Entry size for packets up to the usual MTU.
pub const BUCKET_LARGE: usize = 2048;

/// Entry size for jumbo frames.
pub const BUCKET_JUMBO: usize = 16384;

/// Packets shorter than an Ethernet header are not captured.
pub const LIMIT_INVALID: usize = ETH_HDR_LEN;

/// Largest packet of a small entry.
pub const LIMIT_SMALL: usize = 240;

/// Largest packet of a medium entry.
pub const LIMIT_MEDIUM: usize = 1008;

/// Largest packet of a large entry.
pub const LIMIT_LARGE: usize = 2032;

/// Largest packet of a jumbo entry.
pub const LIMIT_JUMBO: usize = 16368;

/// The header written in front of each captured packet.
#[derive(Clone, Copy, Debug, PartialEq, Eq, Structural)]
pub struct RingEventHeader {
    pub timestamp: u64,
    pub packet_len: u64,
}

/// Per-CPU counters of the capture program.
#[derive(Clone, Copy, Debug, PartialEq, Eq, Structural)]
pub struct Stat {
    pub total_packets: u64,
    pub ring_submitted: u64,
    pub ring_discarded: u64,
    pub ring_failed_reservations: u64,
}

/// The ring entry size reserved for a packet of `len` bytes.
pub open spec fn spec_reservation_size(len: usize) -> Option<usize> {
    if len < LIMIT_INVALID {
        None
    } else if len <= LIMIT_SMALL {
        Some(BUCKET_SMALL)
    } else if len <= LIMIT_MEDIUM {
        Some(BUCKET_MEDIUM)
    } else if len <= LIMIT_LARGE {
        Some(BUCKET_LARGE)
    } else if len <= LIMIT_JUMBO {
        Some(BUCKET_JUMBO)
    } else {
        None
    }
}

/// One of the four entry sizes.
pub open spec fn is_bucket(b: usize) -> bool {
    b == BUCKET_SMALL || b == BUCKET_MEDIUM || b == BUCKET_LARGE || b == BUCKET_JUMBO
}

/// The ring entry size for a packet of `len` bytes: the smallest of the four
/// sizes that holds the header and the packet; none for packets shorter than
/// an Ethernet header or too long for the largest size.
pub fn reservation_size(len: usize) -> (r: Option<usize>)
    ensures
        r == spec_reservation_size(len),
        r is None <==> (len < LIMIT_INVALID || len + EVENT_HDR > BUCKET_JUMBO),
        r matches Some(b) ==> is_bucket(b) && len + EVENT_HDR <= b,
        r matches Some(b) ==> forall|c: usize| is_bucket(c) && len + EVENT_HDR <= c ==> b <= c,
{
    if len < LIMIT_INVALID {
        None
    } else if len <= LIMIT_SMALL {
        Some(BUCKET_SMALL)
    } else if len <= LIMIT_MEDIUM {
        Some(BUCKET_MEDIUM)
    } else if len <= LIMIT_LARGE {
        Some(BUCKET_LARGE)
    } else if len <= LIMIT_JUMBO {
        Some(BUCKET_JUMBO)
    } else {
        None
    }
}

/// What became of a packet.
#[derive(Clone, Copy, Debug, PartialEq, Eq, Structural)]
pub enum Capture {
    /// Too short or too long to capture.
    Skipped,
    /// The ring had no room.
    ReserveFailed,
    /// Copying the packet failed; the entry was discarded.
    Discarded,
    /// Submitted in an entry of the given size, with these submit flags.
    Submitted(usize, u64),
}

/// The capture program's outcome and counters, given whether the ring
/// granted the entry (`reserved`) and whether copying the packet into it
/// succeeded (`loaded`).
pub open spec fn spec_capture(s: Stat, len: usize, reserved: bool, loaded: bool) -> (Capture, Stat) {
    let s1 = Stat { total_packets: s.total_packets.wrapping_add(1), ..s };
    match spec_reservation_size(len) {
        None => (Capture::Skipped, s1),
        Some(b) => if !reserved {
            (Capture::ReserveFailed, Stat { ring_failed_reservations: s1.ring_failed_reservations.wrapping_add(1), ..s1 })
        } else if !loaded {
            (Capture::Discarded, Stat { ring_discarded: s1.ring_discarded.wrapping_add(1), ..s1 })
        } else {
            (Capture::Submitted(b, 0), Stat { ring_submitted: s1.ring_submitted.wrapping_add(1), ..s1 })
        },
    }
}

/// A ring entry of `size` bytes: the header (time stamp, packet length, both
/// little-endian), the packet, and zero bytes up to the entry size.
pub open spec fn capture_entry(timestamp: u64, packet: Seq<u8>, size: nat) -> Seq<u8> {
    u64_le_bytes(timestamp) + u64_le_bytes(packet.len() as u64) + packet + Seq::new(
        (size - EVENT_HDR - packet.len()) as nat,
        |i: int| 0u8,
    )
}

/// The ring entry the capture program fills for `packet`.
pub fn encode_capture(timestamp: u64, packet: &[u8], size: usize) -> (r: Vec<u8>)
    requires
        packet@.len() + EVENT_HDR <= size,
    ensures
        r@ == capture_entry(timestamp, packet@, size as nat),
        r@.len() == size,
{
    let mut out: Vec<u8> = Vec::with_capacity(size);
    push_u64_le(&mut out, timestamp);
    push_u64_le(&mut out, packet.len() as u64);
    push_bytes(&mut out, packet);
    push_zeros(&mut out, size - EVENT_HDR - packet.len());
    out
}

/// What user space reads from a ring entry: the header and the packet after
/// it; none when the entry is too short for the header or for the packet
/// length the header claims.
pub open spec fn spec_decode_capture(entry: Seq<u8>) -> Option<(RingEventHeader, Seq<u8>)> {
    if entry.len() < EVENT_HDR {
        None
    } else {
        let hdr = RingEventHeader { timestamp: le_u64_at(entry, 0), packet_len: le_u64_at(entry, 8) };
        if EVENT_HDR + hdr.packet_len > entry.len() {
            None
        } else {
            Some((hdr, entry.subrange(EVENT_HDR as int, EVENT_HDR + hdr.packet_len)))
        }
    }
}

/// Reads a ring entry back.
pub fn decode_capture(entry: &[u8]) -> (r: Option<(RingEventHeader, Vec<u8>)>)
    ensures
        match (r, spec_decode_capture(entry@)) {
            (Some((h, p)), Some((sh, sp))) => h == sh && p@ == sp,
            (None, None) => true,
            _ => false,
        },
{
    if entry.len() < EVENT_HDR {
        return None;
    }
    let timestamp: u64 = load_u64_le(entry, 0);
    let packet_len: u64 = load_u64_le(entry, 8);
    let avail: usize = entry.len() - EVENT_HDR;
    if packet_len > avail as u64 {
        return None;
    }
    let n: usize = packet_len as usize;
    let packet: Vec<u8> = crate::packet::read_unchecked(entry, EVENT_HDR, n);
    Some((RingEventHeader { timestamp, packet_len }, packet))
}

/// What the capture program writes, user space reads back unchanged.
pub proof fn law_capture_roundtrip(timestamp: u64, packet: Seq<u8>, size: nat)
    requires
        packet.len() + EVENT_HDR <= size,
        size <= usize::MAX,
    ensures
        spec_decode_capture(capture_entry(timestamp, packet, size)) == Some(
            (RingEventHeader { timestamp, packet_len: packet.len() as u64 }, packet),
        ),
{
    let e = capture_entry(timestamp, packet, size);
    assert(e.len() == size);
    assert(packet.len() as u64 == packet.len());
    assert(e.subrange(0, 8) =~= u64_le_bytes(timestamp));
    assert(e.subrange(8, 16) =~= u64_le_bytes(packet.len() as u64));
    lemma_u64_le_roundtrip(timestamp, e, 0);
    lemma_u64_le_roundtrip(packet.len() as u64, e, 8);
    assert(e.subrange(16, 16 + packet.len() as int) =~= packet);
}

/// Whether the three outcome counters together stay within the packet count.
pub open spec fn counters_bounded(s: Stat) -> bool {
    s.ring_submitted + s.ring_discarded + s.ring_failed_reservations <= s.total_packets
}

/// Each packet counts once in the total and at most once in one of the three
/// outcome counters, so the total bounds their sum across calls (as long as
/// the total does not wrap around).
pub proof fn law_capture_counters(s: Stat, len: usize, reserved: bool, loaded: bool)
    requires
        counters_bounded(s),
        s.total_packets < u64::MAX,
    ensures
        counters_bounded(spec_capture(s, len, reserved, loaded).1),
        spec_capture(s, len, reserved, loaded).1.total_packets == s.total_packets + 1,
{
}

/// The capture XDP program on `packet`, captured at `timestamp`: it always
/// lets the packet through, and records what it did with it.  When it
/// submits an entry, the entry is returned: the header (time stamp, packet
/// length) and the packet, padded to the reserved size.
pub fn poc_xdp_ring(stat: &mut Stat, timestamp: u64, packet: &[u8], reserved: bool, loaded: bool) -> (r: (u32, Capture, Option<Vec<u8>>))
    ensures
        r.0 == XDP_PASS,
        (r.1, *final(stat)) == spec_capture(*old(stat), packet@.len() as usize, reserved, loaded),
        match (r.1, r.2) {
            (Capture::Submitted(b, _), Some(e)) => {
                &&& spec_reservation_size(packet@.len() as usize) == Some(b)
                &&& e@ == capture_entry(timestamp, packet@, b as nat)
                &&& spec_decode_capture(e@) == Some(
                    (RingEventHeader { timestamp, packet_len: packet@.len() as u64 }, packet@),
                )
            },
            (Capture::Submitted(_, _), None) => false,
            (_, Some(_)) => false,
            _ => true,
        },
{
    let len: usize = packet.len();
    stat.total_packets = stat.total_packets.wrapping_add(1);
    let b: usize = match reservation_size(len) {
        Some(b) => b,
        None => {
            return (XDP_PASS, Capture::Skipped, None);
        },
    };
    if !reserved {
        stat.ring_failed_reservations = stat.ring_failed_reservations.wrapping_add(1);
        return (XDP_PASS, Capture::ReserveFailed, None);
    }
    if !loaded {
        stat.ring_discarded = stat.ring_discarded.wrapping_add(1);
        return (XDP_PASS, Capture::Discarded, None);
    }
    let entry: Vec<u8> = encode_capture(timestamp, packet, b);
    proof {
        law_capture_roundtrip(timestamp, packet@, b as nat);
    }
    stat.ring_submitted = stat.ring_submitted.wrapping_add(1);
    (XDP_PASS, Capture::Submitted(b, 0), Some(entry))
}

/// Options of the capture tool.
#[derive(Debug)]
pub struct Opt {
    /// Interface to capture on.
    pub iface: String,
    /// File to write the capture to.
    pub out: String,
}

/// The capture tool's options: `-i/--iface <name>`, `-o/--out <file>`.
pub open spec fn options_table() -> Seq<OptionSpec> {
    seq![
        OptionSpec { long: "iface", short: Some('i'), kind: ValueKind::Text },
        OptionSpec { long: "out", short: Some('o'), kind: ValueKind::Text },
    ]
}

fn options() -> (r: Vec<OptionSpec>)
    ensures
        r@ == options_table(),
{
    let mut t: Vec<OptionSpec> = Vec::new();
    t.push(OptionSpec { long: "iface", short: Some('i'), kind: ValueKind::Text });
    t.push(OptionSpec { long: "out", short: Some('o'), kind: ValueKind::Text });
    assert(t@ =~= options_table());
    t
}

/// Reads the capture tool's command line (program name first).  Defaults:
/// interface `eth0`, output `dump.pcap`.
pub fn parse(args: &Vec<String>) -> (r: Result<Opt, CliError>)
    ensures
        match (r, spec_scan_command_line(options_table(), args_view(args@), false)) {
            (Ok(o), Ok(g)) => o.iface@ == given_text(g[0], "eth0"@) && o.out@ == given_text(g[1], "dump.pcap"@),
            (Err(e), Err((k, a))) => e.kind == k && e.arg@ == a,
            _ => false,
        },
{
    let table: Vec<OptionSpec> = options();
    let vals: Vec<Option<String>> = match scan(&table, args, false) {
        Ok(v) => v,
        Err(e) => {
            return Err(e);
        },
    };
    Ok(Opt { iface: text_value(&vals, 0, "eth0"), out: text_value(&vals, 1, "dump.pcap") })
}

} // verus!
