use xdp_labs::bench::{
    decode_perf_record, decode_ring_event, encode_perf_record, encode_ring_event, latency, plan_report, process,
    ring_lost_packets, select_program, total_packets, BenchProgram, Delivery, Level, PerfEvent,
    RingEvent, MAX_MTU, RING_EVENT_SIZE, SEND_NOT, SEND_VIA_PERF, SEND_VIA_RING_WITH_DELAY,
    SEND_VIA_RING_WITH_EPOLL, TESTING_PACKET_LEN,
};
use xdp_labs::dump::{
    decode_capture, encode_capture, poc_xdp_ring, reservation_size, Capture, RingEventHeader,
    BUCKET_JUMBO, BUCKET_LARGE, BUCKET_MEDIUM, BUCKET_SMALL,
};
use xdp_labs::packet::{BPF_RB_FORCE_WAKEUP, XDP_PASS};

fn bench_stat(total: usize, lost: usize) -> xdp_labs::bench::Stat {
    xdp_labs::bench::Stat { total_packets: total, ring_lost_packets: lost }
}

fn dump_stat() -> xdp_labs::dump::Stat {
    xdp_labs::dump::Stat { total_packets: 0, ring_submitted: 0, ring_discarded: 0, ring_failed_reservations: 0 }
}

fn udp_packet(len: usize) -> Vec<u8> {
    let mut p: Vec<u8> = vec![0; len];
    p[12] = 0x08;
    p[23] = 17;
    p[26..30].copy_from_slice(&[192, 168, 0, 1]);
    p[30..34].copy_from_slice(&[192, 168, 0, 2]);
    p[34..36].copy_from_slice(&4000u16.to_be_bytes());
    p[36..38].copy_from_slice(&4001u16.to_be_bytes());
    p
}

#[test]
fn reservation_buckets() {
    assert_eq!(reservation_size(0), None);
    assert_eq!(reservation_size(13), None);
    assert_eq!(reservation_size(14), Some(BUCKET_SMALL));
    assert_eq!(reservation_size(240), Some(BUCKET_SMALL));
    assert_eq!(reservation_size(241), Some(BUCKET_MEDIUM));
    assert_eq!(reservation_size(1008), Some(BUCKET_MEDIUM));
    assert_eq!(reservation_size(1009), Some(BUCKET_LARGE));
    assert_eq!(reservation_size(2032), Some(BUCKET_LARGE));
    assert_eq!(reservation_size(2033), Some(BUCKET_JUMBO));
    assert_eq!(reservation_size(16368), Some(BUCKET_JUMBO));
    assert_eq!(reservation_size(16369), None);
    assert_eq!((BUCKET_SMALL, BUCKET_MEDIUM, BUCKET_LARGE, BUCKET_JUMBO), (256, 1024, 2048, 16384));
}

#[test]
fn capture_program_outcomes() {
    let mut s = dump_stat();
    assert_eq!(poc_xdp_ring(&mut s, 9, &[0u8; 10], true, true), (XDP_PASS, Capture::Skipped, None));
    assert_eq!(s.total_packets, 1);
    assert_eq!(poc_xdp_ring(&mut s, 9, &[0u8; 100], false, true), (XDP_PASS, Capture::ReserveFailed, None));
    assert_eq!(s.ring_failed_reservations, 1);
    assert_eq!(poc_xdp_ring(&mut s, 9, &[0u8; 100], true, false), (XDP_PASS, Capture::Discarded, None));
    assert_eq!(s.ring_discarded, 1);
    let pkt = udp_packet(1500);
    let (action, outcome, entry) = poc_xdp_ring(&mut s, 0xabcd, &pkt, true, true);
    assert_eq!((action, outcome), (XDP_PASS, Capture::Submitted(BUCKET_LARGE, 0)));
    let entry = entry.unwrap();
    assert_eq!(entry.len(), BUCKET_LARGE);
    assert_eq!(&entry[0..8], &0xabcdu64.to_le_bytes());
    assert_eq!(&entry[8..16], &1500u64.to_le_bytes());
    assert_eq!(&entry[16..1516], &pkt[..]);
    assert!(entry[1516..].iter().all(|b| *b == 0));
    assert_eq!(decode_capture(&entry), Some((RingEventHeader { timestamp: 0xabcd, packet_len: 1500 }, pkt)));
    assert_eq!(s.ring_submitted, 1);
    assert_eq!(s.total_packets, 4);
    assert!(s.ring_submitted + s.ring_discarded + s.ring_failed_reservations <= s.total_packets);
    s.total_packets = u64::MAX;
    poc_xdp_ring(&mut s, 0, &vec![0u8; 20000], true, true);
    assert_eq!(s.total_packets, 0);
}

#[test]
fn smallest_capture_is_a_full_small_bucket() {
    let mut s = dump_stat();
    let pkt: Vec<u8> = (0..14u8).collect();
    let (_, outcome, entry) = poc_xdp_ring(&mut s, 1, &pkt, true, true);
    assert_eq!(outcome, Capture::Submitted(BUCKET_SMALL, 0));
    let entry = entry.unwrap();
    assert_eq!(entry.len(), BUCKET_SMALL);
    assert_eq!(decode_capture(&entry).unwrap().1, pkt);
}

#[test]
fn capture_entry_round_trip() {
    let pkt: Vec<u8> = (0..60u8).collect();
    let entry = encode_capture(0x1122_3344_5566_7788, &pkt, BUCKET_SMALL);
    assert_eq!(entry.len(), 256);
    assert_eq!(&entry[0..8], &0x1122_3344_5566_7788u64.to_le_bytes());
    assert_eq!(&entry[8..16], &60u64.to_le_bytes());
    assert_eq!(&entry[16..76], &pkt[..]);
    assert!(entry[76..].iter().all(|b| *b == 0));
    let (h, p) = decode_capture(&entry).unwrap();
    assert_eq!(h, RingEventHeader { timestamp: 0x1122_3344_5566_7788, packet_len: 60 });
    assert_eq!(p, pkt);
}

#[test]
fn capture_entry_refusals() {
    assert!(decode_capture(&[0u8; 15]).is_none());
    let mut e: Vec<u8> = vec![0; 20];
    e[8] = 5;
    assert!(decode_capture(&e).is_none());
    e[8] = 4;
    assert_eq!(decode_capture(&e).unwrap().1, vec![0, 0, 0, 0]);
}

#[test]
fn benchmark_program_counts_and_delivers() {
    let pkt = udp_packet(TESTING_PACKET_LEN);
    let mut s = bench_stat(0, 0);
    assert_eq!(process(SEND_VIA_PERF, 7, &udp_packet(100), &mut s, true, true), (XDP_PASS, Delivery::Skipped, None));
    assert_eq!(s, bench_stat(0, 0));
    let (action, delivery, record) = process(SEND_VIA_PERF, 7, &pkt, &mut s, true, true);
    assert_eq!((action, delivery), (XDP_PASS, Delivery::Perf(PerfEvent { time: 7, len: TESTING_PACKET_LEN })));
    let record = record.unwrap();
    assert_eq!(record.len(), 16 + TESTING_PACKET_LEN);
    assert_eq!(&record[16..], &pkt[..]);
    let decoded = decode_perf_record(&record).unwrap();
    assert_eq!((decoded.time, decoded.len), (7, TESTING_PACKET_LEN));
    assert_eq!(decoded.endpoints.dst_port, 4001);
    assert_eq!(process(SEND_NOT, 7, &pkt, &mut s, true, true), (XDP_PASS, Delivery::Counted, None));
    let (_, delivery, event) = process(SEND_VIA_RING_WITH_DELAY, 8, &pkt, &mut s, true, true);
    assert_eq!(delivery, Delivery::RingSubmitted(BPF_RB_FORCE_WAKEUP));
    let event = event.unwrap();
    assert_eq!(event, encode_ring_event(8, &pkt));
    let rec = decode_ring_event(&event).unwrap();
    assert_eq!((rec.time, rec.packet), (8, pkt.clone()));
    assert_eq!(
        process(SEND_VIA_RING_WITH_EPOLL, 7, &pkt, &mut s, true, false),
        (XDP_PASS, Delivery::RingDiscarded, None)
    );
    assert_eq!(s, bench_stat(4, 0));
    assert_eq!(
        process(SEND_VIA_RING_WITH_EPOLL, 7, &pkt, &mut s, false, true),
        (XDP_PASS, Delivery::RingLost, None)
    );
    assert_eq!(s, bench_stat(5, 1));
    assert!(s.ring_lost_packets <= s.total_packets);
    let mut w = bench_stat(usize::MAX, usize::MAX);
    process(SEND_VIA_RING_WITH_DELAY, 0, &pkt, &mut w, false, false);
    assert_eq!(w, bench_stat(0, 0));
}

#[test]
fn perf_record_layout() {
    let pkt = udp_packet(60);
    let r = encode_perf_record(5, &pkt);
    assert_eq!(&r[0..8], &5u64.to_le_bytes());
    assert_eq!(&r[8..16], &60u64.to_le_bytes());
    assert_eq!(&r[16..], &pkt[..]);
    let mut tcp = pkt.clone();
    tcp[23] = 6;
    assert!(decode_perf_record(&encode_perf_record(5, &tcp)).is_none());
}

#[test]
fn ring_event_round_trip() {
    let pkt = udp_packet(TESTING_PACKET_LEN);
    let ev = encode_ring_event(123_456_789, &pkt);
    assert_eq!(ev.len(), RING_EVENT_SIZE);
    assert_eq!(&ev[8..16], &(TESTING_PACKET_LEN as u64).to_le_bytes());
    let rec = decode_ring_event(&ev).unwrap();
    assert_eq!(rec.time, 123_456_789);
    assert_eq!(rec.packet, pkt);
    assert!(decode_ring_event(&ev[..RING_EVENT_SIZE - 1]).is_none());
    let mut bad = ev.clone();
    bad[8..16].copy_from_slice(&((MAX_MTU + 1) as u64).to_le_bytes());
    assert!(decode_ring_event(&bad).is_none());
    let full = encode_ring_event(1, &vec![0xab; MAX_MTU]);
    assert_eq!(decode_ring_event(&full).unwrap().packet.len(), MAX_MTU);
}

#[test]
fn ring_event_layout() {
    let ev = RingEvent { time: 1, len: 2, buf: [0; MAX_MTU] };
    assert_eq!(ev.buf.len(), 1500);
    assert_eq!(ev.len, 2);
}

#[test]
fn perf_record_decoding() {
    let pkt = udp_packet(TESTING_PACKET_LEN);
    let mut buf: Vec<u8> = Vec::new();
    buf.extend_from_slice(&99u64.to_le_bytes());
    buf.extend_from_slice(&(pkt.len() as u64).to_le_bytes());
    buf.extend_from_slice(&pkt);
    let r = decode_perf_record(&buf).unwrap();
    assert_eq!(r.time, 99);
    assert_eq!(r.len, TESTING_PACKET_LEN);
    assert_eq!(r.endpoints.src_addr, 0xC0A8_0001);
    assert_eq!(r.endpoints.dst_addr, 0xC0A8_0002);
    assert_eq!(r.endpoints.src_port, 4000);
    assert_eq!(r.endpoints.dst_port, 4001);
    assert!(decode_perf_record(&buf[..15]).is_none());
    assert!(decode_perf_record(&buf[..buf.len() - 1]).is_none());
    let mut tcp = buf.clone();
    tcp[16 + 23] = 6;
    assert!(decode_perf_record(&tcp).is_none());
}

#[test]
fn program_choice_and_report() {
    assert_eq!(select_program(true, Some(10), true), BenchProgram::RingWithDelay);
    assert_eq!(select_program(true, None, false), BenchProgram::RingWithEpoll);
    assert_eq!(select_program(false, Some(10), true), BenchProgram::Perf);
    assert_eq!(select_program(false, None, false), BenchProgram::Baseline);
    assert_eq!(BenchProgram::RingWithDelay.bee(), "poc_ring_with_delay");
    assert_eq!(BenchProgram::RingWithEpoll.bee(), "poc_ring_with_epoll");
    assert_eq!(BenchProgram::Perf.bee(), "poc_perf");
    assert_eq!(BenchProgram::Baseline.bee(), "poc_none");
    assert_eq!(BenchProgram::RingWithEpoll.mode(), "RING");
    assert_eq!(BenchProgram::Perf.mode(), "PERF");
    assert_eq!(BenchProgram::Baseline.mode(), "NONE");
    assert_eq!(BenchProgram::RingWithDelay.send_mode(), SEND_VIA_RING_WITH_DELAY);
    assert_eq!(BenchProgram::Baseline.send_mode(), SEND_NOT);

    let r = plan_report(false, false, 20000, 5, 0, 0);
    assert_eq!(r.recv_packets, 20000);
    assert!(r.throughput_in_kilo);
    assert_eq!(r.latency_level, Level::Info);
    assert_eq!(r.throughput_level, Level::Warn);
    assert_eq!(r.lost_level, Level::Info);
    let r = plan_report(true, false, 20000, 0, 12, 3);
    assert_eq!(r.recv_packets, 0);
    assert!(!r.throughput_in_kilo);
    assert_eq!(r.latency_level, Level::Warn);
    assert_eq!(r.throughput_level, Level::Error);
    assert_eq!(r.lost_level, Level::Error);
    assert!(!plan_report(false, true, 0, 10000, 0, 0).throughput_in_kilo);
}

#[test]
fn totals_over_cpus_and_latency() {
    let stats = vec![bench_stat(3, 1), bench_stat(4, 0), bench_stat(5, 2)];
    assert_eq!(total_packets(&stats), Some(12));
    assert_eq!(ring_lost_packets(&stats), Some(3));
    assert_eq!(total_packets(&vec![]), Some(0));
    let big = vec![bench_stat(usize::MAX, 0), bench_stat(1, 0)];
    assert_eq!(total_packets(&big), None);
    assert_eq!(ring_lost_packets(&big), Some(0));
    assert_eq!(latency(1_000, 400), 600);
    assert_eq!(latency(5, 5), 0);
}
