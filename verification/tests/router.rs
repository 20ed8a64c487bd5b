use xdp_labs::packet::{XDP_ABORTED, XDP_DROP, XDP_PASS, XDP_TX};
use xdp_labs::router::{
    parse, router_xdp, ApiReply, GlobalRule, HalfRoute, Policy, RouterTables, SocketAddress,
    XdpAction, XdpError, MIRROR_TEST_PORT,
};

const A_ADDR: u32 = 0xC0A8_0001; // 192.168.0.1
const ROUTER_ADDR: [u8; 4] = [192, 168, 0, 199];
const B_ADDR: u32 = 0x0A00_0007; // 10.0.0.7

fn header_sum(h: &[u8]) -> u32 {
    let mut s: u32 = 0;
    let mut i = 0;
    while i < 20 {
        s += ((h[i] as u32) << 8) | h[i + 1] as u32;
        i += 2;
    }
    while s >> 16 != 0 {
        s = (s & 0xffff) + (s >> 16);
    }
    s
}

/// An Ethernet/IPv4/UDP frame of 129 bytes from `src:sport` to `dst:dport`
/// with a valid IPv4 header checksum.
fn udp_frame(src: [u8; 4], sport: u16, dst: [u8; 4], dport: u16) -> Vec<u8> {
    let mut p: Vec<u8> = vec![0; 129];
    p[0..6].copy_from_slice(&[0x02, 0, 0, 0, 0, 0x01]);
    p[6..12].copy_from_slice(&[0x02, 0, 0, 0, 0, 0x02]);
    p[12] = 0x08;
    p[13] = 0x00;
    p[14..26].copy_from_slice(&[0x45, 0x00, 0x00, 0x73, 0x00, 0x00, 0x40, 0x00, 0x40, 0x11, 0, 0]);
    p[26..30].copy_from_slice(&src);
    p[30..34].copy_from_slice(&dst);
    let s = header_sum(&p[14..34]);
    let check = !(s as u16);
    p[24..26].copy_from_slice(&check.to_be_bytes());
    p[34..36].copy_from_slice(&sport.to_be_bytes());
    p[36..38].copy_from_slice(&dport.to_be_bytes());
    p[38..40].copy_from_slice(&95u16.to_be_bytes());
    p[40..42].copy_from_slice(&[0x12, 0x34]);
    p
}

fn v4(addr: u32, port: u16) -> SocketAddress {
    SocketAddress::V4 { addr, port }
}

#[test]
fn rule_slots_policies_and_verdict_codes() {
    assert_eq!(GlobalRule::Policy.index(), 0);
    assert_eq!(GlobalRule::Size.index(), 1);
    assert_eq!(Policy::Accept.as_u8(), 0);
    assert_eq!(Policy::Drop.as_u8(), 1);
    assert_eq!(XdpAction::Aborted.code(), XDP_ABORTED);
    assert_eq!(XdpAction::Drop.code(), XDP_DROP);
    assert_eq!(XdpAction::Pass.code(), XDP_PASS);
    assert_eq!(XdpAction::Tx.code(), XDP_TX);
    assert_eq!(XdpAction::Redirect.code(), 4);
}

#[test]
fn half_route_byte_order() {
    let h = HalfRoute::new(B_ADDR, 6000, 7001);
    assert_eq!(h, HalfRoute { reflexive_addr: B_ADDR, reflexive_port: 6000, router_port: 7001 });
    let w = h.to_be();
    assert_eq!(w.reflexive_addr, u32::from_le_bytes([10, 0, 0, 7]));
    assert_eq!(w.reflexive_port, u16::from_le_bytes(6000u16.to_be_bytes()));
    assert_eq!(w.router_port, 7001u16.swap_bytes());
    assert_eq!(w.from_be(), h);
    assert_eq!(h.from_be().to_be(), h);
}

#[test]
fn unmatched_udp_follows_the_policy() {
    let mut t = RouterTables::new();
    let mut p = udp_frame([192, 168, 0, 1], 5000, ROUTER_ADDR, 7000);
    let before = p.clone();
    assert_eq!(t.process(&mut p), Ok(XdpAction::Pass));
    assert_eq!(p, before);
    assert_eq!(t.policy_handler("drop"), ApiReply::PolicySet);
    assert_eq!(t.process(&mut p), Ok(XdpAction::Drop));
    assert_eq!(p, before);
    assert_eq!(t.policy_handler("loud"), ApiReply::BadPolicy);
    assert_eq!(t.process(&mut p), Ok(XdpAction::Drop));
    assert_eq!(t.policy_handler("accept"), ApiReply::PolicySet);
    assert_eq!(router_xdp(&t, &mut p), XDP_PASS);
    t.set_policy(Policy::Drop);
    assert_eq!(router_xdp(&t, &mut p), XDP_DROP);
}

#[test]
fn malformed_and_foreign_frames() {
    let t = RouterTables::new();
    let mut short: Vec<u8> = vec![0; 13];
    assert_eq!(t.process(&mut short), Err(XdpError::Outside));
    assert_eq!(router_xdp(&t, &mut short), XDP_ABORTED);
    let mut arp = udp_frame([192, 168, 0, 1], 5000, ROUTER_ADDR, 7000);
    arp[12] = 0x08;
    arp[13] = 0x06;
    assert_eq!(t.process(&mut arp), Ok(XdpAction::Pass));
    let mut tcp = udp_frame([192, 168, 0, 1], 5000, ROUTER_ADDR, 7000);
    tcp[23] = 6;
    assert_eq!(t.process(&mut tcp), Ok(XdpAction::Pass));
    let mut cut_ip = udp_frame([192, 168, 0, 1], 5000, ROUTER_ADDR, 7000);
    cut_ip.truncate(30);
    assert_eq!(t.process(&mut cut_ip), Err(XdpError::Outside));
    let mut cut_udp = udp_frame([192, 168, 0, 1], 5000, ROUTER_ADDR, 7000);
    cut_udp.truncate(41);
    assert_eq!(t.process(&mut cut_udp), Err(XdpError::Outside));
    assert_eq!(router_xdp(&t, &mut cut_udp), XDP_ABORTED);
}

#[test]
fn test_port_is_mirrored_back() {
    let t = RouterTables::new();
    let mut p = udp_frame([192, 168, 0, 1], 5000, ROUTER_ADDR, MIRROR_TEST_PORT);
    let before = p.clone();
    assert_eq!(t.process(&mut p), Ok(XdpAction::Tx));
    assert_eq!(&p[0..6], &before[6..12]);
    assert_eq!(&p[6..12], &before[0..6]);
    assert_eq!(&p[26..30], &before[30..34]);
    assert_eq!(&p[30..34], &before[26..30]);
    assert_eq!(&p[34..36], &before[36..38]);
    assert_eq!(&p[36..38], &before[34..36]);
    assert_eq!(&p[14..26], &before[14..26]);
    assert_eq!(&p[38..], &before[38..]);
    assert_eq!(header_sum(&p[14..34]), 0xffff);
}

#[test]
fn mirror_table_add_remove_list() {
    let mut t = RouterTables::new();
    assert_eq!(t.mirror_add(7000), ApiReply::Done);
    assert_eq!(t.mirror_add(7000), ApiReply::AlreadyExist);
    assert_eq!(t.mirror_add(8000), ApiReply::Done);
    assert_eq!(t.mirror_count(), 2);
    let mut listed = t.mirror_list();
    listed.sort();
    assert_eq!(listed, vec![7000, 8000]);

    let mut p = udp_frame([192, 168, 0, 1], 5000, ROUTER_ADDR, 7000);
    let before = p.clone();
    assert_eq!(router_xdp(&t, &mut p), XDP_TX);
    assert_eq!(&p[34..36], &7000u16.to_be_bytes());
    assert_eq!(&p[36..38], &5000u16.to_be_bytes());
    assert_eq!(&p[30..34], &before[26..30]);

    assert_eq!(t.mirror_remove(7000), ApiReply::Done);
    assert_eq!(t.mirror_remove(7000), ApiReply::DoesNotExist);
    let mut q = before.clone();
    assert_eq!(t.process(&mut q), Ok(XdpAction::Pass));
    assert_eq!(q, before);
    assert_eq!(t.mirror_list(), vec![8000]);
}

#[test]
fn route_forwards_both_directions() {
    let mut t = RouterTables::new();
    assert_eq!(t.route_add(v4(A_ADDR, 5000), 7000, v4(B_ADDR, 6000), 7001), ApiReply::Done);
    assert_eq!(t.route_count(), 2);

    // A -> router:7000 goes to B from router:7001.
    let mut p = udp_frame([192, 168, 0, 1], 5000, ROUTER_ADDR, 7000);
    let before = p.clone();
    assert_eq!(t.process(&mut p), Ok(XdpAction::Tx));
    assert_eq!(&p[0..6], &before[6..12]);
    assert_eq!(&p[6..12], &before[0..6]);
    assert_eq!(&p[26..30], &ROUTER_ADDR);
    assert_eq!(&p[30..34], &[10, 0, 0, 7]);
    assert_eq!(&p[34..36], &7001u16.to_be_bytes());
    assert_eq!(&p[36..38], &6000u16.to_be_bytes());
    assert_eq!(&p[40..42], &[0, 0]);
    assert_eq!(&p[24..26], &[0x6f, 0x04]);
    assert_eq!(header_sum(&p[14..34]), 0xffff);
    assert_eq!(&p[42..], &before[42..]);

    // B -> router:7001 goes to A from router:7000.
    let mut q = udp_frame([10, 0, 0, 7], 6000, ROUTER_ADDR, 7001);
    assert_eq!(router_xdp(&t, &mut q), XDP_TX);
    assert_eq!(&q[26..30], &ROUTER_ADDR);
    assert_eq!(&q[30..34], &[192, 168, 0, 1]);
    assert_eq!(&q[34..36], &7000u16.to_be_bytes());
    assert_eq!(&q[36..38], &5000u16.to_be_bytes());
    assert_eq!(header_sum(&q[14..34]), 0xffff);

    // Another source port of A matches no route.
    let mut other = udp_frame([192, 168, 0, 1], 5001, ROUTER_ADDR, 7000);
    assert_eq!(t.process(&mut other), Ok(XdpAction::Pass));
}

#[test]
fn route_add_refusals() {
    let mut t = RouterTables::new();
    assert_eq!(t.route_add(v4(A_ADDR, 5000), 7000, v4(B_ADDR, 6000), 7001), ApiReply::Done);
    assert_eq!(t.route_add(v4(A_ADDR, 5000), 7000, v4(B_ADDR, 6000), 7001), ApiReply::AlreadyExist);
    assert_eq!(t.route_add(v4(B_ADDR, 6000), 7001, v4(A_ADDR, 5000), 7000), ApiReply::AlreadyExist);
    assert_eq!(t.route_add(v4(0x0A00_0008, 1), 2, v4(B_ADDR, 6000), 7001), ApiReply::ShouldNotHappen);
    assert_eq!(t.route_add(SocketAddress::V6 { port: 1 }, 7000, v4(B_ADDR, 6000), 7001), ApiReply::Ipv6NotSupported);
    assert_eq!(t.route_add(v4(A_ADDR, 1), 7000, SocketAddress::V6 { port: 1 }, 7001), ApiReply::Ipv6NotSupported);
    assert_eq!(t.route_count(), 2);
}

#[test]
fn route_remove_and_list() {
    let mut t = RouterTables::new();
    assert_eq!(t.route_add(v4(A_ADDR, 5000), 7000, v4(B_ADDR, 6000), 7001), ApiReply::Done);
    let mut listed = t.route_list();
    listed.sort_by_key(|e| e.0.reflexive_addr);
    assert_eq!(
        listed,
        vec![
            (HalfRoute::new(B_ADDR, 6000, 7001), HalfRoute::new(A_ADDR, 5000, 7000)),
            (HalfRoute::new(A_ADDR, 5000, 7000), HalfRoute::new(B_ADDR, 6000, 7001)),
        ]
    );
    assert_eq!(t.route_remove(v4(A_ADDR, 5000), 7000, v4(0x0A00_0008, 1), 2), ApiReply::ShouldNotHappen);
    assert_eq!(t.route_remove(v4(0x0A00_0008, 1), 2, v4(B_ADDR, 6000), 7001), ApiReply::DoesNotExist);
    assert_eq!(t.route_remove(SocketAddress::V6 { port: 3 }, 2, v4(B_ADDR, 6000), 7001), ApiReply::Ipv6NotSupported);
    assert_eq!(t.route_remove(v4(A_ADDR, 5000), 7000, v4(B_ADDR, 6000), 7001), ApiReply::Done);
    assert_eq!(t.route_count(), 0);
    assert_eq!(t.route_list(), vec![]);
    let mut p = udp_frame([192, 168, 0, 1], 5000, ROUTER_ADDR, 7000);
    assert_eq!(t.process(&mut p), Ok(XdpAction::Pass));
    assert_eq!(t.route_remove(v4(A_ADDR, 5000), 7000, v4(B_ADDR, 6000), 7001), ApiReply::DoesNotExist);
}

#[test]
fn reply_texts() {
    assert_eq!(ApiReply::Done.message(), "OK\n");
    assert_eq!(ApiReply::PolicySet.message(), "Ok(())");
    assert_eq!(ApiReply::BadPolicy.message(), "Error: Bad policy");
    assert_eq!(ApiReply::AlreadyExist.message(), "Error: Already exist");
    assert_eq!(ApiReply::DoesNotExist.message(), "Error: Does not exist");
    assert_eq!(ApiReply::ShouldNotHappen.message(), "Error: Should not happen");
    assert_eq!(ApiReply::Ipv6NotSupported.message(), "Error: IPv6 not supported");
}

#[test]
fn routing_tool_options() {
    let a = |v: &[&str]| -> Vec<String> { v.iter().map(|s| s.to_string()).collect() };
    let o = parse(&a(&["udp-routing"])).unwrap();
    assert_eq!(o.iface, "eth0");
    assert_eq!(o.bind, "127.0.0.1:6707");
    let o = parse(&a(&["udp-routing", "-i", "veth1", "--bind=0.0.0.0:80"])).unwrap();
    assert_eq!(o.iface, "veth1");
    assert_eq!(o.bind, "0.0.0.0:80");
}

#[test]
fn table_queries() {
    let mut t = RouterTables::new();
    assert_eq!(t.policy(), Policy::Accept.as_u8());
    t.set_policy(Policy::Drop);
    assert_eq!(t.policy(), 1);
    assert!(!t.has_mirror(7000));
    assert_eq!(t.mirror_add(7000), ApiReply::Done);
    assert!(t.has_mirror(7000));
    assert!(!t.has_mirror(7000u16.swap_bytes()));
    assert!(t.would_insert_route(v4(A_ADDR, 5000), 7000, v4(B_ADDR, 6000), 7001));
    assert!(!t.would_insert_route(SocketAddress::V6 { port: 1 }, 7000, v4(B_ADDR, 6000), 7001));
    assert_eq!(t.route_add(v4(A_ADDR, 5000), 7000, v4(B_ADDR, 6000), 7001), ApiReply::Done);
    assert!(!t.would_insert_route(v4(A_ADDR, 5000), 7000, v4(B_ADDR, 6000), 7001));
    assert!(!t.would_insert_route(v4(0x0A00_0008, 1), 2, v4(B_ADDR, 6000), 7001));
    assert!(t.would_insert_route(v4(0x0A00_0008, 1), 2, v4(B_ADDR, 6000), 7002));
}

#[test]
fn route_request_halves() {
    let (h1, h2) = RouterTables::halves(v4(A_ADDR, 5000), 7000, v4(B_ADDR, 6000), 7001).unwrap();
    assert_eq!(h1, HalfRoute::new(A_ADDR, 5000, 7000).to_be());
    assert_eq!(h2, HalfRoute::new(B_ADDR, 6000, 7001).to_be());
    assert_eq!(h1.reflexive_addr, u32::from_le_bytes([192, 168, 0, 1]));
    assert_eq!(RouterTables::halves(v4(A_ADDR, 5000), 7000, SocketAddress::V6 { port: 1 }, 7001), None);
}

#[test]
fn mirroring_twice_gives_the_frame_back() {
    let mut t = RouterTables::new();
    assert_eq!(t.mirror_add(5000), ApiReply::Done);
    assert_eq!(t.mirror_add(7000), ApiReply::Done);
    let mut p = udp_frame([192, 168, 0, 1], 5000, ROUTER_ADDR, 7000);
    let before = p.clone();
    assert_eq!(t.process(&mut p), Ok(XdpAction::Tx));
    assert_ne!(p, before);
    assert_eq!(t.process(&mut p), Ok(XdpAction::Tx));
    assert_eq!(p, before);
}

#[test]
fn routes_pair_half_routes_both_ways() {
    let mut t = RouterTables::new();
    assert_eq!(t.route_add(v4(A_ADDR, 5000), 7000, v4(B_ADDR, 6000), 7001), ApiReply::Done);
    assert_eq!(t.route_add(v4(0x0A00_0008, 1), 2, v4(B_ADDR, 6000), 7001), ApiReply::ShouldNotHappen);
    for (h1, h2) in t.route_list() {
        assert!(t.route_list().contains(&(h2, h1)));
    }
    assert_eq!(t.route_count(), 2);
}

#[test]
fn self_route_needs_one_slot() {
    let mut t = RouterTables::new();
    assert_eq!(RouterTables::route_slots_needed(v4(A_ADDR, 5000), 7000, v4(A_ADDR, 5000), 7000), 1);
    assert_eq!(RouterTables::route_slots_needed(v4(A_ADDR, 5000), 7000, v4(B_ADDR, 6000), 7001), 2);
    assert_eq!(RouterTables::route_slots_needed(SocketAddress::V6 { port: 1 }, 7000, v4(B_ADDR, 6000), 7001), 0);
    assert_eq!(t.route_add(v4(A_ADDR, 5000), 7000, v4(A_ADDR, 5000), 7000), ApiReply::Done);
    assert_eq!(t.route_count(), 1);
    assert_eq!(t.route_list(), vec![(HalfRoute::new(A_ADDR, 5000, 7000), HalfRoute::new(A_ADDR, 5000, 7000))]);
    let mut p = udp_frame([192, 168, 0, 1], 5000, ROUTER_ADDR, 7000);
    assert_eq!(t.process(&mut p), Ok(XdpAction::Tx));
    assert_eq!(&p[30..34], &[192, 168, 0, 1]);
    assert_eq!(header_sum(&p[14..34]), 0xffff);
    assert_eq!(t.route_remove(v4(A_ADDR, 5000), 7000, v4(A_ADDR, 5000), 7000), ApiReply::Done);
    assert_eq!(t.route_count(), 0);
}

#[test]
fn udp_step_on_its_own() {
    let t = RouterTables::new();
    let mut p = udp_frame([192, 168, 0, 1], 5000, ROUTER_ADDR, MIRROR_TEST_PORT);
    let before = p.clone();
    assert_eq!(t.process_udp(&mut p), Ok(XdpAction::Tx));
    assert_eq!(&p[26..30], &before[30..34]);
    let mut q = udp_frame([192, 168, 0, 1], 5000, ROUTER_ADDR, 7000);
    assert_eq!(t.process_udp(&mut q), Ok(XdpAction::Pass));
}
