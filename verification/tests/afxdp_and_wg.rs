use xdp_labs::afxdp::{
    frame_offsets, poc_redirect_to_afxdp, should_redirect, swap_udp_ports, totals, RedirMonitor,
    Stat, PACKET_LEN, PACKET_RING_SIZE, REDIR_PORT, UMEM_SIZE, WG_REDIR_ETHER_LEN,
};
use xdp_labs::packet::{XskRedirect, TC_ACT_PIPE, XDP_PASS, XDP_REDIRECT, XDP_TX};
use xdp_labs::wg::{
    bpf_auth, bpf_auth_egress_checker, bpf_auth_ingress_checker, bpf_hairpin,
    is_wg_handshake_initiation, is_wg_handshake_initiation_tc, WG_HANDSHAKE_INIT_ETHER_LEN, WG_PORT,
};
use xdp_labs::wgnat::{WG_KEY_SIZE, WG_PEER_PUB_KEY_OFFSET};

fn udp_frame(len: usize, dport: u16) -> Vec<u8> {
    let mut p: Vec<u8> = vec![0; len];
    p[12] = 0x08;
    p[13] = 0x00;
    p[23] = 17;
    p[34..36].copy_from_slice(&40000u16.to_be_bytes());
    p[36..38].copy_from_slice(&dport.to_be_bytes());
    p
}

fn handshake_initiation() -> Vec<u8> {
    let mut p = udp_frame(WG_HANDSHAKE_INIT_ETHER_LEN, WG_PORT);
    p[42] = 1;
    p
}

#[test]
fn handshake_initiation_detection() {
    let p = handshake_initiation();
    assert!(is_wg_handshake_initiation(&p));
    assert!(is_wg_handshake_initiation_tc(&p));
    let mut longer = p.clone();
    longer.push(0);
    assert!(is_wg_handshake_initiation(&longer));
    assert!(!is_wg_handshake_initiation(&p[..WG_HANDSHAKE_INIT_ETHER_LEN - 1]));
    let mut response = p.clone();
    response[42] = 2;
    assert!(!is_wg_handshake_initiation(&response));
    let mut high_type = p.clone();
    high_type[43] = 1;
    assert!(!is_wg_handshake_initiation(&high_type));
    let mut other_port = p.clone();
    other_port[36..38].copy_from_slice(&51821u16.to_be_bytes());
    assert!(!is_wg_handshake_initiation(&other_port));
    let mut tcp = p.clone();
    tcp[23] = 6;
    assert!(!is_wg_handshake_initiation(&tcp));
    let mut ipv6 = p.clone();
    ipv6[12] = 0x86;
    ipv6[13] = 0xdd;
    assert!(!is_wg_handshake_initiation(&ipv6));
}

#[test]
fn authentication_verdicts() {
    let p = handshake_initiation();
    assert_eq!(bpf_auth(&p, 3, Ok(XDP_REDIRECT)), (XDP_REDIRECT, Some(XskRedirect { queue: 3, fallback: XDP_PASS as u64 })));
    assert_eq!(bpf_auth(&p, 0, Ok(1)).0, 1);
    assert_eq!(bpf_auth(&p, 1, Err(-2)), (XDP_PASS, Some(XskRedirect { queue: 1, fallback: XDP_PASS as u64 })));
    let other = udp_frame(200, 53);
    assert_eq!(bpf_auth(&other, 1, Ok(XDP_REDIRECT)), (XDP_PASS, None));
    assert_eq!(bpf_hairpin(&p), XDP_TX);
    assert_eq!(bpf_hairpin(&other), XDP_PASS);
    assert_eq!(bpf_auth_ingress_checker(&p), TC_ACT_PIPE);
    assert_eq!(bpf_auth_egress_checker(&other), TC_ACT_PIPE);
    assert_eq!(TC_ACT_PIPE, 3);
}

#[test]
fn redirect_selection() {
    let p = udp_frame(WG_REDIR_ETHER_LEN, REDIR_PORT);
    assert!(should_redirect(&p));
    assert!(!should_redirect(&udp_frame(WG_REDIR_ETHER_LEN + 1, REDIR_PORT)));
    assert!(!should_redirect(&udp_frame(WG_REDIR_ETHER_LEN - 1, REDIR_PORT)));
    assert!(!should_redirect(&udp_frame(WG_REDIR_ETHER_LEN, REDIR_PORT + 1)));
    let mut tcp = p.clone();
    tcp[23] = 6;
    assert!(!should_redirect(&tcp));
}

#[test]
fn redirect_program_counters() {
    let p = udp_frame(WG_REDIR_ETHER_LEN, REDIR_PORT);
    let mut s = Stat::new();
    assert_eq!(poc_redirect_to_afxdp(&mut s, &p, 2, Ok(XDP_REDIRECT)), (XDP_REDIRECT, Some(XskRedirect { queue: 2, fallback: XDP_PASS as u64 })));
    assert_eq!(s, Stat { total_packets: 1, redir_packets: 1, redir_failed_packets: 0 });
    assert_eq!(poc_redirect_to_afxdp(&mut s, &p, 0, Ok(1)).0, 1);
    assert_eq!(s, Stat { total_packets: 2, redir_packets: 2, redir_failed_packets: 1 });
    assert_eq!(poc_redirect_to_afxdp(&mut s, &p, 5, Err(-6)), (XDP_PASS, Some(XskRedirect { queue: 5, fallback: XDP_PASS as u64 })));
    assert_eq!(s, Stat { total_packets: 3, redir_packets: 3, redir_failed_packets: 2 });
    assert_eq!(poc_redirect_to_afxdp(&mut s, &udp_frame(60, 53), 0, Ok(XDP_REDIRECT)), (XDP_PASS, None));
    assert_eq!(s, Stat { total_packets: 4, redir_packets: 3, redir_failed_packets: 2 });
    assert!(s.redir_failed_packets <= s.redir_packets && s.redir_packets <= s.total_packets);
    let mut w = Stat { total_packets: usize::MAX, redir_packets: 7, redir_failed_packets: 0 };
    w.inc_stat_total();
    assert_eq!(w.total_packets, 0);
    w.inc_stat_redir();
    w.inc_stat_redir_failed();
    assert_eq!(w, Stat { total_packets: 0, redir_packets: 8, redir_failed_packets: 1 });
}

#[test]
fn frame_area_layout() {
    let f = frame_offsets();
    assert_eq!(f.len(), PACKET_RING_SIZE as usize);
    assert_eq!(f[0], 0);
    assert_eq!(f[1], 4096);
    assert_eq!(f[127], 127 * 4096);
    assert!(f[127] + PACKET_LEN as u64 <= UMEM_SIZE as u64);
}

#[test]
fn port_swap_on_the_frame_area() {
    let mut area: Vec<u8> = vec![0; 8192];
    let addr = 4096;
    area[addr + 34..addr + 36].copy_from_slice(&1111u16.to_be_bytes());
    area[addr + 36..addr + 38].copy_from_slice(&2222u16.to_be_bytes());
    let before = area.clone();
    assert!(swap_udp_ports(&mut area, addr));
    assert_eq!(&area[addr + 34..addr + 36], &2222u16.to_be_bytes());
    assert_eq!(&area[addr + 36..addr + 38], &1111u16.to_be_bytes());
    assert!(swap_udp_ports(&mut area, addr));
    assert_eq!(area, before);
    assert!(!swap_udp_ports(&mut area, 8192 - 37));
    assert!(!swap_udp_ports(&mut area, usize::MAX));
    assert_eq!(area, before);
    assert!(swap_udp_ports(&mut area, 8192 - 38));
}

#[test]
fn forwarding_loop_bookkeeping() {
    let mut m = RedirMonitor::new();
    assert!(m.observe_rings(0, 8));
    assert!(!m.observe_rings(0, 8));
    assert!(m.observe_rings(1, 7));
    assert!(!m.observe_dropped(0));
    assert!(m.observe_dropped(3));
    assert!(!m.observe_dropped(3));
    assert_eq!(m.idle(), None);
    m.completed();
    m.completed();
    assert_eq!(m.idle(), Some(2));
    assert_eq!(m.idle(), None);
    assert_eq!(m.counter, 2);
}

#[test]
fn counters_summed_over_cpus() {
    let stats = vec![
        Stat { total_packets: 5, redir_packets: 2, redir_failed_packets: 1 },
        Stat { total_packets: 7, redir_packets: 0, redir_failed_packets: 0 },
    ];
    assert_eq!(totals(&stats), Some(Stat { total_packets: 12, redir_packets: 2, redir_failed_packets: 1 }));
    assert_eq!(totals(&vec![]), Some(Stat::new()));
    let big = vec![
        Stat { total_packets: 1, redir_packets: usize::MAX, redir_failed_packets: 0 },
        Stat { total_packets: 1, redir_packets: 1, redir_failed_packets: 0 },
    ];
    assert_eq!(totals(&big), None);
}

#[test]
fn nat_probe_constants() {
    assert_eq!(WG_KEY_SIZE, 32);
    assert_eq!(WG_PEER_PUB_KEY_OFFSET, 328);
    let s = xdp_labs::wgnat::Stat { total_packets: 4 };
    assert_eq!(s.total_packets, 4);
}
