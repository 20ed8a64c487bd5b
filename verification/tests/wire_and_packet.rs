use xdp_labs::checksum::adjust_checksum_be;
use xdp_labs::packet::{
    load_be16, load_be32, load_raw16, load_raw32, read, read_unchecked, store_raw16, store_raw32,
    udp_endpoints, Endpoints,
};
use xdp_labs::system::{cpu_time_us, ns_from_timespec, us_from_timeval};
use xdp_labs::wire::{
    load_u64_le, push_bytes, push_u64_le, push_zeros, swap_bytes16, swap_bytes32,
};

fn ipv4_header_sum(h: &[u8]) -> u32 {
    let mut s: u32 = 0;
    let mut i = 0;
    while i < 20 {
        s += ((h[i] as u32) << 8) | h[i + 1] as u32;
        i += 2;
    }
    while s >> 16 != 0 {
        s = (s & 0xffff) + (s >> 16);
    }
    s
}

#[test]
fn swap_bytes_examples() {
    assert_eq!(swap_bytes16(0x1234), 0x3412);
    assert_eq!(swap_bytes16(0x00ff), 0xff00);
    assert_eq!(swap_bytes32(0x1234_5678), 0x7856_3412);
    assert_eq!(swap_bytes32(0xC0A8_0001), 0x0100_A8C0);
    assert_eq!(swap_bytes16(swap_bytes16(51820)), 51820);
    assert_eq!(swap_bytes32(swap_bytes32(0xdead_beef)), 0xdead_beef);
}

#[test]
fn u64_little_endian_round_trip() {
    let mut out: Vec<u8> = vec![9];
    push_u64_le(&mut out, 0x0102_0304_0506_0708);
    assert_eq!(out, vec![9, 8, 7, 6, 5, 4, 3, 2, 1]);
    assert_eq!(load_u64_le(&out, 1), 0x0102_0304_0506_0708);
    push_zeros(&mut out, 3);
    assert_eq!(out.len(), 12);
    assert_eq!(&out[9..], &[0, 0, 0]);
    push_bytes(&mut out, &[7, 8]);
    assert_eq!(&out[12..], &[7, 8]);
}

#[test]
fn field_loads_and_stores() {
    let p: Vec<u8> = vec![0x12, 0x34, 0x56, 0x78];
    assert_eq!(load_be16(&p, 0), 0x1234);
    assert_eq!(load_raw16(&p, 0), 0x3412);
    assert_eq!(load_be32(&p, 0), 0x1234_5678);
    assert_eq!(load_raw32(&p, 0), 0x7856_3412);
    let mut q: Vec<u8> = vec![0; 6];
    store_raw16(&mut q, 1, 0xbeef);
    assert_eq!(q, vec![0, 0xef, 0xbe, 0, 0, 0]);
    store_raw32(&mut q, 2, 0x0403_0201);
    assert_eq!(q, vec![0, 0xef, 1, 2, 3, 4]);
}

#[test]
fn read_within_and_outside_the_buffer() {
    let buf: Vec<u8> = vec![1, 2, 3, 4, 5];
    assert_eq!(read(&buf, 1, 3), Ok(vec![2, 3, 4]));
    assert_eq!(read(&buf, 5, 0), Ok(vec![]));
    assert_eq!(read(&buf, 0, 5), Ok(vec![1, 2, 3, 4, 5]));
    assert_eq!(read(&buf, 3, 3), Err("Offset out of buffer scope"));
    assert_eq!(read(&buf, 6, 0), Err("Offset out of buffer scope"));
    assert_eq!(read(&buf, 1, usize::MAX), Err("Offset out of buffer scope"));
    assert_eq!(read_unchecked(&buf, 2, 2), vec![3, 4]);
}

#[test]
fn endpoints_of_a_frame() {
    let mut p: Vec<u8> = vec![0; 42];
    p[26..30].copy_from_slice(&[192, 168, 0, 1]);
    p[30..34].copy_from_slice(&[10, 0, 0, 7]);
    p[34..36].copy_from_slice(&5000u16.to_be_bytes());
    p[36..38].copy_from_slice(&7000u16.to_be_bytes());
    assert_eq!(
        udp_endpoints(&p, 0),
        Some(Endpoints { src_addr: 0xC0A8_0001, src_port: 5000, dst_addr: 0x0A00_0007, dst_port: 7000 })
    );
    assert_eq!(udp_endpoints(&p[..41], 0), None);
    assert_eq!(udp_endpoints(&p, 1), None);
}

#[test]
fn checksum_adjusted_for_a_new_source_address() {
    // A header whose checksum is 0xb861; 192.168.0.1 is replaced by 10.0.0.7.
    let mut hdr: Vec<u8> = vec![
        0x45, 0x00, 0x00, 0x73, 0x00, 0x00, 0x40, 0x00, 0x40, 0x11, 0xb8, 0x61, 192, 168, 0, 1,
        192, 168, 0, 199,
    ];
    assert_eq!(ipv4_header_sum(&hdr), 0xffff);
    let check = u16::from_le_bytes([0xb8, 0x61]);
    let old_ip = u32::from_le_bytes([192, 168, 0, 1]);
    let new_ip = u32::from_le_bytes([10, 0, 0, 7]);
    let r = adjust_checksum_be(check, old_ip, new_ip);
    assert_eq!(r, u16::from_le_bytes([0x6f, 0x04]));
    hdr[10..12].copy_from_slice(&r.to_le_bytes());
    hdr[12..16].copy_from_slice(&[10, 0, 0, 7]);
    assert_eq!(ipv4_header_sum(&hdr), 0xffff);
}

#[test]
fn checksum_unchanged_when_the_address_is_the_same() {
    let check = u16::from_le_bytes([0xb8, 0x61]);
    let ip = u32::from_le_bytes([192, 168, 0, 1]);
    assert_eq!(adjust_checksum_be(check, ip, ip), check);
}

#[test]
fn clock_conversions() {
    assert_eq!(ns_from_timespec(2, 5), 2_000_000_005);
    assert_eq!(us_from_timeval(3, 250), 3_000_250);
    assert_eq!(cpu_time_us(1, 2, 3, 4), (1_000_002, 3_000_004));
}
