//! Detection of WireGuard handshake initiations and the verdicts of the
//! programs built on it (redirect to an AF_XDP socket, hairpin, TC checks).

use crate::packet::{
    be16_at, load_be16, load_raw32, raw32_at, ETHER_TYPE_IPV4, ETH_TYPE, IP_PROTO, IP_PROTO_UDP,
    xsk_request, TC_ACT_PIPE, UDP_DST, UDP_PAYLOAD, XskRedirect, XDP_PASS, XDP_TX,
};
use vstd::prelude::*;

verus! {

/// The WireGuard UDP port.
pub const WG_PORT: u16 = 51820;

/// Shortest frame that can hold a handshake initiation:
/// Ethernet 14 + IPv4 20 + UDP 8 + WireGuard 148.
pub const WG_HANDSHAKE_INIT_ETHER_LEN: usize = 190;

/// The WireGuard message type of a handshake initiation, read as a
/// little-endian 32-bit word at the start of the UDP payload: a WireGuard
/// message starts with its type byte (1 for an initiation) followed by three
/// reserved zero bytes.
pub const WG_HANDSHAKE_INITIATION: u32 = 1;

/// A WireGuard handshake initiation: long enough, IPv4, UDP to the WireGuard
/// port, and the message type of an initiation.
pub open spec fn spec_is_wg_handshake_initiation(p: Seq<u8>) -> bool {
    &&& WG_HANDSHAKE_INIT_ETHER_LEN <= p.len()
    &&& be16_at(p, ETH_TYPE as int) == ETHER_TYPE_IPV4
    &&& p[IP_PROTO as int] == IP_PROTO_UDP
    &&& be16_at(p, UDP_DST as int) == WG_PORT
    &&& raw32_at(p, UDP_PAYLOAD as int) == WG_HANDSHAKE_INITIATION
}

/// Whether the frame is a WireGuard handshake initiation (XDP programs).
pub fn is_wg_handshake_initiation(pkt: &[u8]) -> (r: bool)
    ensures
        r == spec_is_wg_handshake_initiation(pkt@),
{
    if pkt.len() < WG_HANDSHAKE_INIT_ETHER_LEN {
        return false;
    }
    if load_be16(pkt, ETH_TYPE) != ETHER_TYPE_IPV4 {
        return false;
    }
    if pkt[IP_PROTO] != IP_PROTO_UDP {
        return false;
    }
    if load_be16(pkt, UDP_DST) != WG_PORT {
        return false;
    }
    load_raw32(pkt, UDP_PAYLOAD) == WG_HANDSHAKE_INITIATION
}

/// Whether the frame is a WireGuard handshake initiation (TC programs).
pub fn is_wg_handshake_initiation_tc(pkt: &[u8]) -> (r: bool)
    ensures
        r == spec_is_wg_handshake_initiation(pkt@),
{
    is_wg_handshake_initiation(pkt)
}

/// Verdict of the authentication program: a handshake initiation goes to
/// the AF_XDP socket of its receive queue, with the verdict the socket map
/// returned (`redirect`; `Err` when the map refused), or passes when the map
/// refused; everything else passes.
pub open spec fn spec_bpf_auth(p: Seq<u8>, redirect: Result<u32, i64>) -> u32 {
    if spec_is_wg_handshake_initiation(p) {
        match redirect {
            Ok(action) => action,
            Err(_) => XDP_PASS,
        }
    } else {
        XDP_PASS
    }
}

/// The authentication program on a frame received on queue `rx_queue`.  It
/// returns its verdict and the request it made of the socket map, if any;
/// `redirect` is the map's answer to that request.
pub fn bpf_auth(pkt: &[u8], rx_queue: u32, redirect: Result<u32, i64>) -> (r: (u32, Option<XskRedirect>))
    ensures
        r.0 == spec_bpf_auth(pkt@, redirect),
        r.1 == (if spec_is_wg_handshake_initiation(pkt@) {
            Some(xsk_request(rx_queue))
        } else {
            None::<XskRedirect>
        }),
{
    if is_wg_handshake_initiation(pkt) {
        let request = XskRedirect { queue: rx_queue, fallback: XDP_PASS as u64 };
        match redirect {
            Ok(action) => {
                return (action, Some(request));
            },
            Err(_) => {
                return (XDP_PASS, Some(request));
            },
        }
    }
    (XDP_PASS, None)
}

/// The hairpin program: handshake initiations are sent straight back.
pub fn bpf_hairpin(pkt: &[u8]) -> (r: u32)
    ensures
        r == (if spec_is_wg_handshake_initiation(pkt@) {
            XDP_TX
        } else {
            XDP_PASS
        }),
{
    if is_wg_handshake_initiation(pkt) {
        XDP_TX
    } else {
        XDP_PASS
    }
}

/// The ingress checker only reports initiations; its verdict is always to
/// continue.
pub fn bpf_auth_ingress_checker(pkt: &[u8]) -> (r: i32)
    ensures
        r == TC_ACT_PIPE,
{
    let _seen: bool = is_wg_handshake_initiation_tc(pkt);
    TC_ACT_PIPE
}

/// The egress checker only reports initiations; its verdict is always to
/// continue.
pub fn bpf_auth_egress_checker(pkt: &[u8]) -> (r: i32)
    ensures
        r == TC_ACT_PIPE,
{
    let _seen: bool = is_wg_handshake_initiation_tc(pkt);
    TC_ACT_PIPE
}

} // verus!

verus! {

/// Only the handshake-initiation message type is detected: on a frame to
/// the WireGuard port, the detector answers yes exactly when the payload
/// starts with the bytes 1, 0, 0, 0; responses (2), cookie replies (3) and
/// transport data (4) are not initiations.
pub proof fn law_initiation_type_decides(p: Seq<u8>)
    requires
        190 <= p.len(),
        p[12] == 0x08u8,
        p[13] == 0x00u8,
        p[23] == 17u8,
        p[36] == 0xcau8,
        p[37] == 0x6cu8,
    ensures
        spec_is_wg_handshake_initiation(p) <==> (p[42] == 1u8 && p[43] == 0u8 && p[44] == 0u8
            && p[45] == 0u8),
{
    assert(be16_at(p, 12) == 0x0800);
    assert(be16_at(p, 36) == 51820);
    let w: int = p[42] + 256 * p[43] + 65536 * p[44] + 16777216 * p[45];
    assert(0 <= w < 4294967296);
    assert(raw32_at(p, 42) == w);
}

/// Whatever the frame, a detected initiation has message type 1 in its
/// first payload byte and zeros in the three reserved bytes.
pub proof fn law_initiation_has_type_one(p: Seq<u8>)
    ensures
        spec_is_wg_handshake_initiation(p) ==> (p[42] == 1u8 && p[43] == 0u8 && p[44] == 0u8
            && p[45] == 0u8),
{
    let w: int = p[42] + 256 * p[43] + 65536 * p[44] + 16777216 * p[45];
    if spec_is_wg_handshake_initiation(p) {
        assert(0 <= w < 4294967296);
        assert(raw32_at(p, 42) == w);
    }
}

/// A frame that is not a handshake initiation is neither sent to the AF_XDP
/// socket nor bounced: the authentication program passes it whatever the
/// socket map would answer, and so does the hairpin program.
pub proof fn law_non_initiation_passes(p: Seq<u8>, redirect: Result<u32, i64>)
    requires
        !(p[42] == 1u8 && p[43] == 0u8 && p[44] == 0u8 && p[45] == 0u8),
    ensures
        spec_bpf_auth(p, redirect) == 2,
        !spec_is_wg_handshake_initiation(p),
{
    law_initiation_has_type_one(p);
}

} // verus!
