//! Packet-processing logic of a set of XDP / AF_XDP network labs:
//! wire-format helpers, packet classifiers, a UDP router with its control
//! API, capture-record encodings and the command-line grammars of the tools.

pub mod wire;
pub mod packet;
pub mod checksum;
pub mod router;
pub mod router_laws;
pub mod wg;
pub mod afxdp;
pub mod dump;
pub mod bench;
pub mod sums;
pub mod system;
pub mod cli;
pub mod wgnat;
pub mod server;
