//! The WireGuard NAT probe: its counters and its command line.

use crate::cli::{args_view, given_text, scan, spec_scan_command_line, text_value, CliError, OptionSpec, ValueKind};
use vstd::prelude::*;

verus! {

/// Size of a WireGuard public key.
pub const WG_KEY_SIZE: usize = 32;

/// Offset of the peer's static public key inside the kernel's peer record.
pub const WG_PEER_PUB_KEY_OFFSET: isize = 328;

/// Per-CPU counters of the probe.
#[derive(Clone, Copy, Debug, PartialEq, Eq, Structural)]
pub struct Stat {
    pub total_packets: u64,
}

/// Options of the probe tool.
#[derive(Debug)]
pub struct Opt {
    /// A placeholder option.
    pub anything: String,
}

/// The probe tool's options: `-a/--anything <text>`.
pub open spec fn options_table() -> Seq<OptionSpec> {
    seq![OptionSpec { long: "anything", short: Some('a'), kind: ValueKind::Text }]
}

fn options() -> (r: Vec<OptionSpec>)
    ensures
        r@ == options_table(),
{
    let mut t: Vec<OptionSpec> = Vec::new();
    t.push(OptionSpec { long: "anything", short: Some('a'), kind: ValueKind::Text });
    assert(t@ =~= options_table());
    t
}

/// Reads the probe tool's command line (program name first).  Default:
/// `any`.
pub fn parse(args: &Vec<String>) -> (r: Result<Opt, CliError>)
    ensures
        match (r, spec_scan_command_line(options_table(), args_view(args@), false)) {
            (Ok(o), Ok(g)) => o.anything@ == given_text(g[0], "any"@),
            (Err(e), Err((k, a))) => e.kind == k && e.arg@ == a,
            _ => false,
        },
{
    let table: Vec<OptionSpec> = options();
    let vals: Vec<Option<String>> = match scan(&table, args, false) {
        Ok(v) => v,
        Err(e) => {
            return Err(e);
        },
    };
    Ok(Opt { anything: text_value(&vals, 0, "any") })
}

} // verus!
