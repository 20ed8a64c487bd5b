# xdp_labs

Verified packet-processing logic of a set of XDP / AF_XDP network labs:
a UDP router with its control API, capture and benchmark event formats,
WireGuard handshake detection, an AF_XDP port-swapping loop and the
command lines of the tools.

- `src/` — the library, verified with Verus.
  - `wire`, `packet`: byte order and bounds-checked header access.
  - `checksum`: incremental IPv4 header checksum update.
  - `router`, `router_laws`: the router's rule tables, its per-packet
    decision, the control operations and the properties they keep.
  - `wg`, `afxdp`: WireGuard handshake detection and the AF_XDP redirect
    program with the bookkeeping of its user-space loop.
  - `dump`, `bench`: ring-buffer and perf event layouts, capture buckets,
    counters and report grading.
  - `cli`, `server`, `wgnat`, `system`: command-line grammar of the tools,
    log settings and clock arithmetic.
- `tests/` — tests on concrete values.
- `app/` — the tools themselves: loading the eBPF programs with aya,
  the event loops, the HTTP/TCP control servers, pcap output and logging.
  Run as `xdp-labs <tool> [OPTIONS]`; the compiled eBPF object is read from
  the file named by `XDP_LABS_BPF` (default `poc`).
