# vnet

A simulated network: a core wires endpoints together, Ethernet cards and
switches move frames between them, and IPv4 interface cards resolve addresses
with ARP before they send.

- `src/` is the library, verified with Verus. Each part's decisions are stated
  as contracts: the formats (`format`), ARP handling (`arp`), the core's wiring
  (`core_actor`), endpoints (`endpoint`), cards and switches (`l2`), interface
  cards (`l3`), routers (`router`) and random hardware addresses (`util`).
- `app/` is the program: `ractor` actors on `tokio` that carry those decisions
  out, and a `main` that sends a packet between two hosts on one switch.
- `tests/` runs the library on concrete values, including whole-network
  scenarios replayed one message at a time.
