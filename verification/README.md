# rs1553_net

A MIL-STD-1553 style command/response protocol carried over a byte stream,
the simulated devices that speak it, and the small terminal and
microcontroller front ends around them. The library is written in Verus:
every function in `src/` carries a contract that Verus proves.

## Layout

- `src/protocol/` — command, status and data words, their bit packing and
  big-endian byte form, and messages (one leading word plus data words).
  Round-trip laws relate packing and unpacking.
- `src/devices/` — the power subsystem (modes, faults, commands, telemetry,
  the rules that decide mode and fault, and how the power terminal serves a
  command message) and the GPS telemetry format.
- `src/net/` — the decisions of the bus participants: what a bus controller
  sends and reads, what a remote terminal reads, skips and answers, and what
  the relay does with each client's traffic.
- `src/control/` — the ground station: the command panel, how replies are
  read and kept, how keys are handled, and the polling schedule.
- `src/ui/` — the state and key handling of the terminal user interfaces.
- `src/console.rs` — the serial command console and echo board, over a
  bounded transmit queue kept in a `heapless::Deque`.
- `tests/` — tests run against the compiled library.
- `app/` — the executable: sockets, timers, terminal drawing, HTTP requests,
  and the floating-point simulation, calling the library for every decision.
