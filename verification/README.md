# stabilizer

Control logic of a two-channel servo board, verified with Verus.

- `src/sample.rs`: words of the converters and the samples they stand for
- `src/conversion.rs`, `src/trace.rs`: the routine that services a finished conversion, and laws
  of its runs
- `src/trigger.rs`: the routine that starts conversions
- `src/board.rs`: settings with which the board is brought up
- `src/server.rs`, `src/stream.rs`: the command server, and laws of how it cuts a stream into lines
- `src/buffer.rs`: what is trusted of the `heapless` crate
- `src/network.rs`: decisions of the network loop
- `app/`: the firmware, which performs the actions on the peripherals and does the
  floating-point arithmetic of the filters
