# t1_daemons

The decisions of the Touch ID daemons, verified with Verus: who may ask for what,
which of several requests wins, when a deadline or a disconnected client cancels
work, how a relay is handed over and back, and in which order catacomb pairs
become durable, are promoted, recovered and restored.

- `src/` is the library. Every function states what it returns; the public proof
  functions named `law_...` state what holds across functions.
- `tests/` runs the library, with devices, sockets and directories kept in memory.
- `app/` is the ordinary Rust around it: files, sockets, threads and clocks.

Procedures that alternate between outside work and decisions are state machines:
each step names the work to do, and takes its outcome to the next step.
