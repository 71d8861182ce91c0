# test_generator

A generator of single-instruction CPU tests for x86 processors driven by
ArduinoX86 hardware. Each test draws a random register file and instruction,
runs it on the real CPU, and records the bus cycles, the initial and final
memory and the final registers; stored test files can be run again to
validate them.

The crate is written in Verus.

* `src/` is the verified library: the byte-level memory that bus cycles are
  replayed into, ModR/M and SIB decoding and the addressing modes they give,
  the analysis of a run's bus cycles (pairing, stack pushes, exception
  detection, validation against the instruction), the reconstruction of the
  initial and final memory state, instruction assembly, loading, masking and
  re-encoding (with the opcode check of stored tests), register
  file accessors and checks, test batching, configuration lookups, and the
  decisions of the generation and validation loops. Contracts state each
  function's result over spec functions; laws about several functions are
  public proof functions named `law_*`.
* `app/` is the command-line program: configuration loading, the hardware
  client, random draws weighted by floating-point chances, test-file I/O and
  trace logs. It hands the library plain values and acts on what comes back.
* `tests/` exercises the library on concrete values.

Calls into iced-x86 (decoding, NASM formatting, opcode information and
encoding), indexmap (the ordered byte map of the
initial state) and rand (seeded flag values) are made from `src/` through a
few trusted wrappers whose contracts are documented beside them.
