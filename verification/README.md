# anvil_firehose

A Firehose tracer for an Ethereum development node, verified with Verus.

- `src/firehose.rs`: the tracer. `PrinterTracer` keeps the active transaction
  and the stack of open calls and produces, for every block, transaction,
  call and log event, the exact `FIRE ...` line; `NoOpTracer` produces none;
  `Inspector` forwards the EVM's hooks to a printing tracer. The lines are
  specified by spec functions (`begin_block_line`, `evm_param_line`, ...), the
  state by `TracerState` and its transitions, and the laws (call nesting,
  one opening per transaction, the invariant) are proof functions.
- `src/mem/firehose.rs`: the block-level tracer of the in-memory backend.
- `src/encoding.rs`: decimal and hexadecimal text, with round-trip laws.
- `src/u256.rs`: 256-bit words as four limbs, and the ethers-core operations
  on them (trusted wrappers whose contracts state what ethers-core computes).
- `app/lib.rs`: unverified glue: conversion from ethers-core values, JSON
  serialization with serde, the checks under which the node's tracer
  panicked, and printing on standard error.
