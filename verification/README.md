# lean_impl

A verified library for the bridge between a Rust SBPF harness and a Lean
model of the SBPF virtual machine.

- `src/` (verified with Verus):
  - `object`: Lean object headers, boxed scalars, reference-count releases.
  - `init`: the one-time start-up of the Lean runtime as a state machine; the
    caller performs the runtime calls that each step names.
  - `decimal`: decimal text of `u64` values and its reading back.
  - `protocol`: the request sent to the Lean model and the state read from
    its reply.
  - `config`: the virtual machine settings drawn from fuzzer data.
  - `disasm`: decoding of eight-byte instruction slots.
  - `diff`: the comparison of a reference run with the Lean model's run.
- `app/`: the FFI calls into the Lean runtime, the JSON framing (serde), and
  the harness pieces that call into `solana_sbpf`.
- `tests/`: tests of the library on concrete values.
