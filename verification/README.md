# intu

A compiler for the small functional language Intu, with its passes and
intermediate forms proved correct against their specifications in Verus.

- `src/syntax.rs`, `src/typechecker.rs`: the surface language and its type
  inference; inferred typings are proved valid (`lemma_infer_well_typed`).
- `src/uniquify.rs`, `src/shrink.rs`, `src/remove_complex.rs`,
  `src/a_normal_form.rs`, `src/explicate_control.rs`: the passes from
  expressions to control-flow form.
- `src/eval.rs`: the interpreter, stepping through input and output requests
  that the caller answers.
- `src/riscv`, `src/riscv_var`, `src/liveness_rv_var.rs`,
  `src/allocate_registers_rv_var.rs`: RISC-V instructions, registers and
  immediates, and the interference and saturation graphs of register
  allocation (over `petgraph`, through `src/ungraph.rs`; immediates over
  `bitvec`, through `src/bitfield.rs`).
- `src/llvm_ir`: LLVM IR types, constants, instructions, terminators,
  functions and modules, with the type of each.
- `src/expose_allocation.rs`, `src/assign_homes.rs`: the forms of explicit
  allocation and of instructions before home assignment.

`app/` drives the interpreter from standard input and output.
