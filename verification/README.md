# terminus

A RISC-V hart simulator (RV32/RV64 with the `i`, `m`, `a`, `c`, `f`, `d`,
`s` and `u` extensions) whose logic is verified with Verus.

- `src/` is the verified library. `processor/` holds the hart: its state
  and privilege levels with their CSRs (`state`, `privilege/`), traps
  (`trap`), the bus and RAM with load-reservation locks (`bus`), the MMU
  with Sv32/Sv39/Sv48 page walks, TLBs and PMP (`mmu/`), the instruction
  decoders (`decode`, `decode_tree`), the instruction cache and fetcher
  (`fetcher`), the execution of each instruction group (`exec`,
  `exec_mem`, `exec_float`, `exec_fpu`, `mulh`, `alu`) and the stepping of
  the hart (`cpu`). Every public function states what it does in its
  contract; the laws of the library (what a read gives back of a write,
  what a return undoes of a trap, what a lookup gives back of a fill) are
  public proof functions.
- `app/` is the host side: ELF loading, a system of harts over one RAM
  region, trace output, and the floating-point arithmetic the harts ask
  for (`exec_fpu` leaves the arithmetic itself to the host).
- `tests/` exercises the library on concrete programs and values.
