# chimera

The decisions of a dynamic binary translator for x86-64 guests, verified with
Verus.

- `src/` is the library: parsing, relocating and placing PE32+ images
  (`pe`, `reloc`, `fixups`, `image`), the host virtual-memory requests for Linux
  and Windows (`vm`), the guest register file (`state`), system calls and the
  embedder's hooks (`syscall`), the run loop as a state machine (`run`), guest
  entry (`exec`) and fault classification (`fault`). Nothing in it touches the
  host: a function that needs the host returns the request to make, and a
  companion takes what the host answered.
- `app/` performs those requests: system calls, raw memory, segment registers,
  and the loop around `run::Guest::step`. The translator itself and its assembly
  trampolines plug in through `engine::Engine`.
- `tests/` runs the library, the run loop with a small interpreter in place of
  translated code.

Both virtual-memory backends are always compiled, so that both stay verified.
`app/` asserts at compile time, and `tests/` checks, that their constants are
those of the host APIs.
