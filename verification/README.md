# lldb

A safe binding to the public API of [LLDB](http://lldb.llvm.org/), whose
decision-making core carries checked contracts and proofs.

* `src/` is the library. Each LLDB class (`SBDebugger`, `SBTarget`,
  `SBProcess`, `SBThread`, `SBFrame`, `SBValue`, ...) is a type over an
  opaque raw reference, and carries the logic around the calls into LLDB:
  which index of an LLDB collection to fetch next and how many remain,
  validity flags read as `Option`s and error objects as `Result`s, the
  classes of process states, the sentinel values LLDB uses for "absent",
  the variables a frame query selects, and the decoding of text and of
  process output (gathered whole, then decoded). Every function there has a contract, and the laws that
  relate them (an iterator visits each index once and then stays
  exhausted, all but the module-symbol walk, which moves back after an
  overrun; the state classes; what the output reader gathers) are proof
  functions.
* `app/` makes the calls into LLDB's C interface through the `lldb-sys`
  crate and hands the results to the library. It needs LLVM's `liblldb`
  to build.
* `tests/` exercises the library on concrete values.
