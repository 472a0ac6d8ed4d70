# winkernl

Verified building blocks for Windows kernel-mode development, written in
Verus.

- `src/` is the library. Every decision taken around the kernel is verified
  there: the x86-64 page walker (`memory::pagewalk`), module lookup and
  export resolution (`memory::module`), MDL bookkeeping and the
  read-only-memory write sequence (`memory::mdl`, `memory::rw`), pattern
  scanning, pool and contiguous allocation handles and the global
  allocator (`kalloc`), `EPROCESS` offset discovery and the
  process-list walk (`process`), inline-hook encoding and trampolines
  (`khook`), and the choice of the Windows Driver Kit directory (`builds`).
  The kernel itself is reached only through closures or readers that the
  caller supplies, so the library and its tests run on any host. Each
  closure's precondition is demanded only where the call belongs, which
  fixes which calls are made and in what order; a `MemPhysical` reader that
  follows the model also records, in a ghost trace, every physical read.
- `app/` is the kernel-side glue: the NT routine declarations, raw memory
  access, handles that release their resources on drop, the
  `GlobalAlloc` implementation and the build-script helpers.
- `tests/` exercises the library with simulated kernels.

Instruction decoding uses `iced-x86`, address arithmetic and page-table
flags use `x86_64`, and the registry lookup of the kit in `app/` uses
`winreg`. That crate builds on Windows only, and `app/` calls it only there;
the library never uses it.
