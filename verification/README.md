# miniature

A tiny Scoop shim and `numin`, the tool that builds shims. The shim's target and
arguments live in the shim executable's string-table resource.

- `src/` is the verified library: the string table and its resource layout
  (`table`), nul-terminated wide strings (`cstring`, `wide`), the executable-type
  classification (`exe_type`), the PE subsystem patch (`subsystem`), the shim
  builder's decisions (`shim`), the running shim's command line and exit-code
  bookkeeping (`runtime`) and word-level helpers (`interop`).
- `app/` is the `numin` command-line program and the Windows calls of the shim.
- `tests/` exercises the library.
