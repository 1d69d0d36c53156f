//! Miniature: a tiny Scoop shim. The library holds the shim's verified logic:
//! the string-table resource that carries the shim's target and arguments,
//! the executable-type classification, the PE subsystem patch, the
//! command-line arithmetic of the running shim and its exit-code bookkeeping.

pub mod interop;
pub mod wide;
pub mod cstring;
pub mod error;
pub mod table;
pub mod exe_type;
pub mod subsystem;
pub mod shim;
pub mod runtime;
