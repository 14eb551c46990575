//! Guest-side runtime support for programs executing inside a sandboxed
//! WASM virtual machine: a registry of active program instances, a
//! page-granularity guard that keeps every guest memory access inside the
//! guest's own linear memory, and a synchronous request/response bridge
//! through which guest code invokes host operations, with correlation ids
//! guarding against host/guest desynchronization.

pub mod errors;
pub mod guard;
pub mod memory;
pub mod bridge;
pub mod program;
pub mod registry;
