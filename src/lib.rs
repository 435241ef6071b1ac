//! Host/device buffer residency, transfer planning and compute-dispatch
//! validation for a GPU vector library.
//!
//! The library decides what each buffer operation does: which memory a
//! buffer lives in, which copies and synchronisation steps a transfer needs,
//! and whether a dispatch may be submitted. An executor performs the steps,
//! on a device or, with [`HostMemory`], on host memory.
pub mod buffer;
pub mod dispatch;
pub mod host;
pub mod intent;
pub mod laws;
pub mod plan;
pub mod region;

pub use buffer::{Buffer, BufferKind, BufferReadFuture, BufferWriteFuture};
pub use dispatch::{plan_dispatch, DispatchError, DispatchParams, OpCode, GROUPS_X};
pub use host::HostMemory;
pub use intent::{BufferStrategy, Intent, MemoryFilter, Usage};
pub use plan::{CopyCmd, Place, Step};
pub use region::{read_region, write_prefix, TransferError};
