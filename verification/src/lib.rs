//! The core of a single-threaded asynchronous I/O runtime on top of the
//! completion queue of the operating system: a pool of per-operation
//! metadata blocks, the lifecycle of one operation from allocation to
//! completion, and the once-event that carries each result to its awaiter.
//!
//! Nothing here is shared behind a pointer. A sender, a receiver or an
//! operation handle is a key, and every call names the storage it acts on, so
//! each contract can say what the storage holds before and after.

pub mod wake;
pub mod buffer;
pub mod error;
pub mod once_event;
pub mod pool;
pub mod lifecycle;
pub mod operation;
