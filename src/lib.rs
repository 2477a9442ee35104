//! Supervision of a local completion server: port selection, readiness,
//! process bookkeeping, request fallback, streamed-token decoding and
//! cancellation of in-flight runs.
//!
//! Everything that touches the outside world (sockets, processes, HTTP,
//! timers, the file system) is left to the caller; each module here takes
//! what the caller observed and decides what happens next.

pub mod cancel;
pub mod health;
pub mod launch;
pub mod log_buffer;
pub mod ports;
pub mod proxy;
pub mod sse;
pub mod start;
pub mod supervisor;
pub mod text;
pub mod toolroot;
pub mod workspace;
