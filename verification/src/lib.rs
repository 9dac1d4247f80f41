//! Cross-platform CAN bus abstraction: a validated frame model, the
//! conversions shared with a kernel CAN-socket facility, and the wire
//! protocol of a pipe-based transport to an external relay process.
//!
//! Everything here is pure computation on plain values; the asynchronous
//! I/O that drives these functions lives outside the verified library.

pub mod config;
pub mod errors;
pub mod frame;
pub mod native;
pub mod pipe;
pub mod text;
pub mod wire;
