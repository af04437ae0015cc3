//! A read-only view of a remote HTTP byte resource, served through a pool of
//! range-fetching readers with bounded sliding buffers.
//!
//! The crate holds the verified core: the per-reader buffer state machine
//! ([`http_reader`]), the pool that routes block requests to readers
//! ([`file_system`]), and the metadata probe parameters ([`http_meta_reader`]).
//! The surrounding process (HTTP transfers, the kernel filesystem binding,
//! threads and timers) drives these functions from outside.

pub mod file_system;
pub mod http_meta_reader;
pub mod http_reader;
pub mod stream_laws;
