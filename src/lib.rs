//! Typed handles over host, page-locked and device memory, with the
//! dispatch that chooses how regions are allocated, zero-filled, copied
//! and released.
//!
//! The library decides; the primitives of the accelerator runtime are
//! performed by the caller, which hands their outcome back as plain values.
pub mod memory;
pub mod dispatch;
pub mod elements;
pub mod device;
pub mod host;
