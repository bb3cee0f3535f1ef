//! Native-to-managed call bridge.
//!
//! An adapter that lets a native call engine invoke a host application
//! runtime's object model: it extends the lifetime of host object
//! references across the language boundary, guarantees at-most-once release
//! of those references, marshals identifiers, enumerations, collections and
//! strings across the boundary without loss of ordering or precision, and
//! makes the boundary safe to call from native worker threads the host
//! runtime did not create.

pub mod cache;
pub mod candidates;
pub mod error;
pub mod event;
pub mod ids;
pub mod jvm;
pub mod lifecycle;
pub mod platform;
