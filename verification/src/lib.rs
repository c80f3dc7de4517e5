//! Verified core of an Oracle-style database client binding.
//!
//! The crate manages the lifecycle of a native client handle hierarchy
//! (environment, server, session, service context) and translates the native
//! client's integer status codes into structured error values.  The native
//! client itself is modelled by an explicit state machine ([`native::NativeClient`])
//! so that the resource-ownership protocol — every allocation matched by a
//! free on every error path, no use of an unallocated handle, no partially
//! wired connection ever returned — is proved for every possible sequence of
//! native outcomes.

pub mod connection;
pub mod native;
pub mod oci;
