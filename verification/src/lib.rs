//! Host bridge for an embedded actor virtual machine.
//!
//! The bridge keeps a registry of live actors inside a cloneable VM core,
//! dispatches method calls against an isolated snapshot of that core
//! (committing the mutation only when execution succeeds), marshals VM
//! values to a host-visible representation, compiles service-interface
//! descriptions to host binding text, and gates diagnostic output behind
//! process-wide settings.

pub mod bridge;
pub mod errors;
pub mod idl;
pub mod marshal;
pub mod settings;
pub mod vm;
