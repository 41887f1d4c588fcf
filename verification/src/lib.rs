//! A runtime object model: record-like types (scalar leaves, named
//! aggregates, fixed-length arrays) whose memory layout is computed at
//! runtime, together with lock-guarded, type-checked access to instances
//! of those types.

pub mod class;
pub mod error;
pub mod instance;
