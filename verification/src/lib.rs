//! Embedding bridge between a host application and routines produced by an
//! external script compiler.
//!
//! The bridge has five parts: a registry of host functions that scripts may
//! call, the marshaling rules for values crossing the script/host boundary,
//! a store of host-owned opaque objects reachable from script code, the
//! state machine that compiles source text and swaps the active routine, and
//! the error surface that reports every failure instead of crashing the host.

pub mod buffer;
pub mod errors;
pub mod machine;
pub mod marshal;
pub mod registry;
pub mod store;
pub mod textfmt;
