//! Core engine for a code-phrase file-transfer tool: archive packing and
//! unpacking, collision-free destination naming, session bookkeeping with
//! one-shot cancellation, and the decision logic that drives a transfer
//! from "user asked to send" to a terminal outcome.
//!
//! The network transport, the GUI shell and all file I/O live outside this
//! crate; this library works on plain values (names, byte vectors, tables)
//! and states exactly what it does with them.

pub mod archive;
pub mod errors;
pub mod history;
pub mod progress;
pub mod receive;
pub mod registry;
pub mod resolve;
pub mod send;
pub mod settings;
pub mod text;
