//! Bootstrap layer of a small rendering shell: the shell's event handling, a
//! renderer contract with a no-op backend, and the lifecycle of a GPU API
//! instance with optional validation and debug instrumentation.

pub mod app;
pub mod render;
