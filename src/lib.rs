//! Startup sequencing and per-platform window tuning for a desktop shell that
//! hosts an embedded web view.
//!
//! Everything here is a decision on plain values: which plugins to attach,
//! which window mutations to request on each platform and build profile, how
//! the one-shot setup hook and the per-load hook react to what the runtime
//! reports, and when the process exits. The runtime that carries the
//! decisions out lives outside this library.
pub mod config;
pub mod window;
pub mod setup;
pub mod page_load;
pub mod lifecycle;
pub mod laws;
