//! Presentation pipeline for an indexed-color bitmap: integer-zoom centered
//! geometry, stride-aligned texture upload, a 256-entry RGBA palette store,
//! frame timing statistics, and the per-frame render/resize state machine.
//! The GPU backend and window system are unverified collaborators; this
//! library computes everything they are handed.

pub mod bitmap;
pub mod cmd;
pub mod geometry;
pub mod machine;
pub mod palette;
pub mod stats;
pub mod upload;
pub mod window;
