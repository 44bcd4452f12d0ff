//! Controller for an "old television" full-screen post-processing pass.
//!
//! A real-time renderer applies the effect once per frame, per camera, as a
//! full-screen draw over the already-rendered color image. This crate holds
//! the verified plumbing around that draw: synchronizing per-camera effect
//! parameters into a shared uniform buffer, constructing and caching the
//! render pipeline, deciding per frame whether the pass runs or is skipped,
//! and registering the pass at its fixed point in the renderer's ordered
//! stage graph. The GPU itself, and the host engine driving it, sit outside
//! the library and consume the plain records and commands it produces.

pub mod executor;
pub mod frame;
pub mod pipeline;
pub mod schedule;
pub mod settings;
pub mod upload;

pub use schedule::OldTvPlugin;
pub use settings::OldTvSettings;
