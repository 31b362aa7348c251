//! Compiles a multi-track video timeline into the ordered tool invocations,
//! filter graphs and scratch-file names of one export, and steers the export
//! through its stages.
//!
//! Times are whole microseconds and opacities whole millionths, so every
//! number that reaches the media tool is rendered exactly.

pub mod audio;
pub mod config;
pub mod export;
pub mod graph;
pub mod invocation;
pub mod pipeline;
pub mod plan;
pub mod probe;
pub mod recording;
pub mod step;
pub mod text;
pub mod timeline;
pub mod tracks;
pub mod transcription;
pub mod window;
pub mod workspace;
