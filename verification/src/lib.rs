//! Assembles a multi-track audio deliverable from a declarative playlist:
//! playlist validation and alias resolution, deterministic pause synthesis,
//! channel spreading into a multi-channel mix, cuesheet generation, PCM
//! quantization, and metadata embedding into the output container.

pub mod cues;
pub mod files;
pub mod metadata;
pub mod mix;
pub mod mux;
pub mod numfmt;
pub mod pauses;
pub mod playlist;
pub mod procs;
pub mod quantize;
pub mod rng;
pub mod strutil;
pub mod tagkeys;
pub mod tracks;
pub mod vis;
