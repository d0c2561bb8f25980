//! Verified core of a headless game-export pipeline: project metadata
//! reading, preset catalog enumeration, build-command construction, and
//! deterministic per-platform packaging (archive or directory).
//!
//! Filesystem access and process spawning live outside this crate; the
//! library works on plain values (strings, bytes, parsed configuration)
//! and states in its contracts exactly what each step produces.

pub mod cli;
pub mod config;
pub mod exporters;
pub mod text;
