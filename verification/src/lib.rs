//! Inspect and reclaim disk space taken by development build artifacts:
//! a build cache, a simulator cache directory, and per-device simulator
//! directories. The library holds the logic: command parsing, the
//! directory-size model, size formatting, path resolution, and simulator
//! metadata extraction. Filesystem access stays with the caller.

pub mod command;
pub mod directory;
pub mod format;
pub mod paths;
pub mod plan;
pub mod simulator;
