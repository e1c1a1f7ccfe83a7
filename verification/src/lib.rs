//! Batch conversion driver core: discovers compiled class files under a
//! source root, derives dotted names and mirrored output paths, partitions
//! the work into bounded chunks, and aggregates per-item outcomes.
//! The surrounding process plumbing (directory walking, subprocess spawning,
//! file writes) lives outside this library and hands plain values in and out.

pub mod model;
pub mod resolve;
pub mod schedule;
pub mod text;
pub mod worker;
