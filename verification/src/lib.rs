//! Version sampling and boundary-search engine for dependency bounds.
//!
//! Given the declared dependencies of a package manifest, this library decides
//! which released versions of each dependency to test against an external
//! validation command, interprets pass/fail results as a boundary between a
//! supported and an unsupported region, and keeps the manifest mutations made
//! for each trial recoverable, so that the original manifest is always
//! restored when a run ends.

pub mod bisect;
pub mod bound;
pub mod manifest;
pub mod orchestrate;
pub mod render;
pub mod sampler;
pub mod store;
pub mod trial;
pub mod version;
