//! Dependency-graph resolution for queries over a Rust package and its
//! dependencies: the dependency index, the repository classifier, the
//! session caches of the registry and forge clients, and unsafe-usage
//! statistics.
pub mod adapter;
pub mod advisory;
pub mod cache;
pub mod crates_io;
pub mod dependency;
pub mod errors;
pub mod geiger;
pub mod github;
pub mod manifest;
pub mod query;
pub mod repo;
pub mod version;
pub mod vertex;
