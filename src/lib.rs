//! Node configuration for a distributed key-value service: the record a node
//! starts from, its baseline values, how it is decoded from a TOML document
//! and how the two environment overrides apply to it.
pub mod document;
pub mod laws;
pub mod node;

pub use document::{Scalar, Setting};
pub use node::{Config, LoadError, Overrides, ReplicationConfig, SchemaProblem};
