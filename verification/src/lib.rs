//! A hierarchical asset store: named folders backed by filesystem
//! directories, binary assets stored inside them, and access-group-based
//! authorization with per-folder administrators.
//!
//! The metadata store and the directory tree are modelled as explicit
//! values ([`store::MetaStore`], [`disk::Disk`]) so that the creation
//! protocols — path allocation, collision checks, persistence, admin
//! linkage and compensation on partial failure — are verified end to end.

pub mod auth;
pub mod credentials;
pub mod data_models;
pub mod disk;
pub mod error;
pub mod file_system;
pub mod laws;
pub mod paths;
pub mod store;
pub mod util;
