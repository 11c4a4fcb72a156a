//! The verified core of an OpenDAL service that presents the snapshots of a
//! rustic repository as a read-only virtual filesystem.
pub mod backend;
pub mod config;
pub mod error;
pub mod lister;
pub mod node;
pub mod path;
pub mod reader;
pub mod refresh;
pub mod repository;
pub mod storage;
pub mod text;
