//! Configuration and start-up logic of a filesystem server that keeps its data
//! in an object store.

pub mod address;
pub mod cache;
pub mod compression;
pub mod decimal;
pub mod engine;
pub mod expand;
pub mod lines;
pub mod listeners;
pub mod otrace;
pub mod provider;
pub mod render;
pub mod replication;
pub mod run;
pub mod settings;
pub mod text;
pub mod tuning;
