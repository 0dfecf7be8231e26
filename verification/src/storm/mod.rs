//! The query target: batches of approximate nearest-neighbour queries against one index.
pub mod batch;
pub mod batch_laws;
pub mod config;
pub mod laws;
pub mod profile;
pub mod search;
pub mod target;
pub mod target_laws;
