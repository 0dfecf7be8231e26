//! The load backend: maps points to OpenSearch documents, dense vectors to `knn_vector` fields.
pub mod body_laws;
pub mod bulk;
pub mod bulk_laws;
pub mod check_laws;
pub mod config;
pub mod convert;
pub mod error;
pub mod fixed;
pub mod laws;
pub mod live_laws;
pub mod mapping;
pub mod mismatch_laws;
pub mod name_laws;
pub mod reindex;
pub mod settings;
pub mod settings_laws;
pub mod settle;
pub mod step_laws;
pub mod store;
pub mod verify;
