//! OpenSearch for vector workloads: loading a corpus into an index, and querying it.
pub mod connection;
pub mod error_chain;
pub mod field;
pub mod json;
pub mod json_build;
pub mod json_laws;
pub mod json_path;
pub mod json_text;
pub mod load;
pub mod model_laws;
pub mod named;
pub mod storm;
pub mod text;
pub mod text_laws;
