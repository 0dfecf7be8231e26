//! The errors of the load backend.
use crate::connection::{is_success, success};
use crate::error_chain::{flatten, ErrorChain};
use crate::load::config::VectorKind;
use crate::text::{around, around_two, decimal, decimal_text};
use vstd::prelude::*;
use vstd::string::*;

verus! {

/// Errors that surface only when the configuration is turned into a request body.
#[derive(Debug)]
pub enum OpenSearchConfigError {
    MissingSize(String),
    UnknownDistance { name: String, value: String },
    UnknownDatatype { name: String, value: String },
    Float16Datatype { name: String },
    Uint8Datatype { name: String },
    UnsupportedVectorKind { name: String, kind: VectorKind },
    UnknownMethodName(String),
    UnknownEngine(String),
    UnknownMode(String),
    UnknownCompressionLevel(String),
    UnknownEncoder(String),
}

/// The model of an `OpenSearchConfigError`.
pub enum ConfigErrorView {
    MissingSize(Seq<char>),
    UnknownDistance { name: Seq<char>, value: Seq<char> },
    UnknownDatatype { name: Seq<char>, value: Seq<char> },
    Float16Datatype { name: Seq<char> },
    Uint8Datatype { name: Seq<char> },
    UnsupportedVectorKind { name: Seq<char>, kind: VectorKind },
    UnknownMethodName(Seq<char>),
    UnknownEngine(Seq<char>),
    UnknownMode(Seq<char>),
    UnknownCompressionLevel(Seq<char>),
    UnknownEncoder(Seq<char>),
}

impl View for OpenSearchConfigError {
    type V = ConfigErrorView;

    open spec fn view(&self) -> ConfigErrorView {
        match *self {
            OpenSearchConfigError::MissingSize(n) => ConfigErrorView::MissingSize(n@),
            OpenSearchConfigError::UnknownDistance { name, value } =>
                ConfigErrorView::UnknownDistance { name: name@, value: value@ },
            OpenSearchConfigError::UnknownDatatype { name, value } =>
                ConfigErrorView::UnknownDatatype { name: name@, value: value@ },
            OpenSearchConfigError::Float16Datatype { name } =>
                ConfigErrorView::Float16Datatype { name: name@ },
            OpenSearchConfigError::Uint8Datatype { name } =>
                ConfigErrorView::Uint8Datatype { name: name@ },
            OpenSearchConfigError::UnsupportedVectorKind { name, kind } =>
                ConfigErrorView::UnsupportedVectorKind { name: name@, kind },
            OpenSearchConfigError::UnknownMethodName(v) => ConfigErrorView::UnknownMethodName(v@),
            OpenSearchConfigError::UnknownEngine(v) => ConfigErrorView::UnknownEngine(v@),
            OpenSearchConfigError::UnknownMode(v) => ConfigErrorView::UnknownMode(v@),
            OpenSearchConfigError::UnknownCompressionLevel(v) =>
                ConfigErrorView::UnknownCompressionLevel(v@),
            OpenSearchConfigError::UnknownEncoder(v) => ConfigErrorView::UnknownEncoder(v@),
        }
    }
}

/// The name of a vector kind.
pub open spec fn kind_text(kind: VectorKind) -> Seq<char> {
    match kind {
        VectorKind::Dense => "Dense"@,
        VectorKind::Sparse => "Sparse"@,
        VectorKind::Multivector => "Multivector"@,
    }
}

fn kind_name(kind: VectorKind) -> (r: &'static str)
    ensures
        r@ == kind_text(kind),
{
    match kind {
        VectorKind::Dense => "Dense",
        VectorKind::Sparse => "Sparse",
        VectorKind::Multivector => "Multivector",
    }
}

/// The message of a configuration error.
pub open spec fn config_error_text(e: ConfigErrorView) -> Seq<char> {
    match e {
        ConfigErrorView::MissingSize(name) => "vector `"@ + name
            + "` is dense but has no size: set `size:` in the vectors config or ensure the loader can infer it from the parquet schema"@,
        ConfigErrorView::UnknownDistance { name, value } => "vector `"@ + name
            + "`: unknown distance `"@ + value
            + "` (expected one of: cosine, dot, euclid, manhattan)"@,
        ConfigErrorView::UnknownDatatype { name, value } => "vector `"@ + name
            + "`: unknown datatype `"@ + value + "` (expected one of: float32, byte, binary)"@,
        ConfigErrorView::Float16Datatype { name } => "vector `"@ + name
            + "`: datatype `float16` has no OpenSearch `data_type` — 16-bit storage is a faiss encoder, not an element type. Set `params.method.encoder: {name: sq, type: fp16, bits: 16}` and leave the vector's `datatype` at float32."@,
        ConfigErrorView::Uint8Datatype { name } => "vector `"@ + name
            + "`: datatype `uint8` does not map onto OpenSearch's `byte` data_type — `byte` is SIGNED (-128..127) while `uint8` is 0..255, so half the range would be rejected or wrap. Use `datatype: byte` if the corpus really is signed 8-bit, or keep float32 and quantize with `params.method.encoder`."@,
        ConfigErrorView::UnsupportedVectorKind { name, kind } => "vector `"@ + name + "` is "@
            + kind_text(kind) + ": the opensearch backend supports dense vectors only for now"@,
        ConfigErrorView::UnknownMethodName(value) => "unknown method name `"@ + value
            + "` (expected one of: hnsw, ivf, flat, disk_ann)"@,
        ConfigErrorView::UnknownEngine(value) => "unknown engine `"@ + value
            + "` (expected one of: faiss, lucene, nmslib, jvector)"@,
        ConfigErrorView::UnknownMode(value) => "unknown vector mode `"@ + value
            + "` (expected one of: in_memory, on_disk)"@,
        ConfigErrorView::UnknownCompressionLevel(value) => "unknown compression_level `"@ + value
            + "` (expected one of: 1x, 2x, 4x, 8x, 16x, 32x)"@,
        ConfigErrorView::UnknownEncoder(value) => "unknown encoder name `"@ + value
            + "` (expected one of: flat, sq, pq)"@,
    }
}

impl OpenSearchConfigError {
    /// The message of the error.
    pub fn message(&self) -> (r: String)
        ensures
            r@ == config_error_text(self@),
    {
        match self {
            OpenSearchConfigError::MissingSize(name) => around(
                "vector `",
                name.as_str(),
                "` is dense but has no size: set `size:` in the vectors config or ensure the loader can infer it from the parquet schema",
            ),
            OpenSearchConfigError::UnknownDistance { name, value } => around_two(
                "vector `",
                name.as_str(),
                "`: unknown distance `",
                value.as_str(),
                "` (expected one of: cosine, dot, euclid, manhattan)",
            ),
            OpenSearchConfigError::UnknownDatatype { name, value } => around_two(
                "vector `",
                name.as_str(),
                "`: unknown datatype `",
                value.as_str(),
                "` (expected one of: float32, byte, binary)",
            ),
            OpenSearchConfigError::Float16Datatype { name } => around(
                "vector `",
                name.as_str(),
                "`: datatype `float16` has no OpenSearch `data_type` — 16-bit storage is a faiss encoder, not an element type. Set `params.method.encoder: {name: sq, type: fp16, bits: 16}` and leave the vector's `datatype` at float32.",
            ),
            OpenSearchConfigError::Uint8Datatype { name } => around(
                "vector `",
                name.as_str(),
                "`: datatype `uint8` does not map onto OpenSearch's `byte` data_type — `byte` is SIGNED (-128..127) while `uint8` is 0..255, so half the range would be rejected or wrap. Use `datatype: byte` if the corpus really is signed 8-bit, or keep float32 and quantize with `params.method.encoder`.",
            ),
            OpenSearchConfigError::UnsupportedVectorKind { name, kind } => around_two(
                "vector `",
                name.as_str(),
                "` is ",
                kind_name(*kind),
                ": the opensearch backend supports dense vectors only for now",
            ),
            OpenSearchConfigError::UnknownMethodName(value) => around(
                "unknown method name `",
                value.as_str(),
                "` (expected one of: hnsw, ivf, flat, disk_ann)",
            ),
            OpenSearchConfigError::UnknownEngine(value) => around(
                "unknown engine `",
                value.as_str(),
                "` (expected one of: faiss, lucene, nmslib, jvector)",
            ),
            OpenSearchConfigError::UnknownMode(value) => around(
                "unknown vector mode `",
                value.as_str(),
                "` (expected one of: in_memory, on_disk)",
            ),
            OpenSearchConfigError::UnknownCompressionLevel(value) => around(
                "unknown compression_level `",
                value.as_str(),
                "` (expected one of: 1x, 2x, 4x, 8x, 16x, 32x)",
            ),
            OpenSearchConfigError::UnknownEncoder(value) => around(
                "unknown encoder name `",
                value.as_str(),
                "` (expected one of: flat, sq, pq)",
            ),
        }
    }
}

/// An error of the store.
#[derive(Debug)]
pub enum StoreError {
    /// An error of the server or of the way to it, with the HTTP status where there is one.
    OpenSearch { status: Option<u16>, message: String },
    Other(String),
}

/// The model of a `StoreError`.
pub enum StoreErrorView {
    OpenSearch { status: Option<u16>, message: Seq<char> },
    Other(Seq<char>),
}

impl View for StoreError {
    type V = StoreErrorView;

    open spec fn view(&self) -> StoreErrorView {
        match *self {
            StoreError::OpenSearch { status, message } =>
                StoreErrorView::OpenSearch { status, message: message@ },
            StoreError::Other(m) => StoreErrorView::Other(m@),
        }
    }
}

/// The outcome of a step without a value.
pub open spec fn unit_result(r: Result<(), StoreError>) -> Result<(), StoreErrorView> {
    match r {
        Ok(()) => Ok(()),
        Err(e) => Err(e@),
    }
}

/// A client error: the HTTP status that came with it, if any, and its causes.
pub struct ClientError {
    pub status: Option<u16>,
    pub chain: ErrorChain,
}

/// An error on the way to the server; it keeps its HTTP status, where it has one, for the decision
/// whether to retry.
pub fn to_store_err(e: &ClientError) -> (r: StoreError)
    ensures
        r@ == (StoreErrorView::OpenSearch { status: e.status, message: e.chain@ }),
{
    StoreError::OpenSearch { status: e.status, message: flatten(&e.chain) }
}

/// An error of the client; it keeps its HTTP status, where it has one.
pub fn client_err(e: &ClientError) -> (r: StoreError)
    ensures
        r@ == (StoreErrorView::OpenSearch { status: e.status, message: e.chain@ }),
{
    to_store_err(e)
}

/// A configuration error as a store error.
pub fn config_err(e: &OpenSearchConfigError) -> (r: StoreError)
    ensures
        r@ == StoreErrorView::Other(config_error_text(e@)),
{
    StoreError::Other(e.message())
}

/// The error of a response whose status is no success.
pub open spec fn status_error(context: Seq<char>, status: u16, detail: Seq<char>) -> StoreErrorView {
    StoreErrorView::OpenSearch {
        status: Some(status),
        message: context + " failed (HTTP "@ + decimal(status as nat) + "): "@ + detail,
    }
}

/// A response whose status is no success, as an error that carries the status: a 400 is not worth
/// a retry, a 429 or a 503 is.
pub fn status_err(context: &str, status: u16, detail: &str) -> (r: StoreError)
    ensures
        r@ == status_error(context@, status, detail@),
{
    let number = decimal_text(status as u64);
    let message = around_two(context, " failed (HTTP ", number.as_str(), "): ", detail);
    StoreError::OpenSearch { status: Some(status), message }
}

/// What a response that is read for its status alone says.
pub open spec fn checked(context: Seq<char>, status: u16, detail: Seq<char>) -> Result<
    (),
    StoreErrorView,
> {
    if success(status) {
        Ok(())
    } else {
        Err(status_error(context, status, detail))
    }
}

/// Checks the status of a response.
pub fn check_status(context: &str, status: u16, detail: &str) -> (r: Result<(), StoreError>)
    ensures
        unit_result(r) == checked(context@, status, detail@),
{
    if is_success(status) {
        Ok(())
    } else {
        Err(status_err(context, status, detail))
    }
}

} // verus!
