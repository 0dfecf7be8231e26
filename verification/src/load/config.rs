//! The settings of the load backend.
use crate::connection::redacted_secret;
use crate::named::Named;
use vstd::prelude::*;
use vstd::string::*;

verus! {

/// Connection and store settings of an OpenSearch backend.
pub struct OpenSearchConfig {
    /// Node URL, e.g. `https://localhost:9200`.
    pub url: String,
    /// Basic-auth username (paired with `password`).
    pub username: Option<String>,
    pub password: Option<String>,
    /// Bearer token (JWT), an alternative to username and password.
    pub bearer_token: Option<String>,
    /// Target index.
    pub index_name: String,
    /// Skip TLS certificate validation.
    pub tls_insecure: bool,
    /// Per-request timeout in seconds.
    pub timeout_s: u64,
    /// Index-wide creation params.
    pub params: Option<OpenSearchParams>,
}

/// Index-wide knobs: attributes of the whole index, not of any single vector.
#[derive(Debug)]
pub struct OpenSearchParams {
    /// `index.number_of_shards`. Static: settable only at creation.
    pub shards: Option<u32>,
    /// `index.number_of_replicas`. Dynamic.
    pub replicas: Option<u32>,
    /// `index.refresh_interval` in steady state. Dynamic.
    pub refresh_interval: Option<String>,
    /// `index.knn.algo_param.ef_search`, the default search breadth. Dynamic.
    pub ef_search: Option<u32>,
    /// ANN method and engine. Immutable after index creation.
    pub method: Option<MethodConfig>,
    /// Vector workload mode: `in_memory` or `on_disk`. Immutable after creation.
    pub mode: Option<String>,
    /// Quantization shorthand that pairs with `mode`. Immutable after creation.
    pub compression_level: Option<String>,
    /// If the index already exists, drop and recreate it instead of reusing it.
    pub recreate: bool,
}

/// The ANN method definition, with the engine's knobs directly on it.
#[derive(Debug)]
pub struct MethodConfig {
    /// `hnsw` (default), `ivf`, `flat`, or `disk_ann`.
    pub name: Option<String>,
    /// `faiss` (default), `lucene`, `nmslib`, or `jvector`.
    pub engine: Option<String>,
    /// HNSW: bidirectional links per node.
    pub m: Option<u32>,
    /// HNSW: build-time candidate list size.
    pub ef_construction: Option<u32>,
    /// faiss HNSW: the engine-level default search breadth.
    pub ef_search: Option<u32>,
    /// IVF: number of buckets.
    pub nlist: Option<u32>,
    /// IVF: buckets examined per query.
    pub nprobes: Option<u32>,
    /// Vector encoder.
    pub encoder: Option<EncoderConfig>,
}

/// A faiss encoder definition.
#[derive(Debug)]
pub struct EncoderConfig {
    /// `flat`, `sq`, or `pq`.
    pub name: String,
    /// `pq`: subvectors to split each vector into.
    pub m: Option<u32>,
    /// `pq`: bits per subvector code.
    pub code_size: Option<u32>,
    /// `sq`: quantization type.
    pub sq_type: Option<String>,
    /// `sq`: round out-of-range values into the representable range.
    pub clip: Option<bool>,
    /// `sq`: bits per dimension.
    pub bits: Option<u32>,
}

/// What kind of vector a field holds.
#[derive(Clone, Copy, Debug, PartialEq, Eq, Structural)]
pub enum VectorKind {
    Dense,
    Sparse,
    Multivector,
}

/// The schema of one vector.
#[derive(Debug)]
pub struct VectorSpec {
    pub kind: VectorKind,
    pub column: String,
    pub size: Option<u64>,
    pub distance: Option<String>,
    pub comparator: Option<String>,
    pub datatype: Option<String>,
    pub on_disk: Option<bool>,
    pub modifier: Option<String>,
}

/// The schema of a collection: each vector under its name, and the dimensions that the data
/// source could infer.
pub struct CollectionSchema {
    pub vectors: Named<VectorSpec>,
    pub dims: Named<u64>,
}

impl Default for OpenSearchParams {
    fn default() -> (r: OpenSearchParams)
        ensures
            r == (OpenSearchParams {
                shards: None,
                replicas: None,
                refresh_interval: None,
                ef_search: None,
                method: None,
                mode: None,
                compression_level: None,
                recreate: false,
            }),
    {
        OpenSearchParams {
            shards: None,
            replicas: None,
            refresh_interval: None,
            ef_search: None,
            method: None,
            mode: None,
            compression_level: None,
            recreate: false,
        }
    }
}

impl Default for MethodConfig {
    fn default() -> (r: MethodConfig)
        ensures
            r == (MethodConfig {
                name: None,
                engine: None,
                m: None,
                ef_construction: None,
                ef_search: None,
                nlist: None,
                nprobes: None,
                encoder: None,
            }),
    {
        MethodConfig {
            name: None,
            engine: None,
            m: None,
            ef_construction: None,
            ef_search: None,
            nlist: None,
            nprobes: None,
            encoder: None,
        }
    }
}

/// The index that is used where none is configured.
pub fn default_index() -> (r: String)
    ensures
        r@ == "default"@,
{
    "default".to_owned()
}

/// The request timeout in seconds that is used where none is configured.
pub fn default_timeout_s() -> (r: u64)
    ensures
        r == 120,
{
    120
}

/// What may be shown of a configuration: everything but the secrets, of which only whether they
/// are set.
pub struct RedactedConfig<'a> {
    pub url: &'a String,
    pub username: &'a Option<String>,
    pub password: Option<&'static str>,
    pub bearer_token: Option<&'static str>,
    pub index_name: &'a String,
    pub tls_insecure: bool,
    pub timeout_s: u64,
    pub params: &'a Option<OpenSearchParams>,
}

/// What is shown of a configuration.
pub open spec fn shown(c: OpenSearchConfig) -> RedactedConfig<'static> {
    RedactedConfig {
        url: &c.url,
        username: &c.username,
        password: if c.password is Some {
            Some("<redacted>")
        } else {
            None
        },
        bearer_token: if c.bearer_token is Some {
            Some("<redacted>")
        } else {
            None
        },
        index_name: &c.index_name,
        tls_insecure: c.tls_insecure,
        timeout_s: c.timeout_s,
        params: &c.params,
    }
}

impl OpenSearchConfig {
    /// The configuration as it may be shown in logs and errors.
    pub fn redacted(&self) -> (r: RedactedConfig<'_>)
        ensures
            r == shown(*self),
    {
        RedactedConfig {
            url: &self.url,
            username: &self.username,
            password: redacted_secret(&self.password),
            bearer_token: redacted_secret(&self.bearer_token),
            index_name: &self.index_name,
            tls_insecure: self.tls_insecure,
            timeout_s: self.timeout_s,
            params: &self.params,
        }
    }
}

/// What is shown of a configuration does not depend on what its secrets are, only on whether
/// they are set.
pub proof fn law_secrets_never_shown(a: OpenSearchConfig, b: OpenSearchConfig)
    requires
        a.url == b.url,
        a.username == b.username,
        a.index_name == b.index_name,
        a.tls_insecure == b.tls_insecure,
        a.timeout_s == b.timeout_s,
        a.params == b.params,
        a.password is Some == b.password is Some,
        a.bearer_token is Some == b.bearer_token is Some,
    ensures
        shown(a) == shown(b),
{
}

} // verus!
