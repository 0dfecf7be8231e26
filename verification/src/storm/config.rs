//! The settings of the query target.
use crate::connection::redacted_secret;
use crate::error_chain::{flatten, ErrorChain};
use crate::json::{Json, JsonNumber, JsonView, NumberView};
use crate::json_build::{optional_view, single, single_json};
use vstd::prelude::*;
use vstd::string::*;

verus! {

/// Connection and target settings.
pub struct OpenSearchConfig {
    /// Node URL, e.g. `https://localhost:9200`.
    pub url: String,
    pub username: Option<String>,
    pub password: Option<String>,
    /// Bearer token (JWT), an alternative to username and password.
    pub bearer_token: Option<String>,
    pub index_name: String,
    /// Skip TLS certificate validation.
    pub tls_insecure: bool,
    /// Per-request timeout in seconds. A load test pushes a cluster into latencies of seconds: a
    /// tight timeout would turn slow queries into errors.
    pub timeout_s: u64,
}

/// The request timeout in seconds that is used where none is configured.
pub fn default_timeout_s() -> (r: u64)
    ensures
        r == 300,
{
    300
}

/// The index that is used where none is configured.
pub fn default_index() -> (r: String)
    ensures
        r@ == "default"@,
{
    "default".to_owned()
}

/// What may be shown of a configuration: everything but the secrets, of which only whether they
/// are set.
pub struct RedactedConfig<'a> {
    pub url: &'a String,
    pub username: &'a Option<String>,
    pub password: Option<&'static str>,
    pub bearer_token: Option<&'static str>,
    pub index_name: &'a String,
    pub tls_insecure: bool,
    pub timeout_s: u64,
}

/// What is shown of a configuration.
pub open spec fn shown(c: OpenSearchConfig) -> RedactedConfig<'static> {
    RedactedConfig {
        url: &c.url,
        username: &c.username,
        password: if c.password is Some {
            Some("<redacted>")
        } else {
            None
        },
        bearer_token: if c.bearer_token is Some {
            Some("<redacted>")
        } else {
            None
        },
        index_name: &c.index_name,
        tls_insecure: c.tls_insecure,
        timeout_s: c.timeout_s,
    }
}

impl OpenSearchConfig {
    /// The configuration as it may be shown in logs.
    pub fn redacted(&self) -> (r: RedactedConfig<'_>)
        ensures
            r == shown(*self),
    {
        RedactedConfig {
            url: &self.url,
            username: &self.username,
            password: redacted_secret(&self.password),
            bearer_token: redacted_secret(&self.bearer_token),
            index_name: &self.index_name,
            tls_insecure: self.tls_insecure,
            timeout_s: self.timeout_s,
        }
    }
}

/// What is shown of a configuration does not depend on what its secrets are, only on whether
/// they are set.
pub proof fn law_secrets_never_shown(a: OpenSearchConfig, b: OpenSearchConfig)
    requires
        a.url == b.url,
        a.username == b.username,
        a.index_name == b.index_name,
        a.tls_insecure == b.tls_insecure,
        a.timeout_s == b.timeout_s,
        a.password is Some == b.password is Some,
        a.bearer_token is Some == b.bearer_token is Some,
    ensures
        shown(a) == shown(b),
{
}

/// Search-time tuning. The server applies its own defaults for what is left unset.
#[derive(Debug)]
pub struct OpenSearchSearchParams {
    /// HNSW candidate-list size at query time.
    pub ef_search: Option<u64>,
    /// IVF buckets examined per query.
    pub nprobes: Option<u64>,
    /// Rescoring of quantized candidates against full-precision vectors.
    pub rescore: Option<RescoreConfig>,
}

/// Search-time tuning with nothing set.
pub open spec fn no_search_params() -> OpenSearchSearchParams {
    OpenSearchSearchParams { ef_search: None, nprobes: None, rescore: None }
}

impl Default for OpenSearchSearchParams {
    fn default() -> (r: OpenSearchSearchParams)
        ensures
            r == no_search_params(),
    {
        OpenSearchSearchParams { ef_search: None, nprobes: None, rescore: None }
    }
}

/// Rescoring behaviour at query time.
#[derive(Debug)]
pub struct RescoreConfig {
    /// Turn rescoring on or off outright.
    pub enabled: Option<bool>,
    /// Candidates retrieved before ranking, as a multiple of `k`.
    pub oversample_factor: Option<OversampleFactor>,
}

/// A factor: the bits of the IEEE 754 double that it is, and how that double is shown in
/// messages and in JSON.
#[derive(Debug)]
pub struct OversampleFactor {
    pub bits: u64,
    pub display: String,
    pub json: String,
}

/// The bits of the double 1.
pub const FACTOR_ONE: u64 = 0x3FF0_0000_0000_0000;

/// The bits of the double 100.
pub const FACTOR_HUNDRED: u64 = 0x4059_0000_0000_0000;

/// Whether a factor is from 1 to 100. The bits of doubles that are not negative are ordered as
/// the doubles are; those of negative doubles, infinity and NaN lie above.
pub open spec fn factor_in_range(bits: u64) -> bool {
    FACTOR_ONE <= bits <= FACTOR_HUNDRED
}

impl OversampleFactor {
    /// Whether the server accepts the factor.
    pub fn in_range(&self) -> (r: bool)
        ensures
            r == factor_in_range(self.bits),
    {
        FACTOR_ONE <= self.bits && self.bits <= FACTOR_HUNDRED
    }
}

/// The `rescore` value of a query; none leaves it to the mode of the field. The server takes a
/// boolean or an object with a factor: turned off is `false`, whatever the factor.
pub open spec fn rescore_value(rescore: RescoreConfig) -> Option<JsonView> {
    match (rescore.enabled, rescore.oversample_factor) {
        (Some(false), _) => Some(JsonView::Bool(false)),
        (_, Some(factor)) => Some(
            single("oversample_factor"@, JsonView::Number(NumberView::Float(factor.json@))),
        ),
        (Some(true), None) => Some(JsonView::Bool(true)),
        (None, None) => None,
    }
}

/// Builds the `rescore` value of a query.
pub fn rescore_json(rescore: &RescoreConfig) -> (r: Option<Json>)
    ensures
        optional_view(r) == rescore_value(*rescore),
{
    match rescore.enabled {
        Some(false) => Some(Json::Bool(false)),
        enabled => match &rescore.oversample_factor {
            Some(factor) => Some(
                single_json(
                    "oversample_factor",
                    Json::Number(JsonNumber::Float(factor.json.clone())),
                ),
            ),
            None => match enabled {
                Some(_) => Some(Json::Bool(true)),
                None => None,
            },
        },
    }
}

/// What is returned of the payload of a hit.
#[derive(Debug)]
pub enum WithPayload {
    /// All of it, or nothing.
    Enable(bool),
    /// These fields.
    Fields(Vec<String>),
}

/// The model of a `WithPayload`.
pub enum WithPayloadView {
    Enable(bool),
    Fields(Seq<Seq<char>>),
}

/// The texts of some strings.
pub open spec fn texts(v: Seq<String>) -> Seq<Seq<char>> {
    Seq::new(v.len(), |i: int| v[i]@)
}

impl View for WithPayload {
    type V = WithPayloadView;

    open spec fn view(&self) -> WithPayloadView {
        match *self {
            WithPayload::Enable(b) => WithPayloadView::Enable(b),
            WithPayload::Fields(fields) => WithPayloadView::Fields(texts(fields@)),
        }
    }
}

impl WithPayload {
    /// A copy of the value.
    pub fn copied(&self) -> (r: WithPayload)
        ensures
            r@ == self@,
    {
        match self {
            WithPayload::Enable(b) => WithPayload::Enable(*b),
            WithPayload::Fields(fields) => {
                let mut copy: Vec<String> = Vec::new();
                let mut i: usize = 0;
                while i < fields.len()
                    invariant
                        i <= fields@.len(),
                        texts(copy@) == texts(fields@).take(i as int),
                    decreases fields@.len() - i,
                {
                    let ghost before = texts(copy@);
                    copy.push(fields[i].clone());
                    assert(texts(copy@) =~= before.push(fields@[i as int]@));
                    assert(texts(fields@).take(i + 1) =~= before.push(fields@[i as int]@));
                    i += 1;
                }
                assert(texts(copy@) =~= texts(fields@));
                WithPayload::Fields(copy)
            },
        }
    }
}

/// Where the queries come from: the columns that hold the expected results.
#[derive(Debug)]
pub struct QuerySource {
    pub ground_truth_column: Option<String>,
    pub ground_truth_score_column: Option<String>,
}

/// What is queried for.
#[derive(Debug)]
pub struct QueryConfig {
    /// Whether the queries are filtered.
    pub filtered: bool,
    /// The `knn_vector` field to search.
    pub vector_name: Option<String>,
    pub top_k: u64,
    /// The search-time tuning, if any is given: what it was read as, or why it could not be read.
    pub search_params: Option<Result<OpenSearchSearchParams, String>>,
    pub with_payload: WithPayload,
    pub source: QuerySource,
}

/// An error of the target.
#[derive(Debug)]
pub enum TargetError {
    Other(String),
}

impl View for TargetError {
    type V = Seq<char>;

    open spec fn view(&self) -> Seq<char> {
        match *self {
            TargetError::Other(m) => m@,
        }
    }
}

impl TargetError {
    /// The message of the error.
    pub fn message(&self) -> (r: &str)
        ensures
            r@ == self@,
    {
        match self {
            TargetError::Other(m) => m.as_str(),
        }
    }
}

/// An error with its causes as an error of the target.
pub fn to_other(e: &ErrorChain) -> (r: TargetError)
    ensures
        r@ == e@,
{
    TargetError::Other(flatten(e))
}

} // verus!
