//! The target: what the configuration makes of every query.
use crate::connection::{
    credentials, index_label, label, parse_url, select_credentials, url_parsed, url_result,
    Connection, ConnectionView,
};
use crate::error_chain::ErrorChain;
use crate::json::{Json, JsonObject, JsonView};
use crate::json_build::{
    nonempty, number, number_json, object_knob, optional_view, put, put_json, Members,
};
use crate::storm::config::{
    factor_in_range, no_search_params, rescore_json, rescore_value, to_other, OpenSearchConfig,
    OpenSearchSearchParams, OversampleFactor, QueryConfig, TargetError, WithPayload,
    WithPayloadView,
};
use crate::text::{around, around_two, decimal, decimal_text};
use vstd::prelude::*;
use vstd::string::*;

verus! {

/// A target: one field of one index, with the knobs of every query built once. The client is held
/// beside it.
#[derive(Debug)]
pub struct OpenSearchTarget {
    pub index_name: String,
    pub vector_field: String,
    pub top_k: u64,
    /// The `method_parameters` of every query; none leaves them to the index.
    pub method_parameters: Option<Json>,
    /// The `rescore` clause of every query; none leaves it out.
    pub rescore: Option<Json>,
    pub with_payload: WithPayload,
    /// Whether the ids of hits are collected.
    pub collect_ids: bool,
    /// Whether the scores of hits are collected with the ids.
    pub collect_scores: bool,
}

/// The model of an `OpenSearchTarget`.
pub struct TargetView {
    pub index_name: Seq<char>,
    pub vector_field: Seq<char>,
    pub top_k: u64,
    pub method_parameters: Option<JsonView>,
    pub rescore: Option<JsonView>,
    pub with_payload: WithPayloadView,
    pub collect_ids: bool,
    pub collect_scores: bool,
}

impl View for OpenSearchTarget {
    type V = TargetView;

    open spec fn view(&self) -> TargetView {
        TargetView {
            index_name: self.index_name@,
            vector_field: self.vector_field@,
            top_k: self.top_k,
            method_parameters: optional_view(self.method_parameters),
            rescore: optional_view(self.rescore),
            with_payload: self.with_payload@,
            collect_ids: self.collect_ids,
            collect_scores: self.collect_scores,
        }
    }
}

/// The search-time tuning of a query, or what is wrong with it.
pub open spec fn search_params_of(query: QueryConfig) -> Result<
    OpenSearchSearchParams,
    Seq<char>,
> {
    match query.search_params {
        None => Ok(no_search_params()),
        Some(Ok(params)) => Ok(params),
        Some(Err(e)) => Err("opensearch search_params: "@ + e@),
    }
}

/// The factor of a tuning, if it has one.
pub open spec fn factor_of(params: OpenSearchSearchParams) -> Option<OversampleFactor> {
    match params.rescore {
        Some(rescore) => rescore.oversample_factor,
        None => None,
    }
}

/// What is wrong with a tuning, if anything is: a candidate list shorter than the number of hits
/// that are asked for, or a factor that the server does not accept.
pub open spec fn params_fault(params: OpenSearchSearchParams, top_k: u64) -> Option<Seq<char>> {
    if params.ef_search matches Some(ef) && ef < top_k {
        Some(
            "opensearch ef_search ("@ + decimal(params.ef_search->0 as nat)
                + ") must be >= top_k ("@ + decimal(top_k as nat) + ")"@,
        )
    } else {
        match factor_of(params) {
            Some(factor) => if factor_in_range(factor.bits) {
                None
            } else {
                Some(
                    "opensearch rescore.oversample_factor ("@ + factor.display@
                        + ") must be in [1.0, 100.0]"@,
                )
            },
            None => None,
        }
    }
}

/// The field and the tuning of a query, or what is wrong with it. Of several faults the first is
/// reported in the order: filter, field, unreadable tuning, tuning out of range.
pub open spec fn query_checked(query: QueryConfig) -> Result<
    (Seq<char>, OpenSearchSearchParams),
    Seq<char>,
> {
    if query.filtered {
        Err("filters are not yet supported for the opensearch target"@)
    } else {
        match query.vector_name {
            None => Err(
                "opensearch target requires `query.vector_name` (the knn_vector field to search)"@,
            ),
            Some(field) => match search_params_of(query) {
                Err(e) => Err(e),
                Ok(params) => match params_fault(params, query.top_k) {
                    Some(fault) => Err(fault),
                    None => Ok((field@, params)),
                },
            },
        }
    }
}

/// A number as an optional JSON value.
pub open spec fn wide_knob(o: Option<u64>) -> Option<JsonView> {
    match o {
        Some(n) => Some(number(n)),
        None => None,
    }
}

/// The knobs of the method that are set.
pub open spec fn query_knobs(params: OpenSearchSearchParams) -> Members {
    put(
        put(Map::empty(), "ef_search"@, wide_knob(params.ef_search)),
        "nprobes"@,
        wide_knob(params.nprobes),
    )
}

/// The `rescore` clause of a tuning.
pub open spec fn rescore_of(params: OpenSearchSearchParams) -> Option<JsonView> {
    match params.rescore {
        Some(rescore) => rescore_value(rescore),
        None => None,
    }
}

/// The target of a configuration and a query, or what is wrong with them. The URL is looked at
/// only where the query is in order.
pub open spec fn target_of(
    c: OpenSearchConfig,
    query: QueryConfig,
    url: Result<Seq<char>, Seq<char>>,
) -> Result<(TargetView, ConnectionView), Seq<char>> {
    match query_checked(query) {
        Err(e) => Err(e),
        Ok((field, params)) => match url {
            Err(e) => Err(e),
            Ok(u) => Ok(
                (
                    TargetView {
                        index_name: c.index_name@,
                        vector_field: field,
                        top_k: query.top_k,
                        method_parameters: object_knob(query_knobs(params)),
                        rescore: rescore_of(params),
                        with_payload: query.with_payload@,
                        collect_ids: query.source.ground_truth_column is Some,
                        collect_scores: query.source.ground_truth_score_column is Some,
                    },
                    ConnectionView {
                        url: u,
                        credentials: credentials(c.bearer_token, c.username, c.password),
                        timeout_s: c.timeout_s,
                        tls_insecure: c.tls_insecure,
                    },
                ),
            ),
        },
    }
}

/// The outcome of making a target.
pub open spec fn target_result(r: Result<(OpenSearchTarget, Connection), TargetError>) -> Result<
    (TargetView, ConnectionView),
    Seq<char>,
> {
    match r {
        Ok((target, connection)) => Ok((target@, connection@)),
        Err(e) => Err(e@),
    }
}

fn fault_of(params: &OpenSearchSearchParams, top_k: u64) -> (r: Option<String>)
    ensures
        match r {
            Some(m) => params_fault(*params, top_k) == Some(m@),
            None => params_fault(*params, top_k) is None,
        },
{
    match params.ef_search {
        Some(ef) => {
            if ef < top_k {
                let ef_text = decimal_text(ef);
                let k_text = decimal_text(top_k);
                return Some(
                    around_two(
                        "opensearch ef_search (",
                        ef_text.as_str(),
                        ") must be >= top_k (",
                        k_text.as_str(),
                        ")",
                    ),
                );
            }
        },
        None => {},
    }
    match &params.rescore {
        Some(rescore) => match &rescore.oversample_factor {
            Some(factor) => if factor.in_range() {
                None
            } else {
                Some(
                    around(
                        "opensearch rescore.oversample_factor (",
                        factor.display.as_str(),
                        ") must be in [1.0, 100.0]",
                    ),
                )
            },
            None => None,
        },
        None => None,
    }
}

fn put_wide(o: &mut JsonObject, key: &str, value: Option<u64>)
    ensures
        final(o)@ == put(old(o)@, key@, wide_knob(value)),
{
    match value {
        Some(n) => put_json(o, key, number_json(n)),
        None => {},
    }
}

fn built_parameters(params: &OpenSearchSearchParams) -> (r: Option<Json>)
    ensures
        optional_view(r) == object_knob(query_knobs(*params)),
{
    let mut knobs = JsonObject::new();
    put_wide(&mut knobs, "ef_search", params.ef_search);
    put_wide(&mut knobs, "nprobes", params.nprobes);
    nonempty(knobs)
}

fn built_rescore(params: &OpenSearchSearchParams) -> (r: Option<Json>)
    ensures
        optional_view(r) == rescore_of(*params),
{
    match &params.rescore {
        Some(rescore) => rescore_json(rescore),
        None => None,
    }
}

impl OpenSearchConfig {
    /// Makes the target, and what the transport to the server is built from. What cannot work is
    /// refused here, rather than by every query of a run.
    pub fn into_target(self, query: &QueryConfig) -> (r: Result<
        (OpenSearchTarget, Connection),
        TargetError,
    >)
        ensures
            target_result(r) == target_of(self, *query, url_parsed(self.url@)),
    {
        let url = parse_url(self.url.as_str());
        self.into_target_at(query, url)
    }

    /// Makes the target from a URL that was parsed.
    pub fn into_target_at(self, query: &QueryConfig, url: Result<String, String>) -> (r: Result<
        (OpenSearchTarget, Connection),
        TargetError,
    >)
        ensures
            target_result(r) == target_of(self, *query, url_result(url)),
    {
        if query.filtered {
            return Err(
                TargetError::Other(
                    "filters are not yet supported for the opensearch target".to_owned(),
                ),
            );
        }
        let vector_field = match &query.vector_name {
            Some(field) => field.clone(),
            None => return Err(
                TargetError::Other(
                    "opensearch target requires `query.vector_name` (the knn_vector field to search)".to_owned(),
                ),
            ),
        };
        let unset = OpenSearchSearchParams::default();
        let params = match &query.search_params {
            None => &unset,
            Some(Ok(params)) => params,
            Some(Err(e)) => {
                let mut m = "opensearch search_params: ".to_owned();
                m.append(e.as_str());
                return Err(TargetError::Other(m));
            },
        };
        match fault_of(params, query.top_k) {
            Some(m) => return Err(TargetError::Other(m)),
            None => {},
        }
        let url = match url {
            Ok(u) => u,
            Err(message) => return Err(to_other(&ErrorChain { message, sources: Vec::new() })),
        };
        let target = OpenSearchTarget {
            index_name: self.index_name,
            vector_field,
            top_k: query.top_k,
            method_parameters: built_parameters(params),
            rescore: built_rescore(params),
            with_payload: query.with_payload.copied(),
            collect_ids: query.source.ground_truth_column.is_some(),
            collect_scores: query.source.ground_truth_score_column.is_some(),
        };
        let connection = Connection {
            url,
            credentials: select_credentials(self.bearer_token, self.username, self.password),
            timeout_s: self.timeout_s,
            tls_insecure: self.tls_insecure,
        };
        Ok((target, connection))
    }
}

impl OpenSearchTarget {
    /// The name of the target in messages.
    pub fn label(&self) -> (r: String)
        ensures
            r@ == label(self.index_name@),
    {
        index_label(self.index_name.as_str())
    }

    /// Turns the collection of scores off: it happens while latency is measured. Ids are still
    /// collected.
    pub fn disable_score_collection(&mut self)
        ensures
            final(self)@ == (TargetView { collect_scores: false, ..old(self)@ }),
    {
        self.collect_scores = false;
    }
}

} // verus!
