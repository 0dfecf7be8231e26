//! The load backend against one index: what it sends, and what it makes of the replies.
use crate::connection::{
    credentials, index_label, is_success, label, parse_url, select_credentials, success, url_parsed,
    url_result, Connection, ConnectionView,
};
use crate::error_chain::ErrorChain;
use crate::field::{mapped_properties, properties_of};
use crate::json::{at, signed_of, Json, JsonNumber, JsonObject, JsonView, NumberView};
use crate::json_build::{put_json, single, single_json, text_json};
use crate::load::config::{CollectionSchema, OpenSearchConfig, OpenSearchParams, VectorSpec};
use crate::load::error::{
    check_status, checked, config_err, config_error_text, status_err, status_error, to_store_err,
    unit_result, ClientError, StoreError, StoreErrorView,
};
use crate::load::mapping::{build_create_index, create_index};
use crate::named::Named;
use crate::text::{around, option_text};
use vstd::prelude::*;
use vstd::string::*;

verus! {

/// A backend for one index. The client is held beside it.
#[derive(Debug)]
pub struct OpenSearchStore {
    pub index_name: String,
    pub params: OpenSearchParams,
    /// The vectors that indexing was last enabled or changed for, which the live mapping is
    /// checked against once indexing settles. While there are none, that half of the check is
    /// left out.
    pub expected_vectors: Named<VectorSpec>,
}

/// A reply of the server: the body where the status is a success, else its text.
pub struct Reply {
    pub status: u16,
    pub detail: String,
    pub body: Json,
}

/// What the transport of a configuration is built from, given its URL as parsed.
pub open spec fn connected(
    c: OpenSearchConfig,
    url: Result<Seq<char>, Seq<char>>,
) -> Result<ConnectionView, StoreErrorView> {
    match url {
        Ok(u) => Ok(
            ConnectionView {
                url: u,
                credentials: credentials(c.bearer_token, c.username, c.password),
                timeout_s: c.timeout_s,
                tls_insecure: c.tls_insecure,
            },
        ),
        Err(m) => Err(StoreErrorView::OpenSearch { status: None, message: m }),
    }
}

/// A store as it is made from a configuration.
pub open spec fn fresh_store(c: OpenSearchConfig, s: OpenSearchStore) -> bool {
    &&& s.index_name@ == c.index_name@
    &&& match c.params {
        Some(p) => s.params == p,
        None => s.params == no_params(),
    }
    &&& s.expected_vectors@.len() == 0
}

/// Index-wide knobs, none of which is set.
pub open spec fn no_params() -> OpenSearchParams {
    OpenSearchParams {
        shards: None,
        replicas: None,
        refresh_interval: None,
        ef_search: None,
        method: None,
        mode: None,
        compression_level: None,
        recreate: false,
    }
}

/// The store of a configuration and what its transport is built from.
pub open spec fn connect_result(
    c: OpenSearchConfig,
    url: Result<Seq<char>, Seq<char>>,
    r: Result<(OpenSearchStore, Connection), StoreError>,
) -> bool {
    match r {
        Ok((store, connection)) => {
            &&& fresh_store(c, store)
            &&& connected(c, url) == Ok::<ConnectionView, StoreErrorView>(connection@)
        },
        Err(e) => connected(c, url) == Err::<ConnectionView, StoreErrorView>(e@),
    }
}

impl OpenSearchConfig {
    /// Makes the store, and what the transport to the server is built from.
    pub fn connect(self) -> (r: Result<(OpenSearchStore, Connection), StoreError>)
        ensures
            connect_result(self, url_parsed(self.url@), r),
    {
        let url = parse_url(self.url.as_str());
        self.connect_to(url)
    }

    /// Makes the store from a URL that was parsed.
    pub fn connect_to(self, url: Result<String, String>) -> (r: Result<
        (OpenSearchStore, Connection),
        StoreError,
    >)
        ensures
            connect_result(self, url_result(url), r),
    {
        let credentials = select_credentials(self.bearer_token, self.username, self.password);
        let url = match url {
            Ok(u) => u,
            Err(message) => return Err(
                to_store_err(
                    &ClientError {
                        status: None,
                        chain: ErrorChain { message, sources: Vec::new() },
                    },
                ),
            ),
        };
        let params = match self.params {
            Some(p) => p,
            None => OpenSearchParams::default(),
        };
        Ok(
            (
                OpenSearchStore {
                    index_name: self.index_name,
                    params,
                    expected_vectors: Named::new(),
                },
                Connection {
                    url,
                    credentials,
                    timeout_s: self.timeout_s,
                    tls_insecure: self.tls_insecure,
                },
            ),
        )
    }
}

/// The path of the request that merges the segments of an index.
pub open spec fn force_merge_path(index: Seq<char>) -> Seq<char> {
    "/"@ + index + "/_forcemerge"@
}

/// The request that merges the segments of an index. It does not wait for the merge: the build of
/// the graph is waited for apart.
#[derive(Debug)]
pub struct ForceMerge {
    pub path: String,
    pub max_num_segments: &'static str,
    pub wait_for_completion: &'static str,
}

/// The number of merges that the response to a statistics request reports: that of the index, or
/// else that of the cluster, or else none.
pub open spec fn merges_of(body: JsonView, index: Seq<char>) -> i64 {
    let of_index = signed_of(
        at(at(at(at(at(body, "indices"@), index), "total"@), "merges"@), "current"@),
    );
    let of_all = signed_of(at(at(at(at(body, "_all"@), "total"@), "merges"@), "current"@));
    match (of_index, of_all) {
        (Some(n), _) => n,
        (None, Some(n)) => n,
        (None, None) => 0,
    }
}

/// The outcome of a step with a JSON value.
pub open spec fn json_result(r: Result<&Json, StoreError>) -> Result<JsonView, StoreErrorView> {
    match r {
        Ok(j) => Ok(j@),
        Err(e) => Err(e@),
    }
}

/// The value that a reply is read for, where its status is a success.
pub open spec fn read<T>(context: Seq<char>, reply: Reply, value: T) -> Result<T, StoreErrorView> {
    if success(reply.status) {
        Ok(value)
    } else {
        Err(status_error(context, reply.status, reply.detail@))
    }
}

/// The settings in the response to a settings request for an index.
pub open spec fn settings_of(body: JsonView, index: Seq<char>) -> JsonView {
    at(at(at(body, index), "settings"@), "index"@)
}

/// What the reply to the deletion of an index says: that there is none is fine.
pub open spec fn deleted(reply: Reply) -> Result<(), StoreErrorView> {
    if reply.status == 404 {
        Ok(())
    } else {
        checked("delete index"@, reply.status, reply.detail@)
    }
}

/// Whether the reply to a probe for a document says that it is there.
pub open spec fn document_found(reply: Reply) -> Result<bool, StoreErrorView> {
    if reply.status == 404 {
        Ok(false)
    } else {
        read("document exists probe"@, reply, true)
    }
}

/// The outcome of a step with a plain value.
pub open spec fn value_result<T>(r: Result<T, StoreError>) -> Result<T, StoreErrorView> {
    match r {
        Ok(v) => Ok(v),
        Err(e) => Err(e@),
    }
}

impl OpenSearchStore {
    /// The index.
    pub fn index(&self) -> (r: &str)
        ensures
            r@ == self.index_name@,
    {
        self.index_name.as_str()
    }

    /// The name of the store in messages.
    pub fn label(&self) -> (r: String)
        ensures
            r@ == label(self.index_name@),
    {
        index_label(self.index())
    }

    /// Reads the reply to a change of settings.
    pub fn put_settings(&self, reply: &Reply) -> (r: Result<(), StoreError>)
        ensures
            unit_result(r) == checked("put settings"@, reply.status, reply.detail@),
    {
        check_status("put settings", reply.status, reply.detail.as_str())
    }

    /// Reads the reply to a refresh, which makes new documents searchable.
    pub fn refresh(&self, reply: &Reply) -> (r: Result<(), StoreError>)
        ensures
            unit_result(r) == checked("refresh"@, reply.status, reply.detail@),
    {
        check_status("refresh", reply.status, reply.detail.as_str())
    }

    /// The request for a merge to a single segment. The merge is what builds the graph of the
    /// segments that were written while building was put off.
    pub fn force_merge_request(&self) -> (r: ForceMerge)
        ensures
            r.path@ == force_merge_path(self.index_name@),
            r.max_num_segments@ == "1"@,
            r.wait_for_completion@ == "false"@,
    {
        ForceMerge {
            path: around("/", self.index(), "/_forcemerge"),
            max_num_segments: "1",
            wait_for_completion: "false",
        }
    }

    /// Reads the reply to a merge request.
    pub fn force_merge(&self, reply: &Reply) -> (r: Result<(), StoreError>)
        ensures
            unit_result(r) == checked("force merge"@, reply.status, reply.detail@),
    {
        check_status("force merge", reply.status, reply.detail.as_str())
    }

    /// The number of merges that run on the index now. The graph is written as segments are
    /// written and rewritten as they merge, so that no merge running means no building.
    pub fn merges_current(&self, reply: &Reply) -> (r: Result<i64, StoreError>)
        ensures
            value_result(r) == read(
                "merge stats"@,
                *reply,
                merges_of(reply.body@, self.index_name@),
            ),
    {
        if !is_success(reply.status) {
            return Err(status_err("merge stats", reply.status, reply.detail.as_str()));
        }
        let total = reply.body.index("indices").index(self.index()).index("total");
        match total.index("merges").index("current").as_i64() {
            Some(n) => Ok(n),
            None => match reply.body.index("_all").index("total").index("merges").index(
                "current",
            ).as_i64() {
                Some(n) => Ok(n),
                None => Ok(0),
            },
        }
    }

    /// The live field mappings of the index.
    pub fn live_properties<'a>(&self, reply: &'a Reply) -> (r: Result<&'a Json, StoreError>)
        ensures
            json_result(r) == read(
                "get mapping"@,
                *reply,
                properties_of(reply.body@, self.index_name@),
            ),
    {
        if is_success(reply.status) {
            Ok(mapped_properties(&reply.body, self.index()))
        } else {
            Err(status_err("get mapping", reply.status, reply.detail.as_str()))
        }
    }

    /// The live settings of the index.
    pub fn live_settings<'a>(&self, reply: &'a Reply) -> (r: Result<&'a Json, StoreError>)
        ensures
            json_result(r) == read(
                "get settings"@,
                *reply,
                settings_of(reply.body@, self.index_name@),
            ),
    {
        if is_success(reply.status) {
            Ok(reply.body.index(self.index()).index("settings").index("index"))
        } else {
            Err(status_err("get settings", reply.status, reply.detail.as_str()))
        }
    }

    /// Reads the reply to the deletion of the index, for which it is fine that there is none.
    pub fn delete_collection(&self, reply: &Reply) -> (r: Result<(), StoreError>)
        ensures
            unit_result(r) == deleted(*reply),
    {
        if reply.status == 404 {
            Ok(())
        } else {
            check_status("delete index", reply.status, reply.detail.as_str())
        }
    }

    /// Reads the reply to a probe for a document.
    pub fn point_exists(&self, reply: &Reply) -> (r: Result<bool, StoreError>)
        ensures
            value_result(r) == document_found(*reply),
    {
        if reply.status == 404 {
            Ok(false)
        } else if is_success(reply.status) {
            Ok(true)
        } else {
            Err(status_err("document exists probe", reply.status, reply.detail.as_str()))
        }
    }

    /// Closes the store: there is nothing to do.
    pub fn close(&self) -> (r: Result<(), StoreError>)
        ensures
            r is Ok,
    {
        Ok(())
    }
}

/// What was seen while the index is made ready.
pub enum EnsureSeen {
    /// The reply to the probe for the index.
    Probed(Reply),
    /// The reply to its deletion.
    Deleted(Reply),
    /// The reply to its creation.
    Created(Reply),
}

/// What to do next to make the index ready.
#[derive(Debug)]
pub enum EnsureStep {
    Done,
    Delete,
    /// Create the index with this body.
    Create(Json),
}

/// The model of an `EnsureStep`.
pub enum EnsureStepView {
    Done,
    Delete,
    Create(JsonView),
}

impl View for EnsureStep {
    type V = EnsureStepView;

    open spec fn view(&self) -> EnsureStepView {
        match *self {
            EnsureStep::Done => EnsureStepView::Done,
            EnsureStep::Delete => EnsureStepView::Delete,
            EnsureStep::Create(body) => EnsureStepView::Create(body@),
        }
    }
}

/// The step that creates the index.
pub open spec fn create_step(params: OpenSearchParams, schema: CollectionSchema) -> Result<
    EnsureStepView,
    StoreErrorView,
> {
    match create_index(schema.vectors@, params, schema.dims@) {
        Ok(body) => Ok(EnsureStepView::Create(body)),
        Err(e) => Err(StoreErrorView::Other(config_error_text(e))),
    }
}

/// What creating an index is called in messages.
pub open spec fn create_context(index: Seq<char>) -> Seq<char> {
    "create index `"@ + index + "`"@
}

/// What follows what was seen: an index that exists is kept as it is, unless it is to be
/// recreated.
pub open spec fn ensure_next(
    index: Seq<char>,
    params: OpenSearchParams,
    schema: CollectionSchema,
    seen: EnsureSeen,
) -> Result<EnsureStepView, StoreErrorView> {
    match seen {
        EnsureSeen::Probed(reply) => if !success(reply.status) {
            create_step(params, schema)
        } else if params.recreate {
            Ok(EnsureStepView::Delete)
        } else {
            Ok(EnsureStepView::Done)
        },
        EnsureSeen::Deleted(reply) => if success(reply.status) {
            create_step(params, schema)
        } else {
            Err(status_error("delete index"@, reply.status, reply.detail@))
        },
        EnsureSeen::Created(reply) => read(create_context(index), reply, EnsureStepView::Done),
    }
}

/// The outcome of a step towards a ready index.
pub open spec fn ensure_result(r: Result<EnsureStep, StoreError>) -> Result<
    EnsureStepView,
    StoreErrorView,
> {
    match r {
        Ok(s) => Ok(s@),
        Err(e) => Err(e@),
    }
}

impl OpenSearchStore {
    fn create(&self, schema: &CollectionSchema) -> (r: Result<EnsureStep, StoreError>)
        ensures
            ensure_result(r) == create_step(self.params, *schema),
    {
        match build_create_index(&schema.vectors, &self.params, &schema.dims) {
            Ok(body) => Ok(EnsureStep::Create(body)),
            Err(e) => Err(config_err(&e)),
        }
    }

    /// Decides what to do next so that the index is there.
    pub fn ensure_collection(&self, schema: &CollectionSchema, seen: &EnsureSeen) -> (r: Result<
        EnsureStep,
        StoreError,
    >)
        ensures
            ensure_result(r) == ensure_next(self.index_name@, self.params, *schema, *seen),
    {
        match seen {
            EnsureSeen::Probed(reply) => if !is_success(reply.status) {
                self.create(schema)
            } else if self.params.recreate {
                Ok(EnsureStep::Delete)
            } else {
                Ok(EnsureStep::Done)
            },
            EnsureSeen::Deleted(reply) => if is_success(reply.status) {
                self.create(schema)
            } else {
                Err(status_err("delete index", reply.status, reply.detail.as_str()))
            },
            EnsureSeen::Created(reply) => if is_success(reply.status) {
                Ok(EnsureStep::Done)
            } else {
                let context = around("create index `", self.index(), "`");
                Err(status_err(context.as_str(), reply.status, reply.detail.as_str()))
            },
        }
    }
}

/// A change of the two settings that put off building: the threshold from which a graph is built,
/// and the interval in which new documents become searchable.
pub open spec fn deferral(threshold: NumberView, refresh: JsonView) -> JsonView {
    single(
        "index"@,
        JsonView::Object(
            Map::empty().insert(
                "knn.advanced.approximate_threshold"@,
                JsonView::Number(threshold),
            ).insert("refresh_interval"@, refresh),
        ),
    )
}

/// The settings during a load: no graph is built, nothing is refreshed.
pub open spec fn deferred() -> JsonView {
    deferral(NumberView::NegInt((-1) as i64), JsonView::Text("-1"@))
}

/// The settings after a load: graphs are always built, and the refresh interval is the configured
/// one, or null for the server's default.
pub open spec fn enabled(params: OpenSearchParams) -> JsonView {
    deferral(
        NumberView::PosInt(0),
        match option_text(params.refresh_interval) {
            Some(v) => JsonView::Text(v),
            None => JsonView::Null,
        },
    )
}

fn deferral_json(threshold: JsonNumber, refresh: Json) -> (r: Json)
    ensures
        r@ == deferral(threshold@, refresh@),
{
    let mut index = JsonObject::new();
    put_json(&mut index, "knn.advanced.approximate_threshold", Json::Number(threshold));
    put_json(&mut index, "refresh_interval", refresh);
    single_json("index", Json::Object(index))
}

/// What was seen while indexing is enabled.
pub enum EnableSeen {
    /// The load of this schema has ended.
    Loaded(CollectionSchema),
    /// The reply to the change of settings.
    SettingsPut(Reply),
    /// The reply to the refresh.
    Refreshed(Reply),
    /// The reply to the merge request.
    Merging(Reply),
}

/// What to do next to enable indexing.
#[derive(Debug)]
pub enum EnableStep {
    /// Change the settings with this body.
    PutSettings(Json),
    Refresh,
    ForceMerge(ForceMerge),
    Done,
}

/// The model of an `EnableStep`.
pub enum EnableStepView {
    PutSettings(JsonView),
    Refresh,
    ForceMerge { path: Seq<char>, max_num_segments: Seq<char>, wait_for_completion: Seq<char> },
    Done,
}

impl View for EnableStep {
    type V = EnableStepView;

    open spec fn view(&self) -> EnableStepView {
        match *self {
            EnableStep::PutSettings(body) => EnableStepView::PutSettings(body@),
            EnableStep::Refresh => EnableStepView::Refresh,
            EnableStep::ForceMerge(m) => EnableStepView::ForceMerge {
                path: m.path@,
                max_num_segments: m.max_num_segments@,
                wait_for_completion: m.wait_for_completion@,
            },
            EnableStep::Done => EnableStepView::Done,
        }
    }
}

/// What follows what was seen: the settings, then the refresh that publishes what was loaded,
/// then the merge that builds the graph. A failed step ends it.
pub open spec fn enable_next(
    index: Seq<char>,
    params: OpenSearchParams,
    seen: EnableSeen,
) -> Result<EnableStepView, StoreErrorView> {
    match seen {
        EnableSeen::Loaded(_) => Ok(EnableStepView::PutSettings(enabled(params))),
        EnableSeen::SettingsPut(reply) => read("put settings"@, reply, EnableStepView::Refresh),
        EnableSeen::Refreshed(reply) => read(
            "refresh"@,
            reply,
            EnableStepView::ForceMerge {
                path: force_merge_path(index),
                max_num_segments: "1"@,
                wait_for_completion: "false"@,
            },
        ),
        EnableSeen::Merging(reply) => read("force merge"@, reply, EnableStepView::Done),
    }
}

/// The outcome of a step towards enabled indexing.
pub open spec fn enable_result(r: Result<EnableStep, StoreError>) -> Result<
    EnableStepView,
    StoreErrorView,
> {
    match r {
        Ok(s) => Ok(s@),
        Err(e) => Err(e@),
    }
}

/// The vectors that are expected after what was seen.
pub open spec fn expected_after(
    expected: Seq<(String, VectorSpec)>,
    seen: EnableSeen,
) -> Seq<(String, VectorSpec)> {
    match seen {
        EnableSeen::Loaded(schema) => schema.vectors@,
        _ => expected,
    }
}

impl OpenSearchStore {
    /// The settings that put off building and refreshing during a load: the build of the graph
    /// becomes a phase of its own.
    pub fn defer_indexing(&self) -> (r: Json)
        ensures
            r@ == deferred(),
    {
        deferral_json(JsonNumber::NegInt(-1), text_json("-1"))
    }

    /// Decides what to do next to enable indexing after a load, and records the vectors that the
    /// mapping should have.
    pub fn enable_indexing(&mut self, seen: EnableSeen) -> (r: Result<EnableStep, StoreError>)
        ensures
            enable_result(r) == enable_next(old(self).index_name@, old(self).params, seen),
            final(self).expected_vectors@ == expected_after(old(self).expected_vectors@, seen),
            final(self).index_name == old(self).index_name,
            final(self).params == old(self).params,
    {
        match seen {
            EnableSeen::Loaded(schema) => {
                self.expected_vectors = schema.vectors;
                let refresh = match &self.params.refresh_interval {
                    Some(v) => text_json(v.as_str()),
                    None => Json::Null,
                };
                Ok(EnableStep::PutSettings(deferral_json(JsonNumber::PosInt(0), refresh)))
            },
            EnableSeen::SettingsPut(reply) => match self.put_settings(&reply) {
                Ok(()) => Ok(EnableStep::Refresh),
                Err(e) => Err(e),
            },
            EnableSeen::Refreshed(reply) => match self.refresh(&reply) {
                Ok(()) => Ok(EnableStep::ForceMerge(self.force_merge_request())),
                Err(e) => Err(e),
            },
            EnableSeen::Merging(reply) => match self.force_merge(&reply) {
                Ok(()) => Ok(EnableStep::Done),
                Err(e) => Err(e),
            },
        }
    }
}

} // verus!
