//! The models that contracts speak of show what the values hold: nothing is lost or changed in them.
use crate::connection::{url_result, Connection, ConnectionView, Credentials, CredentialsView};
use crate::json::{Json, JsonNumber, JsonView, NumberView};
use crate::json_build::optional_view;
use crate::load::bulk::{upsert_result, BulkOperation, OperationView};
use crate::load::config::OpenSearchConfig;
use crate::load::convert::{name_result, optional_name_result};
use crate::load::error::{
    unit_result, ConfigErrorView, OpenSearchConfigError, StoreError, StoreErrorView,
};
use crate::load::fixed::Difference;
use crate::load::mapping::body_result;
use crate::load::reindex::reindex_result;
use crate::load::settle::{settle_result, SettleStep};
use crate::load::store::{
    connect_result, connected, enable_result, ensure_result, fresh_store, json_result, value_result,
    EnableStep, EnableStepView, EnsureStep, EnsureStepView, OpenSearchStore,
};
use crate::load::verify::{verify_result, VerifyStep};
use crate::storm::batch::{BatchOutcome, BatchStart, BatchStartView};
use crate::storm::config::{TargetError, WithPayload, WithPayloadView};
use crate::storm::profile::ScoringProfile;
use crate::storm::search::{QueryVector, QueryVectorView};
use crate::storm::target::{target_result, OpenSearchTarget, TargetView};
use crate::text::{option_text, or_empty, slice_text};
use vstd::prelude::*;
use vstd::string::*;

verus! {

/// A text that may be missing is shown as it is.
pub proof fn law_texts_are_shown_as_they_are(o: Option<String>, s: Option<&str>, t: Option<Seq<char>>)
    ensures
        o matches Some(x) ==> option_text(o) == Some(x@),
        o is None ==> option_text(o) is None,
        s matches Some(x) ==> slice_text(s) == Some(x@),
        s is None ==> slice_text(s) is None,
        t matches Some(x) ==> or_empty(t) == x,
        t is None ==> or_empty(t).len() == 0,
{
    reveal_strlit("");
}

/// A JSON value is shown as what it is: a number with its digits, an array with its items in their
/// order, an object with its members.
pub proof fn law_json_is_shown_as_it_is(j: Json)
    ensures
        match j {
            Json::Null => j@ is Null,
            Json::Bool(b) => j@ == JsonView::Bool(b),
            Json::Number(JsonNumber::PosInt(n)) => j@ == JsonView::Number(NumberView::PosInt(n)),
            Json::Number(JsonNumber::NegInt(n)) => j@ == JsonView::Number(NumberView::NegInt(n)),
            Json::Number(JsonNumber::Float(t)) => j@ == JsonView::Number(NumberView::Float(t@)),
            Json::Text(s) => j@ == JsonView::Text(s@),
            Json::Array(items) => j@ matches JsonView::Array(views) && views.len() == items@.len()
                && forall|i: int| 0 <= i < items@.len() ==> #[trigger] views[i] == items@[i]@,
            Json::Object(o) => j@ == JsonView::Object(o@),
        },
        optional_view(Some(j)) == Some(j@),
        optional_view(None) is None,
{
}

/// An error of the configuration is shown with the names and values that it is about.
pub proof fn law_configuration_errors_are_shown_as_they_are(e: OpenSearchConfigError)
    ensures
        match e {
            OpenSearchConfigError::MissingSize(n) => e@ == ConfigErrorView::MissingSize(n@),
            OpenSearchConfigError::UnknownDistance { name, value } => e@ == (
            ConfigErrorView::UnknownDistance { name: name@, value: value@ }),
            OpenSearchConfigError::UnknownDatatype { name, value } => e@ == (
            ConfigErrorView::UnknownDatatype { name: name@, value: value@ }),
            OpenSearchConfigError::Float16Datatype { name } => e@ == (
            ConfigErrorView::Float16Datatype { name: name@ }),
            OpenSearchConfigError::Uint8Datatype { name } => e@ == (ConfigErrorView::Uint8Datatype {
                name: name@,
            }),
            OpenSearchConfigError::UnsupportedVectorKind { name, kind } => e@ == (
            ConfigErrorView::UnsupportedVectorKind { name: name@, kind }),
            OpenSearchConfigError::UnknownMethodName(v) => e@ == ConfigErrorView::UnknownMethodName(
                v@,
            ),
            OpenSearchConfigError::UnknownEngine(v) => e@ == ConfigErrorView::UnknownEngine(v@),
            OpenSearchConfigError::UnknownMode(v) => e@ == ConfigErrorView::UnknownMode(v@),
            OpenSearchConfigError::UnknownCompressionLevel(v) => e@
                == ConfigErrorView::UnknownCompressionLevel(v@),
            OpenSearchConfigError::UnknownEncoder(v) => e@ == ConfigErrorView::UnknownEncoder(v@),
        },
{
}

/// An error of the store is shown with its status and its message.
pub proof fn law_store_errors_are_shown_as_they_are(e: StoreError)
    ensures
        match e {
            StoreError::OpenSearch { status, message } => e@ == (StoreErrorView::OpenSearch {
                status,
                message: message@,
            }),
            StoreError::Other(m) => e@ == StoreErrorView::Other(m@),
        },
        unit_result(Ok(())) is Ok,
        unit_result(Err(e)) == Err::<(), StoreErrorView>(e@),
{
}

/// The outcome of each step of the load backend is shown as it is: a value as its model, an error as
/// its own.
pub proof fn law_outcomes_of_steps_are_shown_as_they_are<T>(
    e: StoreError,
    c: OpenSearchConfigError,
    body: Json,
    value: T,
    settle: SettleStep,
    verify: VerifyStep,
)
    ensures
        body_result(Ok(body)) == Ok::<JsonView, ConfigErrorView>(body@),
        body_result(Err(c)) == Err::<JsonView, ConfigErrorView>(c@),
        json_result(Ok(&body)) == Ok::<JsonView, StoreErrorView>(body@),
        json_result(Err(e)) == Err::<JsonView, StoreErrorView>(e@),
        value_result(Ok::<T, StoreError>(value)) == Ok::<T, StoreErrorView>(value),
        value_result(Err::<T, StoreError>(e)) == Err::<T, StoreErrorView>(e@),
        settle_result(Ok(settle)) == Ok::<SettleStep, StoreErrorView>(settle),
        settle_result(Err(e)) == Err::<SettleStep, StoreErrorView>(e@),
        verify_result(Ok(verify)) == Ok::<VerifyStep, StoreErrorView>(verify),
        verify_result(Err(e)) == Err::<VerifyStep, StoreErrorView>(e@),
        reindex_result(Ok(Some(body))) == Ok::<Option<JsonView>, StoreErrorView>(Some(body@)),
        reindex_result(Ok(None)) == Ok::<Option<JsonView>, StoreErrorView>(None),
        reindex_result(Err(e)) == Err::<Option<JsonView>, StoreErrorView>(e@),
        ensure_result(Ok(EnsureStep::Done)) == Ok::<EnsureStepView, StoreErrorView>(
            EnsureStepView::Done,
        ),
        ensure_result(Ok(EnsureStep::Delete)) == Ok::<EnsureStepView, StoreErrorView>(
            EnsureStepView::Delete,
        ),
        ensure_result(Ok(EnsureStep::Create(body))) == Ok::<EnsureStepView, StoreErrorView>(
            EnsureStepView::Create(body@),
        ),
        ensure_result(Err(e)) == Err::<EnsureStepView, StoreErrorView>(e@),
        enable_result(Ok(EnableStep::PutSettings(body))) == Ok::<EnableStepView, StoreErrorView>(
            EnableStepView::PutSettings(body@),
        ),
        enable_result(Ok(EnableStep::Refresh)) == Ok::<EnableStepView, StoreErrorView>(
            EnableStepView::Refresh,
        ),
        enable_result(Ok(EnableStep::Done)) == Ok::<EnableStepView, StoreErrorView>(
            EnableStepView::Done,
        ),
        enable_result(Err(e)) == Err::<EnableStepView, StoreErrorView>(e@),
{
}

/// A merge request is shown with its path and its two options.
pub proof fn law_merge_requests_are_shown_as_they_are(step: EnableStep)
    ensures
        step matches EnableStep::ForceMerge(m) ==> enable_result(Ok(step)) == Ok::<
            EnableStepView,
            StoreErrorView,
        >(
            EnableStepView::ForceMerge {
                path: m.path@,
                max_num_segments: m.max_num_segments@,
                wait_for_completion: m.wait_for_completion@,
            },
        ),
{
}

/// A name that was looked up is shown as it is, and so is the error where there is none.
pub proof fn law_names_are_shown_as_they_are(name: &'static str, e: OpenSearchConfigError)
    ensures
        name_result(Ok(name)) == Ok::<Seq<char>, ConfigErrorView>(name@),
        name_result(Err(e)) == Err::<Seq<char>, ConfigErrorView>(e@),
        optional_name_result(Ok(Some(name))) == Ok::<Option<Seq<char>>, ConfigErrorView>(
            Some(name@),
        ),
        optional_name_result(Ok(None)) == Ok::<Option<Seq<char>>, ConfigErrorView>(None),
        optional_name_result(Err(e)) == Err::<Option<Seq<char>>, ConfigErrorView>(e@),
{
}

/// The documents of a bulk request are shown in their order, each with its id and its text.
pub proof fn law_documents_are_shown_as_they_are(
    r: Result<Option<Vec<BulkOperation>>, StoreError>,
)
    ensures
        match r {
            Ok(Some(ops)) => upsert_result(r) matches Ok(Some(views)) && views.len() == ops@.len()
                && forall|i: int|
                0 <= i < ops@.len() ==> (#[trigger] views[i]).id == ops@[i].id@ && views[i].document
                    == ops@[i].document@,
            Ok(None) => upsert_result(r) == Ok::<Option<Seq<OperationView>>, StoreErrorView>(None),
            Err(e) => upsert_result(r) == Err::<Option<Seq<OperationView>>, StoreErrorView>(e@),
        },
{
}

/// An attribute that differs is shown with its name and both values.
pub proof fn law_differences_are_shown_as_they_are(d: Difference)
    ensures
        d@.knob == d.knob@,
        d@.want == d.want@,
        d@.got == d.got@,
{
}

/// A connection is shown with its URL, its credentials and its options.
pub proof fn law_connections_are_shown_as_they_are(
    c: Connection,
    url: Result<String, String>,
)
    ensures
        c@.url == c.url@,
        c@.timeout_s == c.timeout_s,
        c@.tls_insecure == c.tls_insecure,
        match c.credentials {
            None => c@.credentials is None,
            Some(Credentials::Bearer(t)) => c@.credentials == Some(CredentialsView::Bearer(t@)),
            Some(Credentials::Basic(u, p)) => c@.credentials == Some(
                CredentialsView::Basic(u@, p@),
            ),
        },
        match url {
            Ok(u) => url_result(url) == Ok::<Seq<char>, Seq<char>>(u@),
            Err(m) => url_result(url) == Err::<Seq<char>, Seq<char>>(m@),
        },
{
}

/// A store and its connection are made together, or there is the error.
pub proof fn law_what_connecting_gives(
    c: OpenSearchConfig,
    url: Result<Seq<char>, Seq<char>>,
    r: Result<(OpenSearchStore, Connection), StoreError>,
)
    requires
        connect_result(c, url, r),
    ensures
        r is Ok <==> url is Ok,
        r matches Ok((store, connection)) ==> {
            &&& fresh_store(c, store)
            &&& connected(c, url) == Ok::<ConnectionView, StoreErrorView>(connection@)
        },
        r matches Err(e) ==> connected(c, url) == Err::<ConnectionView, StoreErrorView>(e@),
{
}

/// A target is shown field by field.
pub proof fn law_targets_are_shown_as_they_are(t: OpenSearchTarget)
    ensures
        t@.index_name == t.index_name@,
        t@.vector_field == t.vector_field@,
        t@.top_k == t.top_k,
        t.method_parameters is None <==> t@.method_parameters is None,
        t.method_parameters matches Some(j) ==> t@.method_parameters == Some(j@),
        t.rescore is None <==> t@.rescore is None,
        t.rescore matches Some(j) ==> t@.rescore == Some(j@),
        t@.with_payload == t.with_payload@,
        t@.collect_ids == t.collect_ids,
        t@.collect_scores == t.collect_scores,
{
}

/// What comes of making a target is shown as it is.
pub proof fn law_what_making_a_target_gives(
    r: Result<(OpenSearchTarget, Connection), TargetError>,
)
    ensures
        r matches Ok((t, c)) ==> target_result(r) == Ok::<(TargetView, ConnectionView), Seq<char>>(
            (t@, c@),
        ),
        r matches Err(TargetError::Other(m)) ==> target_result(r) == Err::<
            (TargetView, ConnectionView),
            Seq<char>,
        >(m@),
{
}

/// What is returned of a hit is shown as it is, the fields in their order.
pub proof fn law_payloads_are_shown_as_they_are(w: WithPayload)
    ensures
        w matches WithPayload::Enable(b) ==> w@ == WithPayloadView::Enable(b),
        w matches WithPayload::Fields(f) ==> (w@ matches WithPayloadView::Fields(v) && v.len()
            == f@.len() && forall|i: int| 0 <= i < f@.len() ==> #[trigger] v[i] == f@[i]@),
{
}

/// A query is shown as the text of its vector.
pub proof fn law_queries_are_shown_as_they_are(q: QueryVector)
    ensures
        q matches QueryVector::Dense(t) ==> q@ == QueryVectorView::Dense(t@),
        q is Sparse ==> q@ is Sparse,
{
}

/// The outcome of a batch is shown as it is, query by query and hit by hit.
pub proof fn law_batches_are_shown_as_they_are(o: BatchOutcome)
    ensures
        o@.ok == o.ok,
        o@.timed_out == o.timed_out,
        o.error is None <==> o@.error is None,
        o.error matches Some(m) ==> o@.error == Some(m@),
        o@.ids.len() == o.ids@.len(),
        o@.scores.len() == o.scores@.len(),
        forall|i: int|
            0 <= i < o.ids@.len() ==> match #[trigger] o.ids@[i] {
                None => o@.ids[i] is None,
                Some(v) => o@.ids[i] matches Some(texts) && texts.len() == v@.len() && forall|
                    j: int,
                |
                    0 <= j < v@.len() ==> #[trigger] texts[j] == v@[j]@,
            },
        forall|i: int|
            0 <= i < o.scores@.len() ==> match #[trigger] o.scores@[i] {
                None => o@.scores[i] is None,
                Some(v) => o@.scores[i] matches Some(numbers) && numbers.len() == v@.len()
                    && forall|j: int| 0 <= j < v@.len() ==> #[trigger] numbers[j] == v@[j]@,
            },
{
}

/// What a batch starts with is shown as it is: the lines in their order, or the outcome.
pub proof fn law_starts_are_shown_as_they_are(s: BatchStart)
    ensures
        s matches BatchStart::Send(v) ==> (s@ matches BatchStartView::Send(texts) && texts.len()
            == v@.len() && forall|i: int| 0 <= i < v@.len() ==> #[trigger] texts[i] == v@[i]@),
        s matches BatchStart::Done(o) ==> s@ == BatchStartView::Done(o@),
{
}

/// A profile is shown as it is.
pub proof fn law_profiles_are_shown_as_they_are(p: ScoringProfile)
    ensures
        p.distance is None <==> p@.distance is None,
        p.distance matches Some(d) ==> p@.distance == Some(d@),
        p.datatype is None <==> p@.datatype is None,
        p.datatype matches Some(d) ==> p@.datatype == Some(d@),
        p@.quantized == p.quantized,
{
}

} // verus!
