//! What a target is made of, what it sends, and what it reads of a live field.
use crate::connection::{credentials, ConnectionView};
use crate::json::{JsonView, NumberView};
use crate::json_build::single;
use crate::json_path::{below, member, wide_if};
use crate::json_text::{
    commas, json_quoted, json_text, law_plain_texts_are_quoted_as_they_are, lemma_ordered,
    member_text, member_texts, ordered,
};
use crate::storm::config::{
    rescore_value, shown, OpenSearchConfig, QueryConfig, RescoreConfig, WithPayloadView,
};
use crate::storm::profile::{datatype_of, distance_of, field_profile, profile_of, MappingReply};
use crate::storm::search::{header_text, search_text, source_of};
use crate::storm::target::{query_knobs, search_params_of, target_of, TargetView};
use crate::text::{decimal, lemma_text_order, text_before};
use crate::text_laws::{law_numbers_are_written_in_decimal, writes};
use vstd::prelude::*;
use vstd::string::*;

verus! {

/// The candidate-list size that a query asks for.
pub open spec fn ef_search_asked(query: QueryConfig) -> Option<u64> {
    match query.search_params {
        Some(Ok(params)) => params.ef_search,
        _ => None,
    }
}

/// The number of buckets that a query asks for.
pub open spec fn nprobes_asked(query: QueryConfig) -> Option<u64> {
    match query.search_params {
        Some(Ok(params)) => params.nprobes,
        _ => None,
    }
}

/// The rescoring that a query asks for.
pub open spec fn rescore_asked(query: QueryConfig) -> Option<RescoreConfig> {
    match query.search_params {
        Some(Ok(params)) => params.rescore,
        _ => None,
    }
}

/// These texts differ from each other.
proof fn lemma_parameter_keys()
    ensures
        "ef_search"@ != "nprobes"@,
{
    reveal_strlit("ef_search");
    reveal_strlit("nprobes");
    assert("ef_search"@.len() == 9);
    assert("nprobes"@.len() == 7);
}

/// A target has the candidate-list size and the number of buckets as method parameters, each exactly
/// if it is configured and whatever the other is; nothing else, and no parameters exactly if neither
/// is configured.
pub proof fn law_what_method_parameters_a_target_has(
    c: OpenSearchConfig,
    query: QueryConfig,
    url: Result<Seq<char>, Seq<char>>,
)
    ensures
        target_of(c, query, url) matches Ok((target, _)) ==> {
            &&& target.method_parameters is None <==> ef_search_asked(query) is None
                && nprobes_asked(query) is None
            &&& target.method_parameters matches Some(p) ==> {
                &&& p is Object
                &&& member(p, "ef_search"@) == wide_if(ef_search_asked(query))
                &&& member(p, "nprobes"@) == wide_if(nprobes_asked(query))
                &&& forall|k: Seq<char>| #[trigger]
                    member(p, k) is Some ==> k == "ef_search"@ || k == "nprobes"@
            }
        },
{
    lemma_parameter_keys();
    if target_of(c, query, url) is Ok {
        let params = search_params_of(query)->Ok_0;
        let knobs = query_knobs(params);
        if params.ef_search is Some {
            assert(knobs.dom().contains("ef_search"@));
        }
        if params.nprobes is Some {
            assert(knobs.dom().contains("nprobes"@));
        }
        if params.ef_search is None && params.nprobes is None {
            assert(knobs.dom() =~= Set::<Seq<char>>::empty());
        }
    }
}

/// Rescoring is left out where nothing of it is set. Turned off it is `false`, whatever the factor;
/// else a factor is an object that has it alone; and turned on without a factor it is `true`.
pub proof fn law_how_rescoring_is_asked_for(rescore: RescoreConfig)
    ensures
        rescore_value(rescore) is None <==> rescore.enabled is None && rescore.oversample_factor
            is None,
        rescore.enabled == Some(false) ==> rescore_value(rescore) == Some(JsonView::Bool(false)),
        rescore.enabled == Some(true) && rescore.oversample_factor is None ==> rescore_value(rescore)
            == Some(JsonView::Bool(true)),
        rescore.enabled != Some(false) ==> (rescore.oversample_factor matches Some(f) ==> (
        rescore_value(rescore) matches Some(v) && {
            &&& member(v, "oversample_factor"@) == Some(
                JsonView::Number(NumberView::Float(f.json@)),
            )
            &&& forall|k: Seq<char>| #[trigger] member(v, k) is Some ==> k == "oversample_factor"@
        })),
{
}

/// A target has everything else as it is configured: the index, the field and the number of hits;
/// the rescoring, where one is configured; what is returned of a hit; and ids and scores are
/// collected exactly if there is a column to hold them against. It reaches the server as configured.
pub proof fn law_what_a_target_is_made_of(
    c: OpenSearchConfig,
    query: QueryConfig,
    url: Result<Seq<char>, Seq<char>>,
)
    ensures
        target_of(c, query, url) matches Ok((target, connection)) ==> {
            &&& target.index_name == c.index_name@
            &&& query.vector_name matches Some(field) && target.vector_field == field@
            &&& target.top_k == query.top_k
            &&& rescore_asked(query) is None ==> target.rescore is None
            &&& rescore_asked(query) matches Some(r) ==> target.rescore == rescore_value(r)
            &&& target.with_payload == query.with_payload@
            &&& target.collect_ids <==> query.source.ground_truth_column is Some
            &&& target.collect_scores <==> query.source.ground_truth_score_column is Some
            &&& url == Ok::<Seq<char>, Seq<char>>(connection.url)
            &&& connection.timeout_s == c.timeout_s
            &&& connection.tls_insecure == c.tls_insecure
            &&& connection.credentials == credentials(c.bearer_token, c.username, c.password)
        },
{
}

/// What is shown of a configuration: everything but the secrets, and of those whether they are set.
pub proof fn law_what_is_shown_of_a_configuration(c: OpenSearchConfig)
    ensures
        *shown(c).url == c.url,
        *shown(c).username == c.username,
        *shown(c).index_name == c.index_name,
        shown(c).tls_insecure == c.tls_insecure,
        shown(c).timeout_s == c.timeout_s,
        c.password is Some ==> shown(c).password == Some("<redacted>"),
        c.password is None ==> shown(c).password is None,
        c.bearer_token is Some ==> shown(c).bearer_token == Some("<redacted>"),
        c.bearer_token is None ==> shown(c).bearer_token is None,
{
}

/// The factor that a query asks for is out of the range that the server accepts: the bits of a
/// double below 1 or above 100.
pub open spec fn factor_out_of_range(query: QueryConfig) -> bool {
    rescore_asked(query) matches Some(r) && (r.oversample_factor matches Some(f) && !(
    0x3FF0_0000_0000_0000 <= f.bits <= 0x4059_0000_0000_0000))
}

/// A target can be made exactly if the query is not filtered, names a field, has a tuning that could
/// be read, asks for at least as many candidates as hits and for a factor from 1 to 100, and the URL
/// can be parsed. The first of these that fails, in this order, is reported.
pub proof fn law_when_a_target_can_be_made(
    c: OpenSearchConfig,
    query: QueryConfig,
    url: Result<Seq<char>, Seq<char>>,
)
    ensures
        ({
            let made = target_of(c, query, url);
            let narrow = ef_search_asked(query) matches Some(ef) && ef < query.top_k;
            let readable = !(query.search_params matches Some(Err(_)));
            let named = !query.filtered && query.vector_name is Some;
            &&& made is Ok <==> named && readable && !narrow && !factor_out_of_range(query) && url
                is Ok
            &&& query.filtered ==> made == Err::<(TargetView, ConnectionView), Seq<char>>(
                "filters are not yet supported for the opensearch target"@,
            )
            &&& !query.filtered && query.vector_name is None ==> made == Err::<
                (TargetView, ConnectionView),
                Seq<char>,
            >(
                "opensearch target requires `query.vector_name` (the knn_vector field to search)"@,
            )
            &&& named ==> (query.search_params matches Some(Err(e)) ==> made == Err::<
                (TargetView, ConnectionView),
                Seq<char>,
            >("opensearch search_params: "@ + e@))
            &&& named && readable && narrow ==> made == Err::<(TargetView, ConnectionView), Seq<char>>(
                "opensearch ef_search ("@ + decimal(ef_search_asked(query)->0 as nat)
                    + ") must be >= top_k ("@ + decimal(query.top_k as nat) + ")"@,
            )
            &&& named && readable && !narrow && factor_out_of_range(query) ==> made == Err::<
                (TargetView, ConnectionView),
                Seq<char>,
            >(
                "opensearch rescore.oversample_factor ("@
                    + rescore_asked(query)->0.oversample_factor->0.display@
                    + ") must be in [1.0, 100.0]"@,
            )
            &&& named && readable && !narrow && !factor_out_of_range(query) ==> (url matches Err(e)
                ==> made == Err::<(TargetView, ConnectionView), Seq<char>>(e))
        }),
{
}

/// These texts differ from each other.
proof fn lemma_source_keys()
    ensures
        "excludes"@ != "includes"@,
{
    reveal_strlit("excludes");
    reveal_strlit("includes");
    assert("excludes"@.len() == 8);
    assert("includes"@.len() == 8);
    assert("excludes"@[0] != "includes"@[0]);
}

/// What is returned of a hit: all but the vector, nothing, or the fields that are named, in their
/// order.
pub proof fn law_what_is_returned_of_a_hit(with_payload: WithPayloadView, vector_field: Seq<char>)
    ensures
        with_payload == WithPayloadView::Enable(true) ==> {
            let source = source_of(with_payload, vector_field);
            &&& member(source, "excludes"@) matches Some(JsonView::Array(items)) && items.len() == 1
                && items[0] == JsonView::Text(vector_field)
            &&& forall|k: Seq<char>| #[trigger] member(source, k) is Some ==> k == "excludes"@
        },
        with_payload == WithPayloadView::Enable(false) ==> source_of(with_payload, vector_field)
            == JsonView::Bool(false),
        with_payload matches WithPayloadView::Fields(fields) ==> {
            let source = source_of(with_payload, vector_field);
            &&& member(source, "includes"@) matches Some(JsonView::Array(items)) && items.len()
                == fields.len() && forall|i: int|
                0 <= i < fields.len() ==> #[trigger] items[i] == JsonView::Text(fields[i])
            &&& forall|k: Seq<char>| #[trigger] member(source, k) is Some ==> k == "includes"@
        },
{
    lemma_source_keys();
}

/// An object with one member is written as its quoted key, a colon and its value, between braces.
proof fn lemma_single_text(key: Seq<char>, v: JsonView)
    ensures
        json_text(single(key, v)) == "{"@ + (json_quoted(key) + ":"@ + json_text(v)) + "}"@,
{
    let m = Map::<Seq<char>, JsonView>::empty().insert(key, v);
    let keys = ordered(m.dom());
    lemma_ordered(m.dom());
    assert(m.dom().contains(key));
    assert(keys.contains(key));
    assert(keys.len() == 1) by {
        lemma_text_order();
        if keys.len() > 1 {
            assert(keys.contains(keys[0]) && keys.contains(keys[1]));
            assert(text_before(keys[0], keys[1]));
        }
    }
    let texts = member_texts(JsonView::Object(m));
    assert(texts.len() == 1);
    assert(texts[0] == member_text(key, json_text(v)));
    assert(commas(texts) == texts[0]);
}

/// The line before a search is the JSON object that has the index alone.
pub proof fn law_the_line_before_a_search_names_the_index(index: Seq<char>)
    ensures
        header_text(index) == json_text(single("index"@, JsonView::Text(index))),
{
    lemma_single_text("index"@, JsonView::Text(index));
    reveal_strlit("index");
    reveal_strlit("\"");
    reveal_strlit("{");
    reveal_strlit(":");
    reveal_strlit("{\"index\":");
    law_plain_texts_are_quoted_as_they_are("index"@);
    assert("{\"index\":"@ =~= "{"@ + ("\""@ + "index"@ + "\""@) + ":"@);
    assert(header_text(index) =~= "{"@ + (json_quoted("index"@) + ":"@ + json_quoted(index))
        + "}"@);
}

/// A clause that may be left out.
pub open spec fn optional_clause(key: Seq<char>, value: Option<JsonView>) -> Seq<char> {
    match value {
        Some(v) => key + json_text(v),
        None => Seq::empty(),
    }
}

/// A search asks for the vector in the target's field, for as many neighbours and as many hits as
/// the target wants, both the same number, with the parameters and the rescoring of the target where
/// it has them, and for the given part of each hit.
pub proof fn law_what_a_search_says(target: TargetView, vector: Seq<char>, source: JsonView)
    ensures
        exists|k: Seq<char>| #[trigger]
            writes(k, target.top_k as nat) && search_text(target, vector, source)
                == "{\"query\":{\"knn\":{"@ + json_quoted(target.vector_field) + ":{\"vector\":"@ + vector
                + ",\"k\":"@ + k + optional_clause(
                ",\"method_parameters\":"@,
                target.method_parameters,
            ) + optional_clause(",\"rescore\":"@, target.rescore) + "}}},\"_source\":"@ + json_text(
                source,
            ) + ",\"size\":"@ + k + "}"@,
{
    let k = decimal(target.top_k as nat);
    law_numbers_are_written_in_decimal(target.top_k as nat);
    assert(writes(k, target.top_k as nat));
    reveal_strlit(":{\"vector\":");
    reveal_strlit(":");
    reveal_strlit("{\"vector\":");
    reveal_strlit("}}},\"_source\":");
    reveal_strlit("}");
    reveal_strlit("}},\"_source\":");
    assert(":{\"vector\":"@ =~= ":"@ + "{\"vector\":"@);
    assert("}}},\"_source\":"@ =~= "}"@ + "}},\"_source\":"@);
    let mp = optional_clause(",\"method_parameters\":"@, target.method_parameters);
    let rs = optional_clause(",\"rescore\":"@, target.rescore);
    assert(search_text(target, vector, source) =~= "{\"query\":{\"knn\":{"@ + json_quoted(
        target.vector_field,
    ) + ":{\"vector\":"@ + vector + ",\"k\":"@ + k + mp + rs + "}}},\"_source\":"@ + json_text(
        source,
    ) + ",\"size\":"@ + k + "}"@);
}

/// These texts differ from each other.
proof fn lemma_spaces()
    ensures
        "cosinesimil"@ != "innerproduct"@,
        "cosinesimil"@ != "l2"@,
        "cosinesimil"@ != "l1"@,
        "innerproduct"@ != "l2"@,
        "innerproduct"@ != "l1"@,
        "l2"@ != "l1"@,
{
    reveal_strlit("cosinesimil");
    reveal_strlit("innerproduct");
    reveal_strlit("l2");
    reveal_strlit("l1");
    assert("cosinesimil"@.len() == 11);
    assert("innerproduct"@.len() == 12);
    assert("l2"@.len() == 2);
    assert("l1"@.len() == 2);
    assert("l2"@[1] != "l1"@[1]);
}

/// These texts differ from each other.
proof fn lemma_data_types()
    ensures
        "float"@ != "byte"@,
{
    reveal_strlit("float");
    reveal_strlit("byte");
    assert("float"@.len() == 5);
    assert("byte"@.len() == 4);
}

/// Four spaces have a distance; no other has.
pub proof fn law_spaces_and_their_distances(space: Seq<char>)
    ensures
        space == "cosinesimil"@ ==> distance_of(space) == Some("cosine"@),
        space == "innerproduct"@ ==> distance_of(space) == Some("dot"@),
        space == "l2"@ ==> distance_of(space) == Some("euclid"@),
        space == "l1"@ ==> distance_of(space) == Some("manhattan"@),
        distance_of(space) is Some ==> space == "cosinesimil"@ || space == "innerproduct"@ || space
            == "l2"@ || space == "l1"@,
{
    lemma_spaces();
}

/// A field that reports no datatype, or `float`, holds 32-bit floats; `byte` is 8 bits; any other
/// datatype is not known.
pub proof fn law_datatypes_as_they_are_reported(t: Seq<char>)
    ensures
        datatype_of(None) == "float32"@,
        t == "float"@ ==> datatype_of(Some(t)) == "float32"@,
        t == "byte"@ ==> datatype_of(Some(t)) == "uint8"@,
        t != "float"@ && t != "byte"@ ==> datatype_of(Some(t)) == "unknown"@,
{
    lemma_data_types();
}

/// What is read of a live field: the distance of its space, found at the top level or else inside
/// its method; its datatype; and it is quantized exactly if its encoder is `sq` or `pq`, or it has a
/// compression level other than `1x`.
pub proof fn law_how_a_live_field_scores(field: JsonView)
    requires
        !(field is Null),
    ensures
        ({
            let profile = field_profile(field);
            let encoder = below(
                below(below(member(field, "method"@), "parameters"@), "encoder"@),
                "name"@,
            );
            let level = member(field, "compression_level"@);
            let inner = below(member(field, "method"@), "space_type"@);
            &&& match member(field, "space_type"@) {
                Some(JsonView::Text(s)) => profile.distance == distance_of(s),
                _ => match inner {
                    Some(JsonView::Text(s)) => profile.distance == distance_of(s),
                    _ => profile.distance is None,
                },
            }
            &&& match member(field, "data_type"@) {
                Some(JsonView::Text(t)) => profile.datatype == Some(datatype_of(Some(t))),
                _ => profile.datatype == Some("float32"@),
            }
            &&& profile.quantized <==> {
                ||| encoder == Some(JsonView::Text("sq"@))
                ||| encoder == Some(JsonView::Text("pq"@))
                ||| (level matches Some(JsonView::Text(l)) && l != "1x"@)
            }
        }),
{
}

/// How an index scores is read from the target's own field of the target's own index, in a reply
/// with a success, from 200 to 299, and a body; else nothing is known.
pub proof fn law_where_the_score_is_read(
    index: Seq<char>,
    vector_field: Seq<char>,
    reply: Option<MappingReply>,
)
    ensures
        ({
            let profile = profile_of(index, vector_field, reply);
            let unknown = profile.distance is None && profile.datatype is None
                && !profile.quantized;
            match reply {
                Some(MappingReply { status, body: Some(b) }) => match below(
                    below(below(member(b@, index), "mappings"@), "properties"@),
                    vector_field,
                ) {
                    Some(field) => {
                        &&& 200 <= status <= 299 && !(field is Null) ==> profile == field_profile(
                            field,
                        )
                        &&& !(200 <= status <= 299) || field is Null ==> unknown
                    },
                    None => unknown,
                },
                _ => unknown,
            }
        }),
{
}

} // verus!
