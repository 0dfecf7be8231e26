//! What holds of the query target as a whole.
use crate::connection::success;
use crate::error_chain::ErrorChain;
use crate::json::{array_of, at, Json, JsonView};
use crate::load::config::{OpenSearchParams, VectorSpec};
use crate::load::convert::{data_type, space_type};
use crate::load::error::ConfigErrorView;
use crate::load::laws::law_a_field_has_what_is_configured;
use crate::load::mapping::knn_field;
use crate::storm::batch::{
    all_hits, answered, batch_outcome, batch_start, hits_fault, item_hits, BatchStartView,
    FaultView, HitsView, MsearchReply, OutcomeView,
};
use crate::storm::config::{
    factor_in_range, rescore_value, OpenSearchConfig, QueryConfig, RescoreConfig,
};
use crate::storm::profile::{datatype_of, distance_of, field_profile};
use crate::storm::search::{header_text, lines, search_text, source_of, QueryVector};
use crate::storm::target::{factor_of, search_params_of, target_of, TargetView};
use crate::text::{ascii_lower, option_text};
use vstd::prelude::*;
use vstd::string::*;

verus! {

/// Every space that a distance is loaded with maps back to a distance, and that distance to the
/// same space.
pub proof fn law_spaces_map_back_to_distances(name: Seq<char>, value: Option<Seq<char>>)
    requires
        space_type(name, value) is Ok,
    ensures
        distance_of(space_type(name, value)->Ok_0) is Some,
        space_type(name, distance_of(space_type(name, value)->Ok_0)) == space_type(name, value),
{
    reveal_strlit("cosinesimil");
    reveal_strlit("innerproduct");
    reveal_strlit("l2");
    reveal_strlit("l1");
    reveal_strlit("cosine");
    reveal_strlit("dot");
    reveal_strlit("ip");
    reveal_strlit("euclid");
    reveal_strlit("euclidean");
    reveal_strlit("manhattan");
    assert("cosinesimil"@.len() == 11);
    assert("innerproduct"@.len() == 12);
    assert("l2"@.len() == 2);
    assert("l1"@.len() == 2);
    assert("l2"@[1] != "l1"@[1]);
    assert("cosine"@.len() == 6);
    assert("dot"@.len() == 3);
    assert("ip"@.len() == 2);
    assert("euclid"@.len() == 6);
    assert("euclid"@[0] != "cosine"@[0]);
    assert("euclidean"@.len() == 9);
    assert("manhattan"@.len() == 9);
    assert("manhattan"@[0] != "euclidean"@[0]);
    assert(ascii_lower("cosine"@) =~= "cosine"@);
    assert(ascii_lower("dot"@) =~= "dot"@);
    assert(ascii_lower("euclid"@) =~= "euclid"@);
    assert(ascii_lower("manhattan"@) =~= "manhattan"@);
}

/// A field that is loaded without a datatype, or with the 32-bit one, reads as 32-bit.
pub proof fn law_floats_read_as_floats(name: Seq<char>, value: Option<Seq<char>>)
    requires
        data_type(name, value) == Ok::<Option<Seq<char>>, ConfigErrorView>(None) || data_type(
            name,
            value,
        ) == Ok::<Option<Seq<char>>, ConfigErrorView>(Some("float"@)),
    ensures
        datatype_of(data_type(name, value)->Ok_0) == "float32"@,
{
}

/// A field as it is created scores with the distance that was configured for it.
pub proof fn law_a_created_field_scores_as_configured(
    name: Seq<char>,
    spec_: VectorSpec,
    params: OpenSearchParams,
    dims: Seq<(String, u64)>,
)
    requires
        knn_field(name, spec_, params, dims) is Ok,
    ensures
        ({
            let profile = field_profile(knn_field(name, spec_, params, dims)->Ok_0);
            &&& profile.distance is Some
            &&& space_type(name, profile.distance) == space_type(
                name,
                option_text(spec_.distance),
            )
            &&& profile.datatype == Some(
                datatype_of(data_type(name, option_text(spec_.datatype))->Ok_0),
            )
        }),
{
    law_a_field_has_what_is_configured(name, spec_, params, dims);
    law_spaces_map_back_to_distances(name, option_text(spec_.distance));
}

/// Rescoring that is turned off is off, whatever the factor.
pub proof fn law_off_wins_over_a_factor(rescore: RescoreConfig)
    requires
        rescore.enabled == Some(false),
    ensures
        rescore_value(rescore) == Some(JsonView::Bool(false)),
{
}

/// A target that is made asks for at least as many candidates as hits, and for a factor that the
/// server accepts, where it asks for them; and it is made for an unfiltered query of a field.
pub proof fn law_a_target_is_in_range(
    c: OpenSearchConfig,
    query: QueryConfig,
    url: Result<Seq<char>, Seq<char>>,
)
    requires
        target_of(c, query, url) is Ok,
    ensures
        !query.filtered,
        query.vector_name is Some,
        search_params_of(query) is Ok,
        search_params_of(query)->Ok_0.ef_search matches Some(ef) ==> ef >= query.top_k,
        factor_of(search_params_of(query)->Ok_0) matches Some(factor) ==> factor_in_range(
            factor.bits,
        ),
{
}

/// A request has two lines for each query, in the order of the queries: a header, then the
/// search.
pub proof fn law_lines_alternate(target: TargetView, queries: Seq<QueryVector>)
    ensures
        lines(target, queries) is Some <==> forall|i: int|
            0 <= i < queries.len() ==> #[trigger] queries[i] is Dense,
        lines(target, queries) matches Some(v) ==> {
            &&& v.len() == 2 * queries.len()
            &&& forall|i: int|
                0 <= i < queries.len() ==> {
                    &&& v[2 * i] == header_text(target.index_name)
                    &&& v[2 * i + 1] == search_text(
                        target,
                        (#[trigger] queries[i])->Dense_0@,
                        source_of(target.with_payload, target.vector_field),
                    )
                }
        },
    decreases queries.len(),
{
    if queries.len() > 0 {
        let rest = queries.drop_last();
        law_lines_alternate(target, rest);
        assert(queries.last() == queries[queries.len() - 1]);
        if lines(target, rest) is None {
            let i = choose|i: int| 0 <= i < rest.len() && !(#[trigger] rest[i] is Dense);
            assert(!(queries[i] is Dense));
        }
        if lines(target, queries) is Some {
            let v = lines(target, queries)->0;
            assert forall|i: int| 0 <= i < queries.len() implies {
                &&& v[2 * i] == header_text(target.index_name)
                &&& v[2 * i + 1] == search_text(
                    target,
                    (#[trigger] queries[i])->Dense_0@,
                    source_of(target.with_payload, target.vector_field),
                )
            } by {
                if i < rest.len() {
                    assert(rest[i] == queries[i]);
                }
            }
            assert forall|i: int| 0 <= i < queries.len() implies #[trigger] queries[i] is Dense by {
                if i < rest.len() {
                    assert(rest[i] is Dense);
                }
            }
        }
    }
}

proof fn lemma_all_hits(items: Seq<JsonView>, with_ids: bool, with_scores: bool)
    ensures
        all_hits(items, with_ids, with_scores) matches Ok(hits) ==> {
            &&& hits.len() == items.len()
            &&& forall|i: int|
                0 <= i < items.len() ==> item_hits(
                    i as nat,
                    #[trigger] items[i],
                    with_ids,
                    with_scores,
                ) == Ok::<HitsView, FaultView>(hits[i])
        },
    decreases items.len(),
{
    if items.len() > 0 {
        let rest = items.drop_last();
        lemma_all_hits(rest, with_ids, with_scores);
        if all_hits(items, with_ids, with_scores) is Ok {
            let hits = all_hits(items, with_ids, with_scores)->Ok_0;
            assert forall|i: int| 0 <= i < items.len() implies item_hits(
                i as nat,
                #[trigger] items[i],
                with_ids,
                with_scores,
            ) == Ok::<HitsView, FaultView>(hits[i]) by {
                if i < rest.len() {
                    assert(rest[i] == items[i]);
                }
            }
        }
    }
}

/// What an outcome for `n` queries looks like: an entry for each query; either all is well, or
/// there is an error and nothing else; with scores only beside ids, one for each id.
pub open spec fn aligned(outcome: OutcomeView, n: nat) -> bool {
    &&& outcome.ids.len() == n
    &&& outcome.scores.len() == n
    &&& outcome.ok <==> outcome.error is None
    &&& outcome.timed_out ==> !outcome.ok
    &&& !outcome.ok ==> forall|i: int|
        0 <= i < n ==> #[trigger] outcome.ids[i] is None && outcome.scores[i] is None
    &&& forall|i: int|
        0 <= i < n && #[trigger] outcome.scores[i] is Some ==> {
            &&& outcome.ids[i] is Some
            &&& outcome.ids[i]->0.len() == outcome.scores[i]->0.len()
        }
}

/// Every outcome is aligned with the queries.
pub proof fn law_outcomes_are_aligned(target: TargetView, n: nat, reply: MsearchReply)
    ensures
        aligned(batch_outcome(target, n, reply), n),
{
    match reply {
        MsearchReply::Answered { status, status_text, detail, body: Ok(b) } => {
            match array_of(at(b@, "responses"@)) {
                Some(items) => {
                    lemma_all_hits(items, target.collect_ids, target.collect_scores);
                    if all_hits(items, target.collect_ids, target.collect_scores) is Ok {
                        let hits = all_hits(
                            items,
                            target.collect_ids,
                            target.collect_scores,
                        )->Ok_0;
                        let outcome = answered(hits);
                        assert forall|i: int| 0 <= i < items.len() && #[trigger] outcome.scores[i]
                            is Some implies {
                            &&& outcome.ids[i] is Some
                            &&& outcome.ids[i]->0.len() == outcome.scores[i]->0.len()
                        } by {
                            assert(item_hits(
                                i as nat,
                                items[i],
                                target.collect_ids,
                                target.collect_scores,
                            ) == Ok::<HitsView, FaultView>(hits[i]));
                        }
                    }
                },
                None => {},
            }
        },
        _ => {},
    }
}

/// An outcome that is well has the ids of every query exactly if ids are collected, and the
/// scores exactly if both are.
pub proof fn law_what_is_collected_is_there(target: TargetView, n: nat, reply: MsearchReply, i: int)
    requires
        batch_outcome(target, n, reply).ok,
        0 <= i < n,
    ensures
        batch_outcome(target, n, reply).ids[i] is Some <==> target.collect_ids,
        batch_outcome(target, n, reply).scores[i] is Some <==> target.collect_ids
            && target.collect_scores,
{
    match reply {
        MsearchReply::Answered { status, status_text, detail, body: Ok(b) } => {
            let items = array_of(at(b@, "responses"@))->0;
            lemma_all_hits(items, target.collect_ids, target.collect_scores);
            let hits = all_hits(items, target.collect_ids, target.collect_scores)->Ok_0;
            assert(item_hits(i as nat, items[i], target.collect_ids, target.collect_scores) == Ok::<
                HitsView,
                FaultView,
            >(hits[i]));
        },
        _ => {},
    }
}

proof fn lemma_hits_fault_without_scores(i: nat, hits: Seq<JsonView>)
    requires
        hits_fault(i, hits, true) is None,
    ensures
        hits_fault(i, hits, false) is None,
    decreases hits.len(),
{
    if hits.len() > 0 {
        lemma_hits_fault_without_scores(i, hits.drop_last());
    }
}

proof fn lemma_hits_without_scores(items: Seq<JsonView>, with_ids: bool)
    requires
        all_hits(items, with_ids, true) is Ok,
    ensures
        all_hits(items, with_ids, false) is Ok,
        all_hits(items, with_ids, false)->Ok_0.len() == all_hits(items, with_ids, true)->Ok_0.len(),
        forall|i: int|
            0 <= i < items.len() ==> #[trigger] all_hits(items, with_ids, false)->Ok_0[i].ids
                == all_hits(items, with_ids, true)->Ok_0[i].ids,
    decreases items.len(),
{
    lemma_all_hits(items, with_ids, true);
    lemma_all_hits(items, with_ids, false);
    if items.len() > 0 {
        lemma_hits_without_scores(items.drop_last(), with_ids);
        let last = items.last();
        let i = (items.len() - 1) as nat;
        match array_of(at(at(last, "hits"@), "hits"@)) {
            Some(hits) => {
                if with_ids {
                    lemma_hits_fault_without_scores(i, hits);
                }
            },
            None => {},
        }
        lemma_all_hits(items.drop_last(), with_ids, true);
        lemma_all_hits(items.drop_last(), with_ids, false);
    }
}

/// Not collecting scores does not change the ids that are collected.
pub proof fn law_ids_do_not_depend_on_scores(target: TargetView, n: nat, reply: MsearchReply)
    requires
        batch_outcome(target, n, reply).ok,
    ensures
        batch_outcome(TargetView { collect_scores: false, ..target }, n, reply).ok,
        batch_outcome(TargetView { collect_scores: false, ..target }, n, reply).ids
            == batch_outcome(target, n, reply).ids,
{
    match reply {
        MsearchReply::Answered { status, status_text, detail, body: Ok(b) } => {
            let items = array_of(at(b@, "responses"@))->0;
            if target.collect_scores {
                lemma_hits_without_scores(items, target.collect_ids);
                lemma_all_hits(items, target.collect_ids, true);
                assert(batch_outcome(
                    TargetView { collect_scores: false, ..target },
                    n,
                    reply,
                ).ids =~= batch_outcome(target, n, reply).ids);
            }
        },
        _ => {},
    }
}

/// A batch that is not sent has an outcome that is aligned with its queries.
pub proof fn law_unsent_batches_are_aligned(target: TargetView, queries: Seq<QueryVector>)
    ensures
        batch_start(target, queries) matches BatchStartView::Done(outcome) ==> aligned(
            outcome,
            queries.len(),
        ),
{
}

/// A batch fails as a whole as soon as one item of the response is at fault: no recall is
/// measured against partial results.
pub proof fn law_a_faulty_item_fails_the_batch(
    target: TargetView,
    items: Seq<JsonView>,
    n: nat,
    reply: MsearchReply,
    i: int,
)
    requires
        reply matches MsearchReply::Answered { body: Ok(b), .. } && array_of(
            at(b@, "responses"@),
        ) == Some(items),
        0 <= i < items.len(),
        item_hits(i as nat, items[i], target.collect_ids, target.collect_scores) is Err,
    ensures
        !batch_outcome(target, n, reply).ok,
{
    lemma_all_hits(items, target.collect_ids, target.collect_scores);
}

/// Where the request fails, or the body of a success cannot be read, the batch fails with that
/// error, and for want of time exactly if that was a deadline of the client.
pub proof fn law_deadlines_are_told_apart(
    target: TargetView,
    n: nat,
    reply: MsearchReply,
    error: ErrorChain,
    timed_out: bool,
)
    requires
        reply == (MsearchReply::Unsent { error, timed_out }) || (reply matches
            MsearchReply::Answered { status, body, .. } && success(status) && body == Err::<
            Json,
            (ErrorChain, bool),
        >((error, timed_out))),
    ensures
        ({
            let outcome = batch_outcome(target, n, reply);
            &&& !outcome.ok
            &&& outcome.error == Some(error@)
            &&& outcome.timed_out == timed_out
        }),
{
}

} // verus!
