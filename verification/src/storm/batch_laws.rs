//! What the outcome of a batch says of the reply, stated on the reply's JSON.
use crate::json::{JsonView, NumberView};
use crate::json_path::{member, under, unsigned};
use crate::json_text::json_text;
use crate::storm::batch::{
    all_hits, batch_outcome, batch_start, hit_fault, hits_fault, item_hits, BatchStartView,
    FaultView, HitsView, MsearchReply, OutcomeView,
};
use crate::storm::laws::law_lines_alternate;
use crate::storm::search::{lines, QueryVector};
use crate::storm::target::TargetView;
use crate::text::decimal;
use vstd::prelude::*;

verus! {

/// A hit has what is collected of it: a text as its id and, where scores are collected, a number as
/// its score.
pub open spec fn hit_whole(hit: JsonView, with_scores: bool) -> bool {
    &&& member(hit, "_id"@) matches Some(JsonView::Text(_))
    &&& with_scores ==> (member(hit, "_score"@) matches Some(JsonView::Number(_)))
}

/// An item of a reply is whole: it has no error, has not timed out, no shard has failed, and it has
/// an array of hits, which have what is collected of them.
pub open spec fn item_whole(item: JsonView, with_ids: bool, with_scores: bool) -> bool {
    &&& member(item, "error"@) is None || member(item, "error"@) == Some(JsonView::Null)
    &&& member(item, "timed_out"@) != Some(JsonView::Bool(true))
    &&& under(item, "_shards"@, "failed"@) matches Some(JsonView::Number(NumberView::PosInt(n)))
        ==> n == 0
    &&& under(item, "hits"@, "hits"@) matches Some(JsonView::Array(hits)) && (with_ids
        ==> forall|j: int| 0 <= j < hits.len() ==> hit_whole(#[trigger] hits[j], with_scores))
}

proof fn lemma_hits_whole(i: nat, hits: Seq<JsonView>, with_scores: bool)
    ensures
        hits_fault(i, hits, with_scores) is None <==> forall|j: int|
            0 <= j < hits.len() ==> hit_whole(#[trigger] hits[j], with_scores),
    decreases hits.len(),
{
    if hits.len() > 0 {
        let rest = hits.drop_last();
        lemma_hits_whole(i, rest, with_scores);
        assert(hits[hits.len() - 1] == hits.last());
        if hits_fault(i, hits, with_scores) is None {
            assert forall|j: int| 0 <= j < hits.len() implies hit_whole(
                #[trigger] hits[j],
                with_scores,
            ) by {
                if j < rest.len() {
                    assert(hit_whole(rest[j], with_scores));
                }
            }
        } else if hits_fault(i, rest, with_scores) is Some {
            let j = choose|j: int|
                0 <= j < rest.len() && !hit_whole(#[trigger] rest[j], with_scores);
            assert(hits[j] == rest[j]);
        }
    }
}

proof fn lemma_item_whole(i: nat, item: JsonView, with_ids: bool, with_scores: bool)
    ensures
        item_hits(i, item, with_ids, with_scores) is Ok <==> item_whole(
            item,
            with_ids,
            with_scores,
        ),
{
    match under(item, "hits"@, "hits"@) {
        Some(JsonView::Array(hits)) => {
            lemma_hits_whole(i, hits, with_scores);
        },
        _ => {},
    }
}

/// The hits of all items can be read exactly if all items are whole; then they are read item by
/// item, else the first item that is not whole is the fault.
proof fn lemma_all_whole(items: Seq<JsonView>, with_ids: bool, with_scores: bool)
    ensures
        all_hits(items, with_ids, with_scores) is Ok <==> forall|i: int|
            0 <= i < items.len() ==> item_whole(#[trigger] items[i], with_ids, with_scores),
        all_hits(items, with_ids, with_scores) matches Ok(hits) ==> {
            &&& hits.len() == items.len()
            &&& forall|i: int|
                0 <= i < items.len() ==> item_hits(
                    i as nat,
                    #[trigger] items[i],
                    with_ids,
                    with_scores,
                ) == Ok::<HitsView, FaultView>(hits[i])
        },
    decreases items.len(),
{
    if items.len() > 0 {
        let rest = items.drop_last();
        let last = items.last();
        lemma_all_whole(rest, with_ids, with_scores);
        lemma_item_whole((items.len() - 1) as nat, last, with_ids, with_scores);
        assert(items[items.len() - 1] == last);
        if all_hits(items, with_ids, with_scores) is Ok {
            let hits = all_hits(items, with_ids, with_scores)->Ok_0;
            assert forall|i: int| 0 <= i < items.len() implies item_hits(
                i as nat,
                #[trigger] items[i],
                with_ids,
                with_scores,
            ) == Ok::<HitsView, FaultView>(hits[i]) && item_whole(
                items[i],
                with_ids,
                with_scores,
            ) by {
                if i < rest.len() {
                    assert(rest[i] == items[i]);
                }
            }
        } else if all_hits(rest, with_ids, with_scores) is Err {
            let i = choose|i: int|
                0 <= i < rest.len() && !item_whole(#[trigger] rest[i], with_ids, with_scores);
            assert(items[i] == rest[i]);
        }
    }
}

/// A batch is well exactly if the server answered with a success, from 200 to 299, and with a body
/// that has an array of as many responses as there are queries, each of them whole.
pub proof fn law_when_a_batch_is_well(target: TargetView, n: nat, reply: MsearchReply)
    ensures
        batch_outcome(target, n, reply).ok <==> (reply matches MsearchReply::Answered {
            status,
            body: Ok(b),
            ..
        } && 200 <= status <= 299 && (member(b@, "responses"@) matches Some(JsonView::Array(items))
            && items.len() == n && forall|i: int|
            0 <= i < items.len() ==> item_whole(
                #[trigger] items[i],
                target.collect_ids,
                target.collect_scores,
            ))),
{
    match reply {
        MsearchReply::Answered { status, status_text, detail, body: Ok(b) } => {
            match member(b@, "responses"@) {
                Some(JsonView::Array(items)) => {
                    lemma_all_whole(items, target.collect_ids, target.collect_scores);
                },
                _ => {},
            }
        },
        _ => {},
    }
}

/// In a batch that is well, no response has an error, has timed out or lacks a shard, and every one
/// has an array of hits.
pub proof fn law_no_partial_result_is_accepted(
    target: TargetView,
    n: nat,
    reply: MsearchReply,
    items: Seq<JsonView>,
    i: int,
)
    requires
        batch_outcome(target, n, reply).ok,
        reply matches MsearchReply::Answered { body: Ok(b), .. } && member(b@, "responses"@) == Some(
            JsonView::Array(items),
        ),
        0 <= i < items.len(),
    ensures
        member(items[i], "error"@) is None || member(items[i], "error"@) == Some(JsonView::Null),
        member(items[i], "timed_out"@) != Some(JsonView::Bool(true)),
        forall|k: u64|
            k > 0 ==> under(items[i], "_shards"@, "failed"@) != Some(#[trigger] unsigned(k)),
        under(items[i], "hits"@, "hits"@) matches Some(JsonView::Array(_)),
{
    law_when_a_batch_is_well(target, n, reply);
    assert(item_whole(items[i], target.collect_ids, target.collect_scores));
}

/// What is collected of a batch that is well is what the hits of each response have, in their order:
/// the ids where they are collected, and the scores where both are; else nothing.
pub proof fn law_what_is_collected_is_what_the_hits_have(
    target: TargetView,
    n: nat,
    reply: MsearchReply,
    items: Seq<JsonView>,
    i: int,
)
    requires
        batch_outcome(target, n, reply).ok,
        reply matches MsearchReply::Answered { body: Ok(b), .. } && member(b@, "responses"@) == Some(
            JsonView::Array(items),
        ),
        0 <= i < items.len(),
    ensures
        ({
            let outcome = batch_outcome(target, n, reply);
            under(items[i], "hits"@, "hits"@) matches Some(JsonView::Array(hits)) && {
                &&& outcome.ids.len() == n
                &&& outcome.scores.len() == n
                &&& outcome.error is None
                &&& !outcome.timed_out
                &&& !target.collect_ids ==> outcome.ids[i] is None && outcome.scores[i] is None
                &&& target.collect_ids ==> (outcome.ids[i] matches Some(ids) && ids.len()
                    == hits.len() && forall|j: int|
                    0 <= j < hits.len() ==> member(#[trigger] hits[j], "_id"@) == Some(
                        JsonView::Text(ids[j]),
                    ))
                &&& target.collect_ids && !target.collect_scores ==> outcome.scores[i] is None
                &&& target.collect_ids && target.collect_scores ==> (outcome.scores[i] matches Some(
                    scores,
                ) && scores.len() == hits.len() && forall|j: int|
                    0 <= j < hits.len() ==> member(#[trigger] hits[j], "_score"@) == Some(
                        JsonView::Number(scores[j]),
                    ))
            }
        }),
{
    law_when_a_batch_is_well(target, n, reply);
    lemma_all_whole(items, target.collect_ids, target.collect_scores);
    let hits = all_hits(items, target.collect_ids, target.collect_scores)->Ok_0;
    assert(item_hits(i as nat, items[i], target.collect_ids, target.collect_scores) == Ok::<
        HitsView,
        FaultView,
    >(hits[i]));
    assert(item_whole(items[i], target.collect_ids, target.collect_scores));
    let found = under(items[i], "hits"@, "hits"@)->0->Array_0;
    if target.collect_ids {
        assert forall|j: int| 0 <= j < found.len() implies member(#[trigger] found[j], "_id"@)
            == Some(JsonView::Text(batch_outcome(target, n, reply).ids[i]->0[j])) by {
            assert(hit_whole(found[j], target.collect_scores));
        }
        if target.collect_scores {
            assert forall|j: int| 0 <= j < found.len() implies member(#[trigger] found[j], "_score"@)
                == Some(JsonView::Number(batch_outcome(target, n, reply).scores[i]->0[j])) by {
                assert(hit_whole(found[j], target.collect_scores));
            }
        }
    }
}

/// The outcome is the failure of a whole batch of `n` queries, with an error: nothing is collected
/// of any query.
pub open spec fn failed_with(outcome: OutcomeView, n: nat, error: Seq<char>, timed_out: bool) -> bool {
    &&& !outcome.ok
    &&& outcome.error == Some(error)
    &&& outcome.timed_out == timed_out
    &&& outcome.ids.len() == n
    &&& outcome.scores.len() == n
    &&& forall|i: int| 0 <= i < n ==> #[trigger] outcome.ids[i] is None
    &&& forall|i: int| 0 <= i < n ==> #[trigger] outcome.scores[i] is None
}

/// How a batch fails before any response is looked at: with the client's own error, with the status
/// and the text of a refusal, for want of an array of responses, or for their number. Only the
/// client's own error can be a matter of time.
pub proof fn law_how_a_batch_fails_as_a_whole(target: TargetView, n: nat, reply: MsearchReply)
    ensures
        ({
            let outcome = batch_outcome(target, n, reply);
            &&& reply matches MsearchReply::Unsent { error, timed_out } ==> failed_with(
                outcome,
                n,
                error@,
                timed_out,
            )
            &&& reply matches MsearchReply::Answered { status, status_text, detail, body } ==> {
                &&& !(200 <= status <= 299) ==> failed_with(
                    outcome,
                    n,
                    "msearch HTTP "@ + status_text@ + ": "@ + detail@,
                    false,
                )
                &&& 200 <= status <= 299 ==> match body {
                    Err((e, timed_out)) => failed_with(outcome, n, e@, timed_out),
                    Ok(b) => match member(b@, "responses"@) {
                        Some(JsonView::Array(items)) => items.len() != n ==> failed_with(
                            outcome,
                            n,
                            "msearch returned "@ + decimal(items.len()) + " responses for "@
                                + decimal(n) + " queries"@,
                            false,
                        ),
                        _ => failed_with(
                            outcome,
                            n,
                            "msearch: no `responses` array: "@ + json_text(b@),
                            false,
                        ),
                    },
                }
            }
        }),
{
}

/// What is said of an item that is not whole, and whether it is a matter of time. An error is said
/// first, then a timeout, then failed shards, then missing hits.
pub open spec fn item_fault_says(
    i: nat,
    item: JsonView,
    with_ids: bool,
    with_scores: bool,
    message: Seq<char>,
    timed_out: bool,
) -> bool {
    let prefix = "msearch item "@ + decimal(i);
    let error = member(item, "error"@);
    let shards = under(item, "_shards"@, "failed"@);
    if error is Some && error != Some(JsonView::Null) {
        message == prefix + " error: "@ + json_text(error->0) && !timed_out
    } else if member(item, "timed_out"@) == Some(JsonView::Bool(true)) {
        message == prefix + " timed out: "@ + json_text(item) && timed_out
    } else if shards matches Some(JsonView::Number(NumberView::PosInt(k))) && k > 0 {
        &&& message == prefix + ": "@ + decimal(shards->0->Number_0->PosInt_0 as nat)
            + " failed shard(s): "@ + json_text(member(item, "_shards"@)->0)
        &&& !timed_out
    } else {
        match under(item, "hits"@, "hits"@) {
            Some(JsonView::Array(hits)) => {
                &&& with_ids
                &&& !timed_out
                &&& exists|j: int| #[trigger] hit_fault_says(prefix, hits, j, with_scores, message)
            },
            _ => message == prefix + ": no `hits.hits` array: "@ + json_text(item) && !timed_out,
        }
    }
}

/// What is said of the first hit that lacks something.
pub open spec fn hit_fault_says(
    prefix: Seq<char>,
    hits: Seq<JsonView>,
    j: int,
    with_scores: bool,
    message: Seq<char>,
) -> bool {
    &&& 0 <= j < hits.len()
    &&& forall|k: int| 0 <= k < j ==> hit_whole(#[trigger] hits[k], with_scores)
    &&& if member(hits[j], "_id"@) matches Some(JsonView::Text(_)) {
        &&& with_scores
        &&& !(member(hits[j], "_score"@) matches Some(JsonView::Number(_)))
        &&& message == prefix + ": a hit has no numeric `_score`: "@ + json_text(hits[j])
    } else {
        message == prefix + ": a hit has no string `_id`: "@ + json_text(hits[j])
    }
}

proof fn lemma_hit_says(i: nat, hits: Seq<JsonView>, with_scores: bool) -> (j: int)
    ensures
        hits_fault(i, hits, with_scores) is Some ==> hit_fault_says(
            "msearch item "@ + decimal(i),
            hits,
            j,
            with_scores,
            hits_fault(i, hits, with_scores)->0,
        ),
    decreases hits.len(),
{
    if hits.len() > 0 {
        let rest = hits.drop_last();
        let j = lemma_hit_says(i, rest, with_scores);
        lemma_hits_whole(i, rest, with_scores);
        assert forall|k: int| 0 <= k < rest.len() implies #[trigger] hits[k] == rest[k] by {}
        assert(hits[hits.len() - 1] == hits.last());
        if hits_fault(i, rest, with_scores) is Some {
            j
        } else {
            if hit_fault(i, hits.last(), with_scores) is Some {
                assert forall|k: int| 0 <= k < hits.len() - 1 implies hit_whole(
                    #[trigger] hits[k],
                    with_scores,
                ) by {
                    assert(hit_whole(rest[k], with_scores));
                }
            }
            hits.len() - 1
        }
    } else {
        0
    }
}

proof fn lemma_item_says(i: nat, item: JsonView, with_ids: bool, with_scores: bool)
    ensures
        item_hits(i, item, with_ids, with_scores) matches Err(fault) ==> item_fault_says(
            i,
            item,
            with_ids,
            with_scores,
            fault.message,
            fault.timed_out,
        ),
{
    match under(item, "hits"@, "hits"@) {
        Some(JsonView::Array(hits)) => {
            let j = lemma_hit_says(i, hits, with_scores);
            if hits_fault(i, hits, with_scores) is Some {
                assert(hit_fault_says(
                    "msearch item "@ + decimal(i),
                    hits,
                    j,
                    with_scores,
                    hits_fault(i, hits, with_scores)->0,
                ));
            }
        },
        _ => {},
    }
}

proof fn lemma_all_says(items: Seq<JsonView>, with_ids: bool, with_scores: bool, i: int)
    requires
        0 <= i < items.len(),
        !item_whole(items[i], with_ids, with_scores),
        forall|k: int| 0 <= k < i ==> item_whole(#[trigger] items[k], with_ids, with_scores),
    ensures
        all_hits(items, with_ids, with_scores) matches Err(fault) && item_fault_says(
            i as nat,
            items[i],
            with_ids,
            with_scores,
            fault.message,
            fault.timed_out,
        ),
    decreases items.len(),
{
    let rest = items.drop_last();
    assert forall|k: int| 0 <= k < rest.len() implies #[trigger] rest[k] == items[k] by {}
    if i < rest.len() {
        lemma_all_says(rest, with_ids, with_scores, i);
    } else {
        lemma_all_whole(rest, with_ids, with_scores);
        lemma_item_whole(i as nat, items[i], with_ids, with_scores);
        lemma_item_says(i as nat, items[i], with_ids, with_scores);
        assert forall|k: int| 0 <= k < rest.len() implies item_whole(
            #[trigger] rest[k],
            with_ids,
            with_scores,
        ) by {
            assert(item_whole(items[k], with_ids, with_scores));
        }
    }
}

/// A response that is not whole fails the batch, and the first one says why: it is named by its
/// position, and the batch has failed for want of time exactly if that response has timed out.
pub proof fn law_how_a_response_fails_the_batch(
    target: TargetView,
    n: nat,
    reply: MsearchReply,
    items: Seq<JsonView>,
    i: int,
)
    requires
        reply matches MsearchReply::Answered { status, body: Ok(b), .. } && 200 <= status <= 299
            && member(b@, "responses"@) == Some(JsonView::Array(items)),
        items.len() == n,
        0 <= i < items.len(),
        !item_whole(items[i], target.collect_ids, target.collect_scores),
        forall|k: int|
            0 <= k < i ==> item_whole(
                #[trigger] items[k],
                target.collect_ids,
                target.collect_scores,
            ),
    ensures
        ({
            let outcome = batch_outcome(target, n, reply);
            outcome.error matches Some(message) && {
                &&& failed_with(outcome, n, message, outcome.timed_out)
                &&& item_fault_says(
                    i as nat,
                    items[i],
                    target.collect_ids,
                    target.collect_scores,
                    message,
                    outcome.timed_out,
                )
            }
        }),
{
    lemma_all_says(items, target.collect_ids, target.collect_scores, i);
}

/// A batch without queries is well and empty; one with a query that is not dense has failed, and
/// nothing is sent; any other is sent.
pub proof fn law_how_a_batch_starts(target: TargetView, queries: Seq<QueryVector>)
    ensures
        queries.len() == 0 ==> (batch_start(target, queries) matches BatchStartView::Done(outcome)
            && outcome.ok && outcome.ids.len() == 0 && outcome.scores.len() == 0 && outcome.error
            is None && !outcome.timed_out),
        queries.len() > 0 && (exists|i: int|
            0 <= i < queries.len() && #[trigger] queries[i] is Sparse) ==> (batch_start(
            target,
            queries,
        ) matches BatchStartView::Done(outcome) && failed_with(
            outcome,
            queries.len(),
            "the opensearch target does not support sparse queries"@,
            false,
        )),
        queries.len() > 0 && (forall|i: int|
            0 <= i < queries.len() ==> #[trigger] queries[i] is Dense) ==> (batch_start(
            target,
            queries,
        ) matches BatchStartView::Send(v) && lines(target, queries) == Some(v)),
{
    law_lines_alternate(target, queries);
    if exists|i: int| 0 <= i < queries.len() && #[trigger] queries[i] is Sparse {
        let i = choose|i: int| 0 <= i < queries.len() && #[trigger] queries[i] is Sparse;
        assert(!(queries[i] is Dense));
    }
}

} // verus!
