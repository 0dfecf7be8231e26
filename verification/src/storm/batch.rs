//! A batch of queries: one round trip, and what its outcome is.
use crate::connection::{is_success, success};
use crate::error_chain::{flatten, ErrorChain};
use crate::json::{
    array_of, at, bool_of, items_view, number_of, text_of, unsigned_of, Json, JsonNumber, JsonView,
    NumberView,
};
use crate::json_text::json_text;
use crate::storm::config::texts;
use crate::storm::search::{lines, QueryVector};
use crate::storm::target::{OpenSearchTarget, TargetView};
use crate::text::{around, around_two, decimal, decimal_text, option_text};
use vstd::prelude::*;
use vstd::string::*;

verus! {

/// The outcome of a batch: for each query the ids and the scores of its hits, where they are
/// collected.
#[derive(Debug)]
pub struct BatchOutcome {
    pub ok: bool,
    pub ids: Vec<Option<Vec<String>>>,
    pub scores: Vec<Option<Vec<JsonNumber>>>,
    pub error: Option<String>,
    /// Whether the batch failed for want of time.
    pub timed_out: bool,
}

/// The model of a `BatchOutcome`.
pub struct OutcomeView {
    pub ok: bool,
    pub ids: Seq<Option<Seq<Seq<char>>>>,
    pub scores: Seq<Option<Seq<NumberView>>>,
    pub error: Option<Seq<char>>,
    pub timed_out: bool,
}

/// The models of some numbers.
pub open spec fn numbers(v: Seq<JsonNumber>) -> Seq<NumberView> {
    Seq::new(v.len(), |i: int| v[i]@)
}

/// The ids of the hits of one query.
pub open spec fn optional_texts(o: Option<Vec<String>>) -> Option<Seq<Seq<char>>> {
    match o {
        Some(v) => Some(texts(v@)),
        None => None,
    }
}

/// The scores of the hits of one query.
pub open spec fn optional_numbers(o: Option<Vec<JsonNumber>>) -> Option<Seq<NumberView>> {
    match o {
        Some(v) => Some(numbers(v@)),
        None => None,
    }
}

/// The ids of all queries.
pub open spec fn all_ids(v: Seq<Option<Vec<String>>>) -> Seq<Option<Seq<Seq<char>>>> {
    Seq::new(v.len(), |i: int| optional_texts(v[i]))
}

/// The scores of all queries.
pub open spec fn all_scores(v: Seq<Option<Vec<JsonNumber>>>) -> Seq<Option<Seq<NumberView>>> {
    Seq::new(v.len(), |i: int| optional_numbers(v[i]))
}

impl View for BatchOutcome {
    type V = OutcomeView;

    open spec fn view(&self) -> OutcomeView {
        OutcomeView {
            ok: self.ok,
            ids: all_ids(self.ids@),
            scores: all_scores(self.scores@),
            error: option_text(self.error),
            timed_out: self.timed_out,
        }
    }
}

/// The failure of a whole batch of `n` queries: nothing is known of any of them.
pub open spec fn failed(n: nat, error: Seq<char>, timed_out: bool) -> OutcomeView {
    OutcomeView {
        ok: false,
        ids: Seq::new(n, |i: int| None),
        scores: Seq::new(n, |i: int| None),
        error: Some(error),
        timed_out,
    }
}

/// The failure of a whole batch.
pub fn fail(n: usize, error: String, timed_out: bool) -> (r: BatchOutcome)
    ensures
        r@ == failed(n as nat, error@, timed_out),
{
    let mut ids: Vec<Option<Vec<String>>> = Vec::new();
    let mut scores: Vec<Option<Vec<JsonNumber>>> = Vec::new();
    let mut i: usize = 0;
    while i < n
        invariant
            i <= n,
            ids@.len() == i,
            scores@.len() == i,
            forall|j: int| 0 <= j < i ==> #[trigger] ids@[j] is None,
            forall|j: int| 0 <= j < i ==> #[trigger] scores@[j] is None,
        decreases n - i,
    {
        ids.push(None);
        scores.push(None);
        i += 1;
    }
    let r = BatchOutcome { ok: false, ids, scores, error: Some(error), timed_out };
    assert(r@.ids =~= failed(n as nat, error@, timed_out).ids);
    assert(r@.scores =~= failed(n as nat, error@, timed_out).scores);
    r
}

/// Why a batch failed: the message, and whether for want of time.
#[derive(Debug)]
pub struct Fault {
    pub message: String,
    pub timed_out: bool,
}

/// The model of a `Fault`.
pub struct FaultView {
    pub message: Seq<char>,
    pub timed_out: bool,
}

impl View for Fault {
    type V = FaultView;

    open spec fn view(&self) -> FaultView {
        FaultView { message: self.message@, timed_out: self.timed_out }
    }
}

/// A fault that is not a matter of time.
pub open spec fn broken(message: Seq<char>) -> FaultView {
    FaultView { message, timed_out: false }
}

/// The ids and the scores of one query, as far as they are collected.
#[derive(Debug)]
pub struct QueryHits {
    pub ids: Option<Vec<String>>,
    pub scores: Option<Vec<JsonNumber>>,
}

/// The model of `QueryHits`.
pub struct HitsView {
    pub ids: Option<Seq<Seq<char>>>,
    pub scores: Option<Seq<NumberView>>,
}

impl View for QueryHits {
    type V = HitsView;

    open spec fn view(&self) -> HitsView {
        HitsView { ids: optional_texts(self.ids), scores: optional_numbers(self.scores) }
    }
}

/// What the messages on an item of the response start with.
pub open spec fn item_text(i: nat) -> Seq<char> {
    "msearch item "@ + decimal(i)
}

/// What is wrong with a hit, if anything is: it has no id, or no score where one is collected.
pub open spec fn hit_fault(i: nat, hit: JsonView, with_scores: bool) -> Option<Seq<char>> {
    if text_of(at(hit, "_id"@)) is None {
        Some(item_text(i) + ": a hit has no string `_id`: "@ + json_text(hit))
    } else if with_scores && number_of(at(hit, "_score"@)) is None {
        Some(item_text(i) + ": a hit has no numeric `_score`: "@ + json_text(hit))
    } else {
        None
    }
}

/// What is wrong with the first faulty hit, if one is.
pub open spec fn hits_fault(i: nat, hits: Seq<JsonView>, with_scores: bool) -> Option<Seq<char>>
    decreases hits.len(),
{
    if hits.len() == 0 {
        None
    } else {
        match hits_fault(i, hits.drop_last(), with_scores) {
            Some(fault) => Some(fault),
            None => hit_fault(i, hits.last(), with_scores),
        }
    }
}

/// The ids of hits, in their order.
pub open spec fn hit_ids(hits: Seq<JsonView>) -> Seq<Seq<char>> {
    Seq::new(hits.len(), |j: int| text_of(at(hits[j], "_id"@))->0)
}

/// The scores of hits, in their order.
pub open spec fn hit_scores(hits: Seq<JsonView>) -> Seq<NumberView> {
    Seq::new(hits.len(), |j: int| number_of(at(hits[j], "_score"@))->0)
}

/// The number of shards that failed, as an item of the response reports it.
pub open spec fn failed_shards(item: JsonView) -> u64 {
    match unsigned_of(at(at(item, "_shards"@), "failed"@)) {
        Some(n) => n,
        None => 0,
    }
}

/// The hits of one item of the response. An item with an error, a timeout, failed shards or
/// malformed hits is a fault: its hits would be incomplete or wrong.
pub open spec fn item_hits(i: nat, item: JsonView, with_ids: bool, with_scores: bool) -> Result<
    HitsView,
    FaultView,
> {
    if !(at(item, "error"@) is Null) {
        Err(broken(item_text(i) + " error: "@ + json_text(at(item, "error"@))))
    } else if bool_of(at(item, "timed_out"@)) == Some(true) {
        Err(
            FaultView {
                message: item_text(i) + " timed out: "@ + json_text(item),
                timed_out: true,
            },
        )
    } else if failed_shards(item) > 0 {
        Err(
            broken(
                item_text(i) + ": "@ + decimal(failed_shards(item) as nat) + " failed shard(s): "@
                    + json_text(at(item, "_shards"@)),
            ),
        )
    } else {
        match array_of(at(at(item, "hits"@), "hits"@)) {
            None => Err(broken(item_text(i) + ": no `hits.hits` array: "@ + json_text(item))),
            Some(hits) => if !with_ids {
                Ok(HitsView { ids: None, scores: None })
            } else {
                match hits_fault(i, hits, with_scores) {
                    Some(fault) => Err(broken(fault)),
                    None => Ok(
                        HitsView {
                            ids: Some(hit_ids(hits)),
                            scores: if with_scores {
                                Some(hit_scores(hits))
                            } else {
                                None
                            },
                        },
                    ),
                }
            },
        }
    }
}

/// The hits of all items of the response, in their order; the first fault ends it.
pub open spec fn all_hits(items: Seq<JsonView>, with_ids: bool, with_scores: bool) -> Result<
    Seq<HitsView>,
    FaultView,
>
    decreases items.len(),
{
    if items.len() == 0 {
        Ok(Seq::empty())
    } else {
        match all_hits(items.drop_last(), with_ids, with_scores) {
            Err(e) => Err(e),
            Ok(rest) => match item_hits(
                (items.len() - 1) as nat,
                items.last(),
                with_ids,
                with_scores,
            ) {
                Err(e) => Err(e),
                Ok(h) => Ok(rest.push(h)),
            },
        }
    }
}

/// The outcome of a batch whose hits could all be read.
pub open spec fn answered(hits: Seq<HitsView>) -> OutcomeView {
    OutcomeView {
        ok: true,
        ids: Seq::new(hits.len(), |i: int| hits[i].ids),
        scores: Seq::new(hits.len(), |i: int| hits[i].scores),
        error: None,
        timed_out: false,
    }
}

/// The outcome of a batch of `n` queries whose response could be parsed. Responses can be paired
/// with queries only by position, so that there have to be as many.
pub open spec fn body_outcome(target: TargetView, n: nat, body: JsonView) -> OutcomeView {
    match array_of(at(body, "responses"@)) {
        None => failed(n, "msearch: no `responses` array: "@ + json_text(body), false),
        Some(items) => if items.len() != n {
            failed(
                n,
                "msearch returned "@ + decimal(items.len()) + " responses for "@ + decimal(n)
                    + " queries"@,
                false,
            )
        } else {
            match all_hits(items, target.collect_ids, target.collect_scores) {
                Ok(hits) => answered(hits),
                Err(fault) => failed(n, fault.message, fault.timed_out),
            }
        },
    }
}

/// What came of the request of a batch.
pub enum MsearchReply {
    /// The request failed. A deadline of the client says that the server is saturated, not that
    /// it is broken.
    Unsent { error: ErrorChain, timed_out: bool },
    /// The server answered, with a status and how it is shown. The text is read where the status
    /// is no success, else the body; where it could not be read, the error, and whether that was
    /// a deadline of the client.
    Answered {
        status: u16,
        status_text: String,
        detail: String,
        body: Result<Json, (ErrorChain, bool)>,
    },
}

/// The outcome of a batch of `n` queries. The status is looked at before the body: what a proxy
/// answers may be no JSON. A deadline of the client, in sending or in reading, is told apart from
/// any other error.
pub open spec fn batch_outcome(target: TargetView, n: nat, reply: MsearchReply) -> OutcomeView {
    match reply {
        MsearchReply::Unsent { error, timed_out } => failed(n, error@, timed_out),
        MsearchReply::Answered { status, status_text, detail, body } => if !success(status) {
            failed(n, "msearch HTTP "@ + status_text@ + ": "@ + detail@, false)
        } else {
            match body {
                Ok(b) => body_outcome(target, n, b@),
                Err((e, timed_out)) => failed(n, e@, timed_out),
            }
        },
    }
}

/// What a batch starts with.
#[derive(Debug)]
pub enum BatchStart {
    /// Send these lines.
    Send(Vec<String>),
    /// There is nothing to send; this is the outcome.
    Done(BatchOutcome),
}

/// The model of a `BatchStart`.
pub enum BatchStartView {
    Send(Seq<Seq<char>>),
    Done(OutcomeView),
}

impl View for BatchStart {
    type V = BatchStartView;

    open spec fn view(&self) -> BatchStartView {
        match *self {
            BatchStart::Send(v) => BatchStartView::Send(texts(v@)),
            BatchStart::Done(o) => BatchStartView::Done(o@),
        }
    }
}

/// What a batch of queries starts with: an empty one is done, and one with a query that is not
/// dense has failed.
pub open spec fn batch_start(target: TargetView, queries: Seq<QueryVector>) -> BatchStartView {
    if queries.len() == 0 {
        BatchStartView::Done(answered(Seq::empty()))
    } else {
        match lines(target, queries) {
            Some(v) => BatchStartView::Send(v),
            None => BatchStartView::Done(
                failed(
                    queries.len(),
                    "the opensearch target does not support sparse queries"@,
                    false,
                ),
            ),
        }
    }
}

proof fn lemma_hits_fault(i: nat, hits: Seq<JsonView>, with_scores: bool, n: int)
    requires
        0 <= n <= hits.len(),
        hits_fault(i, hits.take(n), with_scores) is Some,
    ensures
        hits_fault(i, hits, with_scores) == hits_fault(i, hits.take(n), with_scores),
    decreases hits.len() - n,
{
    if n == hits.len() {
        assert(hits.take(n) =~= hits);
    } else {
        assert(hits.take(n + 1).drop_last() =~= hits.take(n));
        lemma_hits_fault(i, hits, with_scores, n + 1);
    }
}

proof fn lemma_all_hits_fault(items: Seq<JsonView>, with_ids: bool, with_scores: bool, n: int)
    requires
        0 <= n <= items.len(),
        all_hits(items.take(n), with_ids, with_scores) is Err,
    ensures
        all_hits(items, with_ids, with_scores) == all_hits(items.take(n), with_ids, with_scores),
    decreases items.len() - n,
{
    if n == items.len() {
        assert(items.take(n) =~= items);
    } else {
        assert(items.take(n + 1).drop_last() =~= items.take(n));
        lemma_all_hits_fault(items, with_ids, with_scores, n + 1);
    }
}

fn item_prefix(i: usize, after: &str) -> (r: String)
    ensures
        r@ == item_text(i as nat) + after@,
{
    let number = decimal_text(i as u64);
    around("msearch item ", number.as_str(), after)
}

/// The outcome of reading the hits of one query.
pub open spec fn hits_result(r: Result<QueryHits, Fault>) -> Result<HitsView, FaultView> {
    match r {
        Ok(h) => Ok(h@),
        Err(f) => Err(f@),
    }
}

fn bad_hit(i: usize, what: &str, hit: &Json) -> (r: Fault)
    ensures
        r@ == broken(item_text(i as nat) + what@ + json_text(hit@)),
{
    let mut message = item_prefix(i, what);
    let t = hit.to_text();
    message.append(t.as_str());
    Fault { message, timed_out: false }
}

fn read_hits(i: usize, hits: &Vec<Json>, with_scores: bool) -> (r: Result<QueryHits, Fault>)
    ensures
        hits_result(r) == match hits_fault(i as nat, items_view(hits@), with_scores) {
            Some(fault) => Err(broken(fault)),
            None => Ok(
                HitsView {
                    ids: Some(hit_ids(items_view(hits@))),
                    scores: if with_scores {
                        Some(hit_scores(items_view(hits@)))
                    } else {
                        None
                    },
                },
            ),
        },
{
    let ghost views = items_view(hits@);
    let mut ids: Vec<String> = Vec::new();
    let mut scores: Vec<JsonNumber> = Vec::new();
    let mut j: usize = 0;
    while j < hits.len()
        invariant
            j <= hits@.len(),
            views == items_view(hits@),
            hits_fault(i as nat, views.take(j as int), with_scores) is None,
            texts(ids@) == hit_ids(views).take(j as int),
            with_scores ==> numbers(scores@) == hit_scores(views).take(j as int),
        decreases hits@.len() - j,
    {
        let hit = &hits[j];
        proof {
            assert(views.take(j + 1).drop_last() =~= views.take(j as int));
            assert(views.take(j + 1).last() == hit@);
            if hit_fault(i as nat, hit@, with_scores) is Some {
                lemma_hits_fault(i as nat, views, with_scores, j + 1);
            }
        }
        let id = match hit.index("_id").as_str() {
            Some(id) => id,
            None => return Err(bad_hit(i, ": a hit has no string `_id`: ", hit)),
        };
        let ghost ids_before = texts(ids@);
        ids.push(id.to_owned());
        proof {
            assert(texts(ids@) =~= ids_before.push(id@));
            assert(hit_ids(views).take(j + 1) =~= ids_before.push(id@));
        }
        if with_scores {
            let score = match hit.index("_score").as_number() {
                Some(score) => score,
                None => return Err(bad_hit(i, ": a hit has no numeric `_score`: ", hit)),
            };
            let ghost scores_before = numbers(scores@);
            scores.push(score.copied());
            proof {
                assert(numbers(scores@) =~= scores_before.push(score@));
                assert(hit_scores(views).take(j + 1) =~= scores_before.push(score@));
            }
        }
        j += 1;
    }
    proof {
        assert(views.take(j as int) =~= views);
        assert(hit_ids(views).take(j as int) =~= hit_ids(views));
        assert(hit_scores(views).take(j as int) =~= hit_scores(views));
    }
    Ok(
        QueryHits {
            ids: Some(ids),
            scores: if with_scores {
                Some(scores)
            } else {
                None
            },
        },
    )
}

fn read_item(i: usize, item: &Json, with_ids: bool, with_scores: bool) -> (r: Result<
    QueryHits,
    Fault,
>)
    ensures
        hits_result(r) == item_hits(i as nat, item@, with_ids, with_scores),
{
    let error = item.index("error");
    if !error.is_null() {
        return Err(bad_hit(i, " error: ", error));
    }
    match item.index("timed_out").as_bool() {
        Some(true) => {
            let mut message = item_prefix(i, " timed out: ");
            let t = item.to_text();
            message.append(t.as_str());
            return Err(Fault { message, timed_out: true });
        },
        _ => {},
    }
    let shards = item.index("_shards");
    match shards.index("failed").as_u64() {
        Some(n) => if n > 0 {
            let mut message = item_prefix(i, ": ");
            let number = decimal_text(n);
            let t = shards.to_text();
            message.append(number.as_str());
            message.append(" failed shard(s): ");
            message.append(t.as_str());
            return Err(Fault { message, timed_out: false });
        },
        None => {},
    }
    match item.index("hits").index("hits").as_array() {
        None => Err(bad_hit(i, ": no `hits.hits` array: ", item)),
        Some(hits) => if with_ids {
            read_hits(i, hits, with_scores)
        } else {
            Ok(QueryHits { ids: None, scores: None })
        },
    }
}

fn read_items(items: &Vec<Json>, with_ids: bool, with_scores: bool) -> (r: BatchOutcome)
    ensures
        r@ == match all_hits(items_view(items@), with_ids, with_scores) {
            Ok(hits) => answered(hits),
            Err(fault) => failed(items@.len(), fault.message, fault.timed_out),
        },
{
    let ghost views = items_view(items@);
    let ghost mut hits: Seq<HitsView> = Seq::empty();
    let mut ids: Vec<Option<Vec<String>>> = Vec::new();
    let mut scores: Vec<Option<Vec<JsonNumber>>> = Vec::new();
    let mut i: usize = 0;
    while i < items.len()
        invariant
            i <= items@.len(),
            views == items_view(items@),
            hits.len() == i,
            all_hits(views.take(i as int), with_ids, with_scores) == Ok::<
                Seq<HitsView>,
                FaultView,
            >(hits),
            all_ids(ids@) == answered(hits).ids,
            all_scores(scores@) == answered(hits).scores,
        decreases items@.len() - i,
    {
        let item = &items[i];
        proof {
            assert(views.take(i + 1).drop_last() =~= views.take(i as int));
            assert(views.take(i + 1).last() == item@);
        }
        match read_item(i, item, with_ids, with_scores) {
            Ok(h) => {
                let ghost next = hits.push(h@);
                let ghost ids_before = all_ids(ids@);
                let ghost scores_before = all_scores(scores@);
                ids.push(h.ids);
                scores.push(h.scores);
                proof {
                    assert(all_ids(ids@) =~= ids_before.push(h@.ids));
                    assert(all_scores(scores@) =~= scores_before.push(h@.scores));
                    assert(answered(next).ids =~= answered(hits).ids.push(h@.ids));
                    assert(answered(next).scores =~= answered(hits).scores.push(h@.scores));
                    hits = next;
                }
            },
            Err(fault) => {
                proof {
                    lemma_all_hits_fault(views, with_ids, with_scores, i + 1);
                }
                return fail(items.len(), fault.message, fault.timed_out);
            },
        }
        i += 1;
    }
    assert(views.take(i as int) =~= views);
    BatchOutcome { ok: true, ids, scores, error: None, timed_out: false }
}

impl OpenSearchTarget {
    /// Starts a batch: the lines to send in one round trip, or the outcome where there is nothing
    /// to send.
    pub fn query_batch(&self, queries: &Vec<QueryVector>) -> (r: BatchStart)
        ensures
            r@ == batch_start(self@, queries@),
    {
        if queries.len() == 0 {
            let outcome = BatchOutcome {
                ok: true,
                ids: Vec::new(),
                scores: Vec::new(),
                error: None,
                timed_out: false,
            };
            proof {
                assert(outcome@.ids =~= answered(Seq::empty()).ids);
                assert(outcome@.scores =~= answered(Seq::empty()).scores);
            }
            return BatchStart::Done(outcome);
        }
        match self.search_lines(queries) {
            Some(v) => BatchStart::Send(v),
            None => BatchStart::Done(
                fail(
                    queries.len(),
                    "the opensearch target does not support sparse queries".to_owned(),
                    false,
                ),
            ),
        }
    }

    fn read_body(&self, n: usize, body: &Json) -> (r: BatchOutcome)
        ensures
            r@ == body_outcome(self@, n as nat, body@),
    {
        match body.index("responses").as_array() {
            None => {
                let mut message = "msearch: no `responses` array: ".to_owned();
                let t = body.to_text();
                message.append(t.as_str());
                fail(n, message, false)
            },
            Some(items) => if items.len() != n {
                let got = decimal_text(items.len() as u64);
                let want = decimal_text(n as u64);
                let message = around_two(
                    "msearch returned ",
                    got.as_str(),
                    " responses for ",
                    want.as_str(),
                    " queries",
                );
                fail(n, message, false)
            } else {
                read_items(items, self.collect_ids, self.collect_scores)
            },
        }
    }

    /// Reads the outcome of a batch of `n` queries.
    pub fn read_batch(&self, n: usize, reply: &MsearchReply) -> (r: BatchOutcome)
        ensures
            r@ == batch_outcome(self@, n as nat, *reply),
    {
        match reply {
            MsearchReply::Unsent { error, timed_out } => fail(n, flatten(error), *timed_out),
            MsearchReply::Answered { status, status_text, detail, body } => if !is_success(
                *status,
            ) {
                let mut message = around("msearch HTTP ", status_text.as_str(), ": ");
                message.append(detail.as_str());
                fail(n, message, false)
            } else {
                match body {
                    Ok(b) => self.read_body(n, b),
                    Err((e, timed_out)) => fail(n, flatten(e), *timed_out),
                }
            },
        }
    }
}

} // verus!
