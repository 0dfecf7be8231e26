//! What a bulk request holds of the points, and what the reply to it means.
use crate::json::{at, JsonView, NumberView};
use crate::json_build::Members;
use crate::json_path::{member, under};
use crate::json_text::{
    commas, json_quoted, json_text, lemma_ordered, member_text, member_texts, ordered,
};
use crate::load::bulk::{
    bulk_check, document_text, first_failed, first_not_dense, operation, operations, upsert,
    vector_texts, OperationView, Point, PointId, VectorValue,
};
use crate::load::error::StoreErrorView;
use crate::load::laws::{law_one_document_per_point, law_the_first_failed_item_is_reported};
use crate::load::store::Reply;
use crate::text::decimal;
use crate::text_laws::{law_numbers_are_written_in_decimal, writes};
use vstd::prelude::*;
use vstd::string::*;

verus! {

/// A request has one document for each point, in their order, under the characters of its text id
/// as they are, or the decimal digits of its integer id.
pub proof fn law_documents_have_the_ids_of_the_points(
    points: Seq<Point>,
    ops: Seq<OperationView>,
    i: int,
)
    requires
        upsert(points) == Ok::<Option<Seq<OperationView>>, StoreErrorView>(Some(ops)),
        0 <= i < points.len(),
    ensures
        ops.len() == points.len(),
        points[i].id matches PointId::String(s) ==> ops[i].id == s@,
        points[i].id matches PointId::Integer(n) ==> writes(ops[i].id, n as nat),
{
    law_one_document_per_point(points);
    assert(operation(points[i]) == Ok::<OperationView, StoreErrorView>(ops[i]));
    match points[i].id {
        PointId::Integer(n) => {
            law_numbers_are_written_in_decimal(n as nat);
        },
        PointId::String(_) => {},
    }
}

/// Two points with different text ids, or with different integer ids, get different documents.
pub proof fn law_different_points_are_different_documents(
    points: Seq<Point>,
    ops: Seq<OperationView>,
    i: int,
    j: int,
)
    requires
        upsert(points) == Ok::<Option<Seq<OperationView>>, StoreErrorView>(Some(ops)),
        0 <= i < points.len(),
        0 <= j < points.len(),
    ensures
        (points[i].id matches PointId::String(a) && (points[j].id matches PointId::String(b) && a@
            != b@)) ==> ops[i].id != ops[j].id,
        (points[i].id matches PointId::Integer(a) && (points[j].id matches PointId::Integer(b) && a
            != b)) ==> ops[i].id != ops[j].id,
{
    law_documents_have_the_ids_of_the_points(points, ops, i);
    law_documents_have_the_ids_of_the_points(points, ops, j);
}

/// Every document is written from the payload and the vectors of its own point.
pub proof fn law_documents_have_what_the_points_have(
    points: Seq<Point>,
    ops: Seq<OperationView>,
    i: int,
)
    requires
        upsert(points) == Ok::<Option<Seq<OperationView>>, StoreErrorView>(Some(ops)),
        0 <= i < points.len(),
    ensures
        ops[i].document == document_text(points[i].payload@, points[i].vectors@),
{
    law_one_document_per_point(points);
    assert(operation(points[i]) == Ok::<OperationView, StoreErrorView>(ops[i]));
}

/// A document without vectors is its payload, and every vector follows what is before it: behind a
/// comma, unless it comes first, with its quoted name, a colon and its components as they are.
pub proof fn law_vectors_follow_the_payload(
    payload: Members,
    vectors: Seq<(String, VectorValue)>,
    name: String,
    components: String,
    inner: Seq<char>,
)
    requires
        payload.dom().finite(),
        document_text(payload, vectors) == "{"@ + inner + "}"@,
    ensures
        document_text(payload, Seq::empty()) == json_text(JsonView::Object(payload)),
        document_text(payload, vectors.push((name, VectorValue::Dense(components)))) == "{"@ + (
        if payload.dom().len() == 0 && vectors.len() == 0 {
            json_quoted(name@) + ":"@ + components@
        } else {
            inner + ","@ + (json_quoted(name@) + ":"@ + components@)
        }) + "}"@,
{
    let members = member_texts(JsonView::Object(payload));
    let more = vectors.push((name, VectorValue::Dense(components)));
    let a = members + vector_texts(vectors);
    let b = members + vector_texts(more);
    assert(members + vector_texts(Seq::empty()) =~= members);
    assert(vector_texts(more).drop_last() =~= vector_texts(vectors));
    assert(b.drop_last() =~= a);
    assert(b.last() == member_text(name@, components@));
    let keys = ordered(payload.dom());
    lemma_ordered(payload.dom());
    assert(members.len() == keys.len());
    if payload.dom().len() == 0 {
        assert(payload.dom() =~= Set::empty());
        if keys.len() > 0 {
            assert(keys.contains(keys[0]));
        }
    } else {
        let k = payload.dom().choose();
        assert(payload.dom().contains(k));
        assert(keys.contains(k));
    }
    assert(inner =~= commas(a)) by {
        let x = "{"@ + inner + "}"@;
        let y = "{"@ + commas(a) + "}"@;
        assert(x == y);
        assert(x.len() == y.len());
        assert(x.subrange(1, (1 + inner.len()) as int) =~= inner) by {
            reveal_strlit("{");
        }
        assert(y.subrange(1, (1 + inner.len()) as int) =~= commas(a)) by {
            reveal_strlit("{");
        }
    }
}

proof fn lemma_first_not_dense(vectors: Seq<(String, VectorValue)>) -> (j: int)
    ensures
        first_not_dense(vectors) is None ==> forall|k: int|
            0 <= k < vectors.len() ==> (#[trigger] vectors[k]).1 is Dense,
        first_not_dense(vectors) is Some ==> not_dense_first(
            vectors,
            first_not_dense(vectors)->0,
            j,
        ),
    decreases vectors.len(),
{
    if vectors.len() > 0 {
        let rest = vectors.drop_last();
        let j = lemma_first_not_dense(rest);
        assert forall|k: int| 0 <= k < rest.len() implies #[trigger] vectors[k] == rest[k] by {}
        if first_not_dense(rest) is Some {
            j
        } else {
            vectors.len() - 1
        }
    } else {
        0
    }
}

/// A vector is the first one that is not dense, and has a name.
pub open spec fn not_dense_first(
    vectors: Seq<(String, VectorValue)>,
    name: Seq<char>,
    j: int,
) -> bool {
    &&& 0 <= j < vectors.len()
    &&& vectors[j].0@ == name
    &&& !(vectors[j].1 is Dense)
    &&& forall|k: int| 0 <= k < j ==> (#[trigger] vectors[k]).1 is Dense
}

/// All vectors of a point are dense.
pub open spec fn all_dense(point: Point) -> bool {
    forall|j: int| 0 <= j < point.vectors@.len() ==> (#[trigger] point.vectors@[j]).1 is Dense
}

/// There is no request exactly if there are no points. A request can be made exactly if all vectors
/// of all points are dense; else the first one that is not is named, of the first point that has
/// one.
pub proof fn law_when_points_can_be_written(points: Seq<Point>)
    ensures
        upsert(points) == Ok::<Option<Seq<OperationView>>, StoreErrorView>(None) <==> points.len()
            == 0,
        upsert(points) is Ok <==> forall|i: int|
            0 <= i < points.len() ==> all_dense(#[trigger] points[i]),
        upsert(points) matches Err(e) ==> exists|i: int, name: Seq<char>, j: int|
            {
                &&& 0 <= i < points.len()
                &&& #[trigger] not_dense_first(points[i].vectors@, name, j)
                &&& forall|k: int| 0 <= k < i ==> all_dense(#[trigger] points[k])
                &&& e == StoreErrorView::Other(
                    "the opensearch backend supports dense vectors only; vector `"@ + name
                        + "` is not dense"@,
                )
            },
{
    lemma_operations(points);
}

proof fn lemma_operations(points: Seq<Point>)
    ensures
        operations(points) is Ok <==> forall|i: int|
            0 <= i < points.len() ==> all_dense(#[trigger] points[i]),
        operations(points) matches Err(e) ==> exists|i: int, name: Seq<char>, j: int|
            {
                &&& 0 <= i < points.len()
                &&& #[trigger] not_dense_first(points[i].vectors@, name, j)
                &&& forall|k: int| 0 <= k < i ==> all_dense(#[trigger] points[k])
                &&& e == StoreErrorView::Other(
                    "the opensearch backend supports dense vectors only; vector `"@ + name
                        + "` is not dense"@,
                )
            },
    decreases points.len(),
{
    if points.len() > 0 {
        let rest = points.drop_last();
        let last = points.last();
        lemma_operations(rest);
        let first = lemma_first_not_dense(last.vectors@);
        assert(points[points.len() - 1] == last);
        match operations(rest) {
            Err(e) => {
                let (i, name, j) = choose|i: int, name: Seq<char>, j: int|
                    {
                        &&& 0 <= i < rest.len()
                        &&& #[trigger] not_dense_first(rest[i].vectors@, name, j)
                        &&& forall|k: int| 0 <= k < i ==> all_dense(#[trigger] rest[k])
                        &&& e == StoreErrorView::Other(
                            "the opensearch backend supports dense vectors only; vector `"@ + name
                                + "` is not dense"@,
                        )
                    };
                assert(not_dense_first(points[i].vectors@, name, j));
                assert forall|k: int| 0 <= k < i implies all_dense(#[trigger] points[k]) by {
                    assert(all_dense(rest[k]));
                }
                assert(!(points[i].vectors@[j].1 is Dense));
                assert(!all_dense(points[i]));
            },
            Ok(_) => {
                assert forall|k: int| 0 <= k < rest.len() implies all_dense(
                    #[trigger] points[k],
                ) by {
                    assert(all_dense(rest[k]));
                }
                match first_not_dense(last.vectors@) {
                    Some(name) => {
                        assert(not_dense_first(points[points.len() - 1].vectors@, name, first));
                        assert(!(last.vectors@[first].1 is Dense));
                        assert(!all_dense(last));
                    },
                    None => {
                        assert(all_dense(last));
                    },
                }
            },
        }
    }
}

/// An item of a reply has an error.
pub open spec fn item_failed(item: JsonView) -> bool {
    under(item, "index"@, "error"@) matches Some(e) && !(e is Null)
}

/// A bulk request has succeeded exactly if the status is a success, from 200 to 299, and the reply
/// does not say that there are errors.
pub proof fn law_when_a_bulk_request_succeeds(reply: Reply)
    ensures
        bulk_check(reply) is Ok <==> 200 <= reply.status <= 299 && member(reply.body@, "errors"@)
            != Some(JsonView::Bool(true)),
        !(200 <= reply.status <= 299) ==> exists|t: Seq<char>| #[trigger]
            writes(t, reply.status as nat) && bulk_check(reply) == Err::<(), StoreErrorView>(
                StoreErrorView::OpenSearch {
                    status: Some(reply.status),
                    message: "bulk upsert"@ + " failed (HTTP "@ + t + "): "@ + reply.detail@,
                },
            ),
{
    law_numbers_are_written_in_decimal(reply.status as nat);
    assert(writes(decimal(reply.status as nat), reply.status as nat));
}

/// A reply that says that there are errors is reported with its first item that has one: the error
/// of the item, and the item's own status where it is a number.
pub proof fn law_the_status_of_the_first_failed_item_is_reported(
    reply: Reply,
    items: Seq<JsonView>,
    i: int,
    error: JsonView,
)
    requires
        200 <= reply.status <= 299,
        member(reply.body@, "errors"@) == Some(JsonView::Bool(true)),
        member(reply.body@, "items"@) == Some(JsonView::Array(items)),
        0 <= i < items.len(),
        under(items[i], "index"@, "error"@) == Some(error),
        !(error is Null),
        forall|k: int| 0 <= k < i ==> !item_failed(#[trigger] items[k]),
    ensures
        bulk_check(reply) matches Err(StoreErrorView::OpenSearch { status, message }) && {
            &&& message == "bulk upsert had item errors: "@ + json_text(error)
            &&& match under(items[i], "index"@, "status"@) {
                Some(JsonView::Number(NumberView::PosInt(n))) => {
                    &&& status is Some
                    &&& (n - status->0) % 0x1_0000 == 0
                },
                _ => status is None,
            }
        },
{
    law_the_first_failed_item_is_reported(items);
    assert(item_failed(items[i]));
    assert(!(at(at(items[i], "index"@), "error"@) is Null));
    match first_failed(items) {
        Some(item) => {
            let k = choose|k: int|
                {
                    &&& 0 <= k < items.len()
                    &&& #[trigger] items[k] == item
                    &&& !(at(at(item, "index"@), "error"@) is Null)
                    &&& forall|j: int|
                        0 <= j < k ==> at(at(#[trigger] items[j], "index"@), "error"@) is Null
                };
            assert(item_failed(items[k]));
            assert(k == i);
        },
        None => {},
    }
}

/// A reply that says that there are errors, but has no item with one, is still an error, without a
/// status.
pub proof fn law_errors_without_a_failed_item_are_reported(reply: Reply)
    requires
        200 <= reply.status <= 299,
        member(reply.body@, "errors"@) == Some(JsonView::Bool(true)),
        member(reply.body@, "items"@) matches Some(JsonView::Array(items)) ==> forall|k: int|
            0 <= k < items.len() ==> !item_failed(#[trigger] items[k]),
    ensures
        bulk_check(reply) == Err::<(), StoreErrorView>(
            StoreErrorView::OpenSearch {
                status: None,
                message: "bulk upsert had item errors: "@ + "unknown bulk item error"@,
            },
        ),
{
    match member(reply.body@, "items"@) {
        Some(JsonView::Array(items)) => {
            law_the_first_failed_item_is_reported(items);
            match first_failed(items) {
                Some(item) => {
                    let k = choose|k: int|
                        {
                            &&& 0 <= k < items.len()
                            &&& #[trigger] items[k] == item
                            &&& !(at(at(item, "index"@), "error"@) is Null)
                            &&& forall|j: int|
                                0 <= j < k ==> at(at(#[trigger] items[j], "index"@), "error"@)
                                    is Null
                        };
                    assert(item_failed(items[k]));
                },
                None => {},
            }
        },
        _ => {},
    }
}

} // verus!
