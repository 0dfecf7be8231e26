//! Points as documents of a bulk request, and the reply to it.
use crate::connection::{is_success, success};
use crate::json::{array_of, at, bool_of, items_view, unsigned_of, Json, JsonObject, JsonView};
use crate::json_text::{
    commas, json_text, lemma_commas_next, lemma_member_texts, member_text, member_texts,
    push_members, quote,
};
use crate::load::error::{status_err, status_error, unit_result, StoreError, StoreErrorView};
use crate::load::store::{OpenSearchStore, Reply};
use crate::named::Named;
use crate::text::{around, decimal, decimal_text};
use vstd::prelude::*;
use vstd::string::*;

verus! {

/// The identity of a point.
#[derive(Debug)]
pub enum PointId {
    Integer(u64),
    String(String),
}

/// The value of a vector.
#[derive(Debug)]
pub enum VectorValue {
    /// The components as a JSON array, each in the shortest form of a 32-bit number. A JSON value
    /// would hold them with 64 bits and write them twice as long.
    Dense(String),
    Sparse,
    Multi,
}

/// A point: its vectors by name, in the order in which they are written, and its payload.
#[derive(Debug)]
pub struct Point {
    pub id: PointId,
    pub vectors: Named<VectorValue>,
    pub payload: JsonObject,
}

/// One document of a bulk request: its `_id` and its JSON text.
#[derive(Debug)]
pub struct BulkOperation {
    pub id: String,
    pub document: String,
}

/// The model of a `BulkOperation`.
pub struct OperationView {
    pub id: Seq<char>,
    pub document: Seq<char>,
}

impl View for BulkOperation {
    type V = OperationView;

    open spec fn view(&self) -> OperationView {
        OperationView { id: self.id@, document: self.document@ }
    }
}

/// The `_id` of a point.
pub open spec fn document_id(id: PointId) -> Seq<char> {
    match id {
        PointId::Integer(n) => decimal(n as nat),
        PointId::String(s) => s@,
    }
}

impl PointId {
    /// The `_id` of the point's document.
    pub fn document_id(&self) -> (r: String)
        ensures
            r@ == document_id(*self),
    {
        match self {
            PointId::Integer(n) => decimal_text(*n),
            PointId::String(s) => s.clone(),
        }
    }
}

/// The JSON text of a dense vector; empty for any other.
pub open spec fn dense_text(v: VectorValue) -> Seq<char> {
    match v {
        VectorValue::Dense(t) => t@,
        _ => Seq::empty(),
    }
}

/// The members that the vectors of a document are.
pub open spec fn vector_texts(vectors: Seq<(String, VectorValue)>) -> Seq<Seq<char>> {
    Seq::new(vectors.len(), |i: int| member_text(vectors[i].0@, dense_text(vectors[i].1)))
}

/// The JSON text of a document: the members of the payload in the order of their keys, then the
/// vectors.
pub open spec fn document_text(
    payload: Map<Seq<char>, JsonView>,
    vectors: Seq<(String, VectorValue)>,
) -> Seq<char> {
    "{"@ + commas(member_texts(JsonView::Object(payload)) + vector_texts(vectors)) + "}"@
}

/// The error of a vector that is not dense.
pub open spec fn not_dense(name: Seq<char>) -> StoreErrorView {
    StoreErrorView::Other(
        "the opensearch backend supports dense vectors only; vector `"@ + name
            + "` is not dense"@,
    )
}

/// The name of the first vector that is not dense, if there is one.
pub open spec fn first_not_dense(vectors: Seq<(String, VectorValue)>) -> Option<Seq<char>>
    decreases vectors.len(),
{
    if vectors.len() == 0 {
        None
    } else {
        match first_not_dense(vectors.drop_last()) {
            Some(name) => Some(name),
            None => if vectors.last().1 is Dense {
                None
            } else {
                Some(vectors.last().0@)
            },
        }
    }
}

/// The document of a point.
pub open spec fn operation(point: Point) -> Result<OperationView, StoreErrorView> {
    match first_not_dense(point.vectors@) {
        Some(name) => Err(not_dense(name)),
        None => Ok(
            OperationView {
                id: document_id(point.id),
                document: document_text(point.payload@, point.vectors@),
            },
        ),
    }
}

/// The documents of some points, in their order; the first fault ends it.
pub open spec fn operations(points: Seq<Point>) -> Result<Seq<OperationView>, StoreErrorView>
    decreases points.len(),
{
    if points.len() == 0 {
        Ok(Seq::empty())
    } else {
        match operations(points.drop_last()) {
            Err(e) => Err(e),
            Ok(rest) => match operation(points.last()) {
                Err(e) => Err(e),
                Ok(op) => Ok(rest.push(op)),
            },
        }
    }
}

/// The models of some operations.
pub open spec fn operation_views(ops: Seq<BulkOperation>) -> Seq<OperationView> {
    Seq::new(ops.len(), |i: int| ops[i]@)
}

/// The outcome of turning points into documents.
pub open spec fn upsert_result(r: Result<Option<Vec<BulkOperation>>, StoreError>) -> Result<
    Option<Seq<OperationView>>,
    StoreErrorView,
> {
    match r {
        Ok(Some(ops)) => Ok(Some(operation_views(ops@))),
        Ok(None) => Ok(None),
        Err(e) => Err(e@),
    }
}

/// The bulk request for some points; none where there are no points.
pub open spec fn upsert(points: Seq<Point>) -> Result<Option<Seq<OperationView>>, StoreErrorView> {
    if points.len() == 0 {
        Ok(None)
    } else {
        match operations(points) {
            Ok(ops) => Ok(Some(ops)),
            Err(e) => Err(e),
        }
    }
}

proof fn lemma_first_not_dense(vectors: Seq<(String, VectorValue)>, n: int)
    requires
        0 <= n <= vectors.len(),
        first_not_dense(vectors.take(n)) is Some,
    ensures
        first_not_dense(vectors) == first_not_dense(vectors.take(n)),
    decreases vectors.len() - n,
{
    if n == vectors.len() {
        assert(vectors.take(n) =~= vectors);
    } else {
        assert(vectors.take(n + 1).drop_last() =~= vectors.take(n));
        lemma_first_not_dense(vectors, n + 1);
    }
}

proof fn lemma_operations_fault(points: Seq<Point>, n: int)
    requires
        0 <= n <= points.len(),
        operations(points.take(n)) is Err,
    ensures
        operations(points) == operations(points.take(n)),
    decreases points.len() - n,
{
    if n == points.len() {
        assert(points.take(n) =~= points);
    } else {
        assert(points.take(n + 1).drop_last() =~= points.take(n));
        lemma_operations_fault(points, n + 1);
    }
}

/// Writes the document of a point.
pub fn bulk_document(payload: &JsonObject, vectors: &Named<VectorValue>) -> (r: Result<
    String,
    StoreError,
>)
    ensures
        match r {
            Ok(text) => first_not_dense(vectors@) is None && text@ == document_text(
                payload@,
                vectors@,
            ),
            Err(e) => first_not_dense(vectors@) matches Some(name) && e@ == not_dense(name),
        },
{
    let mut out = "{".to_owned();
    let ghost members = member_texts(JsonView::Object(payload@));
    let ghost texts = members + vector_texts(vectors@);
    let n: usize = payload.len();
    push_members(payload, &mut out);
    proof {
        lemma_member_texts(payload@, payload.keys());
        assert(texts.take(n as int) =~= members);
    }
    let mut i: usize = 0;
    while i < vectors.len()
        invariant
            i <= vectors@.len(),
            n == members.len(),
            texts == members + vector_texts(vectors@),
            first_not_dense(vectors@.take(i as int)) is None,
            out@ == "{"@ + commas(texts.take(n + i)),
        decreases vectors@.len() - i,
    {
        let entry = vectors.entry(i);
        assert(vectors@.take(i + 1).drop_last() =~= vectors@.take(i as int));
        match entry.1 {
            VectorValue::Dense(values) => {
                proof {
                    lemma_commas_next(texts, n + i);
                    assert(texts[n + i] == member_text(entry.0@, values@));
                    if n + i == 0 {
                        assert(texts.take(0) =~= Seq::empty());
                    }
                }
                if n > 0 || i > 0 {
                    out.append(",");
                }
                let key = quote(entry.0);
                out.append(key.as_str());
                out.append(":");
                out.append(values.as_str());
                assert(out@ =~= "{"@ + commas(texts.take(n + i + 1)));
            },
            _ => {
                proof {
                    lemma_first_not_dense(vectors@, i + 1);
                }
                return Err(
                    StoreError::Other(
                        around(
                            "the opensearch backend supports dense vectors only; vector `",
                            entry.0,
                            "` is not dense",
                        ),
                    ),
                );
            },
        }
        i += 1;
    }
    proof {
        assert(vectors@.take(i as int) =~= vectors@);
        assert(texts.take(n + i) =~= texts);
    }
    out.append("}");
    Ok(out)
}

/// The item that a refused bulk request is reported with: the first one that has an error.
pub open spec fn first_failed(items: Seq<JsonView>) -> Option<JsonView>
    decreases items.len(),
{
    if items.len() == 0 {
        None
    } else {
        match first_failed(items.drop_last()) {
            Some(item) => Some(item),
            None => if at(at(items.last(), "index"@), "error"@) is Null {
                None
            } else {
                Some(items.last())
            },
        }
    }
}

/// The first failed item of a bulk response.
pub open spec fn failed_item(body: JsonView) -> Option<JsonView> {
    match array_of(at(body, "items"@)) {
        Some(items) => first_failed(items),
        None => None,
    }
}

/// The low 16 bits of a status.
pub open spec fn short_status(status: Option<u64>) -> Option<u16> {
    match status {
        Some(s) => Some((s % 0x1_0000) as u16),
        None => None,
    }
}

/// The error of a bulk response that reports failed items, with the status of the item: whether
/// to retry is judged on the item, not on the envelope.
pub open spec fn item_error(body: JsonView) -> StoreErrorView {
    match failed_item(body) {
        Some(item) => StoreErrorView::OpenSearch {
            status: short_status(unsigned_of(at(at(item, "index"@), "status"@))),
            message: "bulk upsert had item errors: "@ + json_text(
                at(at(item, "index"@), "error"@),
            ),
        },
        None => StoreErrorView::OpenSearch {
            status: None,
            message: "bulk upsert had item errors: "@ + "unknown bulk item error"@,
        },
    }
}

/// What the reply to a bulk request says: a success can still carry failed items.
pub open spec fn bulk_check(reply: Reply) -> Result<(), StoreErrorView> {
    if !success(reply.status) {
        Err(status_error("bulk upsert"@, reply.status, reply.detail@))
    } else if bool_of(at(reply.body@, "errors"@)) == Some(true) {
        Err(item_error(reply.body@))
    } else {
        Ok(())
    }
}

proof fn lemma_first_failed(items: Seq<JsonView>, n: int)
    requires
        0 <= n <= items.len(),
        first_failed(items.take(n)) is Some,
    ensures
        first_failed(items) == first_failed(items.take(n)),
    decreases items.len() - n,
{
    if n == items.len() {
        assert(items.take(n) =~= items);
    } else {
        assert(items.take(n + 1).drop_last() =~= items.take(n));
        lemma_first_failed(items, n + 1);
    }
}

fn find_failed(items: &Vec<Json>) -> (r: Option<&Json>)
    ensures
        match r {
            Some(item) => first_failed(items_view(items@)) == Some(item@),
            None => first_failed(items_view(items@)) is None,
        },
{
    let ghost views = items_view(items@);
    let mut i: usize = 0;
    while i < items.len()
        invariant
            i <= items@.len(),
            views == items_view(items@),
            first_failed(views.take(i as int)) is None,
        decreases items@.len() - i,
    {
        let item = &items[i];
        proof {
            assert(views.take(i + 1).drop_last() =~= views.take(i as int));
            assert(views.take(i + 1).last() == item@);
        }
        if !item.index("index").index("error").is_null() {
            proof {
                lemma_first_failed(views, i + 1);
            }
            return Some(item);
        }
        i += 1;
    }
    assert(views.take(i as int) =~= views);
    None
}

fn item_err(body: &Json) -> (r: StoreError)
    ensures
        r@ == item_error(body@),
{
    let first = match body.index("items").as_array() {
        Some(items) => find_failed(items),
        None => None,
    };
    let mut message = "bulk upsert had item errors: ".to_owned();
    match first {
        Some(item) => {
            let status = match item.index("index").index("status").as_u64() {
                Some(s) => Some((s % 0x1_0000) as u16),
                None => None,
            };
            let detail = item.index("index").index("error").to_text();
            message.append(detail.as_str());
            StoreError::OpenSearch { status, message }
        },
        None => {
            message.append("unknown bulk item error");
            StoreError::OpenSearch { status: None, message }
        },
    }
}

impl OpenSearchStore {
    /// Turns points into the documents of a bulk request. Without points there is no request.
    pub fn upsert_batch(&self, points: Vec<Point>) -> (r: Result<
        Option<Vec<BulkOperation>>,
        StoreError,
    >)
        ensures
            upsert_result(r) == upsert(points@),
    {
        if points.len() == 0 {
            return Ok(None);
        }
        let mut ops: Vec<BulkOperation> = Vec::new();
        let mut i: usize = 0;
        assert(operation_views(ops@) =~= Seq::empty());
        while i < points.len()
            invariant
                i <= points@.len(),
                operations(points@.take(i as int)) == Ok::<Seq<OperationView>, StoreErrorView>(
                    operation_views(ops@),
                ),
            decreases points@.len() - i,
        {
            let point = &points[i];
            assert(points@.take(i + 1).drop_last() =~= points@.take(i as int));
            match bulk_document(&point.payload, &point.vectors) {
                Ok(document) => {
                    let ghost before = operation_views(ops@);
                    ops.push(BulkOperation { id: point.id.document_id(), document });
                    assert(operation_views(ops@) =~= before.push(ops@.last()@));
                },
                Err(e) => {
                    proof {
                        lemma_operations_fault(points@, i + 1);
                    }
                    return Err(e);
                },
            }
            i += 1;
        }
        assert(points@.take(i as int) =~= points@);
        Ok(Some(ops))
    }

    /// Reads the reply to a bulk request.
    pub fn upserted(&self, reply: &Reply) -> (r: Result<(), StoreError>)
        ensures
            unit_result(r) == bulk_check(*reply),
    {
        if !is_success(reply.status) {
            return Err(status_err("bulk upsert", reply.status, reply.detail.as_str()));
        }
        match reply.body.index("errors").as_bool() {
            Some(true) => Err(item_err(&reply.body)),
            _ => Ok(()),
        }
    }
}

} // verus!
