//! The lines of a multi-search request.
use crate::json::{items_view, Json, JsonView};
use crate::json_build::{single, single_json, text_json};
use crate::json_text::{json_quoted, json_text, push_json, quote};
use crate::storm::config::{texts, WithPayload, WithPayloadView};
use crate::storm::target::{OpenSearchTarget, TargetView};
use crate::text::{around, decimal, decimal_text};
use vstd::prelude::*;
use vstd::string::*;

verus! {

/// Some texts as a JSON array.
pub open spec fn text_array(items: Seq<Seq<char>>) -> JsonView {
    JsonView::Array(Seq::new(items.len(), |i: int| JsonView::Text(items[i])))
}

/// The `_source` clause: what is returned of a hit. The vector never is: a field that is not
/// excluded would be fetched and written for every hit, and its cost would be measured.
pub open spec fn source_of(with_payload: WithPayloadView, vector_field: Seq<char>) -> JsonView {
    match with_payload {
        WithPayloadView::Enable(true) => single("excludes"@, text_array(seq![vector_field])),
        WithPayloadView::Enable(false) => JsonView::Bool(false),
        WithPayloadView::Fields(fields) => single("includes"@, text_array(fields)),
    }
}

/// The line that names the index of a search.
pub open spec fn header_text(index: Seq<char>) -> Seq<char> {
    "{\"index\":"@ + json_quoted(index) + "}"@
}

/// A member of the `knn` clause that may be left out.
pub open spec fn clause_text(key: Seq<char>, value: Option<JsonView>) -> Seq<char> {
    match value {
        Some(v) => key + json_text(v),
        None => Seq::empty(),
    }
}

/// The `knn` clause of a search for a vector, which is given as JSON text.
pub open spec fn knn_text(target: TargetView, vector: Seq<char>) -> Seq<char> {
    "{\"vector\":"@ + vector + ",\"k\":"@ + decimal(target.top_k as nat) + clause_text(
        ",\"method_parameters\":"@,
        target.method_parameters,
    ) + clause_text(",\"rescore\":"@, target.rescore) + "}"@
}

/// The line of a search for a vector, which is given as JSON text, with a `_source` clause.
pub open spec fn search_text(target: TargetView, vector: Seq<char>, source: JsonView) -> Seq<char> {
    "{\"query\":{\"knn\":{"@ + json_quoted(target.vector_field) + ":"@ + knn_text(target, vector)
        + "}},\"_source\":"@ + json_text(source) + ",\"size\":"@ + decimal(target.top_k as nat)
        + "}"@
}

/// The vector of a query.
#[derive(Debug)]
pub enum QueryVector {
    /// The components as a JSON array, each in the shortest form of a 32-bit number. A JSON value
    /// would hold them with 64 bits and write them twice as long.
    Dense(String),
    Sparse,
}

/// The model of a `QueryVector`.
pub enum QueryVectorView {
    Dense(Seq<char>),
    Sparse,
}

impl View for QueryVector {
    type V = QueryVectorView;

    open spec fn view(&self) -> QueryVectorView {
        match *self {
            QueryVector::Dense(t) => QueryVectorView::Dense(t@),
            QueryVector::Sparse => QueryVectorView::Sparse,
        }
    }
}

/// The lines of some queries, a header and a search for each; none where one is not dense.
pub open spec fn lines(target: TargetView, queries: Seq<QueryVector>) -> Option<Seq<Seq<char>>>
    decreases queries.len(),
{
    if queries.len() == 0 {
        Some(Seq::empty())
    } else {
        match (lines(target, queries.drop_last()), queries.last()@) {
            (Some(rest), QueryVectorView::Dense(vector)) => Some(
                rest.push(header_text(target.index_name)).push(
                    search_text(
                        target,
                        vector,
                        source_of(target.with_payload, target.vector_field),
                    ),
                ),
            ),
            _ => None,
        }
    }
}

/// A query that is not dense spoils the batch.
proof fn lemma_lines_spoilt(target: TargetView, queries: Seq<QueryVector>, n: int)
    requires
        0 <= n <= queries.len(),
        lines(target, queries.take(n)) is None,
    ensures
        lines(target, queries) is None,
    decreases queries.len() - n,
{
    if n == queries.len() {
        assert(queries.take(n) =~= queries);
    } else {
        assert(queries.take(n + 1).drop_last() =~= queries.take(n));
        lemma_lines_spoilt(target, queries, n + 1);
    }
}

fn text_array_json(fields: &Vec<String>) -> (r: Json)
    ensures
        r@ == text_array(texts(fields@)),
{
    let mut items: Vec<Json> = Vec::new();
    let mut i: usize = 0;
    while i < fields.len()
        invariant
            i <= fields@.len(),
            items@.len() == i,
            forall|j: int| 0 <= j < i ==> (#[trigger] items@[j])@ == JsonView::Text(fields@[j]@),
        decreases fields@.len() - i,
    {
        items.push(text_json(fields[i].as_str()));
        i += 1;
    }
    assert(items_view(items@) =~= text_array(texts(fields@))->Array_0);
    Json::Array(items)
}

/// Builds the `_source` clause.
pub fn source_clause(with_payload: &WithPayload, vector_field: &str) -> (r: Json)
    ensures
        r@ == source_of(with_payload@, vector_field@),
{
    match with_payload {
        WithPayload::Enable(all) => if *all {
            let mut only: Vec<String> = Vec::new();
            only.push(vector_field.to_owned());
            assert(texts(only@) =~= seq![vector_field@]);
            single_json("excludes", text_array_json(&only))
        } else {
            Json::Bool(false)
        },
        WithPayload::Fields(fields) => single_json("includes", text_array_json(fields)),
    }
}

/// Writes the line that names the index of a search.
pub fn header_line(index: &str) -> (r: String)
    ensures
        r@ == header_text(index@),
{
    let quoted = quote(index);
    around("{\"index\":", quoted.as_str(), "}")
}

fn push_clause(out: &mut String, key: &str, value: &Option<Json>)
    ensures
        final(out)@ == old(out)@ + clause_text(
            key@,
            match *value {
                Some(j) => Some(j@),
                None => None,
            },
        ),
{
    match value {
        Some(j) => {
            out.append(key);
            push_json(j, out);
            assert(out@ =~= old(out)@ + (key@ + json_text(j@)));
        },
        None => {
            assert(out@ =~= old(out)@ + Seq::<char>::empty());
        },
    }
}

impl OpenSearchTarget {
    fn knn_clause(&self, vector: &str) -> (r: String)
        ensures
            r@ == knn_text(self@, vector@),
    {
        let k = decimal_text(self.top_k);
        let mut out = around("{\"vector\":", vector, ",\"k\":");
        out.append(k.as_str());
        push_clause(&mut out, ",\"method_parameters\":", &self.method_parameters);
        push_clause(&mut out, ",\"rescore\":", &self.rescore);
        out.append("}");
        out
    }

    /// Writes the line of a search for a vector, given as JSON text. Knobs that are not set are
    /// left out: the server refuses a null.
    pub fn search_line(&self, vector: &str, source: &Json) -> (r: String)
        ensures
            r@ == search_text(self@, vector@, source@),
    {
        let field = quote(self.vector_field.as_str());
        let knn = self.knn_clause(vector);
        let k = decimal_text(self.top_k);
        let mut out = around("{\"query\":{\"knn\":{", field.as_str(), ":");
        out.append(knn.as_str());
        out.append("}},\"_source\":");
        push_json(source, &mut out);
        out.append(",\"size\":");
        out.append(k.as_str());
        out.append("}");
        out
    }

    /// Writes the lines of some queries; none where one of them is not dense.
    pub fn search_lines(&self, queries: &Vec<QueryVector>) -> (r: Option<Vec<String>>)
        ensures
            match r {
                Some(v) => lines(self@, queries@) == Some(texts(v@)),
                None => lines(self@, queries@) is None,
            },
    {
        let source = source_clause(&self.with_payload, self.vector_field.as_str());
        let mut out: Vec<String> = Vec::new();
        let mut i: usize = 0;
        assert(texts(out@) =~= Seq::empty());
        while i < queries.len()
            invariant
                i <= queries@.len(),
                source@ == source_of(self.with_payload@, self.vector_field@),
                lines(self@, queries@.take(i as int)) == Some(texts(out@)),
            decreases queries@.len() - i,
        {
            assert(queries@.take(i + 1).drop_last() =~= queries@.take(i as int));
            match &queries[i] {
                QueryVector::Dense(vector) => {
                    let ghost before = texts(out@);
                    let header = header_line(self.index_name.as_str());
                    let search = self.search_line(vector.as_str(), &source);
                    out.push(header);
                    out.push(search);
                    assert(texts(out@) =~= before.push(header@).push(search@));
                },
                QueryVector::Sparse => {
                    proof {
                        lemma_lines_spoilt(self@, queries@, i + 1);
                    }
                    return None;
                },
            }
            i += 1;
        }
        assert(queries@.take(i as int) =~= queries@);
        Some(out)
    }
}

} // verus!
