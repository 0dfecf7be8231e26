//! What holds of the load backend as a whole.
use crate::connection::success;
use crate::json::{at, JsonView};
use crate::json_build::{number, single, text_knob};
use crate::load::bulk::{first_failed, operation, operations, OperationView, Point};
use crate::load::config::{CollectionSchema, OpenSearchParams, VectorSpec};
use crate::load::convert::{
    compression, data_type, encoder_name, engine_name, method_name, space_type, workload_mode,
};
use crate::load::error::{ConfigErrorView, StoreErrorView};
use crate::load::mapping::{
    create_index, creation_settings, dimension, field_mode, knn_field, number_knob, optional_method,
    properties, update_settings, with_dynamic,
};
use crate::load::store::{deferred, enabled, ensure_next, EnsureSeen, EnsureStepView};
use crate::named::distinct;
use crate::text::{ascii_lower, option_text};
use vstd::prelude::*;
use vstd::string::*;

verus! {

/// The field mappings that a body for the creation of an index has.
pub open spec fn created_properties(body: JsonView) -> JsonView {
    at(at(body, "mappings"@), "properties"@)
}

/// The settings that a body for the creation of an index has.
pub open spec fn created_settings(body: JsonView) -> JsonView {
    at(at(body, "settings"@), "index"@)
}

/// A name means the same in any mix of upper and lower case.
pub proof fn law_names_ignore_case(name: Seq<char>, value: Seq<char>)
    ensures
        space_type(name, Some(value)) == space_type(name, Some(ascii_lower(value))),
        data_type(name, Some(value)) == data_type(name, Some(ascii_lower(value))),
        method_name(Some(value)) == method_name(Some(ascii_lower(value))),
        engine_name(Some(value)) == engine_name(Some(ascii_lower(value))),
        workload_mode(Some(value)) == workload_mode(Some(ascii_lower(value))),
        compression(Some(value)) == compression(Some(ascii_lower(value))),
        encoder_name(value) == encoder_name(ascii_lower(value)),
{
    assert(ascii_lower(ascii_lower(value)) =~= ascii_lower(value));
}

/// Whether every vector's field mapping can be built.
pub open spec fn all_built(
    vectors: Seq<(String, VectorSpec)>,
    params: OpenSearchParams,
    dims: Seq<(String, u64)>,
) -> bool {
    forall|i: int|
        0 <= i < vectors.len() ==> knn_field(
            #[trigger] vectors[i].0@,
            vectors[i].1,
            params,
            dims,
        ) is Ok
}

proof fn lemma_properties(
    vectors: Seq<(String, VectorSpec)>,
    params: OpenSearchParams,
    dims: Seq<(String, u64)>,
)
    requires
        distinct(vectors),
    ensures
        properties(vectors, params, dims) is Ok <==> all_built(vectors, params, dims),
        properties(vectors, params, dims) matches Ok(m) ==> {
            &&& forall|i: int|
                0 <= i < vectors.len() ==> m.dom().contains(#[trigger] vectors[i].0@) && knn_field(
                    vectors[i].0@,
                    vectors[i].1,
                    params,
                    dims,
                ) == Ok::<JsonView, ConfigErrorView>(m[vectors[i].0@])
            &&& forall|k: Seq<char>| #[trigger]
                m.dom().contains(k) ==> exists|i: int|
                    0 <= i < vectors.len() && #[trigger] vectors[i].0@ == k
        },
    decreases vectors.len(),
{
    if vectors.len() > 0 {
        let rest = vectors.drop_last();
        let last = vectors.last();
        assert forall|i: int, j: int| 0 <= i < j < rest.len() implies #[trigger] rest[i].0@
            != #[trigger] rest[j].0@ by {
            assert(vectors[i].0@ != vectors[j].0@);
        }
        lemma_properties(rest, params, dims);
        if all_built(vectors, params, dims) {
            assert forall|i: int| 0 <= i < rest.len() implies knn_field(
                #[trigger] rest[i].0@,
                rest[i].1,
                params,
                dims,
            ) is Ok by {
                assert(vectors[i].0@ == rest[i].0@);
            }
            assert(vectors[vectors.len() - 1].0@ == last.0@);
        }
        if properties(vectors, params, dims) is Ok {
            let m = properties(vectors, params, dims)->Ok_0;
            assert forall|i: int| 0 <= i < vectors.len() implies m.dom().contains(
                #[trigger] vectors[i].0@,
            ) && knn_field(vectors[i].0@, vectors[i].1, params, dims) == Ok::<
                JsonView,
                ConfigErrorView,
            >(m[vectors[i].0@]) by {
                if i < rest.len() {
                    assert(rest[i].0@ == vectors[i].0@);
                    assert(vectors[i].0@ != vectors[vectors.len() - 1].0@);
                }
            }
            assert forall|k: Seq<char>| #[trigger] m.dom().contains(k) implies exists|i: int|
                0 <= i < vectors.len() && #[trigger] vectors[i].0@ == k by {
                if k == last.0@ {
                    assert(vectors[vectors.len() - 1].0@ == k);
                } else {
                    let rest_map = properties(rest, params, dims)->Ok_0;
                    assert(rest_map.dom().contains(k));
                    let i = choose|i: int| 0 <= i < rest.len() && #[trigger] rest[i].0@ == k;
                    assert(vectors[i].0@ == k);
                }
            }
        }
    }
}

proof fn lemma_body(
    vectors: Seq<(String, VectorSpec)>,
    params: OpenSearchParams,
    dims: Seq<(String, u64)>,
)
    ensures
        create_index(vectors, params, dims) matches Ok(body) ==> {
            &&& properties(vectors, params, dims) is Ok
            &&& created_properties(body) == JsonView::Object(
                properties(vectors, params, dims)->Ok_0,
            )
            &&& created_settings(body) == JsonView::Object(creation_settings(params))
        },
{
    reveal_strlit("settings");
    reveal_strlit("mappings");
    assert("settings"@[0] != "mappings"@[0]);
}

/// A body has one field mapping for each vector and no other, and it can be built exactly if each
/// field can.
pub proof fn law_one_field_per_vector(
    vectors: Seq<(String, VectorSpec)>,
    params: OpenSearchParams,
    dims: Seq<(String, u64)>,
)
    requires
        distinct(vectors),
    ensures
        create_index(vectors, params, dims) is Ok <==> all_built(vectors, params, dims),
        create_index(vectors, params, dims) matches Ok(body) ==> {
            &&& created_properties(body) is Object
            &&& forall|i: int|
                0 <= i < vectors.len() ==> knn_field(
                    #[trigger] vectors[i].0@,
                    vectors[i].1,
                    params,
                    dims,
                ) == Ok::<JsonView, ConfigErrorView>(at(created_properties(body), vectors[i].0@))
            &&& forall|k: Seq<char>| #[trigger]
                created_properties(body)->Object_0.dom().contains(k) ==> exists|i: int|
                    0 <= i < vectors.len() && #[trigger] vectors[i].0@ == k
        },
{
    lemma_properties(vectors, params, dims);
    lemma_body(vectors, params, dims);
}

/// The order in which the vectors are walked does not matter for the body.
pub proof fn law_order_of_vectors_does_not_matter(
    a: Seq<(String, VectorSpec)>,
    b: Seq<(String, VectorSpec)>,
    params: OpenSearchParams,
    dims: Seq<(String, u64)>,
)
    requires
        distinct(a),
        distinct(b),
        forall|v: (String, VectorSpec)| #[trigger] a.contains(v) <==> b.contains(v),
    ensures
        create_index(a, params, dims) is Ok <==> create_index(b, params, dims) is Ok,
        create_index(a, params, dims) is Ok ==> create_index(a, params, dims) == create_index(
            b,
            params,
            dims,
        ),
{
    lemma_properties(a, params, dims);
    lemma_properties(b, params, dims);
    lemma_same_fields(a, b, params, dims);
    lemma_same_fields(b, a, params, dims);
    if properties(a, params, dims) is Ok && properties(b, params, dims) is Ok {
        let ma = properties(a, params, dims)->Ok_0;
        let mb = properties(b, params, dims)->Ok_0;
        assert forall|k: Seq<char>| ma.dom().contains(k) == #[trigger] mb.dom().contains(k) by {
            if ma.dom().contains(k) {
                let i = choose|i: int| 0 <= i < a.len() && #[trigger] a[i].0@ == k;
                assert(a.contains(a[i]));
                let j = b.index_of(a[i]);
                assert(b[j].0@ == k);
            }
            if mb.dom().contains(k) {
                let i = choose|i: int| 0 <= i < b.len() && #[trigger] b[i].0@ == k;
                assert(b.contains(b[i]));
                assert(a.contains(b[i]));
                let j = a.index_of(b[i]);
                assert(a[j].0@ == k);
            }
        }
        assert forall|k: Seq<char>| #[trigger] ma.dom().contains(k) implies ma[k] == mb[k] by {
            let i = choose|i: int| 0 <= i < a.len() && #[trigger] a[i].0@ == k;
            assert(a.contains(a[i]));
            let j = b.index_of(a[i]);
            assert(b[j].0@ == k);
        }
        assert(ma =~= mb);
    }
}

proof fn lemma_same_fields(
    a: Seq<(String, VectorSpec)>,
    b: Seq<(String, VectorSpec)>,
    params: OpenSearchParams,
    dims: Seq<(String, u64)>,
)
    requires
        forall|v: (String, VectorSpec)| #[trigger] a.contains(v) <==> b.contains(v),
    ensures
        all_built(a, params, dims) ==> all_built(b, params, dims),
{
    if all_built(a, params, dims) {
        assert forall|i: int| 0 <= i < b.len() implies knn_field(
            #[trigger] b[i].0@,
            b[i].1,
            params,
            dims,
        ) is Ok by {
            assert(b.contains(b[i]));
            assert(a.contains(b[i]));
            let j = a.index_of(b[i]);
            assert(a[j].0@ == b[i].0@);
        }
    }
}

/// The keys of a field mapping differ from each other.
proof fn lemma_field_keys()
    ensures
        "type"@ != "dimension"@,
        "type"@ != "space_type"@,
        "type"@ != "data_type"@,
        "type"@ != "mode"@,
        "type"@ != "compression_level"@,
        "type"@ != "method"@,
        "dimension"@ != "space_type"@,
        "dimension"@ != "data_type"@,
        "dimension"@ != "mode"@,
        "dimension"@ != "compression_level"@,
        "dimension"@ != "method"@,
        "space_type"@ != "data_type"@,
        "space_type"@ != "mode"@,
        "space_type"@ != "compression_level"@,
        "space_type"@ != "method"@,
        "data_type"@ != "mode"@,
        "data_type"@ != "compression_level"@,
        "data_type"@ != "method"@,
        "mode"@ != "compression_level"@,
        "mode"@ != "method"@,
        "compression_level"@ != "method"@,
{
    reveal_strlit("type");
    reveal_strlit("dimension");
    reveal_strlit("space_type");
    reveal_strlit("data_type");
    reveal_strlit("mode");
    reveal_strlit("compression_level");
    reveal_strlit("method");
    assert("type"@.len() == 4);
    assert("dimension"@.len() == 9);
    assert("space_type"@.len() == 10);
    assert("data_type"@.len() == 9);
    assert("mode"@.len() == 4);
    assert("compression_level"@.len() == 17);
    assert("method"@.len() == 6);
    assert("type"@[0] != "mode"@[0]);
    assert("dimension"@[1] != "data_type"@[1]);
}

/// The members of a field mapping that can be built, each under its key, and no others.
pub proof fn law_a_field_has_what_is_configured(
    name: Seq<char>,
    spec_: VectorSpec,
    params: OpenSearchParams,
    dims: Seq<(String, u64)>,
)
    requires
        knn_field(name, spec_, params, dims) is Ok,
    ensures
        ({
            let field = knn_field(name, spec_, params, dims)->Ok_0;
            let mode = field_mode(workload_mode(option_text(params.mode))->Ok_0, spec_.on_disk);
            &&& field is Object
            &&& at(field, "type"@) == JsonView::Text("knn_vector"@)
            &&& at(field, "dimension"@) == number(dimension(name, spec_, dims)->0)
            &&& at(field, "space_type"@) == JsonView::Text(
                space_type(name, option_text(spec_.distance))->Ok_0,
            )
            &&& at(field, "data_type"@) == or_null(
                text_knob(data_type(name, option_text(spec_.datatype))->Ok_0),
            )
            &&& at(field, "mode"@) == or_null(text_knob(mode))
            &&& at(field, "compression_level"@) == or_null(
                text_knob(compression(option_text(params.compression_level))->Ok_0),
            )
            &&& at(field, "method"@) == or_null(optional_method(params.method)->Ok_0)
            &&& forall|k: Seq<char>| #[trigger]
                field->Object_0.dom().contains(k) ==> k == "type"@ || k == "dimension"@ || k
                    == "space_type"@ || (k == "data_type"@ && spec_.datatype is Some) || (k
                    == "mode"@ && (params.mode is Some || spec_.on_disk is Some)) || (k
                    == "compression_level"@ && params.compression_level is Some) || (k
                    == "method"@ && params.method is Some)
        }),
{
    lemma_field_keys();
}

/// A value, or null where there is none.
pub open spec fn or_null(o: Option<JsonView>) -> JsonView {
    match o {
        Some(v) => v,
        None => JsonView::Null,
    }
}

/// An index is always created with approximate search enabled, and every field of it with a
/// space.
pub proof fn law_knn_and_space_are_always_set(
    vectors: Seq<(String, VectorSpec)>,
    params: OpenSearchParams,
    dims: Seq<(String, u64)>,
)
    requires
        distinct(vectors),
        create_index(vectors, params, dims) is Ok,
    ensures
        ({
            let body = create_index(vectors, params, dims)->Ok_0;
            &&& at(created_settings(body), "knn"@) == JsonView::Bool(true)
            &&& forall|i: int|
                0 <= i < vectors.len() ==> at(
                    at(created_properties(body), #[trigger] vectors[i].0@),
                    "space_type"@,
                ) is Text
        }),
{
    lemma_setting_keys();
    lemma_body(vectors, params, dims);
    law_one_field_per_vector(vectors, params, dims);
    let body = create_index(vectors, params, dims)->Ok_0;
    assert forall|i: int| 0 <= i < vectors.len() implies at(
        at(created_properties(body), #[trigger] vectors[i].0@),
        "space_type"@,
    ) is Text by {
        law_a_field_has_what_is_configured(vectors[i].0@, vectors[i].1, params, dims);
    }
}

/// The keys of the settings differ from each other.
pub(crate) proof fn lemma_setting_keys()
    ensures
        "knn"@ != "number_of_shards"@,
        "knn"@ != "number_of_replicas"@,
        "knn"@ != "refresh_interval"@,
        "knn"@ != "knn.algo_param.ef_search"@,
        "number_of_shards"@ != "number_of_replicas"@,
        "number_of_shards"@ != "refresh_interval"@,
        "number_of_shards"@ != "knn.algo_param.ef_search"@,
        "number_of_replicas"@ != "refresh_interval"@,
        "number_of_replicas"@ != "knn.algo_param.ef_search"@,
        "refresh_interval"@ != "knn.algo_param.ef_search"@,
{
    reveal_strlit("knn");
    reveal_strlit("number_of_shards");
    reveal_strlit("number_of_replicas");
    reveal_strlit("refresh_interval");
    reveal_strlit("knn.algo_param.ef_search");
    assert("knn"@.len() == 3);
    assert("number_of_shards"@.len() == 16);
    assert("number_of_replicas"@.len() == 18);
    assert("refresh_interval"@.len() == 16);
    assert("knn.algo_param.ef_search"@.len() == 24);
    assert("number_of_shards"@[0] != "refresh_interval"@[0]);
}

/// A size that is configured is the dimension of the field, whatever was inferred.
pub proof fn law_a_configured_size_wins(
    name: Seq<char>,
    spec_: VectorSpec,
    params: OpenSearchParams,
    dims: Seq<(String, u64)>,
    other_dims: Seq<(String, u64)>,
)
    requires
        spec_.size is Some,
    ensures
        knn_field(name, spec_, params, dims) == knn_field(name, spec_, params, other_dims),
{
}

/// A mode that is configured for the index is that of the field, whatever the vector's own flag.
pub proof fn law_a_configured_mode_wins(
    name: Seq<char>,
    spec_: VectorSpec,
    on_disk: Option<bool>,
    params: OpenSearchParams,
    dims: Seq<(String, u64)>,
)
    requires
        params.mode is Some,
    ensures
        knn_field(name, spec_, params, dims) == knn_field(
            name,
            VectorSpec { on_disk, ..spec_ },
            params,
            dims,
        ),
{
}

/// A change of settings has only the dynamic ones, each that is configured, and there is none
/// exactly if none is configured.
pub proof fn law_an_update_has_the_dynamic_settings_only(params: OpenSearchParams)
    ensures
        update_settings(params) is None <==> params.replicas is None && params.refresh_interval
            is None && params.ef_search is None,
        update_settings(params) matches Some(body) ==> {
            let index = at(body, "index"@);
            &&& body == single("index"@, index)
            &&& index is Object
            &&& at(index, "number_of_replicas"@) == or_null(number_knob(params.replicas))
            &&& at(index, "refresh_interval"@) == or_null(
                text_knob(option_text(params.refresh_interval)),
            )
            &&& at(index, "knn.algo_param.ef_search"@) == or_null(number_knob(params.ef_search))
            &&& forall|k: Seq<char>| #[trigger]
                index->Object_0.dom().contains(k) ==> k == "number_of_replicas"@ || k
                    == "refresh_interval"@ || k == "knn.algo_param.ef_search"@
        },
{
    lemma_setting_keys();
    let m = with_dynamic(Map::empty(), params);
    if params.replicas is Some {
        assert(m.dom().contains("number_of_replicas"@));
    }
    if params.refresh_interval is Some {
        assert(m.dom().contains("refresh_interval"@));
    }
    if params.ef_search is Some {
        assert(m.dom().contains("knn.algo_param.ef_search"@));
    }
    if params.replicas is None && params.refresh_interval is None && params.ef_search is None {
        assert(m.dom() =~= Set::<Seq<char>>::empty());
    }
}

/// A change of settings sets nothing that the creation of the index under the same configuration
/// would set otherwise.
pub proof fn law_an_update_agrees_with_the_creation(params: OpenSearchParams, key: Seq<char>)
    requires
        update_settings(params) is Some,
        at(update_settings(params)->0, "index"@)->Object_0.dom().contains(key),
    ensures
        at(at(update_settings(params)->0, "index"@), key) == at(
            JsonView::Object(creation_settings(params)),
            key,
        ),
{
    lemma_setting_keys();
    law_an_update_has_the_dynamic_settings_only(params);
}

/// What is put off during a load is what is restored after it: both change the same two settings.
pub proof fn law_what_is_deferred_is_restored(params: OpenSearchParams)
    ensures
        at(deferred(), "index"@)->Object_0.dom() == at(enabled(params), "index"@)->Object_0.dom(),
        at(deferred(), "index"@)->Object_0.dom() == set![
            "knn.advanced.approximate_threshold"@,
            "refresh_interval"@,
        ],
{
    assert(at(deferred(), "index"@)->Object_0.dom() =~= set![
        "knn.advanced.approximate_threshold"@,
        "refresh_interval"@,
    ]);
    assert(at(enabled(params), "index"@)->Object_0.dom() =~= set![
        "knn.advanced.approximate_threshold"@,
        "refresh_interval"@,
    ]);
}

/// An index that exists is kept unless it is to be recreated, and is deleted for no other reason.
pub proof fn law_an_index_is_deleted_only_to_be_recreated(
    index: Seq<char>,
    params: OpenSearchParams,
    schema: CollectionSchema,
    seen: EnsureSeen,
)
    ensures
        ensure_next(index, params, schema, seen) == Ok::<EnsureStepView, StoreErrorView>(
            EnsureStepView::Delete,
        ) ==> params.recreate && (seen matches EnsureSeen::Probed(reply) && success(reply.status)),
        (seen matches EnsureSeen::Probed(reply) && success(reply.status)) && !params.recreate
            ==> ensure_next(index, params, schema, seen) == Ok::<EnsureStepView, StoreErrorView>(
            EnsureStepView::Done,
        ),
{
}

/// The documents of a bulk request are those of the points, one each and in their order.
pub proof fn law_one_document_per_point(points: Seq<Point>)
    ensures
        operations(points) matches Ok(ops) ==> {
            &&& ops.len() == points.len()
            &&& forall|i: int|
                0 <= i < points.len() ==> operation(#[trigger] points[i]) == Ok::<
                    OperationView,
                    StoreErrorView,
                >(ops[i])
        },
        operations(points) is Err <==> exists|i: int|
            0 <= i < points.len() && operation(#[trigger] points[i]) is Err,
    decreases points.len(),
{
    if points.len() > 0 {
        let rest = points.drop_last();
        law_one_document_per_point(rest);
        if operations(rest) is Err {
            let i = choose|i: int| 0 <= i < rest.len() && operation(#[trigger] rest[i]) is Err;
            assert(operation(points[i]) is Err);
        }
        if operations(points) is Ok {
            let ops = operations(points)->Ok_0;
            assert forall|i: int| 0 <= i < points.len() implies operation(#[trigger] points[i])
                == Ok::<OperationView, StoreErrorView>(ops[i]) by {
                if i < rest.len() {
                    assert(rest[i] == points[i]);
                }
            }
        } else if operations(rest) is Ok {
            assert(operation(points[points.len() - 1]) is Err);
        }
    }
}

/// The item that a refused bulk request is reported with has an error, and no item before it
/// has; where there is none, no item has an error.
pub proof fn law_the_first_failed_item_is_reported(items: Seq<JsonView>)
    ensures
        match first_failed(items) {
            Some(item) => exists|i: int|
                {
                    &&& 0 <= i < items.len()
                    &&& #[trigger] items[i] == item
                    &&& !(at(at(item, "index"@), "error"@) is Null)
                    &&& forall|j: int|
                        0 <= j < i ==> at(at(#[trigger] items[j], "index"@), "error"@) is Null
                },
            None => forall|j: int|
                0 <= j < items.len() ==> at(at(#[trigger] items[j], "index"@), "error"@) is Null,
        },
    decreases items.len(),
{
    if items.len() > 0 {
        let rest = items.drop_last();
        law_the_first_failed_item_is_reported(rest);
        match first_failed(rest) {
            Some(item) => {
                let i = choose|i: int|
                    {
                        &&& 0 <= i < rest.len()
                        &&& #[trigger] rest[i] == item
                        &&& !(at(at(item, "index"@), "error"@) is Null)
                        &&& forall|j: int|
                            0 <= j < i ==> at(at(#[trigger] rest[j], "index"@), "error"@) is Null
                    };
                assert(items[i] == item);
                assert forall|j: int| 0 <= j < i implies at(
                    at(#[trigger] items[j], "index"@),
                    "error"@,
                ) is Null by {
                    assert(rest[j] == items[j]);
                }
            },
            None => {
                assert forall|j: int| 0 <= j < items.len() - 1 implies at(
                    at(#[trigger] items[j], "index"@),
                    "error"@,
                ) is Null by {
                    assert(rest[j] == items[j]);
                }
                assert(items[items.len() - 1] == items.last());
            },
        }
    }
}

} // verus!
