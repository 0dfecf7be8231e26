//! What is said of a live index that is not as configured, and what is said first.
use crate::json::JsonView;
use crate::json_path::{below, member, text_in, unsigned, value_or_null};
use crate::json_text::json_text;
use crate::load::check_laws::space_live;
use crate::load::config::{MethodConfig, OpenSearchParams, VectorSpec};
use crate::load::convert::{compression, data_type, engine_name, space_type, workload_mode};
use crate::load::error::{config_error_text, ConfigErrorView, StoreErrorView};
use crate::load::fixed::{difference, satisfies, DifferenceView};
use crate::load::mapping::method_object;
use crate::load::reindex::{guard, immutable, reindexed, unchanged_check};
use crate::load::settings::setting;
use crate::load::verify::{field_check, field_mismatch, mapping_check, method_check};
use crate::text::{ascii_lower, decimal};
use vstd::prelude::*;
use vstd::string::*;

verus! {

/// The text that a value is, or an empty one.
pub open spec fn text_or_empty(o: Option<JsonView>) -> Seq<char> {
    match o {
        Some(JsonView::Text(s)) => s,
        _ => ""@,
    }
}

/// A mismatch names the index, the field, the knob, what was requested and what is there; so does
/// the refusal of a change, with where it was asked for.
pub proof fn law_what_mismatches_say(
    index: Seq<char>,
    field: Seq<char>,
    knob: Seq<char>,
    place: Seq<char>,
    want: Seq<char>,
    got: Seq<char>,
)
    ensures
        field_mismatch(index, field, knob, want, got) == StoreErrorView::Other(
            "sanity check FAILED on "@ + ("opensearch("@ + index + ")"@) + " field `"@ + field
                + "`: requested "@ + knob + "="@ + want + " but the live mapping has "@ + got,
        ),
        immutable(knob, place, got, want) == StoreErrorView::Other(
            "reindex: opensearch cannot change `"@ + knob + "` in place on "@ + place + " ("@ + got
                + " → "@ + want + "); that needs a new index + a reload"@,
        ),
{
}

/// These texts differ from each other.
proof fn lemma_float()
    ensures
        "float"@ != ""@,
{
    reveal_strlit("float");
    reveal_strlit("");
    assert("float"@.len() == 5);
    assert(""@.len() == 0);
}

/// The mode that is requested of a field, where one is.
pub open spec fn mode_requested(params: OpenSearchParams, spec_: VectorSpec) -> Option<Seq<char>> {
    match params.mode {
        Some(m) => Some(ascii_lower(m@)),
        None => match spec_.on_disk {
            Some(b) => if b {
                Some("on_disk"@)
            } else {
                Some("in_memory"@)
            },
            None => None,
        },
    }
}

/// The first attribute that is not as configured is reported, of the dimension, the datatype, the
/// mode and the compression level in this order: what was requested, and what is there.
pub proof fn law_which_attribute_is_reported(
    name: Seq<char>,
    spec_: VectorSpec,
    params: OpenSearchParams,
    field: JsonView,
)
    requires
        data_type(name, text_in(spec_.datatype)) is Ok,
        workload_mode(text_in(params.mode)) is Ok,
        compression(text_in(params.compression_level)) is Ok,
    ensures
        ({
            let d = difference(name, spec_, params, field);
            let data = data_type(name, text_in(spec_.datatype))->Ok_0;
            let live_data = member(field, "data_type"@);
            let got_data = if live_data is None || live_data == Some(JsonView::Null) {
                "float"@
            } else {
                text_or_empty(live_data)
            };
            let mode = mode_requested(params, spec_);
            let level = text_in(params.compression_level);
            let sized = spec_.size matches Some(n) ==> member(field, "dimension"@) == Some(
                unsigned(n),
            );
            let typed = data matches Some(t) ==> live_data == Some(JsonView::Text(t)) || (t
                == "float"@ && (live_data is None || live_data == Some(JsonView::Null)));
            let placed = mode matches Some(m) ==> member(field, "mode"@) == Some(JsonView::Text(m));
            let packed = level matches Some(l) ==> member(field, "compression_level"@) == Some(
                JsonView::Text(ascii_lower(l)),
            );
            &&& d is Ok
            &&& d->Ok_0 is None <==> sized && typed && placed && packed
            &&& !sized ==> d->Ok_0 == Some(
                DifferenceView {
                    knob: "dimension"@,
                    want: decimal(spec_.size->0 as nat),
                    got: json_text(value_or_null(member(field, "dimension"@))),
                },
            )
            &&& sized && !typed ==> d->Ok_0 == Some(
                DifferenceView { knob: "data_type"@, want: data->0, got: got_data },
            )
            &&& sized && typed && !placed ==> d->Ok_0 == Some(
                DifferenceView {
                    knob: "mode"@,
                    want: mode->0,
                    got: text_or_empty(member(field, "mode"@)),
                },
            )
            &&& sized && typed && placed && !packed ==> d->Ok_0 == Some(
                DifferenceView {
                    knob: "compression_level"@,
                    want: ascii_lower(level->0),
                    got: text_or_empty(member(field, "compression_level"@)),
                },
            )
        }),
{
    lemma_float();
}

/// These texts differ from each other.
proof fn lemma_space_names()
    ensures
        ""@ != "cosinesimil"@,
        ""@ != "innerproduct"@,
        ""@ != "l2"@,
        ""@ != "l1"@,
        "cosinesimil"@ != "innerproduct"@,
        "cosinesimil"@ != "l2"@,
        "cosinesimil"@ != "l1"@,
        "innerproduct"@ != "l2"@,
        "innerproduct"@ != "l1"@,
        "l2"@ != "l1"@,
{
    reveal_strlit("");
    reveal_strlit("cosinesimil");
    reveal_strlit("innerproduct");
    reveal_strlit("l2");
    reveal_strlit("l1");
    assert(""@.len() == 0);
    assert("cosinesimil"@.len() == 11);
    assert("innerproduct"@.len() == 12);
    assert("l2"@.len() == 2);
    assert("l1"@.len() == 2);
    assert("l2"@[1] != "l1"@[1]);
}

/// A name that is not known is reported before any attribute is looked at: of the datatype, the mode
/// and the compression level the first.
pub proof fn law_which_unknown_name_is_reported(
    name: Seq<char>,
    spec_: VectorSpec,
    params: OpenSearchParams,
    field: JsonView,
)
    ensures
        ({
            let d = difference(name, spec_, params, field);
            let data = data_type(name, text_in(spec_.datatype));
            let mode = workload_mode(text_in(params.mode));
            let level = compression(text_in(params.compression_level));
            &&& data matches Err(e) ==> d == Err::<Option<DifferenceView>, ConfigErrorView>(e)
            &&& data is Ok ==> (mode matches Err(e) ==> d == Err::<
                Option<DifferenceView>,
                ConfigErrorView,
            >(e))
            &&& data is Ok && mode is Ok ==> (level matches Err(e) ==> d == Err::<
                Option<DifferenceView>,
                ConfigErrorView,
            >(e))
        }),
{
}

/// The space that a field names, or an empty text.
pub open spec fn space_named(field: JsonView) -> Seq<char> {
    match member(field, "space_type"@) {
        Some(JsonView::Text(s)) => s,
        _ => text_or_empty(below(member(field, "method"@), "space_type"@)),
    }
}

/// What the check says of a field first: that it is missing; else that its space is another one;
/// else what is wrong with its method; else which attribute is not as configured.
pub proof fn law_what_the_check_says_of_a_field(
    index: Seq<char>,
    params: OpenSearchParams,
    name: Seq<char>,
    spec_: VectorSpec,
    field: JsonView,
)
    ensures
        ({
            let check = field_check(index, params, name, spec_, field);
            let space = space_type(name, text_in(spec_.distance));
            &&& field is Null ==> check == Err::<(), StoreErrorView>(
                StoreErrorView::Other(
                    "sanity check FAILED on "@ + ("opensearch("@ + index + ")"@) + ": field `"@
                        + name + "` missing from the live mapping"@,
                ),
            )
            &&& !(field is Null) ==> (space matches Err(e) ==> check == Err::<(), StoreErrorView>(
                StoreErrorView::Other(config_error_text(e)),
            ))
            &&& !(field is Null) && space is Ok && !space_live(name, spec_, field) ==> check
                == Err::<(), StoreErrorView>(
                field_mismatch(index, name, "space_type"@, space->Ok_0, space_named(field)),
            )
            &&& !(field is Null) && space_live(name, spec_, field) ==> (params.method matches Some(
                m,
            ) ==> (method_check(index, name, m, field) matches Err(e) ==> check == Err::<
                (),
                StoreErrorView,
            >(e)))
            &&& !(field is Null) && space_live(name, spec_, field) && (params.method matches Some(m)
                ==> method_check(index, name, m, field) is Ok) ==> match difference(
                name,
                spec_,
                params,
                field,
            ) {
                Err(e) => check == Err::<(), StoreErrorView>(
                    StoreErrorView::Other(config_error_text(e)),
                ),
                Ok(Some(d)) => check == Err::<(), StoreErrorView>(
                    field_mismatch(index, name, d.knob, d.want, d.got),
                ),
                Ok(None) => check is Ok,
            }
        }),
{
    lemma_space_names();
}

/// These texts differ from each other.
proof fn lemma_engine_names()
    ensures
        ""@ != "faiss"@,
        ""@ != "lucene"@,
        ""@ != "nmslib"@,
        ""@ != "jvector"@,
        "faiss"@ != "lucene"@,
        "faiss"@ != "nmslib"@,
        "faiss"@ != "jvector"@,
        "lucene"@ != "nmslib"@,
        "lucene"@ != "jvector"@,
        "nmslib"@ != "jvector"@,
{
    reveal_strlit("");
    reveal_strlit("faiss");
    reveal_strlit("lucene");
    reveal_strlit("nmslib");
    reveal_strlit("jvector");
    assert(""@.len() == 0);
    assert("faiss"@.len() == 5);
    assert("lucene"@.len() == 6);
    assert("nmslib"@.len() == 6);
    assert("jvector"@.len() == 7);
    assert("lucene"@[0] != "nmslib"@[0]);
}

/// What the check says of a method first: that the engine is another one; else that `m`, else that
/// `ef_construction` is another number; else what the method is and what it should be.
pub proof fn law_what_the_check_says_of_a_method(
    index: Seq<char>,
    name: Seq<char>,
    method: MethodConfig,
    field: JsonView,
)
    requires
        method_object(method) is Ok,
    ensures
        ({
            let check = method_check(index, name, method, field);
            let live = member(field, "method"@);
            let parameters = below(live, "parameters"@);
            let engine = engine_name(text_in(method.engine))->Ok_0;
            let same_engine = below(live, "engine"@) == Some(JsonView::Text(engine));
            let same_m = method.m matches Some(n) ==> below(parameters, "m"@) == Some(
                unsigned(n as u64),
            );
            let same_ef = method.ef_construction matches Some(n) ==> below(
                parameters,
                "ef_construction"@,
            ) == Some(unsigned(n as u64));
            &&& !same_engine ==> check == Err::<(), StoreErrorView>(
                field_mismatch(
                    index,
                    name,
                    "engine"@,
                    engine,
                    text_or_empty(below(live, "engine"@)),
                ),
            )
            &&& same_engine && !same_m ==> check == Err::<(), StoreErrorView>(
                StoreErrorView::Other(
                    "sanity check FAILED on "@ + ("opensearch("@ + index + ")"@) + " field `"@
                        + name + "` "@ + "method.parameters.m"@ + ": requested "@ + decimal(
                        method.m->0 as nat,
                    ) + " but the live mapping has "@ + json_text(
                        value_or_null(below(parameters, "m"@)),
                    ),
                ),
            )
            &&& same_engine && same_m && !same_ef ==> check == Err::<(), StoreErrorView>(
                StoreErrorView::Other(
                    "sanity check FAILED on "@ + ("opensearch("@ + index + ")"@) + " field `"@
                        + name + "` "@ + "method.parameters.ef_construction"@ + ": requested "@
                        + decimal(method.ef_construction->0 as nat)
                        + " but the live mapping has "@ + json_text(
                        value_or_null(below(parameters, "ef_construction"@)),
                    ),
                ),
            )
            &&& same_engine && same_m && same_ef && check is Err ==> check == Err::<
                (),
                StoreErrorView,
            >(
                field_mismatch(
                    index,
                    name,
                    "method"@,
                    json_text(method_object(method)->Ok_0),
                    json_text(value_or_null(live)),
                ),
            )
        }),
{
    lemma_engine_names();
}

/// What a refused change says of a field first: that the field is not there; else that its space
/// would change; else that its method would; else which attribute would.
pub proof fn law_what_a_refusal_says_of_a_field(
    index: Seq<char>,
    params: OpenSearchParams,
    name: Seq<char>,
    spec_: VectorSpec,
    field: JsonView,
)
    ensures
        ({
            let check = unchanged_check(index, params, name, spec_, field);
            let space = space_type(name, text_in(spec_.distance));
            let live = value_or_null(member(field, "method"@));
            &&& field is Null ==> check == Err::<(), StoreErrorView>(
                StoreErrorView::Other(
                    "reindex: field `"@ + name + "` not found in the mapping on "@ + ("opensearch("@
                        + index + ")"@),
                ),
            )
            &&& !(field is Null) ==> (space matches Err(e) ==> check == Err::<(), StoreErrorView>(
                StoreErrorView::Other(config_error_text(e)),
            ))
            &&& !(field is Null) && space is Ok && !space_live(name, spec_, field) ==> check
                == Err::<(), StoreErrorView>(
                immutable(
                    "space_type"@,
                    "`"@ + name + "`"@,
                    space_named(field),
                    space->Ok_0,
                ),
            )
            &&& !(field is Null) && space_live(name, spec_, field) ==> (params.method matches Some(
                m,
            ) ==> match method_object(m) {
                Err(e) => check == Err::<(), StoreErrorView>(
                    StoreErrorView::Other(config_error_text(e)),
                ),
                Ok(want) => satisfies(want, live) || check == Err::<
                    (),
                    StoreErrorView,
                >(
                    StoreErrorView::Other(
                        "reindex: opensearch cannot change the ANN `method` in place on `"@ + name
                            + "` (live "@ + json_text(live) + ", requested "@ + json_text(want)
                            + "); every method field is immutable after index creation, so this needs a new index + a reload. Sweep it on a fresh-load axis, not an in-place one."@,
                    ),
                ),
            })
            &&& !(field is Null) && space_live(name, spec_, field) && (params.method matches Some(m)
                ==> (method_object(m) matches Ok(want) && satisfies(want, live))) ==> match difference(
                name,
                spec_,
                params,
                field,
            ) {
                Err(e) => check == Err::<(), StoreErrorView>(
                    StoreErrorView::Other(config_error_text(e)),
                ),
                Ok(Some(d)) => check == Err::<(), StoreErrorView>(
                    immutable(d.knob, "`"@ + name + "`"@, d.got, d.want),
                ),
                Ok(None) => check is Ok,
            }
        }),
{
    lemma_space_names();
}

/// A check of several fields says what it says of the first one that fails.
pub proof fn law_the_first_field_that_fails_is_reported(
    index: Seq<char>,
    params: OpenSearchParams,
    vectors: Seq<(String, VectorSpec)>,
    props: JsonView,
    i: int,
)
    requires
        0 <= i < vectors.len(),
    ensures
        (forall|k: int|
            0 <= k < i ==> field_check(
                index,
                params,
                #[trigger] vectors[k].0@,
                vectors[k].1,
                value_or_null(member(props, vectors[k].0@)),
            ) is Ok) ==> (field_check(
            index,
            params,
            vectors[i].0@,
            vectors[i].1,
            value_or_null(member(props, vectors[i].0@)),
        ) matches Err(e) ==> mapping_check(index, params, vectors, props) == Err::<
            (),
            StoreErrorView,
        >(e)),
        (forall|k: int|
            0 <= k < i ==> unchanged_check(
                index,
                params,
                #[trigger] vectors[k].0@,
                vectors[k].1,
                value_or_null(member(props, vectors[k].0@)),
            ) is Ok) ==> (unchanged_check(
            index,
            params,
            vectors[i].0@,
            vectors[i].1,
            value_or_null(member(props, vectors[i].0@)),
        ) matches Err(e) ==> guard(index, params, vectors, props) == Err::<(), StoreErrorView>(e)),
    decreases vectors.len(),
{
    let rest = vectors.drop_last();
    assert forall|k: int| 0 <= k < rest.len() implies #[trigger] rest[k] == vectors[k] by {}
    if i < rest.len() {
        law_the_first_field_that_fails_is_reported(index, params, rest, props, i);
        assert forall|k: int|
            0 <= k < i && field_check(
                index,
                params,
                vectors[k].0@,
                vectors[k].1,
                value_or_null(member(props, vectors[k].0@)),
            ) is Ok implies field_check(
            index,
            params,
            #[trigger] rest[k].0@,
            rest[k].1,
            value_or_null(member(props, rest[k].0@)),
        ) is Ok by {
            assert(rest[k] == vectors[k]);
        }
        lemma_prefix(index, params, vectors, props, i);
    } else {
        lemma_all_pass(index, params, rest, props);
        lemma_prefix(index, params, vectors, props, i);
    }
}

/// What holds of the fields of the first vectors holds of them among all.
proof fn lemma_prefix(
    index: Seq<char>,
    params: OpenSearchParams,
    vectors: Seq<(String, VectorSpec)>,
    props: JsonView,
    i: int,
)
    requires
        0 <= i < vectors.len(),
    ensures
        (forall|k: int|
            0 <= k < i ==> field_check(
                index,
                params,
                #[trigger] vectors[k].0@,
                vectors[k].1,
                value_or_null(member(props, vectors[k].0@)),
            ) is Ok) ==> forall|k: int|
            0 <= k < i ==> field_check(
                index,
                params,
                #[trigger] vectors.drop_last()[k].0@,
                vectors.drop_last()[k].1,
                value_or_null(member(props, vectors.drop_last()[k].0@)),
            ) is Ok,
        (forall|k: int|
            0 <= k < i ==> unchanged_check(
                index,
                params,
                #[trigger] vectors[k].0@,
                vectors[k].1,
                value_or_null(member(props, vectors[k].0@)),
            ) is Ok) ==> forall|k: int|
            0 <= k < i ==> unchanged_check(
                index,
                params,
                #[trigger] vectors.drop_last()[k].0@,
                vectors.drop_last()[k].1,
                value_or_null(member(props, vectors.drop_last()[k].0@)),
            ) is Ok,
{
    assert forall|k: int| 0 <= k < i implies #[trigger] vectors.drop_last()[k].0@
        == vectors[k].0@ by {}
}

/// Fields that all pass let the whole check pass.
proof fn lemma_all_pass(
    index: Seq<char>,
    params: OpenSearchParams,
    vectors: Seq<(String, VectorSpec)>,
    props: JsonView,
)
    ensures
        (forall|k: int|
            0 <= k < vectors.len() ==> field_check(
                index,
                params,
                #[trigger] vectors[k].0@,
                vectors[k].1,
                value_or_null(member(props, vectors[k].0@)),
            ) is Ok) ==> mapping_check(index, params, vectors, props) is Ok,
        (forall|k: int|
            0 <= k < vectors.len() ==> unchanged_check(
                index,
                params,
                #[trigger] vectors[k].0@,
                vectors[k].1,
                value_or_null(member(props, vectors[k].0@)),
            ) is Ok) ==> guard(index, params, vectors, props) is Ok,
    decreases vectors.len(),
{
    if vectors.len() > 0 {
        lemma_all_pass(index, params, vectors.drop_last(), props);
        lemma_prefix(index, params, vectors, props, vectors.len() - 1);
        assert(vectors[vectors.len() - 1].0@ == vectors.last().0@);
    }
}

/// A refused change says what stands against it: a field first, then the number of shards.
pub proof fn law_what_a_refused_change_says(
    index: Seq<char>,
    params: OpenSearchParams,
    vectors: Seq<(String, VectorSpec)>,
    props: JsonView,
    settings: JsonView,
)
    ensures
        guard(index, params, vectors, props) matches Err(e) ==> reindexed(
            index,
            params,
            vectors,
            props,
            settings,
        ) == Err::<Option<JsonView>, StoreErrorView>(e),
        guard(index, params, vectors, props) is Ok && reindexed(
            index,
            params,
            vectors,
            props,
            settings,
        ) is Err ==> reindexed(index, params, vectors, props, settings) == Err::<
            Option<JsonView>,
            StoreErrorView,
        >(
            immutable(
                "number_of_shards"@,
                "opensearch("@ + index + ")"@,
                json_text(setting(settings, "number_of_shards"@)),
                decimal(params.shards->0 as nat),
            ),
        ),
{
}

} // verus!
