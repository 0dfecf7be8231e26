//! What a live index is like that passes the check, or that nothing has to be changed in: stated on
//! the JSON that the server reports.
use crate::json::{at, lemma_same_json_reflexive, same_json, JsonView};
use crate::json_path::{below, member, text_in, unsigned, value_or_null};
use crate::json_text::json_text;
use crate::load::body_laws::{law_what_a_method_has, law_what_an_encoder_has};
use crate::load::config::{EncoderConfig, MethodConfig, OpenSearchParams, VectorSpec};
use crate::load::convert::{compression, data_type, engine_name, method_name, space_type};
use crate::load::error::StoreErrorView;
use crate::load::fixed::{covers, reports, reports_encoder, satisfies};
use crate::load::live_laws::law_the_check_passes_if_every_field_does;
use crate::load::mapping::{
    encoder_object, encoder_parameters, method_knobs, method_object, method_parameters,
    update_settings,
};
use crate::load::reindex::{guard, reindexed, unchanged_check};
use crate::load::settings::setting;
use crate::load::verify::{
    attributes_check, field_check, knob_check, mapping_check, method_check, setting_check,
    settings_check, text_setting_check, verify_next, VerifySeen, VerifyStep,
};
use crate::text::{ascii_lower, decimal, parsed};
use vstd::prelude::*;
use vstd::string::*;

verus! {

/// A knob that is set is the number that is reported.
pub open spec fn knob_live(want: Option<u32>, got: Option<JsonView>) -> bool {
    want matches Some(n) ==> got == Some(unsigned(n as u64))
}

/// A live field has the space of the configured distance: at its top level, or inside its method
/// where the top level names none.
pub open spec fn space_live(name: Seq<char>, spec_: VectorSpec, field: JsonView) -> bool {
    space_type(name, text_in(spec_.distance)) matches Ok(space) && {
        ||| member(field, "space_type"@) == Some(JsonView::Text(space))
        ||| {
            &&& !(member(field, "space_type"@) matches Some(JsonView::Text(_)))
            &&& below(member(field, "method"@), "space_type"@) == Some(JsonView::Text(space))
        }
    }
}

/// A live field has the size, the datatype, the mode and the compression level that are configured;
/// a field without a datatype holds floats.
pub open spec fn attributes_live(
    name: Seq<char>,
    spec_: VectorSpec,
    params: OpenSearchParams,
    field: JsonView,
) -> bool {
    &&& spec_.size matches Some(n) ==> member(field, "dimension"@) == Some(unsigned(n))
    &&& spec_.datatype matches Some(d) ==> (data_type(name, Some(d@)) matches Ok(Some(t)) && {
        ||| member(field, "data_type"@) == Some(JsonView::Text(t))
        ||| t == "float"@ && (member(field, "data_type"@) is None || member(field, "data_type"@)
            == Some(JsonView::Null))
    })
    &&& params.mode matches Some(m) ==> {
        &&& ascii_lower(m@) == "on_disk"@ || ascii_lower(m@) == "in_memory"@
        &&& member(field, "mode"@) == Some(JsonView::Text(ascii_lower(m@)))
    }
    &&& params.mode is None && spec_.on_disk == Some(true) ==> member(field, "mode"@) == Some(
        JsonView::Text("on_disk"@),
    )
    &&& params.mode is None && spec_.on_disk == Some(false) ==> member(field, "mode"@) == Some(
        JsonView::Text("in_memory"@),
    )
    &&& params.compression_level matches Some(l) ==> {
        &&& compression(Some(l@)) is Ok
        &&& member(field, "compression_level"@) == Some(JsonView::Text(ascii_lower(l@)))
    }
}

/// A live encoder has the configured name, and every knob that is set.
pub open spec fn encoder_live(enc: EncoderConfig, got: Option<JsonView>) -> bool {
    let parameters = below(got, "parameters"@);
    &&& ascii_lower(enc.name@) == "flat"@ || ascii_lower(enc.name@) == "sq"@ || ascii_lower(
        enc.name@,
    ) == "pq"@
    &&& below(got, "name"@) == Some(JsonView::Text(ascii_lower(enc.name@)))
    &&& knob_live(enc.m, below(parameters, "m"@))
    &&& knob_live(enc.code_size, below(parameters, "code_size"@))
    &&& enc.sq_type matches Some(t) ==> below(parameters, "type"@) == Some(JsonView::Text(t@))
    &&& enc.clip matches Some(b) ==> below(parameters, "clip"@) == Some(JsonView::Bool(b))
    &&& knob_live(enc.bits, below(parameters, "bits"@))
}

/// A live method has every number knob that is set.
pub open spec fn knobs_live(method: MethodConfig, parameters: Option<JsonView>) -> bool {
    &&& knob_live(method.m, below(parameters, "m"@))
    &&& knob_live(method.ef_construction, below(parameters, "ef_construction"@))
    &&& knob_live(method.ef_search, below(parameters, "ef_search"@))
    &&& knob_live(method.nlist, below(parameters, "nlist"@))
    &&& knob_live(method.nprobes, below(parameters, "nprobes"@))
}

/// A live field has the configured engine, and of the method whatever is set: its name, its number
/// knobs and its encoder.
pub open spec fn method_live(method: MethodConfig, field: JsonView) -> bool {
    let live = member(field, "method"@);
    let parameters = below(live, "parameters"@);
    &&& engine_name(text_in(method.engine)) matches Ok(engine) && below(live, "engine"@) == Some(
        JsonView::Text(engine),
    )
    &&& method.name matches Some(v) ==> (method_name(Some(v@)) matches Ok(name) && below(
        live,
        "name"@,
    ) == Some(JsonView::Text(name)))
    &&& knobs_live(method, parameters)
    &&& method.encoder matches Some(enc) ==> encoder_live(enc, below(parameters, "encoder"@))
}

/// A live field is as configured.
pub open spec fn field_live(
    name: Seq<char>,
    spec_: VectorSpec,
    params: OpenSearchParams,
    field: JsonView,
) -> bool {
    &&& !(field is Null)
    &&& space_live(name, spec_, field)
    &&& params.method matches Some(m) ==> method_live(m, field)
    &&& attributes_live(name, spec_, params, field)
}

/// These texts differ from each other.
proof fn lemma_knob_keys()
    ensures
        "m"@ != "ef_construction"@,
        "m"@ != "ef_search"@,
        "m"@ != "nlist"@,
        "m"@ != "nprobes"@,
        "m"@ != "encoder"@,
        "ef_construction"@ != "ef_search"@,
        "ef_construction"@ != "nlist"@,
        "ef_construction"@ != "nprobes"@,
        "ef_construction"@ != "encoder"@,
        "ef_search"@ != "nlist"@,
        "ef_search"@ != "nprobes"@,
        "ef_search"@ != "encoder"@,
        "nlist"@ != "nprobes"@,
        "nlist"@ != "encoder"@,
        "nprobes"@ != "encoder"@,
{
    reveal_strlit("m");
    reveal_strlit("ef_construction");
    reveal_strlit("ef_search");
    reveal_strlit("nlist");
    reveal_strlit("nprobes");
    reveal_strlit("encoder");
    assert("m"@.len() == 1);
    assert("ef_construction"@.len() == 15);
    assert("ef_search"@.len() == 9);
    assert("nlist"@.len() == 5);
    assert("nprobes"@.len() == 7);
    assert("encoder"@.len() == 7);
    assert("nprobes"@[0] != "encoder"@[0]);
}

/// These texts differ from each other.
proof fn lemma_encoder_knob_keys()
    ensures
        "m"@ != "code_size"@,
        "m"@ != "type"@,
        "m"@ != "clip"@,
        "m"@ != "bits"@,
        "code_size"@ != "type"@,
        "code_size"@ != "clip"@,
        "code_size"@ != "bits"@,
        "type"@ != "clip"@,
        "type"@ != "bits"@,
        "clip"@ != "bits"@,
{
    reveal_strlit("m");
    reveal_strlit("code_size");
    reveal_strlit("type");
    reveal_strlit("clip");
    reveal_strlit("bits");
    assert("m"@.len() == 1);
    assert("code_size"@.len() == 9);
    assert("type"@.len() == 4);
    assert("clip"@.len() == 4);
    assert("bits"@.len() == 4);
    assert("type"@[0] != "clip"@[0]);
    assert("type"@[0] != "bits"@[0]);
    assert("clip"@[0] != "bits"@[0]);
}

/// These texts differ from each other.
proof fn lemma_space_names()
    ensures
        ""@ != "cosinesimil"@,
        ""@ != "innerproduct"@,
        ""@ != "l2"@,
        ""@ != "l1"@,
        "cosinesimil"@ != "innerproduct"@,
        "cosinesimil"@ != "l2"@,
        "cosinesimil"@ != "l1"@,
        "innerproduct"@ != "l2"@,
        "innerproduct"@ != "l1"@,
        "l2"@ != "l1"@,
{
    reveal_strlit("");
    reveal_strlit("cosinesimil");
    reveal_strlit("innerproduct");
    reveal_strlit("l2");
    reveal_strlit("l1");
    assert(""@.len() == 0);
    assert("cosinesimil"@.len() == 11);
    assert("innerproduct"@.len() == 12);
    assert("l2"@.len() == 2);
    assert("l1"@.len() == 2);
    assert("l2"@[1] != "l1"@[1]);
}

/// These texts differ from each other.
proof fn lemma_engine_names()
    ensures
        ""@ != "faiss"@,
        ""@ != "lucene"@,
        ""@ != "nmslib"@,
        ""@ != "jvector"@,
        "faiss"@ != "lucene"@,
        "faiss"@ != "nmslib"@,
        "faiss"@ != "jvector"@,
        "lucene"@ != "nmslib"@,
        "lucene"@ != "jvector"@,
        "nmslib"@ != "jvector"@,
{
    reveal_strlit("");
    reveal_strlit("faiss");
    reveal_strlit("lucene");
    reveal_strlit("nmslib");
    reveal_strlit("jvector");
    assert(""@.len() == 0);
    assert("faiss"@.len() == 5);
    assert("lucene"@.len() == 6);
    assert("nmslib"@.len() == 6);
    assert("jvector"@.len() == 7);
    assert("lucene"@[0] != "nmslib"@[0]);
}

proof fn lemma_covers_knobs(method: MethodConfig, parameters: JsonView)
    ensures
        covers(method_knobs(method), parameters) <==> knobs_live(method, Some(parameters)),
{
    lemma_knob_keys();
    let knobs = method_knobs(method);
    if covers(knobs, parameters) {
        if method.m is Some {
            assert(knobs.dom().contains("m"@));
        }
        if method.ef_construction is Some {
            assert(knobs.dom().contains("ef_construction"@));
        }
        if method.ef_search is Some {
            assert(knobs.dom().contains("ef_search"@));
        }
        if method.nlist is Some {
            assert(knobs.dom().contains("nlist"@));
        }
        if method.nprobes is Some {
            assert(knobs.dom().contains("nprobes"@));
        }
    }
}

proof fn lemma_covers_encoder_knobs(enc: EncoderConfig, parameters: JsonView)
    ensures
        covers(encoder_parameters(enc), parameters) <==> {
            &&& knob_live(enc.m, member(parameters, "m"@))
            &&& knob_live(enc.code_size, member(parameters, "code_size"@))
            &&& enc.sq_type matches Some(t) ==> member(parameters, "type"@) == Some(
                JsonView::Text(t@),
            )
            &&& enc.clip matches Some(b) ==> member(parameters, "clip"@) == Some(JsonView::Bool(b))
            &&& knob_live(enc.bits, member(parameters, "bits"@))
        },
{
    lemma_encoder_knob_keys();
    let knobs = encoder_parameters(enc);
    if covers(knobs, parameters) {
        if enc.m is Some {
            assert(knobs.dom().contains("m"@));
        }
        if enc.code_size is Some {
            assert(knobs.dom().contains("code_size"@));
        }
        if enc.sq_type is Some {
            assert(knobs.dom().contains("type"@));
        }
        if enc.clip is Some {
            assert(knobs.dom().contains("clip"@));
        }
        if enc.bits is Some {
            assert(knobs.dom().contains("bits"@));
        }
    }
}

proof fn lemma_reports_encoder(enc: EncoderConfig, parameters: JsonView)
    ensures
        reports_encoder(enc, at(parameters, "encoder"@)) <==> encoder_live(
            enc,
            member(parameters, "encoder"@),
        ),
{
    law_what_an_encoder_has(enc);
    let live = at(parameters, "encoder"@);
    lemma_covers_encoder_knobs(enc, at(live, "parameters"@));
}

/// A live method reports the configured one exactly if it has whatever is set of it: its name, its
/// number knobs and its encoder.
pub proof fn law_when_a_method_is_reported(method: MethodConfig, field: JsonView)
    ensures
        reports(method, at(field, "method"@)) <==> {
            let live = member(field, "method"@);
            let parameters = below(live, "parameters"@);
            &&& method.name matches Some(v) ==> (method_name(Some(v@)) matches Ok(name) && below(
                live,
                "name"@,
            ) == Some(JsonView::Text(name)))
            &&& knobs_live(method, parameters)
            &&& method.encoder matches Some(enc) ==> encoder_live(
                enc,
                below(parameters, "encoder"@),
            )
        },
{
    let live = at(field, "method"@);
    let parameters = at(live, "parameters"@);
    lemma_covers_knobs(method, parameters);
    match method.encoder {
        Some(enc) => {
            lemma_reports_encoder(enc, parameters);
        },
        None => {},
    }
}

proof fn lemma_method_check(index: Seq<char>, name: Seq<char>, method: MethodConfig, field: JsonView)
    ensures
        method_check(index, name, method, field) is Ok <==> method_live(method, field),
{
    law_when_a_method_is_reported(method, field);
    lemma_engine_names();
    match method.encoder {
        Some(enc) => {
            law_what_an_encoder_has(enc);
        },
        None => {},
    }
}

proof fn lemma_attributes(
    index: Seq<char>,
    params: OpenSearchParams,
    name: Seq<char>,
    spec_: VectorSpec,
    field: JsonView,
)
    ensures
        attributes_check(index, params, name, spec_, field) is Ok <==> attributes_live(
            name,
            spec_,
            params,
            field,
        ),
{
}

/// The check of a field passes exactly if the field is there and everything that is configured is
/// what the server reports, knob by knob.
pub proof fn law_when_a_field_passes(
    index: Seq<char>,
    params: OpenSearchParams,
    name: Seq<char>,
    spec_: VectorSpec,
    field: JsonView,
)
    ensures
        field_check(index, params, name, spec_, field) is Ok <==> field_live(
            name,
            spec_,
            params,
            field,
        ),
{
    lemma_space_names();
    lemma_attributes(index, params, name, spec_, field);
    match params.method {
        Some(m) => {
            lemma_method_check(index, name, m, field);
        },
        None => {},
    }
}

/// The check of a mapping passes exactly if every expected field is there and has everything that
/// is configured for it, knob by knob.
pub proof fn law_when_a_mapping_passes(
    index: Seq<char>,
    params: OpenSearchParams,
    expected: Seq<(String, VectorSpec)>,
    props: JsonView,
)
    ensures
        mapping_check(index, params, expected, props) is Ok <==> forall|i: int|
            0 <= i < expected.len() ==> (member(props, #[trigger] expected[i].0@) matches Some(
                field,
            ) && field_live(expected[i].0@, expected[i].1, params, field)),
{
    law_the_check_passes_if_every_field_does(index, params, expected, props);
    assert forall|i: int| 0 <= i < expected.len() implies (field_check(
        index,
        params,
        #[trigger] expected[i].0@,
        expected[i].1,
        at(props, expected[i].0@),
    ) is Ok <==> (member(props, expected[i].0@) matches Some(field) && field_live(
        expected[i].0@,
        expected[i].1,
        params,
        field,
    ))) by {
        law_when_a_field_passes(
            index,
            params,
            expected[i].0@,
            expected[i].1,
            at(props, expected[i].0@),
        );
    }
}

/// Where the check of a mapping passes, each of the knobs `m`, `ef_construction`, `ef_search`,
/// `nlist` and `nprobes` that the configured method sets is, for every expected field, the number
/// that the server reports under `method.parameters`.
pub proof fn law_every_knob_is_checked(
    index: Seq<char>,
    params: OpenSearchParams,
    expected: Seq<(String, VectorSpec)>,
    props: JsonView,
    i: int,
    method: MethodConfig,
    n: u32,
)
    requires
        mapping_check(index, params, expected, props) is Ok,
        0 <= i < expected.len(),
        params.method == Some(method),
    ensures
        ({
            let parameters = below(
                below(member(props, expected[i].0@), "method"@),
                "parameters"@,
            );
            &&& method.m == Some(n) ==> below(parameters, "m"@) == Some(unsigned(n as u64))
            &&& method.ef_construction == Some(n) ==> below(parameters, "ef_construction"@) == Some(
                unsigned(n as u64),
            )
            &&& method.ef_search == Some(n) ==> below(parameters, "ef_search"@) == Some(
                unsigned(n as u64),
            )
            &&& method.nlist == Some(n) ==> below(parameters, "nlist"@) == Some(unsigned(n as u64))
            &&& method.nprobes == Some(n) ==> below(parameters, "nprobes"@) == Some(
                unsigned(n as u64),
            )
        }),
{
    law_when_a_mapping_passes(index, params, expected, props);
    assert(member(props, expected[i].0@) is Some);
}

/// A live field has the configured method as it would be created: its name and its engine, every
/// number knob that is set, and the whole encoder. What else is reported of it does not matter.
pub open spec fn method_kept(method: MethodConfig, field: JsonView) -> bool {
    let live = member(field, "method"@);
    let parameters = below(live, "parameters"@);
    &&& method_name(text_in(method.name)) matches Ok(name) && below(live, "name"@) == Some(
        JsonView::Text(name),
    )
    &&& engine_name(text_in(method.engine)) matches Ok(engine) && below(live, "engine"@) == Some(
        JsonView::Text(engine),
    )
    &&& knobs_live(method, parameters)
    &&& method.encoder matches Some(enc) ==> (encoder_object(enc) matches Ok(e) && below(
        parameters,
        "encoder"@,
    ) == Some(e))
}

/// An encoder that equals a built one is that one.
proof fn lemma_same_encoder(enc: EncoderConfig, got: JsonView)
    requires
        encoder_object(enc) is Ok,
    ensures
        same_json(got, encoder_object(enc)->Ok_0) <==> got == encoder_object(enc)->Ok_0,
{
    let want = encoder_object(enc)->Ok_0;
    lemma_encoder_knob_keys();
    if got == want {
        lemma_same_json_reflexive(want);
    }
    if same_json(got, want) {
        let x = got->Object_0;
        let y = want->Object_0;
        let knobs = encoder_parameters(enc);
        assert forall|k: Seq<char>| #[trigger] y.dom().contains(k) implies x[k] == y[k] by {
            assert(x.dom().contains(k));
            assert(same_json(x[k], y[k]));
            if k == "parameters"@ && y[k] == JsonView::Object(knobs) {
                let px = x[k]->Object_0;
                assert forall|j: Seq<char>| #[trigger] knobs.dom().contains(j) implies px[j]
                    == knobs[j] by {
                    assert(px.dom().contains(j));
                    assert(same_json(px[j], knobs[j]));
                }
                assert(px =~= knobs);
            }
        }
        assert(x =~= y);
    }
}

proof fn lemma_satisfies(method: MethodConfig, field: JsonView)
    requires
        method_object(method) is Ok,
    ensures
        satisfies(method_object(method)->Ok_0, at(field, "method"@)) <==> method_kept(
            method,
            field,
        ),
{
    law_what_a_method_has(method);
    lemma_knob_keys();
    let want = method_object(method)->Ok_0;
    let live = at(field, "method"@);
    let parameters = at(live, "parameters"@);
    let w = method_parameters(method)->Ok_0;
    let knobs = method_knobs(method);
    lemma_covers_knobs(method, parameters);
    match method.encoder {
        Some(enc) => {
            lemma_same_encoder(enc, at(parameters, "encoder"@));
            assert(w.dom().contains("encoder"@));
            assert(at(want, "parameters"@) == JsonView::Object(w));
            if covers(w, parameters) {
                assert forall|k: Seq<char>| #[trigger] knobs.dom().contains(k) implies {
                    &&& parameters is Object
                    &&& parameters->Object_0.dom().contains(k)
                    &&& same_json(parameters->Object_0[k], knobs[k])
                } by {
                    assert(w.dom().contains(k) && w[k] == knobs[k]);
                }
                assert(covers(knobs, parameters));
            }
            if method_kept(method, field) {
                assert(covers(knobs, parameters));
                assert forall|k: Seq<char>| #[trigger] w.dom().contains(k) implies {
                    &&& parameters is Object
                    &&& parameters->Object_0.dom().contains(k)
                    &&& same_json(parameters->Object_0[k], w[k])
                } by {
                    if k != "encoder"@ {
                        assert(knobs.dom().contains(k) && w[k] == knobs[k]);
                    }
                }
            }
        },
        None => {
            if knobs.dom() =~= Set::<Seq<char>>::empty() {
                assert(covers(knobs, parameters));
            } else {
                assert(at(want, "parameters"@) == JsonView::Object(knobs));
            }
        },
    }
}

/// A live method satisfies another exactly if it is there, with the same name and the same engine,
/// and has every parameter of the other, with its value.
pub proof fn law_when_a_method_satisfies(want: JsonView, got: JsonView)
    ensures
        satisfies(want, got) <==> {
            &&& !(got is Null)
            &&& same_json(value_or_null(member(want, "name"@)), value_or_null(member(got, "name"@)))
            &&& same_json(
                value_or_null(member(want, "engine"@)),
                value_or_null(member(got, "engine"@)),
            )
            &&& member(want, "parameters"@) matches Some(JsonView::Object(w)) ==> forall|
                k: Seq<char>,
            | #[trigger]
                w.dom().contains(k) ==> (below(member(got, "parameters"@), k) matches Some(v)
                    && same_json(v, w[k]))
        },
{
    match member(want, "parameters"@) {
        Some(JsonView::Object(w)) => {
            assert(at(want, "parameters"@) == JsonView::Object(w));
            let parameters = at(got, "parameters"@);
            assert forall|k: Seq<char>| #[trigger] w.dom().contains(k) implies ((below(
                member(got, "parameters"@),
                k,
            ) matches Some(v) && same_json(v, w[k])) <==> {
                &&& parameters is Object
                &&& parameters->Object_0.dom().contains(k)
                &&& same_json(parameters->Object_0[k], w[k])
            }) by {}
            if covers(w, parameters) {
                assert forall|k: Seq<char>| #[trigger] w.dom().contains(k) implies (below(
                    member(got, "parameters"@),
                    k,
                ) matches Some(v) && same_json(v, w[k])) by {}
            }
        },
        _ => {},
    }
}

/// A field can stay as it is exactly if it is there, in the configured space, with the configured
/// method as it would be created, and with every configured attribute.
pub open spec fn field_kept(
    name: Seq<char>,
    spec_: VectorSpec,
    params: OpenSearchParams,
    field: JsonView,
) -> bool {
    &&& !(field is Null)
    &&& space_live(name, spec_, field)
    &&& params.method matches Some(m) ==> method_kept(m, field)
    &&& attributes_live(name, spec_, params, field)
}

proof fn lemma_unchanged(
    index: Seq<char>,
    params: OpenSearchParams,
    name: Seq<char>,
    spec_: VectorSpec,
    field: JsonView,
)
    ensures
        unchanged_check(index, params, name, spec_, field) is Ok <==> field_kept(
            name,
            spec_,
            params,
            field,
        ),
{
    lemma_space_names();
    lemma_attributes(index, params, name, spec_, field);
    match params.method {
        Some(m) => {
            law_what_a_method_has(m);
            if method_object(m) is Ok {
                lemma_satisfies(m, field);
            }
        },
        None => {},
    }
}

proof fn lemma_guard(
    index: Seq<char>,
    params: OpenSearchParams,
    vectors: Seq<(String, VectorSpec)>,
    props: JsonView,
)
    ensures
        guard(index, params, vectors, props) is Ok <==> forall|i: int|
            0 <= i < vectors.len() ==> (member(props, #[trigger] vectors[i].0@) matches Some(field)
                && field_kept(vectors[i].0@, vectors[i].1, params, field)),
    decreases vectors.len(),
{
    if vectors.len() > 0 {
        let rest = vectors.drop_last();
        let last = vectors.last();
        lemma_guard(index, params, rest, props);
        lemma_unchanged(index, params, last.0@, last.1, at(props, last.0@));
        assert(vectors[vectors.len() - 1].0@ == last.0@);
        if guard(index, params, vectors, props) is Ok {
            assert forall|i: int| 0 <= i < vectors.len() implies (member(
                props,
                #[trigger] vectors[i].0@,
            ) matches Some(field) && field_kept(vectors[i].0@, vectors[i].1, params, field)) by {
                if i < rest.len() {
                    assert(rest[i].0@ == vectors[i].0@);
                }
            }
        } else if guard(index, params, rest, props) is Err {
            let i = choose|i: int|
                0 <= i < rest.len() && !(member(props, #[trigger] rest[i].0@) matches Some(field)
                    && field_kept(rest[i].0@, rest[i].1, params, field));
            assert(vectors[i].0@ == rest[i].0@);
        }
    }
}

/// A live setting reports a number: as a number, or as a text that writes it.
pub open spec fn number_live(n: u32, got: JsonView) -> bool {
    ||| got == unsigned(n as u64)
    ||| got matches JsonView::Text(s) && parsed(s) == Some(n as u64)
}

/// A change in place is accepted exactly if every field can stay as it is, and the index has the
/// configured number of shards where one is configured; what is then changed are the dynamic
/// settings.
pub proof fn law_when_a_change_in_place_is_accepted(
    index: Seq<char>,
    params: OpenSearchParams,
    vectors: Seq<(String, VectorSpec)>,
    props: JsonView,
    settings: JsonView,
)
    ensures
        reindexed(index, params, vectors, props, settings) is Ok <==> {
            &&& forall|i: int|
                0 <= i < vectors.len() ==> (member(props, #[trigger] vectors[i].0@) matches Some(
                    field,
                ) && field_kept(vectors[i].0@, vectors[i].1, params, field))
            &&& params.shards matches Some(n) ==> number_live(
                n,
                setting(settings, "number_of_shards"@),
            )
        },
        reindexed(index, params, vectors, props, settings) matches Ok(body) ==> body
            == update_settings(params),
{
    lemma_guard(index, params, vectors, props);
}

/// The check of the settings passes exactly if every setting that is configured is what the server
/// reports: a number as a number or in a text, a refresh interval as its text.
pub proof fn law_when_settings_pass(
    index: Seq<char>,
    params: OpenSearchParams,
    settings: JsonView,
)
    ensures
        settings_check(index, params, settings) is Ok <==> {
            &&& params.shards matches Some(n) ==> number_live(
                n,
                setting(settings, "number_of_shards"@),
            )
            &&& params.replicas matches Some(n) ==> number_live(
                n,
                setting(settings, "number_of_replicas"@),
            )
            &&& params.ef_search matches Some(n) ==> number_live(
                n,
                setting(settings, "knn.algo_param.ef_search"@),
            )
            &&& params.refresh_interval matches Some(t) ==> setting(settings, "refresh_interval"@)
                == JsonView::Text(t@)
        },
{
}

/// The check looks at the mapping first, where vectors are expected, then at the settings; it is
/// done only with both in order, and a fault of either ends it.
pub proof fn law_the_check_looks_at_mapping_and_settings(
    index: Seq<char>,
    params: OpenSearchParams,
    expected: Seq<(String, VectorSpec)>,
    seen: VerifySeen,
)
    ensures
        seen is Nothing && expected.len() == 0 ==> verify_next(index, params, expected, seen)
            == Ok::<VerifyStep, StoreErrorView>(VerifyStep::FetchSettings),
        seen is Nothing && expected.len() > 0 ==> verify_next(index, params, expected, seen) == Ok::<
            VerifyStep,
            StoreErrorView,
        >(VerifyStep::FetchProperties),
        seen matches VerifySeen::Properties(props) ==> {
            let passes = forall|i: int|
                0 <= i < expected.len() ==> (member(props@, #[trigger] expected[i].0@) matches Some(
                    field,
                ) && field_live(expected[i].0@, expected[i].1, params, field));
            &&& passes ==> verify_next(index, params, expected, seen) == Ok::<
                VerifyStep,
                StoreErrorView,
            >(VerifyStep::FetchSettings)
            &&& !passes ==> verify_next(index, params, expected, seen) is Err
        },
        seen matches VerifySeen::Settings(settings) ==> {
            let passes = {
                &&& params.shards matches Some(n) ==> number_live(
                    n,
                    setting(settings@, "number_of_shards"@),
                )
                &&& params.replicas matches Some(n) ==> number_live(
                    n,
                    setting(settings@, "number_of_replicas"@),
                )
                &&& params.ef_search matches Some(n) ==> number_live(
                    n,
                    setting(settings@, "knn.algo_param.ef_search"@),
                )
                &&& params.refresh_interval matches Some(t) ==> setting(
                    settings@,
                    "refresh_interval"@,
                ) == JsonView::Text(t@)
            };
            &&& passes ==> verify_next(index, params, expected, seen) == Ok::<
                VerifyStep,
                StoreErrorView,
            >(VerifyStep::Done)
            &&& !passes ==> verify_next(index, params, expected, seen) is Err
        },
{
    match seen {
        VerifySeen::Nothing => {},
        VerifySeen::Properties(props) => {
            law_when_a_mapping_passes(index, params, expected, props@);
        },
        VerifySeen::Settings(settings) => {
            law_when_settings_pass(index, params, settings@);
        },
    }
}

/// A check of one number or one text passes exactly if nothing was requested or what was requested
/// is there; a mismatch names the index, the knob, what was requested and what is there.
pub proof fn law_what_a_mismatch_says(
    index: Seq<char>,
    field: Seq<char>,
    knob: Seq<char>,
    want: Option<u32>,
    text: Option<Seq<char>>,
    got: JsonView,
)
    ensures
        knob_check(index, field, knob, want, got) == (match want {
            Some(n) if got != unsigned(n as u64) => Err::<(), StoreErrorView>(
                StoreErrorView::Other(
                    ("sanity check FAILED on "@ + ("opensearch("@ + index + ")"@)) + " field `"@
                        + field + "` "@ + knob + ": requested "@ + decimal(n as nat)
                        + " but the live mapping has "@ + json_text(got),
                ),
            ),
            _ => Ok::<(), StoreErrorView>(()),
        }),
        setting_check(index, knob, want, got) == (match want {
            Some(n) if !number_live(n, got) => Err::<(), StoreErrorView>(
                StoreErrorView::Other(
                    ("sanity check FAILED on "@ + ("opensearch("@ + index + ")"@)) + " "@ + knob
                        + ": requested "@ + decimal(n as nat) + " but the live index config has "@
                        + json_text(got),
                ),
            ),
            _ => Ok::<(), StoreErrorView>(()),
        }),
        text_setting_check(index, knob, text, got) == (match text {
            Some(t) if got != JsonView::Text(t) => Err::<(), StoreErrorView>(
                StoreErrorView::Other(
                    ("sanity check FAILED on "@ + ("opensearch("@ + index + ")"@)) + " "@ + knob
                        + ": requested "@ + t + " but the live index config has "@ + json_text(got),
                ),
            ),
            _ => Ok::<(), StoreErrorView>(()),
        }),
{
}

} // verus!
