//! What the bodies that create an index and change its settings hold, member by member.
use crate::json::JsonView;
use crate::json_path::{bool_if, member, number_if, text_if, text_in, under, unsigned};
use crate::load::config::{EncoderConfig, MethodConfig, OpenSearchParams, VectorKind, VectorSpec};
use crate::load::convert::{
    compression, data_type, engine_name, method_name, space_type, workload_mode,
};
use crate::load::error::ConfigErrorView;
use crate::load::laws::law_one_field_per_vector;
use crate::load::mapping::{
    create_index, encoder_object, encoder_parameters, inferred, knn_field, method_object,
    method_parameters, properties, update_settings, with_dynamic,
};
use crate::named::distinct;
use crate::text::ascii_lower;
use vstd::prelude::*;
use vstd::string::*;

verus! {

/// These texts differ from each other.
proof fn lemma_encoder_keys()
    ensures
        "name"@ != "parameters"@,
        "name"@ != "m"@,
        "name"@ != "code_size"@,
        "name"@ != "type"@,
        "name"@ != "clip"@,
        "name"@ != "bits"@,
        "name"@ != "flat"@,
        "name"@ != "sq"@,
        "name"@ != "pq"@,
        "parameters"@ != "m"@,
        "parameters"@ != "code_size"@,
        "parameters"@ != "type"@,
        "parameters"@ != "clip"@,
        "parameters"@ != "bits"@,
        "parameters"@ != "flat"@,
        "parameters"@ != "sq"@,
        "parameters"@ != "pq"@,
        "m"@ != "code_size"@,
        "m"@ != "type"@,
        "m"@ != "clip"@,
        "m"@ != "bits"@,
        "m"@ != "flat"@,
        "m"@ != "sq"@,
        "m"@ != "pq"@,
        "code_size"@ != "type"@,
        "code_size"@ != "clip"@,
        "code_size"@ != "bits"@,
        "code_size"@ != "flat"@,
        "code_size"@ != "sq"@,
        "code_size"@ != "pq"@,
        "type"@ != "clip"@,
        "type"@ != "bits"@,
        "type"@ != "flat"@,
        "type"@ != "sq"@,
        "type"@ != "pq"@,
        "clip"@ != "bits"@,
        "clip"@ != "flat"@,
        "clip"@ != "sq"@,
        "clip"@ != "pq"@,
        "bits"@ != "flat"@,
        "bits"@ != "sq"@,
        "bits"@ != "pq"@,
        "flat"@ != "sq"@,
        "flat"@ != "pq"@,
        "sq"@ != "pq"@,
{
    reveal_strlit("name");
    reveal_strlit("parameters");
    reveal_strlit("m");
    reveal_strlit("code_size");
    reveal_strlit("type");
    reveal_strlit("clip");
    reveal_strlit("bits");
    reveal_strlit("flat");
    reveal_strlit("sq");
    reveal_strlit("pq");
    assert("name"@.len() == 4);
    assert("parameters"@.len() == 10);
    assert("m"@.len() == 1);
    assert("code_size"@.len() == 9);
    assert("type"@.len() == 4);
    assert("clip"@.len() == 4);
    assert("bits"@.len() == 4);
    assert("flat"@.len() == 4);
    assert("sq"@.len() == 2);
    assert("pq"@.len() == 2);
    assert("name"@[0] != "type"@[0]);
    assert("name"@[0] != "clip"@[0]);
    assert("name"@[0] != "bits"@[0]);
    assert("name"@[0] != "flat"@[0]);
    assert("type"@[0] != "clip"@[0]);
    assert("type"@[0] != "bits"@[0]);
    assert("type"@[0] != "flat"@[0]);
    assert("clip"@[0] != "bits"@[0]);
    assert("clip"@[0] != "flat"@[0]);
    assert("bits"@[0] != "flat"@[0]);
    assert("sq"@[0] != "pq"@[0]);
}

/// An encoder has its name, in lower case, and under `parameters` every knob that is set, with its
/// value; nothing else. It can be built exactly if its name is one of three.
pub proof fn law_what_an_encoder_has(enc: EncoderConfig)
    ensures
        encoder_object(enc) is Ok <==> ascii_lower(enc.name@) == "flat"@ || ascii_lower(enc.name@)
            == "sq"@ || ascii_lower(enc.name@) == "pq"@,
        encoder_object(enc) matches Ok(e) ==> {
            &&& member(e, "name"@) == Some(JsonView::Text(ascii_lower(enc.name@)))
            &&& under(e, "parameters"@, "m"@) == number_if(enc.m)
            &&& under(e, "parameters"@, "code_size"@) == number_if(enc.code_size)
            &&& under(e, "parameters"@, "type"@) == text_if(enc.sq_type)
            &&& under(e, "parameters"@, "clip"@) == bool_if(enc.clip)
            &&& under(e, "parameters"@, "bits"@) == number_if(enc.bits)
            &&& member(e, "parameters"@) is None <==> enc.m is None && enc.code_size is None
                && enc.sq_type is None && enc.clip is None && enc.bits is None
            &&& forall|k: Seq<char>| #[trigger]
                member(e, k) is Some ==> k == "name"@ || k == "parameters"@
            &&& forall|k: Seq<char>| #[trigger]
                under(e, "parameters"@, k) is Some ==> k == "m"@ || k == "code_size"@ || k
                    == "type"@ || k == "clip"@ || k == "bits"@
        },
        encoder_object(enc) is Err ==> encoder_object(enc) == Err::<JsonView, ConfigErrorView>(
            ConfigErrorView::UnknownEncoder(ascii_lower(enc.name@)),
        ),
{
    lemma_encoder_keys();
    let p = encoder_parameters(enc);
    if enc.m is Some {
        assert(p.dom().contains("m"@));
    }
    if enc.code_size is Some {
        assert(p.dom().contains("code_size"@));
    }
    if enc.sq_type is Some {
        assert(p.dom().contains("type"@));
    }
    if enc.clip is Some {
        assert(p.dom().contains("clip"@));
    }
    if enc.bits is Some {
        assert(p.dom().contains("bits"@));
    }
    if enc.m is None && enc.code_size is None && enc.sq_type is None && enc.clip is None
        && enc.bits is None {
        assert(p.dom() =~= Set::<Seq<char>>::empty());
    }
}

/// These texts differ from each other.
proof fn lemma_method_keys()
    ensures
        "name"@ != "engine"@,
        "name"@ != "parameters"@,
        "name"@ != "m"@,
        "name"@ != "ef_construction"@,
        "name"@ != "ef_search"@,
        "name"@ != "nlist"@,
        "name"@ != "nprobes"@,
        "name"@ != "encoder"@,
        "engine"@ != "parameters"@,
        "engine"@ != "m"@,
        "engine"@ != "ef_construction"@,
        "engine"@ != "ef_search"@,
        "engine"@ != "nlist"@,
        "engine"@ != "nprobes"@,
        "engine"@ != "encoder"@,
        "parameters"@ != "m"@,
        "parameters"@ != "ef_construction"@,
        "parameters"@ != "ef_search"@,
        "parameters"@ != "nlist"@,
        "parameters"@ != "nprobes"@,
        "parameters"@ != "encoder"@,
        "m"@ != "ef_construction"@,
        "m"@ != "ef_search"@,
        "m"@ != "nlist"@,
        "m"@ != "nprobes"@,
        "m"@ != "encoder"@,
        "ef_construction"@ != "ef_search"@,
        "ef_construction"@ != "nlist"@,
        "ef_construction"@ != "nprobes"@,
        "ef_construction"@ != "encoder"@,
        "ef_search"@ != "nlist"@,
        "ef_search"@ != "nprobes"@,
        "ef_search"@ != "encoder"@,
        "nlist"@ != "nprobes"@,
        "nlist"@ != "encoder"@,
        "nprobes"@ != "encoder"@,
{
    reveal_strlit("name");
    reveal_strlit("engine");
    reveal_strlit("parameters");
    reveal_strlit("m");
    reveal_strlit("ef_construction");
    reveal_strlit("ef_search");
    reveal_strlit("nlist");
    reveal_strlit("nprobes");
    reveal_strlit("encoder");
    assert("name"@.len() == 4);
    assert("engine"@.len() == 6);
    assert("parameters"@.len() == 10);
    assert("m"@.len() == 1);
    assert("ef_construction"@.len() == 15);
    assert("ef_search"@.len() == 9);
    assert("nlist"@.len() == 5);
    assert("nprobes"@.len() == 7);
    assert("encoder"@.len() == 7);
    assert("nprobes"@[0] != "encoder"@[0]);
}

/// A method has its name and its engine, and under `parameters` every knob and the encoder that are
/// set; nothing else. It can be built exactly if the encoder, the name and the engine are in order,
/// and of several faults the encoder's comes first, then the name's.
pub proof fn law_what_a_method_has(method: MethodConfig)
    ensures
        method_object(method) is Ok <==> {
            &&& method.encoder matches Some(enc) ==> encoder_object(enc) is Ok
            &&& method_name(text_in(method.name)) is Ok
            &&& engine_name(text_in(method.engine)) is Ok
        },
        method_object(method) matches Ok(j) ==> {
            &&& method_name(text_in(method.name)) matches Ok(name) && member(j, "name"@) == Some(
                JsonView::Text(name),
            )
            &&& engine_name(text_in(method.engine)) matches Ok(engine) && member(j, "engine"@)
                == Some(JsonView::Text(engine))
            &&& under(j, "parameters"@, "m"@) == number_if(method.m)
            &&& under(j, "parameters"@, "ef_construction"@) == number_if(method.ef_construction)
            &&& under(j, "parameters"@, "ef_search"@) == number_if(method.ef_search)
            &&& under(j, "parameters"@, "nlist"@) == number_if(method.nlist)
            &&& under(j, "parameters"@, "nprobes"@) == number_if(method.nprobes)
            &&& method.encoder is None ==> under(j, "parameters"@, "encoder"@) is None
            &&& method.encoder matches Some(enc) ==> (encoder_object(enc) matches Ok(e) && under(
                j,
                "parameters"@,
                "encoder"@,
            ) == Some(e))
            &&& member(j, "parameters"@) is None <==> method.m is None && method.ef_construction
                is None && method.ef_search is None && method.nlist is None && method.nprobes
                is None && method.encoder is None
            &&& forall|k: Seq<char>| #[trigger]
                member(j, k) is Some ==> k == "name"@ || k == "engine"@ || k == "parameters"@
            &&& forall|k: Seq<char>| #[trigger]
                under(j, "parameters"@, k) is Some ==> k == "m"@ || k == "ef_construction"@ || k
                    == "ef_search"@ || k == "nlist"@ || k == "nprobes"@ || k == "encoder"@
        },
        method.encoder matches Some(enc) ==> (encoder_object(enc) matches Err(e) ==> method_object(
            method,
        ) == Err::<JsonView, ConfigErrorView>(e)),
        (method.encoder matches Some(enc) ==> encoder_object(enc) is Ok) ==> {
            &&& method_name(text_in(method.name)) matches Err(e) ==> method_object(method) == Err::<
                JsonView,
                ConfigErrorView,
            >(e)
            &&& method_name(text_in(method.name)) is Ok ==> (engine_name(text_in(method.engine))
                matches Err(e) ==> method_object(method) == Err::<JsonView, ConfigErrorView>(e))
        },
{
    lemma_method_keys();
    if method_object(method) is Ok {
        let p = method_parameters(method)->Ok_0;
        if method.m is Some {
            assert(p.dom().contains("m"@));
        }
        if method.ef_construction is Some {
            assert(p.dom().contains("ef_construction"@));
        }
        if method.ef_search is Some {
            assert(p.dom().contains("ef_search"@));
        }
        if method.nlist is Some {
            assert(p.dom().contains("nlist"@));
        }
        if method.nprobes is Some {
            assert(p.dom().contains("nprobes"@));
        }
        if method.encoder is Some {
            assert(p.dom().contains("encoder"@));
        }
        if method.m is None && method.ef_construction is None && method.ef_search is None
            && method.nlist is None && method.nprobes is None && method.encoder is None {
            assert(p.dom() =~= Set::<Seq<char>>::empty());
        }
    }
}

/// The dimension that was inferred for a name is the last one under it, and there is one exactly if
/// the name is there.
proof fn lemma_inferred(dims: Seq<(String, u64)>, name: Seq<char>)
    ensures
        inferred(dims, name) is Some <==> inferred_for(dims, name),
        inferred(dims, name) matches Some(n) ==> exists|i: int|
            0 <= i < dims.len() && #[trigger] dims[i].0@ == name && dims[i].1 == n,
    decreases dims.len(),
{
    if dims.len() > 0 {
        let rest = dims.drop_last();
        lemma_inferred(rest, name);
        if dims.last().0@ == name {
            assert(dims[dims.len() - 1].0@ == name);
        } else {
            if inferred(rest, name) is Some {
                let n = inferred(rest, name)->0;
                let i = choose|i: int|
                    0 <= i < rest.len() && #[trigger] rest[i].0@ == name && rest[i].1 == n;
                assert(dims[i].0@ == name && dims[i].1 == n);
            }
            if inferred_for(dims, name) {
                let i = choose|i: int| 0 <= i < dims.len() && #[trigger] dims[i].0@ == name;
                assert(rest[i].0@ == name);
            }
        }
    }
}

/// A dimension was inferred for a name.
pub open spec fn inferred_for(dims: Seq<(String, u64)>, name: Seq<char>) -> bool {
    exists|i: int| 0 <= i < dims.len() && #[trigger] dims[i].0@ == name
}

/// A field can be built exactly if the vector is dense, has a size, and every name that is
/// configured for it is known; the first of these that fails, in this order, is reported.
pub proof fn law_when_a_field_can_be_built(
    name: Seq<char>,
    spec_: VectorSpec,
    params: OpenSearchParams,
    dims: Seq<(String, u64)>,
)
    ensures
        ({
            let field = knn_field(name, spec_, params, dims);
            let sized = spec_.size is Some || inferred_for(dims, name);
            let space = space_type(name, text_in(spec_.distance));
            let data = data_type(name, text_in(spec_.datatype));
            let mode = workload_mode(text_in(params.mode));
            let level = compression(text_in(params.compression_level));
            let dense = spec_.kind == VectorKind::Dense;
            let named = dense && sized && space is Ok && data is Ok && mode is Ok && level is Ok;
            &&& field is Ok <==> {
                &&& named
                &&& params.method matches Some(m) ==> method_object(m) is Ok
            }
            &&& !dense ==> field == Err::<JsonView, ConfigErrorView>(
                ConfigErrorView::UnsupportedVectorKind { name, kind: spec_.kind },
            )
            &&& dense && !sized ==> field == Err::<JsonView, ConfigErrorView>(
                ConfigErrorView::MissingSize(name),
            )
            &&& dense && sized ==> (space matches Err(e) ==> field == Err::<
                JsonView,
                ConfigErrorView,
            >(e))
            &&& dense && sized && space is Ok ==> (data matches Err(e) ==> field == Err::<
                JsonView,
                ConfigErrorView,
            >(e))
            &&& dense && sized && space is Ok && data is Ok ==> (mode matches Err(e) ==> field
                == Err::<JsonView, ConfigErrorView>(e))
            &&& dense && sized && space is Ok && data is Ok && mode is Ok ==> (level matches Err(e)
                ==> field == Err::<JsonView, ConfigErrorView>(e))
            &&& named ==> (params.method matches Some(m) ==> (method_object(m) matches Err(e)
                ==> field == Err::<JsonView, ConfigErrorView>(e)))
        }),
{
    lemma_inferred(dims, name);
}

/// These texts differ from each other.
proof fn lemma_field_keys()
    ensures
        "type"@ != "dimension"@,
        "type"@ != "space_type"@,
        "type"@ != "data_type"@,
        "type"@ != "mode"@,
        "type"@ != "compression_level"@,
        "type"@ != "method"@,
        "dimension"@ != "space_type"@,
        "dimension"@ != "data_type"@,
        "dimension"@ != "mode"@,
        "dimension"@ != "compression_level"@,
        "dimension"@ != "method"@,
        "space_type"@ != "data_type"@,
        "space_type"@ != "mode"@,
        "space_type"@ != "compression_level"@,
        "space_type"@ != "method"@,
        "data_type"@ != "mode"@,
        "data_type"@ != "compression_level"@,
        "data_type"@ != "method"@,
        "mode"@ != "compression_level"@,
        "mode"@ != "method"@,
        "compression_level"@ != "method"@,
{
    reveal_strlit("type");
    reveal_strlit("dimension");
    reveal_strlit("space_type");
    reveal_strlit("data_type");
    reveal_strlit("mode");
    reveal_strlit("compression_level");
    reveal_strlit("method");
    assert("type"@.len() == 4);
    assert("dimension"@.len() == 9);
    assert("space_type"@.len() == 10);
    assert("data_type"@.len() == 9);
    assert("mode"@.len() == 4);
    assert("compression_level"@.len() == 17);
    assert("method"@.len() == 6);
    assert("type"@[0] != "mode"@[0]);
    assert("dimension"@[1] != "data_type"@[1]);
}

/// These texts differ from each other.
proof fn lemma_mode_names()
    ensures
        "on_disk"@ != "in_memory"@,
{
    reveal_strlit("on_disk");
    reveal_strlit("in_memory");
    assert("on_disk"@.len() == 7);
    assert("in_memory"@.len() == 9);
}

/// The mode of a field that can be built: that of the index, where one is configured; else `on_disk`
/// or `in_memory` as the vector's own flag says; and none where neither is set.
pub proof fn law_the_mode_of_a_field(
    name: Seq<char>,
    spec_: VectorSpec,
    params: OpenSearchParams,
    dims: Seq<(String, u64)>,
)
    ensures
        knn_field(name, spec_, params, dims) matches Ok(field) ==> {
            &&& params.mode matches Some(m) ==> {
                &&& member(field, "mode"@) == Some(JsonView::Text(ascii_lower(m@)))
                &&& ascii_lower(m@) == "on_disk"@ || ascii_lower(m@) == "in_memory"@
            }
            &&& params.mode is None && spec_.on_disk == Some(true) ==> member(field, "mode"@)
                == Some(JsonView::Text("on_disk"@))
            &&& params.mode is None && spec_.on_disk == Some(false) ==> member(field, "mode"@)
                == Some(JsonView::Text("in_memory"@))
            &&& params.mode is None && spec_.on_disk is None ==> member(field, "mode"@) is None
        },
{
    lemma_field_keys();
    lemma_mode_names();
}

/// The members of a field that can be built: its type, its dimension and its space always, and the
/// datatype, the mode, the compression level and the method exactly where they are configured.
pub proof fn law_what_a_field_has(
    name: Seq<char>,
    spec_: VectorSpec,
    params: OpenSearchParams,
    dims: Seq<(String, u64)>,
)
    ensures
        knn_field(name, spec_, params, dims) matches Ok(field) ==> {
            &&& member(field, "type"@) == Some(JsonView::Text("knn_vector"@))
            &&& spec_.size matches Some(n) ==> member(field, "dimension"@) == Some(unsigned(n))
            &&& spec_.size is None ==> exists|i: int|
                0 <= i < dims.len() && #[trigger] dims[i].0@ == name && member(field, "dimension"@)
                    == Some(unsigned(dims[i].1))
            &&& space_type(name, text_in(spec_.distance)) matches Ok(space) && member(
                field,
                "space_type"@,
            ) == Some(JsonView::Text(space))
            &&& spec_.datatype is None ==> member(field, "data_type"@) is None
            &&& spec_.datatype matches Some(d) ==> (data_type(name, Some(d@)) matches Ok(Some(t))
                && member(field, "data_type"@) == Some(JsonView::Text(t)))
            &&& params.compression_level is None ==> member(field, "compression_level"@) is None
            &&& params.compression_level matches Some(l) ==> member(field, "compression_level"@)
                == Some(JsonView::Text(ascii_lower(l@)))
            &&& params.method is None ==> member(field, "method"@) is None
            &&& params.method matches Some(m) ==> (method_object(m) matches Ok(j) && member(
                field,
                "method"@,
            ) == Some(j))
            &&& forall|k: Seq<char>| #[trigger]
                member(field, k) is Some ==> k == "type"@ || k == "dimension"@ || k
                    == "space_type"@ || k == "data_type"@ || k == "mode"@ || k
                    == "compression_level"@ || k == "method"@
        },
{
    lemma_field_keys();
    lemma_inferred(dims, name);
}

/// These texts differ from each other.
proof fn lemma_body_keys()
    ensures
        "settings"@ != "mappings"@,
        "settings"@ != "index"@,
        "settings"@ != "properties"@,
        "settings"@ != "knn"@,
        "settings"@ != "number_of_shards"@,
        "settings"@ != "number_of_replicas"@,
        "settings"@ != "refresh_interval"@,
        "settings"@ != "knn.algo_param.ef_search"@,
        "mappings"@ != "index"@,
        "mappings"@ != "properties"@,
        "mappings"@ != "knn"@,
        "mappings"@ != "number_of_shards"@,
        "mappings"@ != "number_of_replicas"@,
        "mappings"@ != "refresh_interval"@,
        "mappings"@ != "knn.algo_param.ef_search"@,
        "index"@ != "properties"@,
        "index"@ != "knn"@,
        "index"@ != "number_of_shards"@,
        "index"@ != "number_of_replicas"@,
        "index"@ != "refresh_interval"@,
        "index"@ != "knn.algo_param.ef_search"@,
        "properties"@ != "knn"@,
        "properties"@ != "number_of_shards"@,
        "properties"@ != "number_of_replicas"@,
        "properties"@ != "refresh_interval"@,
        "properties"@ != "knn.algo_param.ef_search"@,
        "knn"@ != "number_of_shards"@,
        "knn"@ != "number_of_replicas"@,
        "knn"@ != "refresh_interval"@,
        "knn"@ != "knn.algo_param.ef_search"@,
        "number_of_shards"@ != "number_of_replicas"@,
        "number_of_shards"@ != "refresh_interval"@,
        "number_of_shards"@ != "knn.algo_param.ef_search"@,
        "number_of_replicas"@ != "refresh_interval"@,
        "number_of_replicas"@ != "knn.algo_param.ef_search"@,
        "refresh_interval"@ != "knn.algo_param.ef_search"@,
{
    reveal_strlit("settings");
    reveal_strlit("mappings");
    reveal_strlit("index");
    reveal_strlit("properties");
    reveal_strlit("knn");
    reveal_strlit("number_of_shards");
    reveal_strlit("number_of_replicas");
    reveal_strlit("refresh_interval");
    reveal_strlit("knn.algo_param.ef_search");
    assert("settings"@.len() == 8);
    assert("mappings"@.len() == 8);
    assert("index"@.len() == 5);
    assert("properties"@.len() == 10);
    assert("knn"@.len() == 3);
    assert("number_of_shards"@.len() == 16);
    assert("number_of_replicas"@.len() == 18);
    assert("refresh_interval"@.len() == 16);
    assert("knn.algo_param.ef_search"@.len() == 24);
    assert("settings"@[0] != "mappings"@[0]);
    assert("number_of_shards"@[0] != "refresh_interval"@[0]);
}

/// An index is created with approximate search on, and with every index-wide setting that is
/// configured, at its value; no other setting.
pub proof fn law_what_an_index_is_created_with(
    vectors: Seq<(String, VectorSpec)>,
    params: OpenSearchParams,
    dims: Seq<(String, u64)>,
)
    ensures
        create_index(vectors, params, dims) matches Ok(body) ==> (under(
            body,
            "settings"@,
            "index"@,
        ) matches Some(index) && {
            &&& member(index, "knn"@) == Some(JsonView::Bool(true))
            &&& member(index, "number_of_shards"@) == number_if(params.shards)
            &&& member(index, "number_of_replicas"@) == number_if(params.replicas)
            &&& member(index, "refresh_interval"@) == text_if(params.refresh_interval)
            &&& member(index, "knn.algo_param.ef_search"@) == number_if(params.ef_search)
            &&& forall|k: Seq<char>| #[trigger]
                member(index, k) is Some ==> k == "knn"@ || k == "number_of_shards"@ || k
                    == "number_of_replicas"@ || k == "refresh_interval"@ || k
                    == "knn.algo_param.ef_search"@
            &&& forall|k: Seq<char>| #[trigger] under(body, "settings"@, k) is Some ==> k == "index"@
            &&& forall|k: Seq<char>| #[trigger]
                member(body, k) is Some ==> k == "settings"@ || k == "mappings"@
        }),
{
    lemma_body_keys();
}

/// An index is created with one field for each vector, built from its own configuration, under its
/// own name, and with no other field.
pub proof fn law_what_fields_an_index_is_created_with(
    vectors: Seq<(String, VectorSpec)>,
    params: OpenSearchParams,
    dims: Seq<(String, u64)>,
)
    requires
        distinct(vectors),
    ensures
        create_index(vectors, params, dims) matches Ok(body) ==> (under(
            body,
            "mappings"@,
            "properties"@,
        ) matches Some(props) && {
            &&& forall|i: int|
                0 <= i < vectors.len() ==> (knn_field(
                    #[trigger] vectors[i].0@,
                    vectors[i].1,
                    params,
                    dims,
                ) matches Ok(field) && member(props, vectors[i].0@) == Some(field))
            &&& forall|k: Seq<char>| #[trigger]
                member(props, k) is Some ==> exists|i: int|
                    0 <= i < vectors.len() && #[trigger] vectors[i].0@ == k
            &&& forall|k: Seq<char>| #[trigger]
                under(body, "mappings"@, k) is Some ==> k == "properties"@
        }),
{
    lemma_body_keys();
    law_one_field_per_vector(vectors, params, dims);
    if create_index(vectors, params, dims) is Ok {
        let body = create_index(vectors, params, dims)->Ok_0;
        let props = under(body, "mappings"@, "properties"@)->0;
        assert(props is Object);
        lemma_fields(vectors, params, dims);
        assert forall|i: int| 0 <= i < vectors.len() implies (knn_field(
            #[trigger] vectors[i].0@,
            vectors[i].1,
            params,
            dims,
        ) matches Ok(field) && member(props, vectors[i].0@) == Some(field)) by {
            assert(properties(vectors, params, dims)->Ok_0.dom().contains(vectors[i].0@));
        }
    }
}

/// Every vector has a field.
proof fn lemma_fields(
    vectors: Seq<(String, VectorSpec)>,
    params: OpenSearchParams,
    dims: Seq<(String, u64)>,
)
    ensures
        properties(vectors, params, dims) matches Ok(m) ==> forall|i: int|
            0 <= i < vectors.len() ==> m.dom().contains(#[trigger] vectors[i].0@),
    decreases vectors.len(),
{
    if vectors.len() > 0 {
        let rest = vectors.drop_last();
        lemma_fields(rest, params, dims);
        if properties(vectors, params, dims) is Ok {
            let m = properties(vectors, params, dims)->Ok_0;
            assert forall|i: int| 0 <= i < vectors.len() implies m.dom().contains(
                #[trigger] vectors[i].0@,
            ) by {
                if i < rest.len() {
                    assert(rest[i].0@ == vectors[i].0@);
                }
            }
        }
    }
}

/// Where a body cannot be built, the fault that is reported is that of the first vector whose field
/// cannot be built.
pub proof fn law_the_first_faulty_vector_is_reported(
    vectors: Seq<(String, VectorSpec)>,
    params: OpenSearchParams,
    dims: Seq<(String, u64)>,
)
    ensures
        create_index(vectors, params, dims) matches Err(e) ==> exists|i: int|
            {
                &&& 0 <= i < vectors.len()
                &&& knn_field(#[trigger] vectors[i].0@, vectors[i].1, params, dims) == Err::<
                    JsonView,
                    ConfigErrorView,
                >(e)
                &&& forall|j: int|
                    0 <= j < i ==> knn_field(#[trigger] vectors[j].0@, vectors[j].1, params, dims)
                        is Ok
            },
    decreases vectors.len(),
{
    lemma_first_fault(vectors, params, dims);
}

proof fn lemma_first_fault(
    vectors: Seq<(String, VectorSpec)>,
    params: OpenSearchParams,
    dims: Seq<(String, u64)>,
)
    ensures
        properties(vectors, params, dims) is Ok ==> forall|j: int|
            0 <= j < vectors.len() ==> knn_field(
                #[trigger] vectors[j].0@,
                vectors[j].1,
                params,
                dims,
            ) is Ok,
        properties(vectors, params, dims) matches Err(e) ==> exists|i: int|
            {
                &&& 0 <= i < vectors.len()
                &&& knn_field(#[trigger] vectors[i].0@, vectors[i].1, params, dims) == Err::<
                    JsonView,
                    ConfigErrorView,
                >(e)
                &&& forall|j: int|
                    0 <= j < i ==> knn_field(#[trigger] vectors[j].0@, vectors[j].1, params, dims)
                        is Ok
            },
    decreases vectors.len(),
{
    if vectors.len() > 0 {
        let rest = vectors.drop_last();
        lemma_first_fault(rest, params, dims);
        match properties(rest, params, dims) {
            Err(e) => {
                let i = choose|i: int|
                    {
                        &&& 0 <= i < rest.len()
                        &&& knn_field(#[trigger] rest[i].0@, rest[i].1, params, dims) == Err::<
                            JsonView,
                            ConfigErrorView,
                        >(e)
                        &&& forall|j: int|
                            0 <= j < i ==> knn_field(
                                #[trigger] rest[j].0@,
                                rest[j].1,
                                params,
                                dims,
                            ) is Ok
                    };
                assert(vectors[i].0@ == rest[i].0@);
                assert forall|j: int| 0 <= j < i implies knn_field(
                    #[trigger] vectors[j].0@,
                    vectors[j].1,
                    params,
                    dims,
                ) is Ok by {
                    assert(rest[j].0@ == vectors[j].0@);
                }
            },
            Ok(_) => {
                assert forall|j: int| 0 <= j < rest.len() implies knn_field(
                    #[trigger] vectors[j].0@,
                    vectors[j].1,
                    params,
                    dims,
                ) is Ok by {
                    assert(rest[j].0@ == vectors[j].0@);
                }
                assert(vectors[vectors.len() - 1].0@ == vectors.last().0@);
            },
        }
    }
}

/// A change of settings has every dynamic setting that is configured, at its value, and nothing
/// else; there is none exactly if no dynamic setting is configured.
pub proof fn law_what_a_change_of_settings_has(params: OpenSearchParams)
    ensures
        update_settings(params) is None <==> params.replicas is None && params.refresh_interval
            is None && params.ef_search is None,
        update_settings(params) matches Some(body) ==> (member(body, "index"@) matches Some(index)
            && {
            &&& member(index, "number_of_replicas"@) == number_if(params.replicas)
            &&& member(index, "refresh_interval"@) == text_if(params.refresh_interval)
            &&& member(index, "knn.algo_param.ef_search"@) == number_if(params.ef_search)
            &&& forall|k: Seq<char>| #[trigger]
                member(index, k) is Some ==> k == "number_of_replicas"@ || k == "refresh_interval"@
                    || k == "knn.algo_param.ef_search"@
            &&& forall|k: Seq<char>| #[trigger] member(body, k) is Some ==> k == "index"@
        }),
{
    lemma_body_keys();
    let m = with_dynamic(Map::empty(), params);
    if params.replicas is Some {
        assert(m.dom().contains("number_of_replicas"@));
    }
    if params.refresh_interval is Some {
        assert(m.dom().contains("refresh_interval"@));
    }
    if params.ef_search is Some {
        assert(m.dom().contains("knn.algo_param.ef_search"@));
    }
    if params.replicas is None && params.refresh_interval is None && params.ef_search is None {
        assert(m.dom() =~= Set::<Seq<char>>::empty());
    }
}

} // verus!
