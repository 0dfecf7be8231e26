//! The request bodies that create an index and change its settings.
use crate::json::{Json, JsonObject, JsonView};
use crate::json_build::{
    nonempty, number, number_json, object_knob, optional_view, put, put_json, put_object, single,
    single_json, text_json, text_knob, Members,
};
use crate::load::config::{EncoderConfig, MethodConfig, OpenSearchParams, VectorKind, VectorSpec};
use crate::load::convert::{
    compression, data_type, encoder_name, engine_name, method_name, parse_compression_level,
    parse_data_type, parse_encoder_name, parse_engine, parse_method_name, parse_mode,
    parse_space_type, space_type, workload_mode,
};
use crate::load::error::{ConfigErrorView, OpenSearchConfigError};
use crate::named::Named;
use crate::text::{as_slice, option_text, same_text, slice_text};
use vstd::prelude::*;
use vstd::string::*;

verus! {

/// The model of a built body.
pub open spec fn body_result(r: Result<Json, OpenSearchConfigError>) -> Result<
    JsonView,
    ConfigErrorView,
> {
    match r {
        Ok(j) => Ok(j@),
        Err(e) => Err(e@),
    }
}

/// A number knob as an optional JSON value.
pub open spec fn number_knob(o: Option<u32>) -> Option<JsonView> {
    match o {
        Some(n) => Some(number(n as u64)),
        None => None,
    }
}

/// A boolean knob as an optional JSON value.
pub open spec fn bool_knob(o: Option<bool>) -> Option<JsonView> {
    match o {
        Some(b) => Some(JsonView::Bool(b)),
        None => None,
    }
}

fn put_number(o: &mut JsonObject, key: &str, value: Option<u32>)
    ensures
        final(o)@ == put(old(o)@, key@, number_knob(value)),
{
    match value {
        Some(n) => put_json(o, key, number_json(n as u64)),
        None => {},
    }
}

fn put_bool(o: &mut JsonObject, key: &str, value: Option<bool>)
    ensures
        final(o)@ == put(old(o)@, key@, bool_knob(value)),
{
    match value {
        Some(b) => put_json(o, key, Json::Bool(b)),
        None => {},
    }
}

fn put_text(o: &mut JsonObject, key: &str, value: &Option<String>)
    ensures
        final(o)@ == put(old(o)@, key@, text_knob(option_text(*value))),
{
    match value {
        Some(s) => put_json(o, key, text_json(s.as_str())),
        None => {},
    }
}

/// The knobs of an encoder that are set.
pub open spec fn encoder_parameters(enc: EncoderConfig) -> Members {
    let m = put(Map::empty(), "m"@, number_knob(enc.m));
    let m = put(m, "code_size"@, number_knob(enc.code_size));
    let m = put(m, "type"@, text_knob(option_text(enc.sq_type)));
    let m = put(m, "clip"@, bool_knob(enc.clip));
    put(m, "bits"@, number_knob(enc.bits))
}

/// The JSON of an encoder: its name and, nested, the knobs that are set.
pub open spec fn encoder_object(enc: EncoderConfig) -> Result<JsonView, ConfigErrorView> {
    match encoder_name(enc.name@) {
        Ok(name) => Ok(
            JsonView::Object(
                put(
                    Map::empty().insert("name"@, JsonView::Text(name)),
                    "parameters"@,
                    object_knob(encoder_parameters(enc)),
                ),
            ),
        ),
        Err(e) => Err(e),
    }
}

/// Builds the knobs of an encoder that are set.
pub(crate) fn encoder_knobs(enc: &EncoderConfig) -> (r: JsonObject)
    ensures
        r@ == encoder_parameters(*enc),
{
    let mut params = JsonObject::new();
    put_number(&mut params, "m", enc.m);
    put_number(&mut params, "code_size", enc.code_size);
    put_text(&mut params, "type", &enc.sq_type);
    put_bool(&mut params, "clip", enc.clip);
    put_number(&mut params, "bits", enc.bits);
    params
}

/// Builds the JSON of an encoder. Knobs that are not set are left out, so that the engine keeps
/// its own defaults.
pub fn encoder_json(enc: &EncoderConfig) -> (r: Result<Json, OpenSearchConfigError>)
    ensures
        body_result(r) == encoder_object(*enc),
{
    let name = match parse_encoder_name(enc.name.as_str()) {
        Ok(name) => name,
        Err(e) => return Err(e),
    };
    let params = encoder_knobs(enc);
    let mut out = JsonObject::new();
    put_json(&mut out, "name", text_json(name));
    put_object(&mut out, "parameters", params);
    Ok(Json::Object(out))
}

/// The number knobs of a method that are set.
pub open spec fn method_knobs(method: MethodConfig) -> Members {
    let m = put(Map::empty(), "m"@, number_knob(method.m));
    let m = put(m, "ef_construction"@, number_knob(method.ef_construction));
    let m = put(m, "ef_search"@, number_knob(method.ef_search));
    let m = put(m, "nlist"@, number_knob(method.nlist));
    put(m, "nprobes"@, number_knob(method.nprobes))
}

/// The parameters of a method: the number knobs and the encoder, as far as they are set.
pub open spec fn method_parameters(method: MethodConfig) -> Result<Members, ConfigErrorView> {
    match method.encoder {
        None => Ok(method_knobs(method)),
        Some(enc) => match encoder_object(enc) {
            Ok(e) => Ok(method_knobs(method).insert("encoder"@, e)),
            Err(e) => Err(e),
        },
    }
}

/// The JSON of a method. Of several faults the encoder's is reported first, then the name's,
/// then the engine's.
pub open spec fn method_object(method: MethodConfig) -> Result<JsonView, ConfigErrorView> {
    match method_parameters(method) {
        Err(e) => Err(e),
        Ok(params) => match method_name(option_text(method.name)) {
            Err(e) => Err(e),
            Ok(name) => match engine_name(option_text(method.engine)) {
                Err(e) => Err(e),
                Ok(engine) => {
                    let m = Map::empty().insert("name"@, JsonView::Text(name)).insert(
                        "engine"@,
                        JsonView::Text(engine),
                    );
                    Ok(JsonView::Object(put(m, "parameters"@, object_knob(params))))
                },
            },
        },
    }
}

/// Builds the number knobs of a method that are set.
pub(crate) fn number_knobs(method: &MethodConfig) -> (r: JsonObject)
    ensures
        r@ == method_knobs(*method),
{
    let mut params = JsonObject::new();
    put_number(&mut params, "m", method.m);
    put_number(&mut params, "ef_construction", method.ef_construction);
    put_number(&mut params, "ef_search", method.ef_search);
    put_number(&mut params, "nlist", method.nlist);
    put_number(&mut params, "nprobes", method.nprobes);
    params
}

/// Builds the `method` object: its knobs are nested again under `parameters`. `space_type` is not
/// set here: it stands at the top level of the field mapping.
pub fn method_json(method: &MethodConfig) -> (r: Result<Json, OpenSearchConfigError>)
    ensures
        body_result(r) == method_object(*method),
{
    let mut params = number_knobs(method);
    match &method.encoder {
        None => {},
        Some(enc) => match encoder_json(enc) {
            Ok(e) => put_json(&mut params, "encoder", e),
            Err(e) => return Err(e),
        },
    }
    let name = match parse_method_name(as_slice(&method.name)) {
        Ok(name) => name,
        Err(e) => return Err(e),
    };
    let engine = match parse_engine(as_slice(&method.engine)) {
        Ok(engine) => engine,
        Err(e) => return Err(e),
    };
    let mut out = JsonObject::new();
    put_json(&mut out, "name", text_json(name));
    put_json(&mut out, "engine", text_json(engine));
    put_object(&mut out, "parameters", params);
    Ok(Json::Object(out))
}

/// The dimension of a vector by name, where one was inferred.
pub open spec fn inferred(dims: Seq<(String, u64)>, name: Seq<char>) -> Option<u64>
    decreases dims.len(),
{
    if dims.len() == 0 {
        None
    } else if dims.last().0@ == name {
        Some(dims.last().1)
    } else {
        inferred(dims.drop_last(), name)
    }
}

fn inferred_dimension(dims: &Named<u64>, name: &str) -> (r: Option<u64>)
    ensures
        r == inferred(dims@, name@),
{
    let mut found: Option<u64> = None;
    let mut i: usize = 0;
    while i < dims.len()
        invariant
            i <= dims@.len(),
            found == inferred(dims@.take(i as int), name@),
        decreases dims@.len() - i,
    {
        let entry = dims.entry(i);
        if same_text(entry.0, name) {
            found = Some(*entry.1);
        }
        assert(dims@.take(i + 1).drop_last() =~= dims@.take(i as int));
        i += 1;
    }
    assert(dims@.take(i as int) =~= dims@);
    found
}

/// The dimension of a vector: the configured size, else the inferred one.
pub open spec fn dimension(
    name: Seq<char>,
    spec_: VectorSpec,
    dims: Seq<(String, u64)>,
) -> Option<u64> {
    match spec_.size {
        Some(n) => Some(n),
        None => inferred(dims, name),
    }
}

/// The workload mode of a field: the index-wide one if it is set, else the one that the vector's
/// own flag selects.
pub open spec fn field_mode(explicit: Option<Seq<char>>, on_disk: Option<bool>) -> Option<
    Seq<char>,
> {
    match explicit {
        Some(m) => Some(m),
        None => match on_disk {
            Some(true) => Some("on_disk"@),
            Some(false) => Some("in_memory"@),
            None => None,
        },
    }
}

/// Selects the workload mode of a field.
pub(crate) fn select_mode(explicit: Option<&'static str>, on_disk: Option<bool>) -> (r: Option<
    &'static str,
>)
    ensures
        slice_text(r) == field_mode(slice_text(explicit), on_disk),
{
    match explicit {
        Some(m) => Some(m),
        None => match on_disk {
            Some(true) => Some("on_disk"),
            Some(false) => Some("in_memory"),
            None => None,
        },
    }
}

/// The `knn_vector` field mapping of one vector. Faults are reported in the order: kind, size,
/// distance, datatype, mode, compression level, method.
pub open spec fn knn_field(
    name: Seq<char>,
    spec_: VectorSpec,
    params: OpenSearchParams,
    dims: Seq<(String, u64)>,
) -> Result<JsonView, ConfigErrorView> {
    if spec_.kind != VectorKind::Dense {
        Err(ConfigErrorView::UnsupportedVectorKind { name, kind: spec_.kind })
    } else {
        match (
            dimension(name, spec_, dims),
            space_type(name, option_text(spec_.distance)),
            data_type(name, option_text(spec_.datatype)),
            workload_mode(option_text(params.mode)),
            compression(option_text(params.compression_level)),
            optional_method(params.method),
        ) {
            (None, _, _, _, _, _) => Err(ConfigErrorView::MissingSize(name)),
            (_, Err(e), _, _, _, _) => Err(e),
            (_, _, Err(e), _, _, _) => Err(e),
            (_, _, _, Err(e), _, _) => Err(e),
            (_, _, _, _, Err(e), _) => Err(e),
            (_, _, _, _, _, Err(e)) => Err(e),
            (Some(size), Ok(space), Ok(data), Ok(mode), Ok(level), Ok(method)) => {
                let m = Map::empty().insert("type"@, JsonView::Text("knn_vector"@));
                let m = m.insert("dimension"@, number(size));
                let m = m.insert("space_type"@, JsonView::Text(space));
                let m = put(m, "data_type"@, text_knob(data));
                let m = put(m, "mode"@, text_knob(field_mode(mode, spec_.on_disk)));
                let m = put(m, "compression_level"@, text_knob(level));
                Ok(JsonView::Object(put(m, "method"@, method)))
            },
        }
    }
}

/// The JSON of a method that may be left out.
pub open spec fn optional_method(method: Option<MethodConfig>) -> Result<
    Option<JsonView>,
    ConfigErrorView,
> {
    match method {
        None => Ok(None),
        Some(m) => match method_object(m) {
            Ok(j) => Ok(Some(j)),
            Err(e) => Err(e),
        },
    }
}

/// Builds the `knn_vector` field mapping of one dense vector.
pub fn knn_vector_field(
    name: &str,
    spec_: &VectorSpec,
    params: &OpenSearchParams,
    dims: &Named<u64>,
) -> (r: Result<Json, OpenSearchConfigError>)
    ensures
        body_result(r) == knn_field(name@, *spec_, *params, dims@),
{
    match spec_.kind {
        VectorKind::Dense => {},
        kind => return Err(
            OpenSearchConfigError::UnsupportedVectorKind { name: name.to_owned(), kind },
        ),
    }
    let size = match spec_.size {
        Some(n) => n,
        None => match inferred_dimension(dims, name) {
            Some(n) => n,
            None => return Err(OpenSearchConfigError::MissingSize(name.to_owned())),
        },
    };
    let space = match parse_space_type(name, as_slice(&spec_.distance)) {
        Ok(s) => s,
        Err(e) => return Err(e),
    };
    let mut field = JsonObject::new();
    put_json(&mut field, "type", text_json("knn_vector"));
    put_json(&mut field, "dimension", number_json(size));
    put_json(&mut field, "space_type", text_json(space));
    match parse_data_type(name, as_slice(&spec_.datatype)) {
        Ok(Some(t)) => put_json(&mut field, "data_type", text_json(t)),
        Ok(None) => {},
        Err(e) => return Err(e),
    }
    let mode = match parse_mode(as_slice(&params.mode)) {
        Ok(explicit) => select_mode(explicit, spec_.on_disk),
        Err(e) => return Err(e),
    };
    match mode {
        Some(m) => put_json(&mut field, "mode", text_json(m)),
        None => {},
    }
    match parse_compression_level(as_slice(&params.compression_level)) {
        Ok(Some(c)) => put_json(&mut field, "compression_level", text_json(c)),
        Ok(None) => {},
        Err(e) => return Err(e),
    }
    match &params.method {
        Some(method) => match method_json(method) {
            Ok(j) => put_json(&mut field, "method", j),
            Err(e) => return Err(e),
        },
        None => {},
    }
    Ok(Json::Object(field))
}

/// The field mappings of some vectors, in the order in which they are walked; the first fault
/// ends it.
pub open spec fn properties(
    vectors: Seq<(String, VectorSpec)>,
    params: OpenSearchParams,
    dims: Seq<(String, u64)>,
) -> Result<Members, ConfigErrorView>
    decreases vectors.len(),
{
    if vectors.len() == 0 {
        Ok(Map::empty())
    } else {
        match properties(vectors.drop_last(), params, dims) {
            Err(e) => Err(e),
            Ok(m) => {
                let last = vectors.last();
                match knn_field(last.0@, last.1, params, dims) {
                    Ok(field) => Ok(m.insert(last.0@, field)),
                    Err(e) => Err(e),
                }
            },
        }
    }
}

/// The dynamic settings, as far as they are set, added to others.
pub open spec fn with_dynamic(m: Members, params: OpenSearchParams) -> Members {
    let m = put(m, "number_of_replicas"@, number_knob(params.replicas));
    let m = put(m, "refresh_interval"@, text_knob(option_text(params.refresh_interval)));
    put(m, "knn.algo_param.ef_search"@, number_knob(params.ef_search))
}

/// The settings with which an index is created.
pub open spec fn creation_settings(params: OpenSearchParams) -> Members {
    let m = Map::empty().insert("knn"@, JsonView::Bool(true));
    with_dynamic(put(m, "number_of_shards"@, number_knob(params.shards)), params)
}

/// The body that creates an index.
pub open spec fn create_index(
    vectors: Seq<(String, VectorSpec)>,
    params: OpenSearchParams,
    dims: Seq<(String, u64)>,
) -> Result<JsonView, ConfigErrorView> {
    match properties(vectors, params, dims) {
        Err(e) => Err(e),
        Ok(props) => Ok(
            JsonView::Object(
                Map::empty().insert(
                    "settings"@,
                    single("index"@, JsonView::Object(creation_settings(params))),
                ).insert("mappings"@, single("properties"@, JsonView::Object(props))),
            ),
        ),
    }
}

fn put_dynamic(index: &mut JsonObject, params: &OpenSearchParams)
    ensures
        final(index)@ == with_dynamic(old(index)@, *params),
{
    put_number(index, "number_of_replicas", params.replicas);
    put_text(index, "refresh_interval", &params.refresh_interval);
    put_number(index, "knn.algo_param.ef_search", params.ef_search);
}

/// Builds the body that creates an index: one `knn_vector` field for each vector, and the
/// index-wide knobs. `index.knn` is always set: it is a static setting, without which an index
/// can never do approximate search.
pub fn build_create_index(
    vectors: &Named<VectorSpec>,
    params: &OpenSearchParams,
    dims: &Named<u64>,
) -> (r: Result<Json, OpenSearchConfigError>)
    ensures
        body_result(r) == create_index(vectors@, *params, dims@),
{
    let mut props = JsonObject::new();
    let mut i: usize = 0;
    while i < vectors.len()
        invariant
            i <= vectors@.len(),
            properties(vectors@.take(i as int), *params, dims@) == Ok::<Members, ConfigErrorView>(
                props@,
            ),
        decreases vectors@.len() - i,
    {
        let ghost next = vectors@.take(i + 1);
        assert(next.drop_last() =~= vectors@.take(i as int));
        let entry = vectors.entry(i);
        match knn_vector_field(entry.0, entry.1, params, dims) {
            Ok(field) => props.insert(entry.0.to_owned(), field),
            Err(e) => {
                proof {
                    lemma_properties_fault(vectors@, i + 1, *params, dims@, e@);
                }
                return Err(e);
            },
        }
        i += 1;
    }
    assert(vectors@.take(i as int) =~= vectors@);
    let mut index = JsonObject::new();
    put_json(&mut index, "knn", Json::Bool(true));
    put_number(&mut index, "number_of_shards", params.shards);
    put_dynamic(&mut index, params);
    let mut body = JsonObject::new();
    put_json(&mut body, "settings", single_json("index", Json::Object(index)));
    put_json(&mut body, "mappings", single_json("properties", Json::Object(props)));
    Ok(Json::Object(body))
}

/// A fault in the first vectors is the fault of all.
proof fn lemma_properties_fault(
    vectors: Seq<(String, VectorSpec)>,
    n: int,
    params: OpenSearchParams,
    dims: Seq<(String, u64)>,
    e: ConfigErrorView,
)
    requires
        0 <= n <= vectors.len(),
        properties(vectors.take(n), params, dims) == Err::<Members, ConfigErrorView>(e),
    ensures
        properties(vectors, params, dims) == Err::<Members, ConfigErrorView>(e),
    decreases vectors.len() - n,
{
    if n == vectors.len() {
        assert(vectors.take(n) =~= vectors);
    } else {
        assert(vectors.take(n + 1).drop_last() =~= vectors.take(n));
        lemma_properties_fault(vectors, n + 1, params, dims, e);
    }
}

/// The body that changes the dynamic settings; none where nothing dynamic is configured.
pub open spec fn update_settings(params: OpenSearchParams) -> Option<JsonView> {
    match object_knob(with_dynamic(Map::empty(), params)) {
        Some(index) => Some(single("index"@, index)),
        None => None,
    }
}

/// Builds the body that changes the knobs of an index that already exists: the dynamic ones only.
/// Everything else is fixed when the index is created. Nothing where no dynamic knob is set, so
/// that no empty request is sent.
pub fn build_update_settings(params: &OpenSearchParams) -> (r: Option<Json>)
    ensures
        optional_view(r) == update_settings(*params),
{
    let mut index = JsonObject::new();
    put_dynamic(&mut index, params);
    match nonempty(index) {
        Some(j) => Some(single_json("index", j)),
        None => None,
    }
}

} // verus!
