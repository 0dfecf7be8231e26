use nova_opensearch::json::{Json, JsonNumber, JsonObject};
use nova_opensearch::load::bulk::{bulk_document, VectorValue};
use nova_opensearch::load::config::{
    EncoderConfig, MethodConfig, OpenSearchConfig, OpenSearchParams, VectorKind, VectorSpec,
};
use nova_opensearch::load::convert::{
    parse_compression_level, parse_data_type, parse_encoder_name, parse_engine, parse_method_name,
    parse_mode, parse_space_type,
};
use nova_opensearch::load::error::OpenSearchConfigError;
use nova_opensearch::load::fixed::method_matches;
use nova_opensearch::named::Named;
use nova_opensearch::load::settings::{lookup_setting, setting_as_u64};
use nova_opensearch::load::mapping::{build_create_index, build_update_settings, method_json};

fn text(s: &str) -> Json {
    Json::Text(s.to_string())
}

fn num(n: u64) -> Json {
    Json::Number(JsonNumber::PosInt(n))
}

fn object(members: Vec<(&str, Json)>) -> Json {
    let mut o = JsonObject::new();
    for (k, v) in members {
        o.insert(k.to_string(), v);
    }
    Json::Object(o)
}

fn assert_json(got: &Json, want: Json) {
    assert!(got.same(&want), "{} is not {}", got.to_text(), want.to_text());
}

fn dense_spec(distance: Option<&str>, datatype: Option<&str>) -> VectorSpec {
    VectorSpec {
        kind: VectorKind::Dense,
        column: "c".into(),
        size: Some(8),
        distance: distance.map(str::to_string),
        comparator: None,
        datatype: datatype.map(str::to_string),
        on_disk: None,
        modifier: None,
    }
}

fn named<T>(entries: Vec<(&str, T)>) -> Named<T> {
    let mut n = Named::new();
    for (name, value) in entries {
        n.insert(name.to_string(), value);
    }
    n
}

fn one_vector(spec: VectorSpec) -> Named<VectorSpec> {
    named(vec![("dense", spec)])
}

/// Every knob set.
fn everything() -> (OpenSearchConfig, Named<VectorSpec>) {
    let mut spec = dense_spec(Some("cosine"), Some("float32"));
    spec.size = Some(384);
    spec.on_disk = Some(true);
    let config = OpenSearchConfig {
        url: "https://localhost:9200".into(),
        username: Some("admin".into()),
        password: Some("secret".into()),
        bearer_token: None,
        index_name: "everything".into(),
        tls_insecure: true,
        timeout_s: 240,
        params: Some(OpenSearchParams {
            shards: Some(3),
            replicas: Some(1),
            refresh_interval: Some("30s".into()),
            ef_search: Some(200),
            method: Some(MethodConfig {
                name: Some("hnsw".into()),
                engine: Some("faiss".into()),
                m: Some(16),
                ef_construction: Some(256),
                ef_search: Some(128),
                nlist: None,
                nprobes: None,
                encoder: Some(EncoderConfig {
                    name: "sq".into(),
                    m: None,
                    code_size: None,
                    sq_type: Some("fp16".into()),
                    clip: Some(true),
                    bits: Some(16),
                }),
            }),
            mode: Some("on_disk".into()),
            compression_level: Some("16x".into()),
            recreate: true,
        }),
    };
    (config, one_vector(spec))
}

#[test]
fn all_index_params_flow_through() {
    let (store, vectors) = everything();
    assert_eq!(store.url, "https://localhost:9200");
    assert_eq!(store.username.as_deref(), Some("admin"));
    assert_eq!(store.password.as_deref(), Some("secret"));
    assert_eq!(store.index_name, "everything");
    assert!(store.tls_insecure);
    assert_eq!(store.timeout_s, 240);

    let params = store.params.as_ref().expect("params present");
    assert!(params.recreate);

    let body = build_create_index(&vectors, params, &named(vec![])).expect("build should succeed");

    let index = body.index("settings").index("index");
    assert_json(index.index("knn"), Json::Bool(true));
    assert_json(index.index("number_of_shards"), num(3));
    assert_json(index.index("number_of_replicas"), num(1));
    assert_json(index.index("refresh_interval"), text("30s"));
    assert_json(index.index("knn.algo_param.ef_search"), num(200));

    let field = body.index("mappings").index("properties").index("dense");
    assert_json(field.index("type"), text("knn_vector"));
    assert_json(field.index("dimension"), num(384));
    assert_json(field.index("space_type"), text("cosinesimil"));
    assert_json(field.index("data_type"), text("float"));
    assert_json(field.index("mode"), text("on_disk"));
    assert_json(field.index("compression_level"), text("16x"));

    let method = field.index("method");
    assert_json(method.index("name"), text("hnsw"));
    assert_json(method.index("engine"), text("faiss"));
    assert_json(method.index("parameters").index("m"), num(16));
    assert_json(method.index("parameters").index("ef_construction"), num(256));
    assert_json(method.index("parameters").index("ef_search"), num(128));
    let encoder = method.index("parameters").index("encoder");
    assert_json(encoder.index("name"), text("sq"));
    assert_json(encoder.index("parameters").index("type"), text("fp16"));
    assert_json(encoder.index("parameters").index("bits"), num(16));
    assert_json(encoder.index("parameters").index("clip"), Json::Bool(true));
}

#[test]
fn knn_is_always_enabled_and_space_type_always_written() {
    let body = build_create_index(
        &one_vector(dense_spec(None, None)),
        &OpenSearchParams::default(),
        &named(vec![]),
    )
    .expect("build should succeed");

    assert_json(
        body.index("settings").index("index").index("knn"),
        Json::Bool(true),
    );
    let field = body.index("mappings").index("properties").index("dense");
    // An unset distance means cosine, not the server's own `l2`.
    assert_json(field.index("space_type"), text("cosinesimil"));
    assert!(field.index("method").is_null());
    assert!(field.index("mode").is_null());
    assert!(field.index("data_type").is_null());
}

#[test]
fn distances_map_onto_space_types() {
    for (distance, space) in [
        (None, "cosinesimil"),
        (Some("cosine"), "cosinesimil"),
        (Some("dot"), "innerproduct"),
        (Some("euclid"), "l2"),
        (Some("euclidean"), "l2"),
        (Some("l2"), "l2"),
        (Some("manhattan"), "l1"),
        (Some("l1"), "l1"),
        (Some("COSINE"), "cosinesimil"),
    ] {
        assert_eq!(
            parse_space_type("dense", distance).expect("known distance"),
            space,
            "{distance:?}"
        );
    }
    assert!(matches!(
        parse_space_type("dense", Some("hamming-ish")),
        Err(OpenSearchConfigError::UnknownDistance { .. })
    ));
}

#[test]
fn lossy_datatypes_are_rejected_with_guidance() {
    let err = parse_data_type("dense", Some("float16")).unwrap_err();
    assert!(matches!(err, OpenSearchConfigError::Float16Datatype { .. }));
    assert!(err.message().contains("sq"), "{}", err.message());

    let err = parse_data_type("dense", Some("uint8")).unwrap_err();
    assert!(matches!(err, OpenSearchConfigError::Uint8Datatype { .. }));
    assert!(err.message().contains("SIGNED"), "{}", err.message());

    assert_eq!(
        parse_data_type("dense", Some("float32")).unwrap(),
        Some("float")
    );
    assert_eq!(parse_data_type("dense", Some("byte")).unwrap(), Some("byte"));
    assert_eq!(parse_data_type("dense", None).unwrap(), None);
}

#[test]
fn on_disk_selects_mode_and_explicit_mode_wins() {
    let mut spec = dense_spec(None, None);
    spec.on_disk = Some(true);
    let body =
        build_create_index(&one_vector(spec), &OpenSearchParams::default(), &named(vec![])).unwrap();
    assert_json(
        body.index("mappings")
            .index("properties")
            .index("dense")
            .index("mode"),
        text("on_disk"),
    );

    let mut spec = dense_spec(None, None);
    spec.on_disk = Some(true);
    let params = OpenSearchParams {
        mode: Some("in_memory".into()),
        ..Default::default()
    };
    let body = build_create_index(&one_vector(spec), &params, &named(vec![])).unwrap();
    assert_json(
        body.index("mappings")
            .index("properties")
            .index("dense")
            .index("mode"),
        text("in_memory"),
    );
}

#[test]
fn non_dense_vectors_are_rejected() {
    for kind in [VectorKind::Sparse, VectorKind::Multivector] {
        let mut spec = dense_spec(None, None);
        spec.kind = kind;
        let err = build_create_index(&one_vector(spec), &OpenSearchParams::default(), &named(vec![]))
            .expect_err("non-dense must be rejected");
        assert!(matches!(
            err,
            OpenSearchConfigError::UnsupportedVectorKind { .. }
        ));
    }
}

#[test]
fn missing_dimension_is_an_error() {
    let mut spec = dense_spec(None, None);
    spec.size = None;
    let err = build_create_index(&one_vector(spec), &OpenSearchParams::default(), &named(vec![]))
        .expect_err("missing size must be rejected");
    assert!(matches!(err, OpenSearchConfigError::MissingSize(_)));
}

#[test]
fn update_settings_carries_only_dynamic_knobs() {
    let params = OpenSearchParams {
        shards: Some(9),
        replicas: Some(2),
        refresh_interval: Some("5s".into()),
        ef_search: Some(512),
        method: Some(MethodConfig {
            m: Some(64),
            ..Default::default()
        }),
        mode: Some("on_disk".into()),
        compression_level: Some("32x".into()),
        recreate: true,
    };
    let body = build_update_settings(&params).expect("something dynamic is set");
    let index = body.index("index");
    assert_json(index.index("number_of_replicas"), num(2));
    assert_json(index.index("refresh_interval"), text("5s"));
    assert_json(index.index("knn.algo_param.ef_search"), num(512));
    assert!(index.index("number_of_shards").is_null());
    assert!(index.index("method").is_null());
    assert!(index.index("mode").is_null());
    assert!(index.index("compression_level").is_null());

    assert!(build_update_settings(&OpenSearchParams::default()).is_none());
}

#[test]
fn settings_lookup_handles_opensearchs_mixed_key_grouping() {
    let live = object(vec![
        ("replication", object(vec![("type", text("DOCUMENT"))])),
        (
            "knn.advanced",
            object(vec![("approximate_threshold", text("0"))]),
        ),
        ("number_of_shards", text("1")),
        ("knn.algo_param", object(vec![("ef_search", text("200"))])),
        ("provided_name", text("nova_smoke")),
        ("knn", text("true")),
        ("number_of_replicas", text("0")),
    ]);
    assert_json(lookup_setting(&live, "knn.algo_param.ef_search"), text("200"));
    assert_json(
        lookup_setting(&live, "knn.advanced.approximate_threshold"),
        text("0"),
    );
    assert_json(lookup_setting(&live, "number_of_replicas"), text("0"));
    assert_json(lookup_setting(&live, "knn"), text("true"));
    assert_json(lookup_setting(&live, "nope.not.here"), Json::Null);

    let nested = object(vec![(
        "knn",
        object(vec![(
            "algo_param",
            object(vec![("ef_search", text("200"))]),
        )]),
    )]);
    assert_json(
        lookup_setting(&nested, "knn.algo_param.ef_search"),
        text("200"),
    );
}

#[test]
fn setting_comparison_accepts_string_or_number() {
    assert_eq!(setting_as_u64(&text("200")), Some(200));
    assert_eq!(setting_as_u64(&num(200)), Some(200));
    assert_eq!(setting_as_u64(&Json::Null), None);
    assert_eq!(setting_as_u64(&text("30s")), None);
    assert_eq!(setting_as_u64(&text("true")), None);
}

#[test]
fn method_matches_ignores_server_filled_defaults() {
    let want = method_json(&MethodConfig {
        m: Some(16),
        ..Default::default()
    })
    .unwrap();
    let live = object(vec![
        ("name", text("hnsw")),
        ("engine", text("faiss")),
        ("space_type", text("cosinesimil")),
        (
            "parameters",
            object(vec![
                ("m", num(16)),
                ("ef_construction", num(100)),
                ("encoder", object(vec![("name", text("flat"))])),
            ]),
        ),
    ]);
    assert!(method_matches(&want, &live));

    let live_m32 = object(vec![
        ("name", text("hnsw")),
        ("engine", text("faiss")),
        ("parameters", object(vec![("m", num(32))])),
    ]);
    assert!(!method_matches(&want, &live_m32));

    let live_lucene = object(vec![
        ("name", text("hnsw")),
        ("engine", text("lucene")),
        ("parameters", object(vec![("m", num(16))])),
    ]);
    assert!(!method_matches(&want, &live_lucene));
    assert!(!method_matches(&want, &Json::Null));
}

#[test]
fn bulk_documents_serialize_vectors_as_f32_not_promoted_f64() {
    let mut payload = JsonObject::new();
    payload.insert("label".to_string(), text("a"));
    let values = serde_json::to_string(&vec![0.1f32, 0.2, -0.3]).unwrap();
    let vectors = named(vec![("dense", VectorValue::Dense(values))]);

    let body = bulk_document(&payload, &vectors).expect("bulk doc serializes");
    assert_eq!(body, r#"{"label":"a","dense":[0.1,0.2,-0.3]}"#);

    // What a JSON value would make of the same vector.
    assert_eq!(
        serde_json::to_value(vec![0.1f32, 0.2, -0.3]).unwrap().to_string(),
        "[0.10000000149011612,0.20000000298023224,-0.30000001192092896]"
    );
}

#[test]
fn names_are_read_in_any_case() {
    assert_eq!(parse_method_name(None).unwrap(), "hnsw");
    assert_eq!(parse_method_name(Some("IVF")).unwrap(), "ivf");
    assert_eq!(parse_method_name(Some("Flat")).unwrap(), "flat");
    assert_eq!(parse_method_name(Some("DiskANN")).unwrap(), "disk_ann");
    assert_eq!(parse_engine(None).unwrap(), "faiss");
    assert_eq!(parse_engine(Some("Lucene")).unwrap(), "lucene");
    assert_eq!(parse_engine(Some("NMSLIB")).unwrap(), "nmslib");
    assert_eq!(parse_engine(Some("jVector")).unwrap(), "jvector");
    assert_eq!(parse_mode(None).unwrap(), None);
    assert_eq!(parse_mode(Some("IN_MEMORY")).unwrap(), Some("in_memory"));
    assert_eq!(parse_compression_level(Some("32X")).unwrap(), Some("32x"));
    assert_eq!(parse_compression_level(None).unwrap(), None);
    assert_eq!(parse_encoder_name("PQ").unwrap(), "pq");
    assert_eq!(parse_data_type("v", Some("I8")).unwrap(), Some("byte"));
}

#[test]
fn unknown_names_are_reported_in_lower_case() {
    assert_eq!(
        parse_space_type("v", Some("Hamming")).unwrap_err().message(),
        "vector `v`: unknown distance `hamming` (expected one of: cosine, dot, euclid, manhattan)"
    );
    assert_eq!(
        parse_data_type("v", Some("Int4")).unwrap_err().message(),
        "vector `v`: unknown datatype `int4` (expected one of: float32, byte, binary)"
    );
    assert_eq!(
        parse_method_name(Some("X")).unwrap_err().message(),
        "unknown method name `x` (expected one of: hnsw, ivf, flat, disk_ann)"
    );
    assert_eq!(
        parse_engine(Some("X")).unwrap_err().message(),
        "unknown engine `x` (expected one of: faiss, lucene, nmslib, jvector)"
    );
    assert_eq!(
        parse_mode(Some("X")).unwrap_err().message(),
        "unknown vector mode `x` (expected one of: in_memory, on_disk)"
    );
    assert_eq!(
        parse_compression_level(Some("64X")).unwrap_err().message(),
        "unknown compression_level `64x` (expected one of: 1x, 2x, 4x, 8x, 16x, 32x)"
    );
    assert_eq!(
        parse_encoder_name("X").unwrap_err().message(),
        "unknown encoder name `x` (expected one of: flat, sq, pq)"
    );
}

#[test]
fn messages_of_refused_vectors() {
    let mut spec = dense_spec(None, None);
    spec.kind = VectorKind::Multivector;
    let err = build_create_index(&one_vector(spec), &OpenSearchParams::default(), &named(vec![]))
        .unwrap_err();
    assert_eq!(
        err.message(),
        "vector `dense` is Multivector: the opensearch backend supports dense vectors only for now"
    );
    let mut spec = dense_spec(None, None);
    spec.size = None;
    let err = build_create_index(&one_vector(spec), &OpenSearchParams::default(), &named(vec![]))
        .unwrap_err();
    assert_eq!(
        err.message(),
        "vector `dense` is dense but has no size: set `size:` in the vectors config or ensure the loader can infer it from the parquet schema"
    );
}

#[test]
fn a_configured_size_wins_over_an_inferred_one() {
    let dims = named(vec![("dense", 99u64)]);
    let spec = dense_spec(None, None);
    let body = build_create_index(&one_vector(spec), &OpenSearchParams::default(), &dims).unwrap();
    let field = body.index("mappings").index("properties").index("dense");
    assert_json(field.index("dimension"), num(8));

    let mut spec = dense_spec(None, None);
    spec.size = None;
    let body = build_create_index(&one_vector(spec), &OpenSearchParams::default(), &dims).unwrap();
    let field = body.index("mappings").index("properties").index("dense");
    assert_json(field.index("dimension"), num(99));
}

#[test]
fn the_order_of_vectors_does_not_matter() {
    let two = |flip: bool| {
        let a = ("a", dense_spec(Some("dot"), None));
        let b = ("b", dense_spec(Some("l1"), None));
        if flip {
            named(vec![b, a])
        } else {
            named(vec![a, b])
        }
    };
    let params = OpenSearchParams::default();
    let x = build_create_index(&two(false), &params, &named(vec![])).unwrap();
    let y = build_create_index(&two(true), &params, &named(vec![])).unwrap();
    assert!(x.same(&y));
    assert_eq!(
        x.to_text(),
        r#"{"mappings":{"properties":{"a":{"dimension":8,"space_type":"innerproduct","type":"knn_vector"},"b":{"dimension":8,"space_type":"l1","type":"knn_vector"}}},"settings":{"index":{"knn":true}}}"#
    );
}

#[test]
fn method_faults_are_reported_encoder_first() {
    let err = method_json(&MethodConfig {
        name: Some("x".into()),
        engine: Some("y".into()),
        encoder: Some(EncoderConfig {
            name: "z".into(),
            m: None,
            code_size: None,
            sq_type: None,
            clip: None,
            bits: None,
        }),
        ..Default::default()
    })
    .unwrap_err();
    assert!(matches!(err, OpenSearchConfigError::UnknownEncoder(_)));
    let err = method_json(&MethodConfig {
        name: Some("x".into()),
        engine: Some("y".into()),
        ..Default::default()
    })
    .unwrap_err();
    assert!(matches!(err, OpenSearchConfigError::UnknownMethodName(_)));
    let err = method_json(&MethodConfig {
        engine: Some("y".into()),
        ..Default::default()
    })
    .unwrap_err();
    assert!(matches!(err, OpenSearchConfigError::UnknownEngine(_)));
}

#[test]
fn a_name_stands_once() {
    let mut n = named(vec![("a", 1), ("b", 2), ("a", 3)]);
    assert_eq!(n.len(), 2);
    assert_eq!(n.entry(0), ("a", &3));
    assert_eq!(n.entry(1), ("b", &2));
    n.insert("c".to_string(), 4);
    assert_eq!(n.len(), 3);
    assert_eq!(n.entry(2), ("c", &4));
}
