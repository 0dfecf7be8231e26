use nova_opensearch::json::{Json, JsonNumber};
use nova_opensearch::storm::config::{
    default_index, default_timeout_s, rescore_json, OpenSearchConfig, OpenSearchSearchParams,
    OversampleFactor, QueryConfig, QuerySource, RescoreConfig, TargetError, WithPayload,
};
use nova_opensearch::connection::{Connection, Credentials};
use nova_opensearch::storm::profile::{distance_for_space, datatype_for_data_type};
use nova_opensearch::storm::search::{header_line, source_clause};
use nova_opensearch::storm::target::OpenSearchTarget;

fn factor(f: f64) -> OversampleFactor {
    OversampleFactor {
        bits: f.to_bits(),
        display: f.to_string(),
        json: serde_json::to_string(&f).unwrap(),
    }
}

fn config() -> OpenSearchConfig {
    OpenSearchConfig {
        url: "http://localhost:9200".into(),
        username: None,
        password: None,
        bearer_token: None,
        index_name: "fiqa".into(),
        tls_insecure: false,
        timeout_s: default_timeout_s(),
    }
}

fn query() -> QueryConfig {
    QueryConfig {
        filtered: false,
        vector_name: Some("dense".into()),
        top_k: 10,
        search_params: None,
        with_payload: WithPayload::Enable(false),
        source: QuerySource {
            ground_truth_column: None,
            ground_truth_score_column: None,
        },
    }
}

fn with_params(params: OpenSearchSearchParams) -> QueryConfig {
    QueryConfig {
        search_params: Some(Ok(params)),
        ..query()
    }
}

fn build(query: &QueryConfig) -> OpenSearchTarget {
    config().into_target(query).expect("target should build").0
}

fn err(result: Result<(OpenSearchTarget, Connection), TargetError>) -> String {
    match result {
        Ok(_) => panic!("expected the target build to fail"),
        Err(e) => e.message().to_string(),
    }
}

fn num(n: u64) -> Json {
    Json::Number(JsonNumber::PosInt(n))
}

#[test]
fn builds_target() {
    let target = build(&query());
    assert_eq!(target.index_name, "fiqa");
    assert_eq!(target.vector_field, "dense");
    assert_eq!(target.top_k, 10);
    assert!(target.method_parameters.is_none());
    assert!(target.rescore.is_none());
    assert_eq!(target.label(), "opensearch(fiqa)");
}

#[test]
fn search_params_parse_and_convert() {
    let target = build(&with_params(OpenSearchSearchParams {
        ef_search: Some(128),
        nprobes: Some(32),
        rescore: Some(RescoreConfig {
            enabled: None,
            oversample_factor: Some(factor(2.0)),
        }),
    }));
    let params = target.method_parameters.expect("method_parameters set");
    assert!(params.index("ef_search").same(&num(128)));
    assert!(params.index("nprobes").same(&num(32)));
    assert!(target
        .rescore
        .expect("rescore set")
        .index("oversample_factor")
        .same(&Json::Number(JsonNumber::Float("2.0".to_string()))));
}

#[test]
fn foreign_search_params_are_rejected() {
    for foreign in ["hnsw_ef", "num_candidates"] {
        let q = QueryConfig {
            search_params: Some(Err(format!("unknown field `{foreign}`"))),
            ..query()
        };
        let e = err(config().into_target(&q));
        assert!(e.contains("search_params"), "{e}");
        assert_eq!(
            e,
            format!("opensearch search_params: unknown field `{foreign}`")
        );
    }
}

#[test]
fn ef_search_below_top_k_is_rejected() {
    let e = err(config().into_target(&with_params(OpenSearchSearchParams {
        ef_search: Some(5),
        ..Default::default()
    })));
    assert!(e.contains("must be >= top_k"), "{e}");
    assert_eq!(e, "opensearch ef_search (5) must be >= top_k (10)");
    build(&with_params(OpenSearchSearchParams {
        ef_search: Some(10),
        ..Default::default()
    }));
}

#[test]
fn oversample_factor_range_is_validated() {
    let with_factor = |f: f64| {
        with_params(OpenSearchSearchParams {
            rescore: Some(RescoreConfig {
                enabled: None,
                oversample_factor: Some(factor(f)),
            }),
            ..Default::default()
        })
    };
    let e = err(config().into_target(&with_factor(0.5)));
    assert!(e.contains("[1.0, 100.0]"), "{e}");
    assert_eq!(
        e,
        "opensearch rescore.oversample_factor (0.5) must be in [1.0, 100.0]"
    );
    for f in [
        0.5,
        1.0,
        1.5,
        100.0,
        100.00001,
        0.9999999,
        0.0,
        -0.0,
        -2.0,
        1e300,
        f64::INFINITY,
        f64::NEG_INFINITY,
        f64::NAN,
        -f64::NAN,
        f64::MIN_POSITIVE,
    ] {
        assert_eq!(
            config().into_target(&with_factor(f)).is_ok(),
            (1.0..=100.0).contains(&f),
            "{f}"
        );
    }
}

#[test]
fn vector_name_is_required() {
    let q = QueryConfig {
        vector_name: None,
        ..query()
    };
    let e = err(config().into_target(&q));
    assert!(e.contains("vector_name"), "{e}");
}

#[test]
fn filters_are_rejected() {
    let q = QueryConfig {
        filtered: true,
        ..query()
    };
    let e = err(config().into_target(&q));
    assert!(e.contains("filters are not yet supported"), "{e}");
}

#[test]
fn rescore_serializes_as_bool_or_object() {
    let json = |enabled: Option<bool>, f: Option<f64>| {
        rescore_json(&RescoreConfig {
            enabled,
            oversample_factor: f.map(factor),
        })
        .map(|j| j.to_text())
    };
    assert_eq!(json(Some(false), None).as_deref(), Some("false"));
    assert_eq!(json(Some(false), Some(2.0)).as_deref(), Some("false"));
    assert_eq!(json(Some(true), None).as_deref(), Some("true"));
    assert_eq!(
        json(None, Some(3.5)).as_deref(),
        Some(r#"{"oversample_factor":3.5}"#)
    );
    assert_eq!(
        json(Some(true), Some(3.5)).as_deref(),
        Some(r#"{"oversample_factor":3.5}"#)
    );
    assert_eq!(json(None, None), None);
}

#[test]
fn space_types_map_back_to_distances() {
    assert_eq!(distance_for_space("cosinesimil"), Some("cosine"));
    assert_eq!(distance_for_space("innerproduct"), Some("dot"));
    assert_eq!(distance_for_space("l2"), Some("euclid"));
    assert_eq!(distance_for_space("l1"), Some("manhattan"));
    assert_eq!(distance_for_space("hamming"), None);
    assert_eq!(distance_for_space(""), None);
}

#[test]
fn data_types_map_back_to_datatypes() {
    assert_eq!(datatype_for_data_type(None), "float32");
    assert_eq!(datatype_for_data_type(Some("float")), "float32");
    assert_eq!(datatype_for_data_type(Some("byte")), "uint8");
    assert_eq!(datatype_for_data_type(Some("binary")), "unknown");
}

#[test]
fn score_collection_follows_config_and_can_be_disabled() {
    let target = build(&query());
    assert!(!target.collect_ids);
    assert!(!target.collect_scores);

    let mut q = query();
    q.source.ground_truth_column = Some("hit_ids".into());
    q.source.ground_truth_score_column = Some("hit_scores".into());
    let mut target = build(&q);
    assert!(target.collect_ids);
    assert!(target.collect_scores);
    target.disable_score_collection();
    assert!(!target.collect_scores);
    assert!(target.collect_ids);
}

#[test]
fn the_query_vector_serializes_as_f32_not_a_promoted_f64() {
    let vector: Vec<f32> = vec![0.1, 0.2, -0.3];
    let target = build(&query());
    let body = target.search_line(
        &serde_json::to_string(&vector).unwrap(),
        &Json::Bool(false),
    );
    assert!(
        body.contains(r#""vector":[0.1,0.2,-0.3]"#),
        "vector should keep its f32 shortest form: {body}"
    );
    assert_eq!(
        serde_json::to_value(&vector).unwrap().to_string(),
        "[0.10000000149011612,0.20000000298023224,-0.30000001192092896]"
    );
}

#[test]
fn msearch_lines_keep_their_shape() {
    let vector = serde_json::to_string(&vec![0.5f32, 0.25]).unwrap();
    let source = source_clause(&WithPayload::Enable(true), "dense");
    assert_eq!(header_line("fiqa"), r#"{"index":"fiqa"}"#);

    let target = build(&with_params(OpenSearchSearchParams {
        ef_search: Some(128),
        nprobes: None,
        rescore: Some(RescoreConfig {
            enabled: None,
            oversample_factor: Some(factor(2.0)),
        }),
    }));
    assert_eq!(
        target.search_line(&vector, &source),
        r#"{"query":{"knn":{"dense":{"vector":[0.5,0.25],"k":10,"method_parameters":{"ef_search":128},"rescore":{"oversample_factor":2.0}}}},"_source":{"excludes":["dense"]},"size":10}"#
    );

    let bare = build(&query()).search_line(&vector, &source);
    assert!(!bare.contains("method_parameters"), "{bare}");
    assert!(!bare.contains("rescore"), "{bare}");
}

#[test]
fn the_source_clause_follows_the_payload() {
    assert_eq!(
        source_clause(&WithPayload::Enable(false), "dense").to_text(),
        "false"
    );
    assert_eq!(
        source_clause(
            &WithPayload::Fields(vec!["title".into(), "url".into()]),
            "dense"
        )
        .to_text(),
        r#"{"includes":["title","url"]}"#
    );
}

#[test]
fn the_query_is_checked_before_the_url() {
    let mut c = config();
    c.url = "not a url".into();
    let e = err(c.into_target(&QueryConfig {
        filtered: true,
        ..query()
    }));
    assert!(e.contains("filters"), "{e}");
    let mut c = config();
    c.url = "not a url".into();
    assert_eq!(err(c.into_target(&query())), "relative URL without a base");
    assert_eq!(
        err(config().into_target_at(&query(), Err("no".to_string()))),
        "no"
    );
}

#[test]
fn the_connection_is_that_of_the_configuration() {
    let mut c = config();
    c.username = Some("u".into());
    c.password = Some("p".into());
    c.tls_insecure = true;
    let (_, connection) = c.into_target(&query()).unwrap();
    assert_eq!(connection.url, "http://localhost:9200/");
    assert!(matches!(
        connection.credentials,
        Some(Credentials::Basic(u, p)) if u == "u" && p == "p"
    ));
    assert_eq!(connection.timeout_s, 300);
    assert!(connection.tls_insecure);
    assert_eq!(default_index(), "default");
}

#[test]
fn secrets_of_a_target_are_not_shown() {
    let mut c = config();
    c.password = Some("hunter2".into());
    let shown = c.redacted();
    assert_eq!(shown.password, Some("<redacted>"));
    assert_eq!(shown.bearer_token, None);
    assert_eq!(shown.url, "http://localhost:9200");
}

#[test]
fn payload_is_carried_over() {
    let q = QueryConfig {
        with_payload: WithPayload::Fields(vec!["a".into(), "b".into()]),
        ..query()
    };
    let target = build(&q);
    assert!(matches!(target.with_payload, WithPayload::Fields(f) if f == ["a", "b"]));
}
