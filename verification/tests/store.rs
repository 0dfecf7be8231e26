use nova_opensearch::connection::{is_success, Credentials};
use nova_opensearch::error_chain::ErrorChain;
use nova_opensearch::json::{Json, JsonNumber, JsonObject};
use nova_opensearch::load::bulk::{Point, PointId, VectorValue};
use nova_opensearch::load::config::{
    default_index, default_timeout_s, CollectionSchema, EncoderConfig, MethodConfig, OpenSearchConfig,
    OpenSearchParams, VectorKind, VectorSpec,
};
use nova_opensearch::load::error::{
    client_err, to_store_err, ClientError, OpenSearchConfigError, StoreError,
};
use nova_opensearch::load::settings::lookup_setting;
use nova_opensearch::named::Named;
use nova_opensearch::load::verify::{
    check_text_setting, check_u64_json, check_u64_setting, VerifySeen, VerifyStep,
};
use nova_opensearch::load::mapping::{build_create_index, build_update_settings};
use nova_opensearch::load::settle::{
    SettleSeen, SettleStep, Settling, POLL_INTERVAL, SETTLED_HOLD, TIMEOUT,
};
use nova_opensearch::load::store::{
    EnableSeen, EnableStep, EnsureSeen, EnsureStep, OpenSearchStore, Reply,
};

fn text(s: &str) -> Json {
    Json::Text(s.to_string())
}

fn num(n: u64) -> Json {
    Json::Number(JsonNumber::PosInt(n))
}

fn members(list: Vec<(&str, Json)>) -> JsonObject {
    let mut o = JsonObject::new();
    for (k, v) in list {
        o.insert(k.to_string(), v);
    }
    o
}

fn object(list: Vec<(&str, Json)>) -> Json {
    Json::Object(members(list))
}

fn ok(body: Json) -> Reply {
    Reply {
        status: 200,
        detail: String::new(),
        body,
    }
}

fn refused(status: u16, detail: &str) -> Reply {
    Reply {
        status,
        detail: detail.to_string(),
        body: Json::Null,
    }
}

fn spec(distance: Option<&str>) -> VectorSpec {
    VectorSpec {
        kind: VectorKind::Dense,
        column: "c".into(),
        size: Some(8),
        distance: distance.map(str::to_string),
        comparator: None,
        datatype: None,
        on_disk: None,
        modifier: None,
    }
}

fn named<T>(entries: Vec<(&str, T)>) -> Named<T> {
    let mut n = Named::new();
    for (name, value) in entries {
        n.insert(name.to_string(), value);
    }
    n
}

fn schema(distance: Option<&str>) -> CollectionSchema {
    CollectionSchema {
        vectors: named(vec![("dense", spec(distance))]),
        dims: Named::new(),
    }
}

fn store(params: OpenSearchParams) -> OpenSearchStore {
    OpenSearchStore {
        index_name: "docs".to_string(),
        params,
        expected_vectors: Named::new(),
    }
}

fn tuned() -> OpenSearchParams {
    OpenSearchParams {
        replicas: Some(1),
        ef_search: Some(200),
        method: Some(MethodConfig {
            m: Some(16),
            ef_construction: Some(100),
            ..Default::default()
        }),
        ..Default::default()
    }
}

fn other<T>(r: Result<T, StoreError>) -> String {
    match r {
        Err(StoreError::Other(m)) => m,
        _ => panic!("expected another error"),
    }
}

fn server<T>(r: Result<T, StoreError>) -> (Option<u16>, String) {
    match r {
        Err(StoreError::OpenSearch { status, message }) => (status, message),
        _ => panic!("expected an error of the server"),
    }
}

fn config() -> OpenSearchConfig {
    OpenSearchConfig {
        url: "https://localhost:9200".into(),
        username: Some("admin".into()),
        password: Some("secret".into()),
        bearer_token: Some("token".into()),
        index_name: default_index(),
        tls_insecure: false,
        timeout_s: default_timeout_s(),
        params: None,
    }
}

#[test]
fn a_bearer_token_wins() {
    let (store, connection) = config().connect().unwrap();
    assert_eq!(store.index(), "default");
    assert_eq!(store.label(), "opensearch(default)");
    assert!(store.expected_vectors.len() == 0);
    assert!(!store.params.recreate && store.params.method.is_none());
    assert_eq!(connection.url, "https://localhost:9200/");
    assert_eq!(connection.timeout_s, 120);
    assert!(!connection.tls_insecure);
    assert!(matches!(connection.credentials, Some(Credentials::Bearer(t)) if t == "token"));
}

#[test]
fn a_username_needs_a_password() {
    let mut c = config();
    c.bearer_token = None;
    let (_, connection) = c.connect().unwrap();
    assert!(
        matches!(connection.credentials, Some(Credentials::Basic(u, p)) if u == "admin" && p == "secret")
    );
    let mut c = config();
    c.bearer_token = None;
    c.password = None;
    let (_, connection) = c.connect().unwrap();
    assert!(connection.credentials.is_none());
}

#[test]
fn a_bad_url_is_an_error_without_a_status() {
    let mut c = config();
    c.url = "http://[".into();
    assert_eq!(
        server(c.connect()),
        (None, "invalid IPv6 address".to_string())
    );
    assert_eq!(
        server(config().connect_to(Err("bad".to_string()))),
        (None, "bad".to_string())
    );
}

#[test]
fn secrets_of_a_store_are_not_shown() {
    let c = config();
    let shown = c.redacted();
    assert_eq!(shown.password, Some("<redacted>"));
    assert_eq!(shown.bearer_token, Some("<redacted>"));
    assert_eq!(shown.username.as_deref(), Some("admin"));
}

#[test]
fn client_errors_keep_their_status() {
    let chain = || ErrorChain {
        message: "sending".to_string(),
        sources: vec!["refused".to_string()],
    };
    for status in [None, Some(429)] {
        let e = ClientError {
            status,
            chain: chain(),
        };
        assert_eq!(
            server::<()>(Err(to_store_err(&e))),
            (status, "sending: refused".to_string())
        );
        assert_eq!(
            server::<()>(Err(client_err(&e))),
            (status, "sending: refused".to_string())
        );
    }
}

#[test]
fn refused_requests_say_which_and_why() {
    let s = store(OpenSearchParams::default());
    let r = refused(503, "busy");
    assert_eq!(
        server(s.put_settings(&r)),
        (Some(503), "put settings failed (HTTP 503): busy".to_string())
    );
    assert_eq!(
        server(s.refresh(&r)).1,
        "refresh failed (HTTP 503): busy"
    );
    assert_eq!(
        server(s.force_merge(&r)).1,
        "force merge failed (HTTP 503): busy"
    );
    assert_eq!(
        server(s.merges_current(&r)).1,
        "merge stats failed (HTTP 503): busy"
    );
    assert_eq!(
        server(s.live_properties(&r)).1,
        "get mapping failed (HTTP 503): busy"
    );
    assert_eq!(
        server(s.live_settings(&r)).1,
        "get settings failed (HTTP 503): busy"
    );
    assert_eq!(
        server(s.upserted(&r)).1,
        "bulk upsert failed (HTTP 503): busy"
    );
    assert_eq!(
        server(s.point_exists(&r)).1,
        "document exists probe failed (HTTP 503): busy"
    );
    assert_eq!(
        server(s.delete_collection(&r)).1,
        "delete index failed (HTTP 503): busy"
    );
    assert!(s.put_settings(&ok(Json::Null)).is_ok());
    assert!(s.close().is_ok());
    assert!(is_success(200) && is_success(299) && !is_success(199) && !is_success(300));
}

#[test]
fn absence_is_no_failure() {
    let s = store(OpenSearchParams::default());
    assert!(s.delete_collection(&refused(404, "none")).is_ok());
    assert!(s.delete_collection(&ok(Json::Null)).is_ok());
    assert_eq!(s.point_exists(&refused(404, "none")).unwrap(), false);
    assert_eq!(s.point_exists(&ok(Json::Null)).unwrap(), true);
}

#[test]
fn replies_are_read_for_the_index() {
    let s = store(OpenSearchParams::default());
    let mapping = object(vec![(
        "docs",
        object(vec![(
            "mappings",
            object(vec![("properties", object(vec![("x", num(1))]))]),
        )]),
    )]);
    assert_eq!(
        s.live_properties(&ok(mapping)).unwrap().to_text(),
        r#"{"x":1}"#
    );
    let settings = object(vec![(
        "docs",
        object(vec![("settings", object(vec![("index", num(2))]))]),
    )]);
    assert_eq!(s.live_settings(&ok(settings)).unwrap().to_text(), "2");
}

#[test]
fn merges_are_those_of_the_index_or_of_all() {
    let s = store(OpenSearchParams::default());
    let total = |n: u64| {
        object(vec![(
            "total",
            object(vec![("merges", object(vec![("current", num(n))]))]),
        )])
    };
    let both = object(vec![
        ("indices", object(vec![("docs", total(3))])),
        ("_all", total(5)),
    ]);
    assert_eq!(s.merges_current(&ok(both)).unwrap(), 3);
    let all = object(vec![("_all", total(5))]);
    assert_eq!(s.merges_current(&ok(all)).unwrap(), 5);
    assert_eq!(s.merges_current(&ok(Json::Null)).unwrap(), 0);
}

#[test]
fn an_index_that_exists_is_kept() {
    let s = store(OpenSearchParams::default());
    let step = s
        .ensure_collection(&schema(None), &EnsureSeen::Probed(ok(Json::Null)))
        .unwrap();
    assert!(matches!(step, EnsureStep::Done));
}

#[test]
fn an_index_is_recreated_on_request() {
    let s = store(OpenSearchParams {
        recreate: true,
        ..Default::default()
    });
    let sc = schema(None);
    let step = s
        .ensure_collection(&sc, &EnsureSeen::Probed(ok(Json::Null)))
        .unwrap();
    assert!(matches!(step, EnsureStep::Delete));
    let step = s
        .ensure_collection(&sc, &EnsureSeen::Deleted(ok(Json::Null)))
        .unwrap();
    let want = build_create_index(&sc.vectors, &s.params, &sc.dims).unwrap();
    assert!(matches!(step, EnsureStep::Create(body) if body.same(&want)));
    let step = s
        .ensure_collection(&sc, &EnsureSeen::Created(ok(Json::Null)))
        .unwrap();
    assert!(matches!(step, EnsureStep::Done));
    assert_eq!(
        server(s.ensure_collection(&sc, &EnsureSeen::Deleted(refused(500, "no")))).1,
        "delete index failed (HTTP 500): no"
    );
    assert_eq!(
        server(s.ensure_collection(&sc, &EnsureSeen::Created(refused(400, "bad")))),
        (
            Some(400),
            "create index `docs` failed (HTTP 400): bad".to_string()
        )
    );
}

#[test]
fn a_missing_index_is_created_or_its_fault_reported() {
    let s = store(OpenSearchParams::default());
    let step = s
        .ensure_collection(&schema(None), &EnsureSeen::Probed(refused(404, "")))
        .unwrap();
    assert!(matches!(step, EnsureStep::Create(_)));
    let e = other(s.ensure_collection(&schema(Some("odd")), &EnsureSeen::Probed(refused(404, ""))));
    assert_eq!(
        e,
        OpenSearchConfigError::UnknownDistance {
            name: "dense".into(),
            value: "odd".into()
        }
        .message()
    );
}

#[test]
fn deferral_and_its_end_touch_the_same_settings() {
    let mut s = store(OpenSearchParams::default());
    assert_eq!(
        s.defer_indexing().to_text(),
        r#"{"index":{"knn.advanced.approximate_threshold":-1,"refresh_interval":"-1"}}"#
    );
    let step = s.enable_indexing(EnableSeen::Loaded(schema(None))).unwrap();
    assert!(matches!(step, EnableStep::PutSettings(b) if b.to_text()
        == r#"{"index":{"knn.advanced.approximate_threshold":0,"refresh_interval":null}}"#));
    assert_eq!(s.expected_vectors.len(), 1);
    assert_eq!(s.expected_vectors.entry(0).0, "dense");
    let step = s
        .enable_indexing(EnableSeen::SettingsPut(ok(Json::Null)))
        .unwrap();
    assert!(matches!(step, EnableStep::Refresh));
    let step = s
        .enable_indexing(EnableSeen::Refreshed(ok(Json::Null)))
        .unwrap();
    assert!(
        matches!(step, EnableStep::ForceMerge(m) if m.path == "/docs/_forcemerge"
        && m.max_num_segments == "1" && m.wait_for_completion == "false")
    );
    let step = s
        .enable_indexing(EnableSeen::Merging(ok(Json::Null)))
        .unwrap();
    assert!(matches!(step, EnableStep::Done));
    assert_eq!(
        server(s.enable_indexing(EnableSeen::Refreshed(refused(500, "x")))).1,
        "refresh failed (HTTP 500): x"
    );

    let mut s = store(OpenSearchParams {
        refresh_interval: Some("30s".into()),
        ..Default::default()
    });
    let step = s.enable_indexing(EnableSeen::Loaded(schema(None))).unwrap();
    assert!(matches!(step, EnableStep::PutSettings(b) if b.to_text()
        == r#"{"index":{"knn.advanced.approximate_threshold":0,"refresh_interval":"30s"}}"#));
}

#[test]
fn a_created_index_passes_its_check() {
    let mut s = store(tuned());
    let sc = schema(Some("dot"));
    let body = build_create_index(&sc.vectors, &s.params, &sc.dims).unwrap();
    s.enable_indexing(EnableSeen::Loaded(schema(Some("dot"))))
        .unwrap();
    assert_eq!(
        s.verify_params(&VerifySeen::Nothing).unwrap(),
        VerifyStep::FetchProperties
    );
    let again = build_create_index(&sc.vectors, &s.params, &sc.dims).unwrap();
    let take = |j: Json, a: &str, b: &str| match j {
        Json::Object(o) => match o.get(a).unwrap() {
            Json::Object(p) => {
                let mut copy = JsonObject::new();
                if let Json::Object(q) = p.get(b).unwrap() {
                    for i in 0..q.len() {
                        let (k, v) = q.entry(i);
                        copy.insert(k.to_string(), deep(v));
                    }
                }
                Json::Object(copy)
            }
            _ => panic!("no object"),
        },
        _ => panic!("no object"),
    };
    assert_eq!(
        s.verify_params(&VerifySeen::Properties(take(body, "mappings", "properties")))
            .unwrap(),
        VerifyStep::FetchSettings
    );
    assert_eq!(
        s.verify_params(&VerifySeen::Settings(take(again, "settings", "index")))
            .unwrap(),
        VerifyStep::Done
    );
}

fn deep(j: &Json) -> Json {
    match j {
        Json::Null => Json::Null,
        Json::Bool(b) => Json::Bool(*b),
        Json::Number(n) => Json::Number(n.copied()),
        Json::Text(s) => Json::Text(s.clone()),
        Json::Array(v) => Json::Array(v.iter().map(deep).collect()),
        Json::Object(o) => {
            let mut copy = JsonObject::new();
            for i in 0..o.len() {
                let (k, v) = o.entry(i);
                copy.insert(k.to_string(), deep(v));
            }
            Json::Object(copy)
        }
    }
}

fn expecting(params: OpenSearchParams, distance: Option<&str>) -> OpenSearchStore {
    let mut s = store(params);
    s.expected_vectors = schema(distance).vectors;
    s
}

fn live_field(space: &str, engine: &str, m: u64) -> Json {
    object(vec![(
        "dense",
        object(vec![
            ("dimension", num(8)),
            (
                "method",
                object(vec![
                    ("name", text("hnsw")),
                    ("engine", text(engine)),
                    ("space_type", text(space)),
                    (
                        "parameters",
                        object(vec![("m", num(m)), ("ef_construction", num(100))]),
                    ),
                ]),
            ),
        ]),
    )])
}

/// A field of an index without a method, with some attributes.
fn plain_field(attributes: Vec<(&str, Json)>) -> Json {
    let mut all = vec![("space_type", text("cosinesimil"))];
    all.extend(attributes);
    object(vec![("dense", object(all))])
}

#[test]
fn without_expected_vectors_only_settings_are_checked() {
    assert_eq!(
        store(tuned()).verify_params(&VerifySeen::Nothing).unwrap(),
        VerifyStep::FetchSettings
    );
}

#[test]
fn each_difference_of_the_mapping_is_reported() {
    let s = expecting(tuned(), None);
    let check = |props: Json| s.verify_params(&VerifySeen::Properties(props));
    assert_eq!(
        check(live_field("cosinesimil", "faiss", 16)).unwrap(),
        VerifyStep::FetchSettings
    );
    assert_eq!(
        other(check(Json::Null)),
        "sanity check FAILED on opensearch(docs): field `dense` missing from the live mapping"
    );
    assert_eq!(
        other(check(live_field("l2", "faiss", 16))),
        "sanity check FAILED on opensearch(docs) field `dense`: requested space_type=cosinesimil but the live mapping has l2"
    );
    assert_eq!(
        other(check(live_field("cosinesimil", "lucene", 16))),
        "sanity check FAILED on opensearch(docs) field `dense`: requested engine=faiss but the live mapping has lucene"
    );
    assert_eq!(
        other(check(live_field("cosinesimil", "faiss", 32))),
        "sanity check FAILED on opensearch(docs) field `dense` method.parameters.m: requested 16 but the live mapping has 32"
    );
    let bare = object(vec![("dense", object(vec![("type", text("knn_vector"))]))]);
    assert_eq!(
        other(check(bare)),
        "sanity check FAILED on opensearch(docs) field `dense`: requested space_type=cosinesimil but the live mapping has "
    );
    let s = expecting(tuned(), Some("odd"));
    assert!(
        other(s.verify_params(&VerifySeen::Properties(live_field("l2", "faiss", 16))))
            .contains("unknown distance `odd`")
    );
}

#[test]
fn settings_are_compared_as_numbers() {
    let s = store(tuned());
    let settings = |replicas: Json, ef: Json| {
        VerifySeen::Settings(object(vec![
            ("number_of_replicas", replicas),
            ("knn.algo_param", object(vec![("ef_search", ef)])),
            ("knn", text("true")),
        ]))
    };
    assert_eq!(
        s.verify_params(&settings(text("1"), text("200"))).unwrap(),
        VerifyStep::Done
    );
    assert_eq!(
        other(s.verify_params(&settings(text("0"), text("200")))),
        r#"sanity check FAILED on opensearch(docs) number_of_replicas: requested 1 but the live index config has "0""#
    );
    assert_eq!(
        other(s.verify_params(&VerifySeen::Settings(object(vec![(
            "number_of_replicas",
            num(1)
        )])))),
        "sanity check FAILED on opensearch(docs) knn.algo_param.ef_search: requested 200 but the live index config has null"
    );
    assert!(check_u64_setting(&s, "x", None, &Json::Null).is_ok());
    assert!(check_u64_json(&s, "f", "x", None, &Json::Null).is_ok());
    assert!(check_u64_json(&s, "f", "x", Some(1), &text("1")).is_err());
}

#[test]
fn reindex_patches_what_is_dynamic() {
    let mut s = store(tuned());
    let body = s
        .reindex(
            schema(None),
            &live_field("cosinesimil", "faiss", 16),
            &Json::Null,
        )
        .unwrap()
        .unwrap();
    assert_eq!(
        body.to_text(),
        r#"{"index":{"knn.algo_param.ef_search":200,"number_of_replicas":1}}"#
    );
    assert_eq!(s.expected_vectors.len(), 1);
    let mut s = store(OpenSearchParams::default());
    assert!(s
        .reindex(
            schema(None),
            &live_field("cosinesimil", "faiss", 16),
            &Json::Null,
        )
        .unwrap()
        .is_none());
}

#[test]
fn reindex_refuses_what_is_immutable() {
    let mut s = store(tuned());
    assert_eq!(
        other(s.reindex(schema(None), &Json::Null, &Json::Null)),
        "reindex: field `dense` not found in the mapping on opensearch(docs)"
    );
    assert_eq!(
        other(s.reindex(schema(None), &live_field("l2", "faiss", 16), &Json::Null)),
        "reindex: opensearch cannot change `space_type` in place on `dense` (l2 → cosinesimil); that needs a new index + a reload"
    );
    assert_eq!(
        other(s.reindex(schema(None), &live_field("cosinesimil", "faiss", 8), &Json::Null)),
        concat_method_message()
    );
    assert!(s.expected_vectors.len() == 0);
}

fn concat_method_message() -> String {
    let mut m = String::from("reindex: opensearch cannot change the ANN `method` in place on `dense` (live ");
    m.push_str(r#"{"engine":"faiss","name":"hnsw","parameters":{"ef_construction":100,"m":8},"space_type":"cosinesimil"}"#);
    m.push_str(", requested ");
    m.push_str(r#"{"engine":"faiss","name":"hnsw","parameters":{"ef_construction":100,"m":16}}"#);
    m.push_str("); every method field is immutable after index creation, so this needs a new index + a reload. Sweep it on a fresh-load axis, not an in-place one.");
    m
}

fn point(id: PointId, vector: VectorValue) -> Point {
    Point {
        id,
        vectors: named(vec![("v", vector)]),
        payload: members(vec![("b", num(1)), ("a", text("x"))]),
    }
}

#[test]
fn points_become_documents_in_order() {
    let s = store(OpenSearchParams::default());
    let ops = s
        .upsert_batch(vec![
            point(PointId::Integer(7), VectorValue::Dense("[1.0]".into())),
            point(
                PointId::String("p".into()),
                VectorValue::Dense("[2.0]".into()),
            ),
        ])
        .unwrap()
        .unwrap();
    assert_eq!(ops.len(), 2);
    assert_eq!(ops[0].id, "7");
    assert_eq!(ops[0].document, r#"{"a":"x","b":1,"v":[1.0]}"#);
    assert_eq!(ops[1].id, "p");
    assert_eq!(ops[1].document, r#"{"a":"x","b":1,"v":[2.0]}"#);
    assert!(s.upsert_batch(vec![]).unwrap().is_none());
}

#[test]
fn documents_without_payload_or_vectors() {
    let s = store(OpenSearchParams::default());
    let ops = s
        .upsert_batch(vec![
            Point {
                id: PointId::Integer(0),
                vectors: named(vec![
                    ("v", VectorValue::Dense("[1.0]".into())),
                    ("w", VectorValue::Dense("[2.0]".into())),
                ]),
                payload: JsonObject::new(),
            },
            Point {
                id: PointId::Integer(1),
                vectors: Named::new(),
                payload: JsonObject::new(),
            },
        ])
        .unwrap()
        .unwrap();
    assert_eq!(ops[0].document, r#"{"v":[1.0],"w":[2.0]}"#);
    assert_eq!(ops[1].document, "{}");
}

#[test]
fn points_with_other_vectors_are_refused() {
    let s = store(OpenSearchParams::default());
    for v in [VectorValue::Sparse, VectorValue::Multi] {
        assert_eq!(
            other(s.upsert_batch(vec![point(PointId::Integer(1), v)])),
            "the opensearch backend supports dense vectors only; vector `v` is not dense"
        );
    }
}

#[test]
fn the_first_failed_item_is_reported() {
    let s = store(OpenSearchParams::default());
    let item = |status: u64, error: Json| {
        object(vec![(
            "index",
            object(vec![("status", num(status)), ("error", error)]),
        )])
    };
    let body = |items: Json| object(vec![("errors", Json::Bool(true)), ("items", items)]);
    let items = Json::Array(vec![
        item(201, Json::Null),
        item(429, object(vec![("type", text("busy"))])),
        item(400, text("bad")),
    ]);
    assert_eq!(
        server(s.upserted(&ok(body(items)))),
        (
            Some(429),
            r#"bulk upsert had item errors: {"type":"busy"}"#.to_string()
        )
    );
    assert_eq!(
        server(s.upserted(&ok(body(Json::Null)))),
        (
            None,
            "bulk upsert had item errors: unknown bulk item error".to_string()
        )
    );
    assert_eq!(
        server(s.upserted(&ok(body(Json::Array(vec![item(65537, text("x"))]))))).0,
        Some(1)
    );
    assert!(s
        .upserted(&ok(object(vec![("errors", Json::Bool(false))])))
        .is_ok());
}

#[test]
fn the_wait_ends_after_a_quiet_stretch() {
    let s = store(OpenSearchParams::default());
    let mut wait = Settling::new();
    let second: u64 = 1_000_000_000;
    assert_eq!(POLL_INTERVAL, second);
    assert_eq!(SETTLED_HOLD, 5 * second);
    let mut step = |current: i64, now: u64| {
        s.wait_for_indexing(&mut wait, SettleSeen::Merges { current, now: now * second })
            .unwrap()
    };
    assert_eq!(step(2, 0), SettleStep::Pause);
    assert_eq!(step(0, 1), SettleStep::Pause);
    assert_eq!(step(0, 5), SettleStep::Pause);
    // A merge resumes: the stretch starts anew.
    assert_eq!(step(1, 6), SettleStep::Pause);
    assert_eq!(step(0, 7), SettleStep::Pause);
    assert_eq!(step(0, 11), SettleStep::Pause);
    assert_eq!(step(0, 12), SettleStep::Verify(7 * second));
}

#[test]
fn the_wait_succeeds_only_with_a_checked_index() {
    let s = store(OpenSearchParams::default());
    let mut wait = Settling::new();
    let verified = |outcome| SettleSeen::Verified { since: 7, outcome };
    assert_eq!(
        s.wait_for_indexing(&mut wait, verified(Ok(()))).unwrap(),
        SettleStep::Done(7)
    );
    let failed = Err(StoreError::Other("sanity".to_string()));
    assert_eq!(
        other(s.wait_for_indexing(&mut wait, verified(failed))),
        "sanity"
    );
    let uncounted = SettleSeen::Uncounted(StoreError::OpenSearch {
        status: Some(500),
        message: "stats".to_string(),
    });
    assert_eq!(
        server(s.wait_for_indexing(&mut wait, uncounted)),
        (Some(500), "stats".to_string())
    );

}

#[test]
fn the_wait_is_given_up_in_the_end() {
    let s = store(OpenSearchParams::default());
    let mut wait = Settling::new();
    assert_eq!(
        s.wait_for_indexing(&mut wait, SettleSeen::Awake { now: TIMEOUT - 1 })
            .unwrap(),
        SettleStep::CountMerges
    );
    assert_eq!(
        other(s.wait_for_indexing(&mut wait, SettleSeen::Awake { now: TIMEOUT })),
        "timed out after 1800s waiting for merges to settle on opensearch(docs)"
    );
}

#[test]
fn what_reindex_accepts_passes_the_check() {
    let mut s = store(tuned());
    s.reindex(
            schema(None),
            &live_field("cosinesimil", "faiss", 16),
            &Json::Null,
        )
        .unwrap();
    assert_eq!(
        s.verify_params(&VerifySeen::Properties(live_field(
            "cosinesimil",
            "faiss",
            16
        )))
        .unwrap(),
        VerifyStep::FetchSettings
    );
}

#[test]
fn an_update_agrees_with_the_creation() {
    let params = OpenSearchParams {
        refresh_interval: Some("5s".into()),
        ..tuned()
    };
    let created = build_create_index(&schema(None).vectors, &params, &Named::new()).unwrap();
    let created = created.index("settings").index("index");
    let update = build_update_settings(&params).unwrap();
    for key in [
        "number_of_replicas",
        "refresh_interval",
        "knn.algo_param.ef_search",
    ] {
        assert!(!update.index("index").index(key).is_null());
        assert!(update.index("index").index(key).same(created.index(key)));
    }
}

fn attributes(datatype: Option<&str>, on_disk: Option<bool>) -> CollectionSchema {
    let mut v = spec(None);
    v.datatype = datatype.map(str::to_string);
    v.on_disk = on_disk;
    CollectionSchema {
        vectors: named(vec![("dense", v)]),
        dims: Named::new(),
    }
}

/// A live field, the schema it is held against, and the attribute in which it differs.
fn differences() -> Vec<(Json, CollectionSchema, &'static str, &'static str, &'static str)> {
    vec![
        (
            plain_field(vec![("dimension", num(768))]),
            schema(None),
            "dimension",
            "768",
            "8",
        ),
        (
            plain_field(vec![]),
            schema(None),
            "dimension",
            "null",
            "8",
        ),
        (
            plain_field(vec![("dimension", num(8))]),
            attributes(Some("byte"), None),
            "data_type",
            "float",
            "byte",
        ),
        (
            plain_field(vec![("dimension", num(8)), ("data_type", text("byte"))]),
            attributes(Some("float32"), None),
            "data_type",
            "byte",
            "float",
        ),
        (
            plain_field(vec![("dimension", num(8)), ("mode", text("in_memory"))]),
            attributes(None, Some(true)),
            "mode",
            "in_memory",
            "on_disk",
        ),
    ]
}

#[test]
fn each_attribute_of_a_field_is_checked() {
    for (field, sc, knob, got, want) in differences() {
        let mut s = store(OpenSearchParams::default());
        s.expected_vectors = sc.vectors;
        assert_eq!(
            other(s.verify_params(&VerifySeen::Properties(field))),
            format!("sanity check FAILED on opensearch(docs) field `dense`: requested {knob}={want} but the live mapping has {got}")
        );
    }
    let s = expecting(
        OpenSearchParams {
            compression_level: Some("16X".into()),
            mode: Some("on_disk".into()),
            ..Default::default()
        },
        None,
    );
    let field = |level: &str| {
        VerifySeen::Properties(plain_field(vec![
            ("dimension", num(8)),
            ("mode", text("on_disk")),
            ("compression_level", text(level)),
        ]))
    };
    assert_eq!(
        s.verify_params(&field("16x")).unwrap(),
        VerifyStep::FetchSettings
    );
    assert_eq!(
        other(s.verify_params(&field("8x"))),
        "sanity check FAILED on opensearch(docs) field `dense`: requested compression_level=16x but the live mapping has 8x"
    );
}

#[test]
fn a_float_field_need_not_say_so() {
    let mut s = store(OpenSearchParams::default());
    s.expected_vectors = attributes(Some("float32"), None).vectors;
    assert_eq!(
        s.verify_params(&VerifySeen::Properties(plain_field(vec![(
            "dimension",
            num(8)
        )])))
        .unwrap(),
        VerifyStep::FetchSettings
    );
}

#[test]
fn every_set_parameter_of_the_method_is_checked() {
    let mut params = tuned();
    params.method.as_mut().unwrap().ef_search = Some(64);
    let s = expecting(params, None);
    let e = other(s.verify_params(&VerifySeen::Properties(live_field(
        "cosinesimil",
        "faiss",
        16,
    ))));
    assert_eq!(
        e,
        r#"sanity check FAILED on opensearch(docs) field `dense`: requested method={"engine":"faiss","name":"hnsw","parameters":{"ef_construction":100,"ef_search":64,"m":16}} but the live mapping has {"engine":"faiss","name":"hnsw","parameters":{"ef_construction":100,"m":16},"space_type":"cosinesimil"}"#
    );
}

#[test]
fn every_set_setting_is_checked() {
    let s = store(OpenSearchParams {
        shards: Some(3),
        refresh_interval: Some("30s".into()),
        ..Default::default()
    });
    let live = |shards: &str, refresh: &str| {
        VerifySeen::Settings(object(vec![
            ("number_of_shards", text(shards)),
            ("refresh_interval", text(refresh)),
        ]))
    };
    assert_eq!(s.verify_params(&live("3", "30s")).unwrap(), VerifyStep::Done);
    assert_eq!(
        other(s.verify_params(&live("3", "1s"))),
        r#"sanity check FAILED on opensearch(docs) refresh_interval: requested 30s but the live index config has "1s""#
    );
    assert_eq!(
        other(s.verify_params(&live("1", "30s"))),
        r#"sanity check FAILED on opensearch(docs) number_of_shards: requested 3 but the live index config has "1""#
    );
    assert!(check_text_setting(&s, "x", None, &Json::Null).is_ok());
    assert!(check_text_setting(&s, "x", Some("1"), &num(1)).is_err());
}

#[test]
fn reindex_refuses_each_change_of_a_fixed_attribute() {
    for (field, sc, knob, got, want) in differences() {
        let mut s = store(OpenSearchParams {
            replicas: Some(1),
            ..Default::default()
        });
        assert_eq!(
            other(s.reindex(sc, &field, &Json::Null)),
            format!("reindex: opensearch cannot change `{knob}` in place on `dense` ({got} → {want}); that needs a new index + a reload")
        );
        assert!(s.expected_vectors.len() == 0);
    }
}

#[test]
fn reindex_refuses_another_number_of_shards() {
    let mut s = store(OpenSearchParams {
        shards: Some(9),
        ..Default::default()
    });
    let field = plain_field(vec![("dimension", num(8))]);
    let live = |n: &str| object(vec![("number_of_shards", text(n))]);
    assert_eq!(
        other(s.reindex(schema(None), &field, &live("1"))),
        r#"reindex: opensearch cannot change `number_of_shards` in place on opensearch(docs) ("1" → 9); that needs a new index + a reload"#
    );
    assert!(s.expected_vectors.len() == 0);
    assert!(s.reindex(schema(None), &field, &live("9")).unwrap().is_none());
    assert_eq!(s.expected_vectors.len(), 1);
}

#[test]
fn a_setting_is_found_through_any_groups() {
    let deep = object(vec![(
        "a",
        object(vec![
            ("b", object(vec![("c.d", object(vec![("e", num(1))]))])),
            ("x", num(2)),
        ]),
    )]);
    let flat = object(vec![("a.b.c.d.e", num(1)), ("a.x", num(2))]);
    for path in ["a.b.c.d.e", "a.x", "a", "a.b"] {
        assert!(lookup_setting(&deep, path).same(lookup_setting(&flat, path)));
    }
    assert!(lookup_setting(&deep, "a.b.c.d.e").same(&num(1)));
    assert!(lookup_setting(&deep, "a.b").is_null());
}

/// A live `method` with some members, on the field of an index.
fn with_method(members: Vec<(&str, Json)>) -> VerifySeen {
    let mut all = vec![("engine", text("faiss"))];
    all.extend(members);
    VerifySeen::Properties(plain_field(vec![
        ("dimension", num(8)),
        ("method", object(all)),
    ]))
}

fn live_encoder(name: &str, parameters: Vec<(&str, Json)>) -> Json {
    object(vec![
        ("name", text(name)),
        ("parameters", object(parameters)),
    ])
}

fn encoded(clip: Option<bool>) -> OpenSearchStore {
    expecting(
        OpenSearchParams {
            method: Some(MethodConfig {
                encoder: Some(EncoderConfig {
                    name: "SQ".into(),
                    m: None,
                    code_size: None,
                    sq_type: None,
                    clip,
                    bits: None,
                }),
                ..Default::default()
            }),
            ..Default::default()
        },
        None,
    )
}

#[test]
fn what_the_server_fills_into_an_encoder_is_not_looked_at() {
    let seen = |encoder: Json| {
        with_method(vec![
            ("name", text("hnsw")),
            ("parameters", object(vec![("encoder", encoder), ("m", num(16))])),
        ])
    };
    let filled = || live_encoder("sq", vec![("clip", Json::Bool(false)), ("bits", num(16))]);
    assert_eq!(
        encoded(None).verify_params(&seen(filled())).unwrap(),
        VerifyStep::FetchSettings
    );
    assert_eq!(
        encoded(Some(false)).verify_params(&seen(filled())).unwrap(),
        VerifyStep::FetchSettings
    );
    // A knob that is set is compared, and so is the encoder's name.
    assert!(other(encoded(Some(true)).verify_params(&seen(filled())))
        .contains("requested method="));
    assert!(
        other(encoded(None).verify_params(&seen(live_encoder("pq", vec![]))))
            .contains("requested method=")
    );
    assert!(other(encoded(None).verify_params(&seen(Json::Null))).contains("requested method="));
}

#[test]
fn the_name_of_a_method_is_compared_where_it_is_set() {
    let method = |name: Option<&str>| {
        expecting(
            OpenSearchParams {
                method: Some(MethodConfig {
                    name: name.map(str::to_string),
                    ..Default::default()
                }),
                ..Default::default()
            },
            None,
        )
    };
    let ivf = || with_method(vec![("name", text("ivf"))]);
    assert_eq!(
        method(None).verify_params(&ivf()).unwrap(),
        VerifyStep::FetchSettings
    );
    assert_eq!(
        method(Some("IVF")).verify_params(&ivf()).unwrap(),
        VerifyStep::FetchSettings
    );
    assert!(other(method(Some("hnsw")).verify_params(&ivf())).contains("requested method="));
}

#[test]
fn reindex_reads_the_settings_for_the_shards() {
    assert!(!store(tuned()).reindex_reads_settings());
    assert!(store(OpenSearchParams {
        shards: Some(1),
        ..Default::default()
    })
    .reindex_reads_settings());
}
