use nova_opensearch::error_chain::ErrorChain;
use nova_opensearch::json::{Json, JsonNumber, JsonObject};
use nova_opensearch::load::config::{OpenSearchParams, VectorKind, VectorSpec};
use nova_opensearch::load::convert::parse_space_type;
use nova_opensearch::load::mapping::knn_vector_field;
use nova_opensearch::named::Named;
use nova_opensearch::storm::batch::{fail, BatchOutcome, BatchStart, MsearchReply};
use nova_opensearch::storm::config::WithPayload;
use nova_opensearch::storm::profile::MappingReply;
use nova_opensearch::storm::search::QueryVector;
use nova_opensearch::storm::target::OpenSearchTarget;

fn text(s: &str) -> Json {
    Json::Text(s.to_string())
}

fn num(n: u64) -> Json {
    Json::Number(JsonNumber::PosInt(n))
}

fn object(list: Vec<(&str, Json)>) -> Json {
    let mut o = JsonObject::new();
    for (k, v) in list {
        o.insert(k.to_string(), v);
    }
    Json::Object(o)
}

fn target(collect_ids: bool, collect_scores: bool) -> OpenSearchTarget {
    OpenSearchTarget {
        index_name: "fiqa".into(),
        vector_field: "dense".into(),
        top_k: 3,
        method_parameters: None,
        rescore: None,
        with_payload: WithPayload::Enable(false),
        collect_ids,
        collect_scores,
    }
}

fn hit(id: &str, score: &str) -> Json {
    object(vec![
        ("_id", text(id)),
        (
            "_score",
            Json::Number(JsonNumber::Float(score.to_string())),
        ),
    ])
}

fn item(hits: Vec<Json>) -> Json {
    object(vec![("hits", object(vec![("hits", Json::Array(hits))]))])
}

fn answer(items: Vec<Json>) -> MsearchReply {
    body(object(vec![("responses", Json::Array(items))]))
}

fn body(j: Json) -> MsearchReply {
    MsearchReply::Answered {
        status: 200,
        status_text: "200 OK".into(),
        detail: String::new(),
        body: Ok(j),
    }
}

fn assert_failed(o: &BatchOutcome, n: usize, error: &str, timed_out: bool) {
    assert!(!o.ok);
    assert_eq!(o.error.as_deref(), Some(error));
    assert_eq!(o.timed_out, timed_out);
    assert_eq!(o.ids.len(), n);
    assert_eq!(o.scores.len(), n);
    assert!(o.ids.iter().all(|x| x.is_none()));
    assert!(o.scores.iter().all(|x| x.is_none()));
}

#[test]
fn an_empty_batch_is_done() {
    match target(true, true).query_batch(&vec![]) {
        BatchStart::Done(o) => {
            assert!(o.ok && o.ids.is_empty() && o.scores.is_empty() && o.error.is_none());
            assert!(!o.timed_out);
        }
        BatchStart::Send(_) => panic!("nothing to send"),
    }
}

#[test]
fn a_batch_has_two_lines_for_each_query() {
    let queries = vec![
        QueryVector::Dense("[1.0]".into()),
        QueryVector::Dense("[2.0]".into()),
    ];
    match target(true, true).query_batch(&queries) {
        BatchStart::Send(lines) => assert_eq!(
            lines,
            [
                r#"{"index":"fiqa"}"#,
                r#"{"query":{"knn":{"dense":{"vector":[1.0],"k":3}}},"_source":false,"size":3}"#,
                r#"{"index":"fiqa"}"#,
                r#"{"query":{"knn":{"dense":{"vector":[2.0],"k":3}}},"_source":false,"size":3}"#,
            ]
        ),
        BatchStart::Done(_) => panic!("something to send"),
    }
}

#[test]
fn a_sparse_query_fails_its_batch() {
    let queries = vec![QueryVector::Dense("[1.0]".into()), QueryVector::Sparse];
    match target(true, true).query_batch(&queries) {
        BatchStart::Done(o) => assert_failed(
            &o,
            2,
            "the opensearch target does not support sparse queries",
            false,
        ),
        BatchStart::Send(_) => panic!("nothing to send"),
    }
}

#[test]
fn failures_carry_nothing_for_each_query() {
    assert_failed(&fail(3, "x".into(), true), 3, "x", true);
}

#[test]
fn requests_that_fail_are_told_apart() {
    let t = target(true, true);
    let chain = || ErrorChain {
        message: "sending".into(),
        sources: vec!["slow".into()],
    };
    let r = MsearchReply::Unsent {
        error: chain(),
        timed_out: true,
    };
    assert_failed(&t.read_batch(2, &r), 2, "sending: slow", true);
    let r = MsearchReply::Answered {
        status: 502,
        status_text: "502 Bad Gateway".into(),
        detail: "<html>".into(),
        body: Ok(Json::Null),
    };
    assert_failed(
        &t.read_batch(1, &r),
        1,
        "msearch HTTP 502 Bad Gateway: <html>",
        false,
    );
    for timed_out in [false, true] {
        let r = MsearchReply::Answered {
            status: 200,
            status_text: "200 OK".into(),
            detail: String::new(),
            body: Err((chain(), timed_out)),
        };
        assert_failed(&t.read_batch(1, &r), 1, "sending: slow", timed_out);
    }
}

#[test]
fn hits_are_collected_with_their_scores() {
    let t = target(true, true);
    let o = t.read_batch(
        2,
        &answer(vec![
            item(vec![hit("a", "0.9"), hit("b", "0.5")]),
            item(vec![]),
        ]),
    );
    assert!(o.ok && o.error.is_none() && !o.timed_out);
    assert_eq!(
        o.ids,
        [
            Some(vec!["a".to_string(), "b".to_string()]),
            Some(vec![])
        ]
    );
    let scores = o.scores[0].as_ref().unwrap();
    assert!(matches!(&scores[0], JsonNumber::Float(f) if f == "0.9"));
    assert!(matches!(&scores[1], JsonNumber::Float(f) if f == "0.5"));
    assert!(o.scores[1].as_ref().unwrap().is_empty());
}

#[test]
fn what_is_not_collected_is_not_looked_at() {
    let no_score = object(vec![("_id", text("a"))]);
    let o = target(true, false).read_batch(1, &answer(vec![item(vec![no_score])]));
    assert!(o.ok);
    assert_eq!(o.ids, [Some(vec!["a".to_string()])]);
    assert!(o.scores[0].is_none());
    let o = target(false, true).read_batch(1, &answer(vec![item(vec![Json::Null])]));
    assert!(o.ok);
    assert!(o.ids[0].is_none() && o.scores[0].is_none());
}

#[test]
fn disabling_scores_keeps_the_ids() {
    let mut t = target(true, true);
    let reply = answer(vec![item(vec![hit("a", "0.9")])]);
    let with = t.read_batch(1, &reply);
    t.disable_score_collection();
    let without = t.read_batch(1, &reply);
    assert!(with.ok && without.ok);
    assert_eq!(with.ids, without.ids);
    assert!(with.scores[0].is_some() && without.scores[0].is_none());
}

#[test]
fn every_malformed_answer_fails_the_batch() {
    let t = target(true, true);
    assert_failed(
        &t.read_batch(1, &body(object(vec![("x", num(1))]))),
        1,
        r#"msearch: no `responses` array: {"x":1}"#,
        false,
    );
    assert_failed(
        &t.read_batch(2, &answer(vec![item(vec![])])),
        2,
        "msearch returned 1 responses for 2 queries",
        false,
    );
    let good = || item(vec![]);
    let second = |bad: Json| t.read_batch(2, &answer(vec![good(), bad]));
    assert_failed(
        &second(object(vec![("error", text("boom"))])),
        2,
        r#"msearch item 1 error: "boom""#,
        false,
    );
    assert_failed(
        &second(object(vec![("timed_out", Json::Bool(true))])),
        2,
        r#"msearch item 1 timed out: {"timed_out":true}"#,
        true,
    );
    assert_failed(
        &second(object(vec![(
            "_shards",
            object(vec![("failed", num(2))]),
        )])),
        2,
        r#"msearch item 1: 2 failed shard(s): {"failed":2}"#,
        false,
    );
    assert_failed(
        &second(object(vec![("hits", Json::Null)])),
        2,
        r#"msearch item 1: no `hits.hits` array: {"hits":null}"#,
        false,
    );
    assert_failed(
        &second(item(vec![object(vec![("_id", num(1))])])),
        2,
        r#"msearch item 1: a hit has no string `_id`: {"_id":1}"#,
        false,
    );
    assert_failed(
        &second(item(vec![object(vec![("_id", text("a"))])])),
        2,
        r#"msearch item 1: a hit has no numeric `_score`: {"_id":"a"}"#,
        false,
    );
}

#[test]
fn harmless_members_do_not_fail_the_batch() {
    let r = object(vec![
        ("error", Json::Null),
        ("timed_out", Json::Bool(false)),
        ("_shards", object(vec![("failed", num(0))])),
        ("hits", object(vec![("hits", Json::Array(vec![]))])),
    ]);
    assert!(target(true, true).read_batch(1, &answer(vec![r])).ok);
}

fn mapping(field: Json) -> Option<MappingReply> {
    Some(MappingReply {
        status: 200,
        body: Some(object(vec![(
            "fiqa",
            object(vec![(
                "mappings",
                object(vec![("properties", object(vec![("dense", field)]))]),
            )]),
        )])),
    })
}

#[test]
fn a_live_field_is_profiled() {
    let t = target(true, true);
    let p = t.scoring_profile(&mapping(object(vec![
        ("space_type", text("l2")),
        ("data_type", text("byte")),
        ("compression_level", text("1x")),
    ])));
    assert_eq!(p.distance.as_deref(), Some("euclid"));
    assert_eq!(p.datatype.as_deref(), Some("uint8"));
    assert!(!p.quantized);

    let p = t.scoring_profile(&mapping(object(vec![(
        "method",
        object(vec![
            ("space_type", text("innerproduct")),
            (
                "parameters",
                object(vec![("encoder", object(vec![("name", text("sq"))]))]),
            ),
        ]),
    )])));
    assert_eq!(p.distance.as_deref(), Some("dot"));
    assert_eq!(p.datatype.as_deref(), Some("float32"));
    assert!(p.quantized);

    let p = t.scoring_profile(&mapping(object(vec![
        ("space_type", text("hamming")),
        ("compression_level", text("32x")),
    ])));
    assert_eq!(p.distance, None);
    assert!(p.quantized);
}

#[test]
fn an_unknown_field_has_no_profile() {
    let t = target(true, true);
    let mut refused = mapping(object(vec![("space_type", text("l2"))])).unwrap();
    refused.status = 403;
    for reply in [
        None,
        Some(refused),
        Some(MappingReply {
            status: 200,
            body: None,
        }),
        mapping(Json::Null),
    ] {
        let p = t.scoring_profile(&reply);
        assert_eq!(p.distance, None);
        assert_eq!(p.datatype, None);
        assert!(!p.quantized);
    }
}

#[test]
fn a_created_field_scores_as_configured() {
    let spec = VectorSpec {
        kind: VectorKind::Dense,
        column: "c".into(),
        size: Some(4),
        distance: Some("EUCLIDEAN".into()),
        comparator: None,
        datatype: Some("byte".into()),
        on_disk: None,
        modifier: None,
    };
    let field = knn_vector_field("dense", &spec, &OpenSearchParams::default(), &Named::new()).unwrap();
    let p = target(true, true).scoring_profile(&mapping(field));
    assert_eq!(p.distance.as_deref(), Some("euclid"));
    assert_eq!(p.datatype.as_deref(), Some("uint8"));
    assert!(!p.quantized);
    assert_eq!(parse_space_type("dense", Some("euclid")).unwrap(), "l2");
    assert_eq!(parse_space_type("dense", Some("EUCLIDEAN")).unwrap(), "l2");
}
