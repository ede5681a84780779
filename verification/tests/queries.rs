//! Searches, recommendations and universal queries, plus concurrent
//! fan-out with out-of-order completion.

use rro::Distance;
use rro::EngineError;
use rro::PointRecord;
use rro::QueryRequest;
use rro::RROError;
use rro::RROInstance;
use rro::RRORequest;
use rro::RROResponse;
use rro::QueryResponse;
use rro::PointsRequest;
use rro::PointsResponse;
use rro::RecommendGroupQuery;
use rro::RecommendQuery;
use rro::RroClient;
use rro::SearchGroupQuery;
use rro::SearchQuery;
use rro::SendOutcome;
use rro::UniversalQuery;
use rro::VectorConfig;

fn config() -> VectorConfig {
    VectorConfig { size: 2, distance: Distance::Dot, on_disk: false }
}

fn point(id: u64, x: i64, y: i64) -> PointRecord {
    PointRecord { id, vector: vec![x, y], payload: vec![] }
}

fn started_with_points() -> RroClient {
    let mut client = RROInstance::start(None).unwrap();
    client.create_collection("docs".to_string(), config()).unwrap();
    client
        .upsert_points(
            "docs".to_string(),
            vec![point(10, 1, 0), point(20, 0, 1), point(30, 1, 1)],
        )
        .unwrap();
    client
}

#[test]
fn search_returns_the_leading_identifiers() {
    let mut client = started_with_points();
    let hits = client
        .search_points("docs".to_string(), SearchQuery { vector: vec![1, 0], limit: 2 })
        .unwrap();
    assert_eq!(hits, vec![10, 20]);
    let all = client
        .search_points("docs".to_string(), SearchQuery { vector: vec![1, 0], limit: 10 })
        .unwrap();
    assert_eq!(all, vec![10, 20, 30]);
}

#[test]
fn search_rejects_a_wrong_dimension() {
    let mut client = started_with_points();
    match client.search_points(
        "docs".to_string(),
        SearchQuery { vector: vec![1, 0, 0], limit: 2 },
    ) {
        Err(RROError::Engine(EngineError::BadInput(m))) => {
            assert_eq!(m, "vector rejected: wrong dimension");
        },
        _ => panic!("a wrong query dimension must be rejected"),
    }
}

#[test]
fn search_batch_answers_each_query() {
    let mut client = started_with_points();
    let batches = client
        .search_points_batch(
            "docs".to_string(),
            vec![
                SearchQuery { vector: vec![1, 0], limit: 1 },
                SearchQuery { vector: vec![0, 1], limit: 3 },
            ],
        )
        .unwrap();
    assert_eq!(batches, vec![vec![10], vec![10, 20, 30]]);
}

#[test]
fn grouped_search_yields_single_hit_groups() {
    let mut client = started_with_points();
    let groups = client
        .search_points_group_by(
            "docs".to_string(),
            SearchGroupQuery { vector: vec![1, 0], limit: 2, group_size: 3 },
        )
        .unwrap();
    assert_eq!(groups.len(), 2);
    assert_eq!(groups[0].id, 10);
    assert_eq!(groups[0].hits, vec![10]);
    assert_eq!(groups[1].id, 20);
    // A zero group size is rejected.
    match client.search_points_group_by(
        "docs".to_string(),
        SearchGroupQuery { vector: vec![1, 0], limit: 2, group_size: 0 },
    ) {
        Err(RROError::Engine(EngineError::BadInput(m))) => {
            assert_eq!(m, "group size must be at least one");
        },
        _ => panic!("a zero group size must be rejected"),
    }
}

#[test]
fn recommendation_needs_a_positive_example() {
    let mut client = started_with_points();
    match client.recommend_points(
        "docs".to_string(),
        RecommendQuery { positive: vec![], negative: vec![10], limit: 2 },
    ) {
        Err(RROError::Engine(EngineError::BadInput(m))) => {
            assert_eq!(m, "recommendation needs a positive example");
        },
        _ => panic!("an empty positive list must be rejected"),
    }
    let hits = client
        .recommend_points(
            "docs".to_string(),
            RecommendQuery { positive: vec![10], negative: vec![], limit: 2 },
        )
        .unwrap();
    assert_eq!(hits, vec![10, 20]);
    let batches = client
        .recommend_points_batch(
            "docs".to_string(),
            vec![RecommendQuery { positive: vec![20], negative: vec![], limit: 1 }],
        )
        .unwrap();
    assert_eq!(batches, vec![vec![10]]);
    let groups = client
        .recommend_points_group_by(
            "docs".to_string(),
            RecommendGroupQuery { positive: vec![10], negative: vec![], limit: 1, group_size: 1 },
        )
        .unwrap();
    assert_eq!(groups.len(), 1);
    assert_eq!(groups[0].hits, vec![10]);
}

#[test]
fn universal_query_selects_a_window() {
    let mut client = started_with_points();
    let hits = client
        .query_points("docs".to_string(), UniversalQuery { offset: 1, limit: 1 })
        .unwrap();
    assert_eq!(hits, vec![20]);
    let hits = client
        .query_points("docs".to_string(), UniversalQuery { offset: 0, limit: 99 })
        .unwrap();
    assert_eq!(hits, vec![10, 20, 30]);
}

#[test]
fn fifty_concurrent_searches_beside_one_upsert() {
    let mut client = started_with_points();
    // Fifty searches and one upsert are in flight together.
    let mut search_slots = Vec::new();
    for _ in 0..25 {
        match client.bridge.try_send(RRORequest::Query(QueryRequest::Search(
            "docs".to_string(),
            SearchQuery { vector: vec![1, 0], limit: 10 },
        ))) {
            SendOutcome::Queued(s) => search_slots.push(s),
            _ => panic!("send must be accepted while accepting"),
        }
    }
    let upsert_slot = match client.bridge.try_send(RRORequest::Points(PointsRequest::Upsert(
        "docs".to_string(),
        vec![point(40, 2, 2)],
    ))) {
        SendOutcome::Queued(s) => s,
        _ => panic!("send must be accepted while accepting"),
    };
    for _ in 0..25 {
        match client.bridge.try_send(RRORequest::Query(QueryRequest::Search(
            "docs".to_string(),
            SearchQuery { vector: vec![0, 1], limit: 10 },
        ))) {
            SendOutcome::Queued(s) => search_slots.push(s),
            _ => panic!("send must be accepted while accepting"),
        }
    }
    // The loop dispatches everything; the tasks complete out of
    // submission order.
    let mut tasks = Vec::new();
    while let Some(m) = client.bridge.spawn_next() {
        tasks.push(m);
    }
    assert_eq!(tasks.len(), 51);
    while let Some(m) = tasks.pop() {
        let res = rro::execute(&mut client.bridge.engine, m.request);
        assert!(client.bridge.finish_task(m.slot, res));
    }
    // No reply was lost, and every search saw a consistent state:
    // three points before the upsert completed, or four after.
    for s in search_slots {
        match client.bridge.take_reply(s) {
            Some(Ok(RROResponse::Query(QueryResponse::Search(ids)))) => {
                assert!(ids.len() == 3 || ids.len() == 4);
                assert_eq!(ids[0], 10);
            },
            _ => panic!("every search must receive a search reply"),
        }
    }
    match client.bridge.take_reply(upsert_slot) {
        Some(Ok(RROResponse::Points(PointsResponse::Upsert(_)))) => {},
        _ => panic!("the upsert must receive an upsert reply"),
    }
    assert_eq!(client.count_points("docs".to_string()).unwrap(), 4);
}
