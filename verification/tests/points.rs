//! Point mutation and retrieval, with exact expected values.

use rro::Distance;
use rro::EngineError;
use rro::PayloadEntry;
use rro::PointRecord;
use rro::PointVectors;
use rro::RROError;
use rro::RROInstance;
use rro::RroClient;
use rro::ScrollQuery;
use rro::UpdateStatus;
use rro::VectorConfig;

fn config() -> VectorConfig {
    VectorConfig { size: 2, distance: Distance::Euclid, on_disk: false }
}

fn entry(k: &str, v: &str) -> PayloadEntry {
    PayloadEntry { key: k.to_string(), value: v.to_string() }
}

fn point(id: u64, x: i64, y: i64) -> PointRecord {
    PointRecord { id, vector: vec![x, y], payload: vec![] }
}

fn started_with_docs() -> RroClient {
    let mut client = RROInstance::start(None).unwrap();
    client.create_collection("docs".to_string(), config()).unwrap();
    client
}

#[test]
fn upsert_assigns_operation_ids_in_sequence() {
    let mut client = started_with_docs();
    let r = client.upsert_points("docs".to_string(), vec![point(1, 1, 2)]).unwrap();
    assert_eq!(r.operation_id, 0);
    assert_eq!(r.status, UpdateStatus::Completed);
    let r = client.upsert_points("docs".to_string(), vec![point(2, 3, 4)]).unwrap();
    assert_eq!(r.operation_id, 1);
    assert_eq!(client.count_points("docs".to_string()).unwrap(), 2);
}

#[test]
fn upsert_replaces_points_with_the_same_identifier() {
    let mut client = started_with_docs();
    client
        .upsert_points("docs".to_string(), vec![point(1, 1, 1), point(2, 2, 2)])
        .unwrap();
    // The same identifier replaces in place; a new one is appended.
    client
        .upsert_points("docs".to_string(), vec![point(1, 9, 9), point(3, 3, 3)])
        .unwrap();
    assert_eq!(client.count_points("docs".to_string()).unwrap(), 3);
    let got = client.get_points("docs".to_string(), vec![1, 2, 3]).unwrap();
    let ids: Vec<u64> = got.iter().map(|r| r.id).collect();
    assert_eq!(ids, vec![1, 2, 3]);
}

#[test]
fn wrong_dimension_is_rejected_whole() {
    let mut client = started_with_docs();
    let bad = PointRecord { id: 1, vector: vec![1, 2, 3], payload: vec![] };
    match client.upsert_points("docs".to_string(), vec![point(2, 1, 1), bad]) {
        Err(RROError::Engine(EngineError::BadInput(m))) => {
            assert_eq!(m, "point rejected: wrong vector dimension or duplicate payload keys");
        },
        _ => panic!("a wrong dimension must reject the whole upsert"),
    }
    // Nothing was stored.
    assert_eq!(client.count_points("docs".to_string()).unwrap(), 0);
}

#[test]
fn duplicate_payload_keys_are_rejected() {
    let mut client = started_with_docs();
    let bad = PointRecord {
        id: 1,
        vector: vec![1, 2],
        payload: vec![entry("k", "a"), entry("k", "b")],
    };
    assert!(matches!(
        client.upsert_points("docs".to_string(), vec![bad]),
        Err(RROError::Engine(EngineError::BadInput(_)))
    ));
    client.upsert_points("docs".to_string(), vec![point(1, 1, 1)]).unwrap();
    match client.set_payload(
        "docs".to_string(),
        vec![1],
        vec![entry("k", "a"), entry("k", "b")],
    ) {
        Err(RROError::Engine(EngineError::BadInput(m))) => {
            assert_eq!(m, "duplicate payload keys");
        },
        _ => panic!("equal keys must be rejected"),
    }
}

#[test]
fn missing_collection_is_not_found() {
    let mut client = RROInstance::start(None).unwrap();
    match client.count_points("ghost".to_string()) {
        Err(RROError::Engine(EngineError::NotFound(n))) => assert_eq!(n, "ghost"),
        _ => panic!("a missing collection must be not-found"),
    }
}

#[test]
fn delete_points_removes_exactly_the_listed_ones() {
    let mut client = started_with_docs();
    client
        .upsert_points(
            "docs".to_string(),
            vec![point(1, 1, 1), point(2, 2, 2), point(3, 3, 3)],
        )
        .unwrap();
    client.delete_points("docs".to_string(), vec![2, 9]).unwrap();
    let got = client.get_points("docs".to_string(), vec![1, 2, 3]).unwrap();
    let ids: Vec<u64> = got.iter().map(|r| r.id).collect();
    assert_eq!(ids, vec![1, 3]);
}

#[test]
fn payload_set_overwrite_delete_clear() {
    let mut client = started_with_docs();
    client.upsert_points("docs".to_string(), vec![point(1, 1, 1), point(2, 2, 2)]).unwrap();
    // Merging adds and replaces by key.
    client
        .set_payload("docs".to_string(), vec![1], vec![entry("a", "1"), entry("b", "2")])
        .unwrap();
    client.set_payload("docs".to_string(), vec![1], vec![entry("b", "9")]).unwrap();
    let got = client.get_points("docs".to_string(), vec![1]).unwrap();
    assert_eq!(got.len(), 1);
    let kv: Vec<(String, String)> =
        got[0].payload.iter().map(|e| (e.key.clone(), e.value.clone())).collect();
    assert_eq!(kv, vec![("a".to_string(), "1".to_string()), ("b".to_string(), "9".to_string())]);
    // The unlisted point is untouched.
    let other = client.get_points("docs".to_string(), vec![2]).unwrap();
    assert!(other[0].payload.is_empty());
    // Overwriting replaces the whole payload.
    client.overwrite_payload("docs".to_string(), vec![1], vec![entry("c", "3")]).unwrap();
    let got = client.get_points("docs".to_string(), vec![1]).unwrap();
    assert_eq!(got[0].payload.len(), 1);
    assert_eq!(got[0].payload[0].key, "c");
    // Deleting keys removes exactly those.
    client.set_payload("docs".to_string(), vec![1], vec![entry("d", "4")]).unwrap();
    client.delete_payload("docs".to_string(), vec![1], vec!["c".to_string()]).unwrap();
    let got = client.get_points("docs".to_string(), vec![1]).unwrap();
    assert_eq!(got[0].payload.len(), 1);
    assert_eq!(got[0].payload[0].key, "d");
    // Clearing empties the payload.
    client.clear_payload("docs".to_string(), vec![1]).unwrap();
    let got = client.get_points("docs".to_string(), vec![1]).unwrap();
    assert!(got[0].payload.is_empty());
}

#[test]
fn vectors_update_and_delete() {
    let mut client = started_with_docs();
    client.upsert_points("docs".to_string(), vec![point(1, 1, 1), point(2, 2, 2)]).unwrap();
    client
        .update_vectors(
            "docs".to_string(),
            vec![PointVectors { id: 1, vector: vec![7, 8] }, PointVectors {
                id: 9,
                vector: vec![0, 0],
            }],
        )
        .unwrap();
    // A wrong replacement dimension is rejected whole.
    match client.update_vectors(
        "docs".to_string(),
        vec![PointVectors { id: 1, vector: vec![1] }],
    ) {
        Err(RROError::Engine(EngineError::BadInput(m))) => {
            assert_eq!(m, "vector rejected: wrong dimension");
        },
        _ => panic!("a wrong replacement dimension must be rejected"),
    }
    // Deleting vectors keeps the points.
    client.delete_vectors("docs".to_string(), vec![1]).unwrap();
    assert_eq!(client.count_points("docs".to_string()).unwrap(), 2);
}

#[test]
fn scroll_pages_through_the_points() {
    let mut client = started_with_docs();
    client
        .upsert_points(
            "docs".to_string(),
            vec![point(1, 1, 1), point(2, 2, 2), point(3, 3, 3), point(4, 4, 4), point(5, 5, 5)],
        )
        .unwrap();
    let page = client
        .scroll_points("docs".to_string(), ScrollQuery { offset: 0, limit: 2 })
        .unwrap();
    let ids: Vec<u64> = page.points.iter().map(|r| r.id).collect();
    assert_eq!(ids, vec![1, 2]);
    assert_eq!(page.next_offset, Some(2));
    let page = client
        .scroll_points("docs".to_string(), ScrollQuery { offset: 2, limit: 10 })
        .unwrap();
    let ids: Vec<u64> = page.points.iter().map(|r| r.id).collect();
    assert_eq!(ids, vec![3, 4, 5]);
    assert_eq!(page.next_offset, None);
    // A window past the end is empty.
    let page = client
        .scroll_points("docs".to_string(), ScrollQuery { offset: 99, limit: 3 })
        .unwrap();
    assert!(page.points.is_empty());
    assert_eq!(page.next_offset, None);
}
