//! Collection and alias administration, end to end through the handle.

use rro::Distance;
use rro::EngineError;
use rro::RROError;
use rro::RROInstance;
use rro::RroClient;
use rro::UpdateCollection;
use rro::VectorConfig;

fn config() -> VectorConfig {
    VectorConfig { size: 2, distance: Distance::Cosine, on_disk: false }
}

fn started() -> RroClient {
    RROInstance::start(None).unwrap()
}

#[test]
fn fresh_instance_lists_no_collections() {
    let mut client = started();
    assert_eq!(client.list_collections().unwrap(), Vec::<String>::new());
}

#[test]
fn create_then_conflict() {
    let mut client = started();
    assert_eq!(client.create_collection("docs".to_string(), config()).unwrap(), true);
    // Creating it again, even with a conflicting configuration, is a
    // domain conflict, not a protocol error.
    let other = VectorConfig { size: 7, distance: Distance::Dot, on_disk: true };
    match client.create_collection("docs".to_string(), other) {
        Err(RROError::Engine(EngineError::AlreadyExists(n))) => assert_eq!(n, "docs"),
        _ => panic!("a duplicate creation must surface as a conflict"),
    }
    assert_eq!(client.list_collections().unwrap(), vec!["docs".to_string()]);
}

#[test]
fn zero_vector_size_is_bad_input() {
    let mut client = started();
    let bad = VectorConfig { size: 0, distance: Distance::Euclid, on_disk: false };
    match client.create_collection("docs".to_string(), bad) {
        Err(RROError::Engine(EngineError::BadInput(m))) => {
            assert_eq!(m, "vector size must be at least one");
        },
        _ => panic!("a zero vector size must be rejected"),
    }
}

#[test]
fn get_update_and_exists() {
    let mut client = started();
    client.create_collection("docs".to_string(), config()).unwrap();
    assert_eq!(client.collection_exists("docs".to_string()).unwrap(), true);
    assert_eq!(client.collection_exists("other".to_string()).unwrap(), false);
    let info = client.get_collection("docs".to_string()).unwrap().unwrap();
    assert_eq!(info.points_count, 0);
    assert_eq!(info.config, config());
    assert!(client.get_collection("other".to_string()).unwrap().is_none());
    // The update replaces exactly the on-disk flag.
    assert_eq!(
        client
            .update_collection("docs".to_string(), UpdateCollection { on_disk: Some(true) })
            .unwrap(),
        true
    );
    let info = client.get_collection("docs".to_string()).unwrap().unwrap();
    assert_eq!(info.config.on_disk, true);
    assert_eq!(info.config.size, 2);
    match client.update_collection("other".to_string(), UpdateCollection { on_disk: None }) {
        Err(RROError::Engine(EngineError::NotFound(n))) => assert_eq!(n, "other"),
        _ => panic!("updating a missing collection must be not-found"),
    }
}

#[test]
fn delete_reports_whether_it_existed() {
    let mut client = started();
    client.create_collection("docs".to_string(), config()).unwrap();
    assert_eq!(client.delete_collection("docs".to_string()).unwrap(), true);
    assert_eq!(client.delete_collection("docs".to_string()).unwrap(), false);
    assert_eq!(client.list_collections().unwrap(), Vec::<String>::new());
}

#[test]
fn alias_lifecycle() {
    let mut client = started();
    client.create_collection("docs".to_string(), config()).unwrap();
    client.create_collection("logs".to_string(), config()).unwrap();
    assert_eq!(client.create_alias("docs".to_string(), "d".to_string()).unwrap(), true);
    assert_eq!(client.create_alias("logs".to_string(), "l".to_string()).unwrap(), true);
    assert_eq!(
        client.list_aliases().unwrap(),
        vec![
            ("docs".to_string(), "d".to_string()),
            ("logs".to_string(), "l".to_string()),
        ]
    );
    assert_eq!(
        client.get_aliases("docs".to_string()).unwrap(),
        vec![("docs".to_string(), "d".to_string())]
    );
    // A taken alias name is a conflict; a missing collection is
    // not-found.
    match client.create_alias("docs".to_string(), "l".to_string()) {
        Err(RROError::Engine(EngineError::AlreadyExists(n))) => assert_eq!(n, "l"),
        _ => panic!("a duplicate alias must surface as a conflict"),
    }
    match client.create_alias("missing".to_string(), "m".to_string()) {
        Err(RROError::Engine(EngineError::NotFound(n))) => assert_eq!(n, "missing"),
        _ => panic!("an alias for a missing collection must be not-found"),
    }
    // Renaming keeps the target collection.
    assert_eq!(client.rename_alias("d".to_string(), "dd".to_string()).unwrap(), true);
    assert_eq!(
        client.get_aliases("docs".to_string()).unwrap(),
        vec![("docs".to_string(), "dd".to_string())]
    );
    match client.rename_alias("dd".to_string(), "l".to_string()) {
        Err(RROError::Engine(EngineError::AlreadyExists(n))) => assert_eq!(n, "l"),
        _ => panic!("renaming onto a taken alias must be a conflict"),
    }
    // Deleting an alias removes exactly that entry.
    assert_eq!(client.delete_alias("dd".to_string()).unwrap(), true);
    match client.delete_alias("dd".to_string()) {
        Err(RROError::Engine(EngineError::NotFound(n))) => assert_eq!(n, "dd"),
        _ => panic!("deleting a missing alias must be not-found"),
    }
    // Deleting a collection removes its aliases with it.
    client.delete_collection("logs".to_string()).unwrap();
    assert_eq!(client.list_aliases().unwrap(), Vec::<(String, String)>::new());
}
