//! The reply slot discipline, outcome settling, and response variant
//! integrity, on concrete values.

use rro::CollectionResponse;
use rro::EngineError;
use rro::OpKind;
use rro::RROError;
use rro::RROResponse;
use rro::ReplySlot;
use rro::SlotState;

fn ok_create(b: bool) -> Result<RROResponse, EngineError> {
    Ok(RROResponse::Collection(CollectionResponse::Create(b)))
}

#[test]
fn slot_written_at_most_once() {
    let mut slot = ReplySlot::new();
    assert!(slot.write(ok_create(true)));
    // A second write attempt is detectable and does not corrupt the
    // first result.
    assert!(!slot.write(ok_create(false)));
    match slot.take() {
        Some(Ok(RROResponse::Collection(CollectionResponse::Create(b)))) => assert!(b),
        _ => panic!("first write was not preserved"),
    }
    // After the reader consumed it, nothing more can be written or read.
    assert!(!slot.write(ok_create(false)));
    assert!(slot.take().is_none());
}

#[test]
fn write_after_abandon_is_discarded_quietly() {
    let mut slot = ReplySlot::new();
    slot.abandon();
    // The late write is a no-op-or-error condition, not fatal.
    assert!(!slot.write(ok_create(true)));
    assert!(matches!(slot.state, SlotState::Abandoned));
    assert!(slot.take().is_none());
}

#[test]
fn abandon_discards_a_written_outcome() {
    let mut slot = ReplySlot::new();
    assert!(slot.write(ok_create(true)));
    slot.abandon();
    assert!(slot.take().is_none());
}

#[test]
fn settle_maps_every_outcome() {
    // Timeout beats everything and carries the duration used.
    match rro::settle(None, true, 5000) {
        Err(RROError::Timeout(ms)) => assert_eq!(ms, 5000),
        _ => panic!("expected a timeout error"),
    }
    // An abandoned or never-written slot reports the closed channel.
    assert!(matches!(rro::settle(None, false, 30000), Err(RROError::ChannelClosed)));
    // A successful reply passes through.
    assert!(matches!(
        rro::settle(Some(ok_create(true)), false, 30000),
        Ok(RROResponse::Collection(CollectionResponse::Create(true)))
    ));
    // An engine error is forwarded verbatim.
    match rro::settle(
        Some(Err(EngineError::ServiceError("engine failure".to_string()))),
        false,
        30000,
    ) {
        Err(RROError::Engine(EngineError::ServiceError(m))) => assert_eq!(m, "engine failure"),
        _ => panic!("expected the engine error to pass through"),
    }
}

#[test]
fn mismatched_variant_is_a_protocol_error() {
    // Feeding a fake mismatched response must be rejected as a protocol
    // error, not silently accepted.
    let fake = Ok(RROResponse::Collection(CollectionResponse::List(Vec::new())));
    match rro::create_collection_reply(fake) {
        Err(RROError::UnexpectedResponse { expected, actual }) => {
            assert_eq!(expected, OpKind::CollectionCreate);
            assert_eq!(actual, OpKind::CollectionList);
        },
        _ => panic!("a mismatched variant must be a protocol error"),
    }
}

#[test]
fn cross_category_variant_is_a_protocol_error() {
    let fake = Ok(RROResponse::Collection(CollectionResponse::Create(true)));
    match rro::search_points_reply(fake) {
        Err(RROError::UnexpectedResponse { expected, actual }) => {
            assert_eq!(expected, OpKind::QuerySearch);
            assert_eq!(actual, OpKind::CollectionCreate);
        },
        _ => panic!("a cross-category reply must be a protocol error"),
    }
}

#[test]
fn matching_variant_is_accepted() {
    let reply = Ok(RROResponse::Collection(CollectionResponse::Create(true)));
    assert!(matches!(rro::create_collection_reply(reply), Ok(true)));
    let err = rro::create_collection_reply(Err(RROError::ChannelClosed));
    assert!(matches!(err, Err(RROError::ChannelClosed)));
}
