//! The lifecycle state machine: startup, health, disposal, shutdown
//! safety and the no-request-after-close guarantee.

use rro::Distance;
use rro::DisposalAction;
use rro::EngineConfig;
use rro::Phase;
use rro::RROError;
use rro::RROInstance;
use rro::RRORequest;
use rro::CollectionRequest;
use rro::SendOutcome;
use rro::TerminationPoll;
use rro::VectorConfig;

fn config() -> VectorConfig {
    VectorConfig { size: 2, distance: Distance::Cosine, on_disk: false }
}

fn list_request() -> RRORequest {
    RRORequest::Collection(CollectionRequest::List)
}

#[test]
fn startup_rejects_a_zero_capacity() {
    match RROInstance::start(Some(EngineConfig { channel_capacity: 0 })) {
        Err(RROError::Startup(m)) => assert_eq!(m, "channel capacity must be at least one"),
        _ => panic!("a zero channel capacity must be a startup error"),
    }
}

#[test]
fn startup_yields_an_accepting_handle() {
    let client = RROInstance::start(None).unwrap();
    assert!(client.is_healthy());
    assert!(!client.termination_signaled());
    assert!(matches!(client.bridge.phase, Phase::Accepting));
}

#[test]
fn no_request_after_close() {
    let mut client = RROInstance::start(None).unwrap();
    client.dispose();
    // Any subsequent send attempt fails with the closed-channel error.
    assert!(matches!(client.bridge.try_send(list_request()), SendOutcome::Closed));
    let r = client.create_collection("docs".to_string(), config());
    assert!(matches!(r, Err(RROError::ChannelClosed)));
    let r = client.list_collections();
    assert!(matches!(r, Err(RROError::ChannelClosed)));
    // No new request reached the engine: nothing was ever enqueued.
    assert_eq!(client.bridge.queue.len(), 0);
}

#[test]
fn health_goes_false_the_moment_the_channel_closes() {
    let mut client = RROInstance::start(None).unwrap();
    assert!(client.is_healthy());
    assert!(client.health_check().is_ok());
    // Close without waiting for any draining to finish.
    client.bridge.close();
    assert!(!client.is_healthy());
    assert!(matches!(client.health_check(), Err(RROError::ChannelClosed)));
}

#[test]
fn shutdown_waits_for_the_slow_task() {
    let mut client = RROInstance::start(None).unwrap();
    // One slow request is dispatched and still running.
    let slot = match client.bridge.try_send(list_request()) {
        SendOutcome::Queued(s) => s,
        _ => panic!("send must be accepted while accepting"),
    };
    let slow_task = client.bridge.spawn_next().unwrap();
    // Disposal begins; the loop drains and exits, but reclamation must
    // not succeed while the task still holds the engine.
    client.bridge.close();
    client.bridge.finish_draining();
    assert!(!client.bridge.try_reclaim());
    assert!(!client.termination_signaled());
    // The slow task finishes and releases its reference; only now does
    // the termination signal fire.
    let res = rro::execute(&mut client.bridge.engine, slow_task.request);
    let delivered = client.bridge.finish_task(slow_task.slot, res);
    assert!(delivered);
    assert!(client.bridge.try_reclaim());
    assert!(client.termination_signaled());
    // The reply is still there for the caller.
    assert!(client.bridge.take_reply(slot).is_some());
}

#[test]
fn disposal_is_idempotent() {
    let mut client = RROInstance::start(None).unwrap();
    client.dispose();
    assert!(client.termination_signaled());
    assert!(matches!(client.bridge.phase, Phase::Terminated));
    client.dispose();
    assert!(client.termination_signaled());
    assert!(matches!(client.bridge.phase, Phase::Terminated));
}

#[test]
fn dispose_while_ten_requests_are_in_flight() {
    let mut client = RROInstance::start(None).unwrap();
    client.create_collection("docs".to_string(), config()).unwrap();
    // Ten requests are accepted; five are already dispatched.
    let mut slots = Vec::new();
    for _ in 0..10 {
        match client.bridge.try_send(list_request()) {
            SendOutcome::Queued(s) => slots.push(s),
            _ => panic!("send must be accepted while accepting"),
        }
    }
    let mut running = Vec::new();
    for _ in 0..5 {
        running.push(client.bridge.spawn_next().unwrap());
    }
    // Disposal: the channel closes, the five buffered requests are
    // still dispatched and answered, and reclamation waits for the
    // five running tasks.
    client.dispose();
    assert!(matches!(client.bridge.phase, Phase::Reclaiming));
    assert!(!client.termination_signaled());
    // A late send is rejected.
    assert!(matches!(client.bridge.try_send(list_request()), SendOutcome::Closed));
    // The running tasks complete; termination follows.
    for m in running {
        let res = rro::execute(&mut client.bridge.engine, m.request);
        client.bridge.finish_task(m.slot, res);
    }
    assert!(client.bridge.try_reclaim());
    assert!(client.termination_signaled());
    // All ten callers find a correct reply in their slot.
    for s in slots {
        match client.bridge.take_reply(s) {
            Some(Ok(rro::RROResponse::Collection(rro::CollectionResponse::List(names)))) => {
                assert_eq!(names, vec!["docs".to_string()]);
            },
            _ => panic!("every dispatched request must receive its reply"),
        }
    }
}

#[test]
fn stalled_health_check_times_out_instead_of_hanging() {
    let mut client = RROInstance::start(None).unwrap();
    // The health-check request is dispatched but the worker stalls.
    let slot = match client.bridge.try_send(list_request()) {
        SendOutcome::Queued(s) => s,
        _ => panic!("send must be accepted while accepting"),
    };
    let stalled = client.bridge.spawn_next().unwrap();
    // The caller stops waiting after the health-check timeout.
    client.bridge.abandon_reply(slot);
    match rro::settle(None, true, rro::HEALTH_CHECK_TIMEOUT_MS) {
        Err(RROError::Timeout(ms)) => assert_eq!(ms, 5000),
        _ => panic!("a stalled health check must report a timeout"),
    }
    // The stalled task eventually finishes; its late reply is discarded.
    let res = rro::execute(&mut client.bridge.engine, stalled.request);
    let delivered = client.bridge.finish_task(stalled.slot, res);
    assert!(!delivered);
}

#[test]
fn disposal_poll_decisions() {
    assert!(matches!(
        rro::disposal_poll_action(TerminationPoll::Received, 0),
        DisposalAction::Finished
    ));
    assert!(matches!(
        rro::disposal_poll_action(TerminationPoll::SenderGone, 40000),
        DisposalAction::Finished
    ));
    assert!(matches!(
        rro::disposal_poll_action(TerminationPoll::Empty, rro::SHUTDOWN_TIMEOUT_MS),
        DisposalAction::WaitAndRetry
    ));
    assert!(matches!(
        rro::disposal_poll_action(TerminationPoll::Empty, rro::SHUTDOWN_TIMEOUT_MS + 1),
        DisposalAction::ForceProceed
    ));
}

#[test]
fn bounded_channel_reports_backpressure() {
    let mut client = RROInstance::start(Some(EngineConfig { channel_capacity: 1 })).unwrap();
    assert!(matches!(client.bridge.try_send(list_request()), SendOutcome::Queued(_)));
    assert!(matches!(client.bridge.try_send(list_request()), SendOutcome::Full));
}
