use fhir_relay::config::{
    default_backend_timeout_secs, default_batch_size, default_host, default_max_backoff_ms,
    default_max_retries, BackendConfig, RetryWorkerConfig,
};
use fhir_relay::forwarder::{
    classify_response, outcome_write, CycleStep, DeliveryOutcome, ForwardError, Forwarder,
    StoreWrite,
};
use fhir_relay::ingest::{submit, submit_with_id};
use fhir_relay::models::{FhirMessage, MessageStatus};
use fhir_relay::store::{MessageStore, StoreError};
use fhir_relay::sweeper::{select_for_retry, RetryWorker, HARD_ATTEMPT_CEILING};

fn backend(max_retries: u32) -> BackendConfig {
    BackendConfig {
        url: "http://backend.local/fhir".to_string(),
        timeout_secs: 30,
        max_retries,
        initial_backoff_ms: 100,
        max_backoff_ms: 2000,
    }
}

fn retryable(n: usize) -> Vec<DeliveryOutcome> {
    (0..n).map(|i| DeliveryOutcome::RetryableFailure(format!("503 attempt {}", i))).collect()
}

fn successes(n: usize) -> Vec<DeliveryOutcome> {
    (0..n).map(|_| DeliveryOutcome::Success).collect()
}

#[test]
fn submitted_message_is_pending_then_sent() {
    let mut store = MessageStore::new();
    let m = submit_with_id(&mut store, "X".to_string(), 1, 1000).unwrap();
    assert_eq!(store.len(), 1);
    let stored = store.get_message_by_id(1).unwrap();
    assert_eq!(stored.payload, "X");
    assert_eq!(stored.status, MessageStatus::Pending);
    assert_eq!(stored.retry_count, 0);
    assert_eq!(stored.sent_at, None);

    let f = Forwarder::new(&backend(5));
    assert!(f.forward_message(&mut store, &m, &successes(5), 2000).is_ok());
    let after = store.get_message_by_id(1).unwrap();
    assert_eq!(after.status, MessageStatus::Sent);
    assert_eq!(after.sent_at, Some(2000));
    assert_eq!(after.retry_count, 0);
}

#[test]
fn retryable_failures_exhaust_budget() {
    let mut store = MessageStore::new();
    let m = submit_with_id(&mut store, "X".to_string(), 7, 1000).unwrap();
    let f = Forwarder::new(&backend(5));
    let outcomes = retryable(5);
    let report = f.run_cycle(&outcomes);
    assert_eq!(report.attempts, 5);
    assert_eq!(report.delays.len(), 4);
    let r = f.forward_message(&mut store, &m, &outcomes, 3000);
    match r {
        Err(ForwardError::Delivery(d)) => assert_eq!(d, "503 attempt 4"),
        other => panic!("unexpected {:?}", other),
    }
    let after = store.get_message_by_id(7).unwrap();
    assert_eq!(after.status, MessageStatus::Failed);
    assert_eq!(after.retry_count, 1);
    assert_eq!(after.last_error, Some("503 attempt 4".to_string()));
    assert_eq!(after.last_retry_at, Some(3000));
    assert_eq!(after.sent_at, None);
}

#[test]
fn sweep_skips_message_at_ceiling() {
    let mut store = MessageStore::new();
    submit_with_id(&mut store, "a".to_string(), 1, 10).unwrap();
    submit_with_id(&mut store, "b".to_string(), 2, 10).unwrap();
    store.mark_as_failed(1, "boom".to_string(), 10, 20).unwrap();
    let worker = RetryWorker::new(
        Forwarder::new(&backend(5)),
        RetryWorkerConfig { interval_secs: 60, batch_size: 2 },
    );
    assert_eq!(worker.ceiling, 10);
    let plan = worker.plan_sweep(&store);
    assert_eq!(plan.len(), 1);
    assert_eq!(plan[0].id, 2);
    let summary = worker.process_retry_batch(&mut store, &vec![successes(5), successes(5)], 30);
    assert_eq!(summary.dispatched, 1);
    assert_eq!(summary.successes, 1);
    assert_eq!(summary.failures, 0);
    let skipped = store.get_message_by_id(1).unwrap();
    assert_eq!(skipped.status, MessageStatus::Failed);
    assert_eq!(skipped.retry_count, 10);
    assert_eq!(store.get_message_by_id(2).unwrap().status, MessageStatus::Sent);
}

#[test]
fn non_retryable_failure_stops_after_one_attempt() {
    let mut store = MessageStore::new();
    let m = submit_with_id(&mut store, "{}".to_string(), 3, 0).unwrap();
    let f = Forwarder::new(&backend(5));
    let outcomes: Vec<DeliveryOutcome> =
        (0..5).map(|_| DeliveryOutcome::NonRetryableFailure("400 bad".to_string())).collect();
    let report = f.run_cycle(&outcomes);
    assert_eq!(report.attempts, 1);
    assert!(report.delays.is_empty());
    assert!(f.forward_message(&mut store, &m, &outcomes, 5).is_err());
    let after = store.get_message_by_id(3).unwrap();
    assert_eq!(after.status, MessageStatus::Failed);
    assert_eq!(after.retry_count, 1);
    assert_eq!(after.last_error, Some("400 bad".to_string()));
}

#[test]
fn backoff_schedule_doubles_up_to_cap() {
    let f = Forwarder::new(&backend(5));
    let delays: Vec<u64> = (0..5).map(|n| f.backoff_delay(n)).collect();
    assert_eq!(delays, vec![100, 200, 400, 800, 1600]);
    assert_eq!(f.backoff_delay(5), 2000);
    assert_eq!(f.backoff_delay(40), 2000);
    for n in 0..5 {
        for _ in 0..20 {
            assert!(f.jittered_delay(n) <= f.backoff_delay(n));
        }
    }
}

#[test]
fn jitter_varies_the_delay() {
    let f = Forwarder::new(&BackendConfig {
        url: "u".to_string(),
        timeout_secs: 1,
        max_retries: 3,
        initial_backoff_ms: 1_000_000,
        max_backoff_ms: 1_000_000,
    });
    let draws: Vec<u64> = (0..20).map(|_| f.jittered_delay(0)).collect();
    assert!(draws.iter().any(|d| *d != 1_000_000));
    assert!(draws.iter().all(|d| *d <= 1_000_000));
}

#[test]
fn ceiling_filter_drops_exhausted_messages() {
    let mut a = FhirMessage::with_id(1, "a".to_string(), 0);
    a.retry_count = 12;
    let mut b = FhirMessage::with_id(2, "b".to_string(), 0);
    b.retry_count = 9;
    let mut c = FhirMessage::with_id(3, "c".to_string(), 0);
    c.retry_count = 10;
    let kept = select_for_retry(vec![a, b, c], HARD_ATTEMPT_CEILING);
    assert_eq!(kept.len(), 1);
    assert_eq!(kept[0].id, 2);
}

#[test]
fn empty_sweep_writes_nothing() {
    let mut store = MessageStore::new();
    let worker = RetryWorker::new(
        Forwarder::new(&backend(5)),
        RetryWorkerConfig { interval_secs: 60, batch_size: 4 },
    );
    let outcomes: Vec<Vec<DeliveryOutcome>> = (0..4).map(|_| successes(5)).collect();
    let summary = worker.process_retry_batch(&mut store, &outcomes, 1);
    assert_eq!(summary.dispatched, 0);
    assert_eq!(summary.successes, 0);
    assert_eq!(summary.failures, 0);
    assert_eq!(store.len(), 0);

    let m = submit_with_id(&mut store, "p".to_string(), 9, 1).unwrap();
    let f = Forwarder::new(&backend(5));
    f.forward_message(&mut store, &m, &successes(5), 2).unwrap();
    let summary = worker.process_retry_batch(&mut store, &outcomes, 3);
    assert_eq!(summary.dispatched, 0);
    assert_eq!(store.get_message_by_id(9).unwrap().sent_at, Some(2));
}

#[test]
fn sent_message_stays_sent() {
    let mut store = MessageStore::new();
    submit_with_id(&mut store, "p".to_string(), 4, 1).unwrap();
    store.mark_as_sent(4, 5).unwrap();
    store.mark_as_failed(4, "late".to_string(), 3, 6).unwrap();
    store.mark_as_sent(4, 7).unwrap();
    let m = store.get_message_by_id(4).unwrap();
    assert_eq!(m.status, MessageStatus::Sent);
    assert_eq!(m.sent_at, Some(5));
    assert_eq!(m.retry_count, 0);
    assert_eq!(m.last_error, None);
}

#[test]
fn attempt_count_never_decreases() {
    let mut store = MessageStore::new();
    submit_with_id(&mut store, "p".to_string(), 4, 1).unwrap();
    store.mark_as_failed(4, "e1".to_string(), 3, 2).unwrap();
    store.mark_as_failed(4, "e2".to_string(), 1, 3).unwrap();
    let m = store.get_message_by_id(4).unwrap();
    assert_eq!(m.retry_count, 3);
    assert_eq!(m.last_error, Some("e2".to_string()));
    assert_eq!(m.last_retry_at, Some(3));
}

#[test]
fn store_errors() {
    let mut store = MessageStore::new();
    submit_with_id(&mut store, "p".to_string(), 4, 1).unwrap();
    assert_eq!(
        submit_with_id(&mut store, "q".to_string(), 4, 2).unwrap_err(),
        StoreError::DuplicateId
    );
    assert_eq!(store.len(), 1);
    assert_eq!(store.mark_as_sent(5, 1), Err(StoreError::UnknownId));
    assert_eq!(store.mark_as_failed(5, "x".to_string(), 1, 1), Err(StoreError::UnknownId));
    assert!(store.get_message_by_id(5).is_none());
    let stray = FhirMessage::with_id(77, "s".to_string(), 0);
    let f = Forwarder::new(&backend(2));
    match f.forward_message(&mut store, &stray, &successes(2), 1) {
        Err(ForwardError::Store(StoreError::UnknownId)) => {}
        other => panic!("unexpected {:?}", other),
    }
}

#[test]
fn counts_and_retry_fetch() {
    let mut store = MessageStore::new();
    for id in 1..=5u128 {
        submit_with_id(&mut store, format!("m{}", id), id, 0).unwrap();
    }
    store.mark_as_sent(2, 1).unwrap();
    store.mark_as_failed(3, "e".to_string(), 1, 1).unwrap();
    assert_eq!(store.count_by_status(MessageStatus::Pending), 3);
    assert_eq!(store.count_by_status(MessageStatus::Sent), 1);
    assert_eq!(store.count_by_status(MessageStatus::Failed), 1);
    let ids: Vec<u128> = store.get_messages_for_retry(3).iter().map(|m| m.id).collect();
    assert_eq!(ids, vec![1, 3, 4]);
    assert_eq!(store.get_messages_for_retry(10).len(), 4);
    assert!(store.get_messages_for_retry(0).is_empty());
    assert!(store.get_messages_for_retry(-1).is_empty());
}

#[test]
fn response_classification() {
    assert!(matches!(classify_response(200, String::new()), DeliveryOutcome::Success));
    assert!(matches!(classify_response(204, String::new()), DeliveryOutcome::Success));
    match classify_response(400, "bad".to_string()) {
        DeliveryOutcome::NonRetryableFailure(d) => assert_eq!(d, "bad"),
        other => panic!("unexpected {:?}", other),
    }
    assert!(matches!(
        classify_response(404, String::new()),
        DeliveryOutcome::NonRetryableFailure(_)
    ));
    assert!(matches!(classify_response(429, String::new()), DeliveryOutcome::RetryableFailure(_)));
    assert!(matches!(classify_response(500, String::new()), DeliveryOutcome::RetryableFailure(_)));
    assert!(matches!(classify_response(302, String::new()), DeliveryOutcome::RetryableFailure(_)));
}

#[test]
fn next_step_decisions() {
    let f = Forwarder::new(&backend(3));
    assert!(matches!(f.next_step(1, &DeliveryOutcome::Success), CycleStep::Delivered));
    match f.next_step(1, &DeliveryOutcome::RetryableFailure("x".to_string())) {
        CycleStep::RetryAfter(d) => assert!(d <= 100),
        other => panic!("unexpected {:?}", other),
    }
    match f.next_step(2, &DeliveryOutcome::RetryableFailure("x".to_string())) {
        CycleStep::RetryAfter(d) => assert!(d <= 200),
        other => panic!("unexpected {:?}", other),
    }
    match f.next_step(3, &DeliveryOutcome::RetryableFailure("x".to_string())) {
        CycleStep::GiveUp(d) => assert_eq!(d, "x"),
        other => panic!("unexpected {:?}", other),
    }
    let mixed = vec![
        DeliveryOutcome::RetryableFailure("a".to_string()),
        DeliveryOutcome::Success,
        DeliveryOutcome::Success,
    ];
    let report = f.run_cycle(&mixed);
    assert_eq!(report.attempts, 2);
    assert!(report.result.is_ok());
}

#[test]
fn zero_retries_still_attempts_once() {
    let f = Forwarder::new(&backend(0));
    assert_eq!(f.max_attempts, 1);
    let report = f.run_cycle(&retryable(1));
    assert_eq!(report.attempts, 1);
    assert_eq!(report.result, Err("503 attempt 0".to_string()));
}

#[test]
fn status_names() {
    assert_eq!(MessageStatus::Pending.as_str(), "pending");
    assert_eq!(MessageStatus::Sent.as_str(), "sent");
    assert_eq!(MessageStatus::Failed.as_str(), "failed");
    assert_eq!(MessageStatus::from_text("sent"), MessageStatus::Sent);
    assert_eq!(MessageStatus::from_text("failed"), MessageStatus::Failed);
    assert_eq!(MessageStatus::from_text("pending"), MessageStatus::Pending);
    assert_eq!(MessageStatus::from_text("other"), MessageStatus::Pending);
}

#[test]
fn message_lifecycle_in_memory() {
    let mut m = FhirMessage::new("{}".to_string());
    let other = FhirMessage::new("{}".to_string());
    assert_ne!(m.id, other.id);
    assert!(m.received_at > 0);
    assert_eq!(m.status, MessageStatus::Pending);
    m.mark_failed("e".to_string());
    assert_eq!(m.status, MessageStatus::Failed);
    assert_eq!(m.retry_count, 1);
    assert!(m.last_retry_at.is_some());
    m.mark_sent();
    assert_eq!(m.status, MessageStatus::Sent);
    let sent_at = m.sent_at;
    assert!(sent_at.is_some());
    m.mark_failed("late".to_string());
    m.mark_sent_at(1);
    assert_eq!(m.status, MessageStatus::Sent);
    assert_eq!(m.sent_at, sent_at);
    assert_eq!(m.retry_count, 1);
}

#[test]
fn submit_assigns_fresh_ids() {
    let mut store = MessageStore::new();
    let a = submit(&mut store, "one".to_string()).unwrap();
    let b = submit(&mut store, "two".to_string()).unwrap();
    assert_ne!(a.id, b.id);
    assert_eq!(store.len(), 2);
    assert_eq!(store.get_message_by_id(b.id).unwrap().payload, "two");
}

#[test]
fn config_values() {
    let b = backend(5);
    assert_eq!(b.timeout(), 30_000);
    assert_eq!(b.initial_backoff(), 100);
    assert_eq!(b.max_backoff(), 2000);
    assert_eq!(RetryWorkerConfig { interval_secs: 60, batch_size: 1 }.interval(), 60_000);
    assert_eq!(default_host(), "0.0.0.0");
    assert_eq!(default_backend_timeout_secs(), 30);
    assert_eq!(default_max_retries(), 5);
    assert_eq!(default_max_backoff_ms(), 60000);
    assert_eq!(default_batch_size(), 100);
}

#[test]
fn node_list_splits_and_trims() {
    let c = fhir_relay::config::ScyllaConfig {
        nodes: " a:9042 , b:9042,c\t,,".to_string(),
        keyspace: "k".to_string(),
        username: None,
        password: None,
    };
    assert_eq!(c.node_list(), vec!["a:9042", "b:9042", "c", "", ""]);
}

#[test]
fn outcome_write_for_each_result() {
    let mut m = FhirMessage::with_id(5, "p".to_string(), 0);
    m.retry_count = 2;
    assert!(matches!(outcome_write(&m, Ok(())), StoreWrite::MarkSent(5)));
    match outcome_write(&m, Err("boom".to_string())) {
        StoreWrite::MarkFailed(id, d, c) => {
            assert_eq!(id, 5);
            assert_eq!(d, "boom");
            assert_eq!(c, 3);
        }
        other => panic!("unexpected {:?}", other),
    }
    m.retry_count = i32::MAX;
    match outcome_write(&m, Err("x".to_string())) {
        StoreWrite::MarkFailed(_, _, c) => assert_eq!(c, i32::MAX),
        other => panic!("unexpected {:?}", other),
    }
}

#[test]
fn sweep_reports_each_cycle() {
    let mut store = MessageStore::new();
    for id in 1..=3u128 {
        submit_with_id(&mut store, format!("m{}", id), id, 0).unwrap();
    }
    let worker = RetryWorker::new(
        Forwarder::new(&backend(2)),
        RetryWorkerConfig { interval_secs: 60, batch_size: 3 },
    );
    let outcomes = vec![
        successes(2),
        vec![DeliveryOutcome::NonRetryableFailure("400 no".to_string()), DeliveryOutcome::Success],
        retryable(2),
    ];
    let summary = worker.process_retry_batch(&mut store, &outcomes, 50);
    assert_eq!(summary.dispatched, 3);
    assert_eq!(summary.successes, 1);
    assert_eq!(summary.failures, 2);
    assert_eq!(store.get_message_by_id(1).unwrap().status, MessageStatus::Sent);
    let second = store.get_message_by_id(2).unwrap();
    assert_eq!(second.status, MessageStatus::Failed);
    assert_eq!(second.last_error, Some("400 no".to_string()));
    assert_eq!(second.retry_count, 1);
    let third = store.get_message_by_id(3).unwrap();
    assert_eq!(third.last_error, Some("503 attempt 1".to_string()));
}

#[test]
fn sweep_with_empty_batch_writes_nothing() {
    let mut store = MessageStore::new();
    submit_with_id(&mut store, "p".to_string(), 1, 0).unwrap();
    let worker = RetryWorker::new(
        Forwarder::new(&backend(2)),
        RetryWorkerConfig { interval_secs: 60, batch_size: 0 },
    );
    let summary = worker.process_retry_batch(&mut store, &Vec::new(), 5);
    assert_eq!(summary.dispatched, 0);
    let m = store.get_message_by_id(1).unwrap();
    assert_eq!(m.status, MessageStatus::Pending);
    assert_eq!(m.retry_count, 0);
}

#[test]
fn submit_into_empty_store_succeeds() {
    let mut store = MessageStore::new();
    let m = submit(&mut store, "{\"a\":1}".to_string()).unwrap();
    assert_eq!(store.len(), 1);
    assert_eq!(store.get_message_by_id(m.id).unwrap().status, MessageStatus::Pending);
}

#[test]
fn mark_failed_on_sent_message_at_max_count() {
    let mut m = FhirMessage::with_id(1, "p".to_string(), 0);
    m.mark_sent_at(4);
    m.retry_count = i32::MAX;
    m.mark_failed("late".to_string());
    assert_eq!(m.status, MessageStatus::Sent);
    assert_eq!(m.sent_at, Some(4));
    assert_eq!(m.retry_count, i32::MAX);
}
