use definition_validator::consumer::{
    consume_settings, queue_declaration, ConsumerPhase, ConsumerSession, ConsumerStep,
};
use definition_validator::definition::{Category, Definition};
use definition_validator::error::{Error, ErrorKind};
use definition_validator::pipeline::{compare, exit_code, FailedStage, Next, Outcome, Run, RunPhase};

fn fruit() -> Category {
    Category {
        id: "c1".to_string(),
        parent: None,
        parent_name: None,
        name: "fruit".to_string(),
        selectable_as_last: false,
        attributes: vec![],
    }
}

fn run_to_reading(received: Definition) -> Run {
    let mut run = Run::new();
    assert!(matches!(run.on_connected(Ok(())), Next::Consume));
    assert!(matches!(run.on_consumed(Ok(received)), Next::Download));
    match run.on_downloaded(Ok(())) {
        Next::SetVersion(v) => assert_eq!(v, "v1"),
        _ => panic!("expected a version to set"),
    }
    assert!(matches!(run.on_version_set(Ok(())), Next::Read));
    assert_eq!(run.phase(), RunPhase::Reading);
    run
}

#[test]
fn queue_is_a_durable_stream() {
    let q = queue_declaration();
    assert!(q.durable);
    assert!(!q.exclusive);
    assert!(!q.auto_delete);
    assert_eq!(q.queue_type, "stream");
}

#[test]
fn consumer_reads_newest_one_at_a_time() {
    let s = consume_settings();
    assert_eq!(s.prefetch, 1);
    assert_eq!(s.offset, "last");
    assert!(!s.auto_ack);
}

#[test]
fn consumer_without_channel_is_not_connected() {
    let mut c = ConsumerSession::new();
    match c.start(false) {
        ConsumerStep::Finish(Err(e)) => assert_eq!(e.kind(), ErrorKind::NotConnected),
        _ => panic!("expected NotConnected"),
    }
    assert_eq!(c.phase(), ConsumerPhase::Finished);
}

#[test]
fn consumer_subscription_refused() {
    let mut c = ConsumerSession::new();
    assert!(matches!(c.start(true), ConsumerStep::Subscribe));
    match c.on_subscribed(Err("denied".to_string())) {
        ConsumerStep::Finish(Err(e)) => {
            assert_eq!(e.kind(), ErrorKind::ConsumerFailure);
            assert_eq!(e.to_string(), "failed to consume: denied");
        }
        _ => panic!("expected a failure"),
    }
}

#[test]
fn consumer_takes_first_delivery_only() {
    let mut c = ConsumerSession::new();
    assert!(matches!(c.start(true), ConsumerStep::Subscribe));
    assert!(matches!(c.on_subscribed(Ok(())), ConsumerStep::AwaitDelivery));
    assert_eq!(c.phase(), ConsumerPhase::Awaiting);
    let body = "{\"version\":\"v1\",\"categories\":[]}".as_bytes();
    match c.on_delivery(body) {
        ConsumerStep::AckThenDecode(text) => assert_eq!(text, "{\"version\":\"v1\",\"categories\":[]}"),
        _ => panic!("expected text to decode"),
    }
    assert_eq!(c.acks(), 1);
    assert_eq!(c.phase(), ConsumerPhase::Decoding);
    match c.on_decoded(Ok(Definition::new("v1".to_string(), vec![]))) {
        ConsumerStep::Finish(Ok(d)) => assert!(d == Definition::new("v1".to_string(), vec![])),
        _ => panic!("expected a definition"),
    }
    assert_eq!(c.phase(), ConsumerPhase::Finished);
    assert_eq!(c.acks(), 1);
}

#[test]
fn consumer_rejects_invalid_utf8() {
    let mut c = ConsumerSession::new();
    c.start(true);
    c.on_subscribed(Ok(()));
    let body: Vec<u8> = vec![0x7b, 0xff, 0xfe, 0x7d];
    match c.on_delivery(&body) {
        ConsumerStep::AckThenFail(e) => {
            assert_eq!(e.kind(), ErrorKind::ConsumerFailure);
            assert_eq!(e.to_string(), "failed to read string from bytes");
        }
        _ => panic!("expected a failure"),
    }
    assert_eq!(c.phase(), ConsumerPhase::Finished);
    assert_eq!(c.acks(), 1);
}

#[test]
fn consumer_rejects_bad_json() {
    let mut c = ConsumerSession::new();
    c.start(true);
    c.on_subscribed(Ok(()));
    assert!(matches!(c.on_delivery(b"not json"), ConsumerStep::AckThenDecode(_)));
    match c.on_decoded(Err("expected value".to_string())) {
        ConsumerStep::Finish(Err(e)) => {
            assert_eq!(e.kind(), ErrorKind::ConsumerFailure);
            assert_eq!(e.to_string(), "failed to deserialize definition from string: expected value");
        }
        _ => panic!("expected a failure"),
    }
    assert_eq!(c.phase(), ConsumerPhase::Finished);
}

#[test]
fn consumer_empty_delivery_is_empty_text() {
    let mut c = ConsumerSession::new();
    c.start(true);
    c.on_subscribed(Ok(()));
    match c.on_delivery(&[]) {
        ConsumerStep::AckThenDecode(text) => assert_eq!(text, ""),
        _ => panic!("expected text"),
    }
}

#[test]
fn consumer_stream_ends_without_delivery() {
    let mut c = ConsumerSession::new();
    c.start(true);
    c.on_subscribed(Ok(()));
    match c.on_stream_end() {
        ConsumerStep::Finish(Err(e)) => {
            assert_eq!(e.kind(), ErrorKind::ConsumerFailure);
            assert_eq!(e.to_string(), "no delivery read");
        }
        _ => panic!("expected a failure"),
    }
    assert_eq!(c.acks(), 0);
}

#[test]
fn scenario_matching_empty_definitions() {
    let mut run = run_to_reading(Definition::new("v1".to_string(), vec![]));
    match run.on_read(Ok(Definition::new("v1".to_string(), vec![]))) {
        Next::Stop(o) => {
            assert!(matches!(o, Outcome::Matched));
            assert_eq!(exit_code(&o), 0);
        }
        _ => panic!("expected the end"),
    }
}

#[test]
fn scenario_announced_category_missing_on_disk() {
    let mut run = run_to_reading(Definition::new("v1".to_string(), vec![fruit()]));
    match run.on_read(Ok(Definition::new("v1".to_string(), vec![]))) {
        Next::Stop(o) => {
            assert_eq!(exit_code(&o), 1);
            match o {
                Outcome::Mismatched(received, read) => {
                    assert_eq!(received.categories.len(), 1);
                    assert_eq!(read.categories.len(), 0);
                }
                _ => panic!("expected a mismatch"),
            }
        }
        _ => panic!("expected the end"),
    }
}

#[test]
fn scenario_broker_unreachable() {
    let mut run = Run::new();
    let e = Error::new(ErrorKind::ConnectionFailure, "failed to connect: refused".to_string());
    match run.on_connected(Err(e)) {
        Next::Stop(o) => {
            assert!(matches!(o, Outcome::Failed(FailedStage::Connect, _)));
            assert_eq!(exit_code(&o), 1);
        }
        _ => panic!("expected the end"),
    }
    assert_eq!(run.phase(), RunPhase::Done);
}

#[test]
fn scenario_unknown_version() {
    let mut run = Run::new();
    run.on_connected(Ok(()));
    run.on_consumed(Ok(Definition::new("v1".to_string(), vec![])));
    run.on_downloaded(Ok(()));
    match run.on_version_set(Err("reference v1 not found".to_string())) {
        Next::Stop(o) => {
            assert!(matches!(o, Outcome::Failed(FailedStage::SetVersion, _)));
            assert_eq!(exit_code(&o), 2);
        }
        _ => panic!("expected the end"),
    }
    assert_eq!(run.phase(), RunPhase::Done);
}

#[test]
fn consume_failure_exits_with_two() {
    let mut run = Run::new();
    run.on_connected(Ok(()));
    let e = Error::new(ErrorKind::ConsumerFailure, "no delivery read".to_string());
    match run.on_consumed(Err(e)) {
        Next::Stop(o) => assert_eq!(exit_code(&o), 2),
        _ => panic!("expected the end"),
    }
}

#[test]
fn download_failure_exits_with_two() {
    let mut run = Run::new();
    run.on_connected(Ok(()));
    run.on_consumed(Ok(Definition::new("v1".to_string(), vec![])));
    match run.on_downloaded(Err("offline".to_string())) {
        Next::Stop(o) => {
            assert!(matches!(o, Outcome::Failed(FailedStage::Download, _)));
            assert_eq!(exit_code(&o), 2);
        }
        _ => panic!("expected the end"),
    }
}

#[test]
fn read_failure_exits_with_two() {
    let mut run = run_to_reading(Definition::new("v1".to_string(), vec![]));
    let e = Error::new(ErrorKind::ConsumerFailure, "failed to validate source category".to_string());
    match run.on_read(Err(e)) {
        Next::Stop(Outcome::Failed(FailedStage::Read, m)) => {
            assert_eq!(m, "failed to validate source category");
            assert_eq!(exit_code(&Outcome::Failed(FailedStage::Read, m)), 2);
        }
        _ => panic!("expected a read failure"),
    }
}

#[test]
fn compare_detects_difference() {
    let a = Definition::new("v1".to_string(), vec![fruit()]);
    let mut other = fruit();
    other.selectable_as_last = true;
    let b = Definition::new("v1".to_string(), vec![other]);
    assert!(matches!(compare(a, b), Outcome::Mismatched(_, _)));
    let same = compare(Definition::new("v1".to_string(), vec![fruit()]), Definition::new("v1".to_string(), vec![fruit()]));
    assert!(matches!(same, Outcome::Matched));
}
