use echo_server::config::{timeout_setting, Config, BUF_SIZE, DEFAULT_PORT, TIMEOUT_SECS};
use echo_server::echo::{checked_total, echo_step, EchoStep, ReadEvent};
use echo_server::errors::{classify, EchoError, FailureKind};

#[test]
fn step_data_is_written_back_unchanged() {
    match echo_step(5, ReadEvent::Data(vec![10, 20, 30])) {
        EchoStep::WriteBack(d) => assert_eq!(d, vec![10, 20, 30]),
        other => panic!("expected WriteBack, got {:?}", other),
    }
}

#[test]
fn step_half_close_finishes_with_total() {
    match echo_step(42, ReadEvent::Closed) {
        EchoStep::Done(n) => assert_eq!(n, 42),
        other => panic!("expected Done, got {:?}", other),
    }
}

#[test]
fn step_read_failure_is_classified() {
    match echo_step(7, ReadEvent::Failed(FailureKind::TimedOut)) {
        EchoStep::Fail(e) => assert_eq!(e, EchoError::Timeout),
        other => panic!("expected Fail, got {:?}", other),
    }
    match echo_step(7, ReadEvent::Failed(FailureKind::BrokenPipe)) {
        EchoStep::Fail(e) => assert_eq!(e, EchoError::Io(FailureKind::BrokenPipe)),
        other => panic!("expected Fail, got {:?}", other),
    }
}

#[test]
fn classification_of_each_kind() {
    assert_eq!(classify(FailureKind::TimedOut), EchoError::Timeout);
    assert_eq!(classify(FailureKind::WouldBlock), EchoError::Timeout);
    assert_eq!(
        classify(FailureKind::ConnectionReset),
        EchoError::Io(FailureKind::ConnectionReset)
    );
    assert_eq!(
        classify(FailureKind::BrokenPipe),
        EchoError::Io(FailureKind::BrokenPipe)
    );
    assert_eq!(classify(FailureKind::Other), EchoError::Io(FailureKind::Other));
}

#[test]
fn counter_accumulates_and_detects_overflow() {
    assert_eq!(checked_total(0, 13), Some(13));
    assert_eq!(checked_total(13, 13), Some(26));
    assert_eq!(checked_total(usize::MAX, 1), None);
    assert_eq!(checked_total(usize::MAX - 1, 1), Some(usize::MAX));
}

#[test]
fn zero_window_disables_the_timeout() {
    assert_eq!(timeout_setting(0), None);
    assert_eq!(timeout_setting(TIMEOUT_SECS), Some(15));
}

#[test]
fn documented_defaults() {
    let c = Config::new();
    assert_eq!(c.addr, (127, 0, 0, 1));
    assert_eq!(c.port, DEFAULT_PORT);
    assert_eq!(c.port, 8080);
    assert_eq!(c.buf_size, BUF_SIZE);
    assert_eq!(c.buf_size, 8 * 1024);
    assert_eq!(c.timeout_secs, 15);
}
