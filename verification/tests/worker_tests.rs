use serial_session::worker::ReadOutcome;
use serial_session::worker::WorkerAction;
use serial_session::worker::worker_step;
use serial_session::worker::DEFAULT_POLL_INTERVAL_MS;
use serial_session::worker::DEFAULT_READ_CHUNK_SIZE;

#[test]
fn data_is_forwarded_as_read() {
    assert_eq!(
        worker_step(ReadOutcome::Received { count: 42 }),
        WorkerAction::Forward { count: 42 }
    );
}

#[test]
fn empty_read_idles() {
    assert_eq!(worker_step(ReadOutcome::Received { count: 0 }), WorkerAction::Idle);
}

#[test]
fn timeout_is_steady_state_not_an_error() {
    assert_eq!(worker_step(ReadOutcome::TimedOut), WorkerAction::Idle);
}

#[test]
fn hard_failure_stops_the_loop() {
    assert_eq!(worker_step(ReadOutcome::Failed), WorkerAction::Stop);
}

#[test]
fn worker_defaults_match_the_terminal() {
    assert_eq!(DEFAULT_READ_CHUNK_SIZE, 1000);
    assert_eq!(DEFAULT_POLL_INTERVAL_MS, 10);
}
