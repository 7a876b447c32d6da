use serial_session::errors::ConnectError;
use serial_session::errors::SendError;
use serial_session::session::PortSession;
use serial_session::session::SessionConfig;
use serial_session::session::recommended_baud_rates;
use serial_session::session::DEFAULT_READ_TIMEOUT_MS;

fn config(name: &str, baud: u32) -> SessionConfig {
    SessionConfig::new(name.to_string(), baud)
}

#[test]
fn new_session_is_disconnected() {
    let s = PortSession::new(1000);
    assert!(!s.is_connected());
    assert!(s.current_config().is_none());
    assert!(s.output().is_empty());
    assert_eq!(s.buffer_capacity(), 1000);
}

#[test]
fn connect_then_disconnect_restores_initial_state() {
    let mut s = PortSession::new(1000);
    let c = config("/dev/ttyUSB0", 115200);
    assert_eq!(s.connect_request(&c), Ok(()));
    s.connect_succeeded(c);
    assert!(s.is_connected());
    s.disconnect();
    assert!(!s.is_connected());
    assert!(s.current_config().is_none());
    assert!(s.output().is_empty());
}

#[test]
fn disconnect_is_idempotent() {
    let mut s = PortSession::new(10);
    s.disconnect();
    s.disconnect();
    assert!(!s.is_connected());
}

#[test]
fn second_connect_is_rejected() {
    let mut s = PortSession::new(1000);
    let c1 = config("/dev/ttyUSB0", 9600);
    assert_eq!(s.connect_request(&c1), Ok(()));
    s.connect_succeeded(c1);
    let c2 = config("/dev/ttyUSB1", 19200);
    assert_eq!(s.connect_request(&c2), Err(ConnectError::AlreadyConnected));
    assert!(s.is_connected());
}

#[test]
fn zero_baud_is_rejected() {
    let s = PortSession::new(1000);
    let c = config("/dev/ttyUSB0", 0);
    assert_eq!(s.connect_request(&c), Err(ConnectError::InvalidBaud));
    assert!(!s.is_connected());
}

#[test]
fn send_while_disconnected_fails_with_not_connected() {
    let s = PortSession::new(1000);
    assert_eq!(s.send_request(), Err(SendError::NotConnected));
    assert!(s.output().is_empty());
}

#[test]
fn send_while_connected_is_granted() {
    let mut s = PortSession::new(1000);
    let c = config("/dev/ttyUSB0", 9600);
    assert_eq!(s.connect_request(&c), Ok(()));
    s.connect_succeeded(c);
    assert_eq!(s.send_request(), Ok(()));
}

#[test]
fn drained_chunks_keep_arrival_order() {
    let mut s = PortSession::new(1000);
    let chunks = vec![b"AB".to_vec(), b"CD".to_vec(), b"EF".to_vec()];
    s.drain(&chunks);
    assert_eq!(s.output().as_slice(), b"ABCDEF");
}

#[test]
fn drain_trims_to_newest_bytes() {
    let mut s = PortSession::new(5);
    let chunks = vec![b"hello".to_vec(), b"!".to_vec()];
    s.drain(&chunks);
    assert_eq!(s.output().as_slice(), b"ello!");
}

#[test]
fn drain_of_nothing_changes_nothing() {
    let mut s = PortSession::new(5);
    s.drain(&Vec::new());
    assert!(s.output().is_empty());
}

#[test]
fn current_config_reports_the_connection() {
    let mut s = PortSession::new(1000);
    let c = config("/dev/ttyACM3", 57600);
    assert_eq!(s.connect_request(&c), Ok(()));
    s.connect_succeeded(c);
    let got = s.current_config().expect("connected session has a config");
    assert_eq!(got.port_name, "/dev/ttyACM3");
    assert_eq!(got.baud_rate, 57600);
    assert_eq!(got.read_timeout_ms, DEFAULT_READ_TIMEOUT_MS);
}

#[test]
fn config_new_uses_default_timeout() {
    let c = SessionConfig::new("/dev/ttyS0".to_string(), 9600);
    assert_eq!(c.read_timeout_ms, 10);
}

#[test]
fn recommended_baud_rates_are_the_usual_five() {
    assert_eq!(recommended_baud_rates(), vec![9600, 19200, 38400, 57600, 115200]);
}

#[test]
fn failed_open_leaves_session_disconnected() {
    let mut s = PortSession::new(1000);
    let c = config("/dev/port_that_does_not_exist_0", 9600);
    assert_eq!(s.connect_request(&c), Ok(()));
    let opened = serialport::new(&c.port_name, c.baud_rate)
        .timeout(std::time::Duration::from_millis(c.read_timeout_ms))
        .open();
    match opened {
        Ok(_) => panic!("a nonexistent port must not open"),
        Err(_) => {
            // The open failed, so connect_succeeded is never reported:
            // the session stays exactly as it was, and its buffer can
            // never grow because no worker was started.
            assert!(!s.is_connected());
            assert!(s.current_config().is_none());
            assert!(s.output().is_empty());
        }
    }
    s.drain(&Vec::new());
    assert!(s.output().is_empty());
}
