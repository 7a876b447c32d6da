use serial_session::errors::EnumerationError;
use serial_session::registry::PortRegistry;

#[test]
fn listing_ports_is_not_an_error() {
    // A host with no serial ports yields an empty list, not an error;
    // on any ordinary host the OS query itself succeeds.
    let ports = PortRegistry::list();
    assert!(ports.is_ok());
}

#[test]
fn listing_twice_is_safe() {
    // The registry keeps no state: repeated refreshes are fine, and a
    // failure, if any, is the one reported value.
    for _ in 0..2 {
        match PortRegistry::list() {
            Ok(_) => {}
            Err(e) => assert_eq!(e, EnumerationError::Os),
        }
    }
}
