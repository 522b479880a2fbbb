use serial_session::errors::{ConnectError, EnumerationError, ReceiveError, SendError};

#[test]
fn connect_error_names_the_cause() {
    let e = ConnectError::from_cause("Device or resource busy".to_string());
    assert_eq!(e.message(), "Failed to connect: Device or resource busy");
}

#[test]
fn enumeration_error_names_the_cause() {
    let e = EnumerationError::from_cause("permission denied".to_string());
    assert_eq!(e.message(), "Failed to list serial ports: permission denied");
}

#[test]
fn send_errors_name_the_cause() {
    assert_eq!(
        SendError::write_failure("broken pipe".to_string()).message(),
        "Failed to send data: broken pipe"
    );
    assert_eq!(
        SendError::flush_failure("broken pipe".to_string()).message(),
        "Failed to flush data: broken pipe"
    );
    assert_eq!(SendError::NotConnected.message(), "Not connected to any serial port");
}

#[test]
fn receive_errors_name_the_cause() {
    assert_eq!(
        ReceiveError::read_failure("input/output error".to_string()).message(),
        "Failed to read data: input/output error"
    );
    assert_eq!(ReceiveError::NotConnected.message(), "Not connected to any serial port");
}
