use serial_session::errors::{ReceiveError, SendError};
use serial_session::ports::{describe_port, describe_ports, enumerate_from, PortKind, RawPort};
use serial_session::session::{classify_read, receive_when_busy, ReadOutcome, Session};

#[test]
fn usb_port_with_product_is_qualified() {
    let port = RawPort {
        name: "/dev/ttyACM0".to_string(),
        kind: PortKind::Usb { product: Some("Arduino Uno".to_string()) },
    };
    let info = describe_port(&port);
    assert_eq!(info.name, "/dev/ttyACM0 (Arduino Uno)");
    assert_eq!(info.path, "/dev/ttyACM0");
}

#[test]
fn usb_port_without_product_gets_placeholder() {
    let port = RawPort {
        name: "/dev/ttyUSB1".to_string(),
        kind: PortKind::Usb { product: None },
    };
    let info = describe_port(&port);
    assert_eq!(info.name, "/dev/ttyUSB1 (Unknown Device)");
    assert_eq!(info.path, "/dev/ttyUSB1");
}

#[test]
fn non_usb_port_keeps_bare_name() {
    let port = RawPort {
        name: "/dev/ttyS0".to_string(),
        kind: PortKind::Other,
    };
    let info = describe_port(&port);
    assert_eq!(info.name, "/dev/ttyS0");
    assert_eq!(info.path, "/dev/ttyS0");
}

#[test]
fn describe_ports_keeps_order_and_length() {
    let ports = vec![
        RawPort {
            name: "/dev/ttyACM0".to_string(),
            kind: PortKind::Usb { product: Some("Arduino Uno".to_string()) },
        },
        RawPort { name: "/dev/ttyS0".to_string(), kind: PortKind::Other },
        RawPort { name: "COM3".to_string(), kind: PortKind::Usb { product: None } },
    ];
    let infos = describe_ports(&ports);
    assert_eq!(infos.len(), 3);
    assert_eq!(infos[0].name, "/dev/ttyACM0 (Arduino Uno)");
    assert_eq!(infos[0].path, "/dev/ttyACM0");
    assert_eq!(infos[1].name, "/dev/ttyS0");
    assert_eq!(infos[2].name, "COM3 (Unknown Device)");
    assert_eq!(infos[2].path, "COM3");
}

#[test]
fn enumerate_describes_the_reported_ports() {
    let query = Ok(vec![
        RawPort {
            name: "/dev/ttyACM0".to_string(),
            kind: PortKind::Usb { product: Some("Arduino Uno".to_string()) },
        },
        RawPort { name: "/dev/ttyS0".to_string(), kind: PortKind::Other },
    ]);
    let infos = enumerate_from(query).expect("a successful query must enumerate");
    assert_eq!(infos.len(), 2);
    assert_eq!(infos[0].name, "/dev/ttyACM0 (Arduino Uno)");
    assert_eq!(infos[0].path, "/dev/ttyACM0");
    assert_eq!(infos[1].name, "/dev/ttyS0");
    assert_eq!(infos[1].path, "/dev/ttyS0");
}

#[test]
fn enumerate_wraps_a_failed_query() {
    let r = enumerate_from(Err("permission denied".to_string()));
    match r {
        Ok(_) => panic!("a failed query must not enumerate"),
        Err(e) => {
            assert_eq!(e.message(), "Failed to list serial ports: permission denied");
        }
    }
}

#[test]
fn send_without_connect_is_not_connected() {
    let mut session = Session::new();
    let r = session.send(&vec![0x01, 0x02, 0x03]);
    assert_eq!(r, Err(SendError::NotConnected));
    let empty = session.send(&vec![]);
    assert_eq!(empty, Err(SendError::NotConnected));
}

#[test]
fn receive_without_connect_is_not_connected() {
    let mut session = Session::new();
    let r = session.receive();
    assert_eq!(r, Err(ReceiveError::NotConnected));
}

#[test]
fn disconnect_is_idempotent() {
    let mut session = Session::new();
    assert_eq!(session.disconnect(), "Disconnected");
    assert_eq!(session.disconnect(), "Disconnected");
    assert_eq!(session.send(&vec![0xFF]), Err(SendError::NotConnected));
}

#[test]
fn failed_connect_leaves_no_handle() {
    let mut session = Session::new();
    let r = session.connect("/dev/doesnotexist");
    match r {
        Ok(_) => panic!("opening a nonexistent device must fail"),
        Err(e) => assert!(e.message().starts_with("Failed to connect: ")),
    }
    assert_eq!(session.send(&vec![0x01]), Err(SendError::NotConnected));
    assert_eq!(session.receive(), Err(ReceiveError::NotConnected));
}

#[test]
fn two_failed_connects_hold_no_earlier_state() {
    let mut session = Session::new();
    let first = session.connect("/dev/doesnotexist-a");
    assert!(first.is_err());
    let second = session.connect("/dev/doesnotexist-b");
    assert!(second.is_err());
    assert_eq!(session.receive(), Err(ReceiveError::NotConnected));
}

#[test]
fn read_timeout_is_empty_success() {
    let r = classify_read(ReadOutcome::TimedOut);
    assert_eq!(r, Ok(vec![]));
}

#[test]
fn read_data_is_passed_through() {
    let r = classify_read(ReadOutcome::Data(vec![0x10, 0x20]));
    assert_eq!(r, Ok(vec![0x10, 0x20]));
}

#[test]
fn read_failure_names_the_cause() {
    let r = classify_read(ReadOutcome::Failed("device unplugged".to_string()));
    assert_eq!(
        r,
        Err(ReceiveError::Io { message: "Failed to read data: device unplugged".to_string() })
    );
}

#[test]
fn missed_lock_is_empty_success() {
    let r = receive_when_busy();
    assert_eq!(r, Ok(vec![]));
}

#[test]
fn receive_degrades_to_empty_under_contention() {
    let rt = tokio::runtime::Builder::new_current_thread()
        .enable_time()
        .build()
        .expect("runtime");
    rt.block_on(async {
        let state = std::sync::Arc::new(tokio::sync::Mutex::new(Session::new()));
        let guard = state.lock().await;
        let started = std::time::Instant::now();
        let attempt =
            tokio::time::timeout(std::time::Duration::from_millis(50), state.lock()).await;
        assert!(attempt.is_err());
        let r = receive_when_busy();
        assert_eq!(r, Ok(vec![]));
        assert!(started.elapsed() < std::time::Duration::from_millis(1000));
        drop(guard);
    });
}
