use porticus::config::PorticusConfig;
use porticus::error::PorticusError;

#[test]
fn default_config_values() {
    let c = PorticusConfig::default();
    assert_eq!(c.serial_port, "/dev/ttyACM0");
    assert_eq!(c.baud_rate, 9600);
    assert_eq!(c.websocket_port, 8080);
    assert_eq!(c.buffer_size, 1024);
    assert_eq!(c.broadcast_capacity, 16);
    assert_eq!(c.websocket_host, "127.0.0.1");
    assert!(c.usable());
}

#[test]
fn zero_capacity_is_unusable() {
    let mut c = PorticusConfig::default();
    c.broadcast_capacity = 0;
    assert!(!c.usable());
    let mut c = PorticusConfig::default();
    c.buffer_size = 0;
    assert!(!c.usable());
}

#[test]
fn error_detail_of_each_kind() {
    assert_eq!(PorticusError::SerialPort("a".to_string()).detail(), "a");
    assert_eq!(PorticusError::WebSocket("b".to_string()).detail(), "b");
    assert_eq!(PorticusError::Io("c".to_string()).detail(), "c");
}
