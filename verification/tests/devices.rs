use turtlebot2::ports::contains_bytes;
use turtlebot2::ports::filter_kobuki_ports;
use turtlebot2::ports::search_port_command;
use turtlebot2::ports::PortError;
use turtlebot2::ports::PortInfo;

fn port(name: &str, serial: Option<&str>) -> PortInfo {
    PortInfo {
        port_name: String::from(name),
        usb_serial_number: serial.map(String::from),
    }
}

#[test]
fn contains_bytes_cases() {
    assert!(contains_bytes(b"kobuki", b"kobuki"));
    assert!(contains_bytes(b"xx-kobuki-01", b"kobuki"));
    assert!(contains_bytes(b"anything", b""));
    assert!(!contains_bytes(b"", b"kobuki"));
    assert!(!contains_bytes(b"kobuk", b"kobuki"));
    assert!(!contains_bytes(b"kObuki", b"kobuki"));
    assert!(!contains_bytes(b"kobukX kobukY", b"kobuki"));
    assert!(contains_bytes(b"kobukkobuki", b"kobuki"));
}

#[test]
fn filter_keeps_matching_usb_ports_in_order() {
    let ports = vec![
        port("/dev/ttyUSB0", Some("kobuki-A123")),
        port("/dev/ttyS0", None),
        port("/dev/ttyUSB1", Some("other-device")),
        port("/dev/ttyUSB2", Some("rev-kobuki")),
    ];
    let found = filter_kobuki_ports(&ports);
    assert_eq!(found, vec![String::from("/dev/ttyUSB0"), String::from("/dev/ttyUSB2")]);
}

#[test]
fn filter_on_empty_enumeration() {
    let found = filter_kobuki_ports(&Vec::new());
    assert!(found.is_empty());
}

#[test]
fn search_port_command_ok_and_err() {
    let ports = vec![port("/dev/ttyUSB0", Some("kobuki"))];
    let names = search_port_command(&ports).unwrap();
    assert_eq!(names, vec![String::from("/dev/ttyUSB0")]);

    let no_match = vec![port("/dev/ttyUSB0", Some("arduino")), port("/dev/ttyS1", None)];
    assert!(matches!(search_port_command(&no_match), Err(PortError::NoPort)));
    assert!(matches!(search_port_command(&Vec::new()), Err(PortError::NoPort)));
}
