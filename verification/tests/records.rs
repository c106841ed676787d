use turtlebot2::feedback::format_feedback;
use turtlebot2::feedback::Feedback;

/// Wraps a payload in a frame: preambles, length byte, payload, checksum.
fn make_frame(payload: &[u8]) -> Vec<u8> {
    let mut v = vec![0xAAu8, 0x55, payload.len() as u8];
    v.extend_from_slice(&payload);
    let mut crc = 0u8;
    for b in &v[2..] {
        crc ^= b;
    }
    v.push(crc);
    v
}

/// Parses a packet holding a single sub-record.
fn parse_single(id: u8, content: &[u8]) -> Feedback {
    let mut payload = vec![id, content.len() as u8];
    payload.extend_from_slice(content);
    format_feedback(&make_frame(&payload))
}

/// The `valid` flags of every slot, in id order.
fn flags(f: &Feedback) -> [bool; 11] {
    [
        f.basic_sensor.valid,
        f.docking_ir.valid,
        f.inertial_sensor.valid,
        f.cliff.valid,
        f.current.valid,
        f.hardware_version.valid,
        f.firmware_version.valid,
        f.gyro.valid,
        f.general_purpose_input.valid,
        f.unique_device_id.valid,
        f.controller_info.valid,
    ]
}

fn assert_only(f: &Feedback, index: usize) {
    for (k, v) in flags(f).iter().enumerate() {
        assert_eq!(*v, k == index, "slot {} has the wrong validity", k);
    }
}

#[test]
fn single_basic_sensor() {
    let f = parse_single(1, &[0x34, 0x12, 1, 2, 3, 0xC8, 0, 0xD0, 0, 4, 5, 6, 7, 8, 9]);
    assert_only(&f, 0);
    assert_eq!(f.basic_sensor.time_stamp, 0x1234);
    assert_eq!(f.basic_sensor.bumper, 1);
    assert_eq!(f.basic_sensor.wheel_drop, 2);
    assert_eq!(f.basic_sensor.cliff, 3);
    assert_eq!(f.basic_sensor.left_encoder, 0xC8);
    assert_eq!(f.basic_sensor.right_encoder, 0xD0);
    assert_eq!(f.basic_sensor.left_pwm, 4);
    assert_eq!(f.basic_sensor.right_pwm, 5);
    assert_eq!(f.basic_sensor.button, 6);
    assert_eq!(f.basic_sensor.charger, 7);
    assert_eq!(f.basic_sensor.battery, 8);
    assert_eq!(f.basic_sensor.overcurrent_flags, 9);
}

#[test]
fn single_docking_ir() {
    let f = parse_single(3, &[10, 20, 30]);
    assert_only(&f, 1);
    assert_eq!(f.docking_ir.right_signal, 10);
    assert_eq!(f.docking_ir.central_signal, 20);
    assert_eq!(f.docking_ir.left_signal, 30);
}

#[test]
fn single_inertial_sensor() {
    let f = parse_single(4, &[0x10, 0x01, 0x22, 0x02, 0, 0, 0]);
    assert_only(&f, 2);
    assert_eq!(f.inertial_sensor.angle, 0x0110);
    assert_eq!(f.inertial_sensor.angle_rate, 0x0222);
}

#[test]
fn single_cliff() {
    let f = parse_single(5, &[0x01, 0x02, 0x03, 0x04, 0x05, 0x06]);
    assert_only(&f, 3);
    assert_eq!(f.cliff.right_cliff_sensor, 0x0201);
    assert_eq!(f.cliff.central_cliff_sensor, 0x0403);
    assert_eq!(f.cliff.left_cliff_sensor, 0x0605);
}

#[test]
fn single_current() {
    let f = parse_single(6, &[7, 9]);
    assert_only(&f, 4);
    assert_eq!(f.current.left_motor, 7);
    assert_eq!(f.current.right_motor, 9);
}

#[test]
fn single_hardware_version() {
    let f = parse_single(10, &[3, 2, 1, 0]);
    assert_only(&f, 5);
    assert_eq!(f.hardware_version.patch, 3);
    assert_eq!(f.hardware_version.minor, 2);
    assert_eq!(f.hardware_version.major, 1);
}

#[test]
fn single_firmware_version() {
    let f = parse_single(11, &[9, 8, 7, 0]);
    assert_only(&f, 6);
    assert_eq!(f.firmware_version.patch, 9);
    assert_eq!(f.firmware_version.minor, 8);
    assert_eq!(f.firmware_version.major, 7);
}

#[test]
fn single_gyro_two_triples() {
    let f = parse_single(
        13,
        &[5, 2, 0x01, 0x00, 0x02, 0x00, 0x03, 0x00, 0x04, 0x00, 0x05, 0x00, 0x06, 0x00],
    );
    assert_only(&f, 7);
    assert_eq!(f.gyro.frame_id, 5);
    assert_eq!(f.gyro.followed_data_length, 2);
    assert_eq!(f.gyro.x0, 1);
    assert_eq!(f.gyro.y0, 2);
    assert_eq!(f.gyro.z0, 3);
    assert_eq!(f.gyro.x1, 4);
    assert_eq!(f.gyro.y1, 5);
    assert_eq!(f.gyro.z1, 6);
    assert_eq!(f.gyro.x2, 0);
    assert_eq!(f.gyro.y2, 0);
    assert_eq!(f.gyro.z2, 0);
}

#[test]
fn single_gyro_three_triples() {
    let f = parse_single(
        13,
        &[
            6, 3, 0x01, 0x00, 0x02, 0x00, 0x03, 0x00, 0x04, 0x00, 0x05, 0x00, 0x06, 0x00, 0x07,
            0x00, 0x08, 0x00, 0x09, 0x00,
        ],
    );
    assert_only(&f, 7);
    assert_eq!(f.gyro.x2, 7);
    assert_eq!(f.gyro.y2, 8);
    assert_eq!(f.gyro.z2, 9);
}

#[test]
fn single_general_purpose_input() {
    let f = parse_single(
        16,
        &[0x01, 0x00, 0x02, 0x00, 0x03, 0x00, 0x04, 0x00, 0x05, 0x00, 0, 0, 0, 0, 0, 0],
    );
    assert_only(&f, 8);
    assert_eq!(f.general_purpose_input.d_ch0, 1);
    assert_eq!(f.general_purpose_input.a_ch0, 2);
    assert_eq!(f.general_purpose_input.a_ch1, 3);
    assert_eq!(f.general_purpose_input.a_ch2, 4);
    assert_eq!(f.general_purpose_input.a_ch3, 5);
}

#[test]
fn single_unique_device_id() {
    let f = parse_single(
        19,
        &[0x78, 0x56, 0x34, 0x12, 0x01, 0x00, 0x00, 0x00, 0xFF, 0xFF, 0xFF, 0xFF],
    );
    assert_only(&f, 9);
    assert_eq!(f.unique_device_id.udid0, 0x12345678);
    assert_eq!(f.unique_device_id.udid1, 1);
    assert_eq!(f.unique_device_id.udid2, 0xFFFF_FFFF);
}

#[test]
fn single_controller_info() {
    let f = parse_single(
        21,
        &[
            0x01, 0x64, 0x00, 0x00, 0x00, 0xE8, 0x03, 0x00, 0x00, 0xD0, 0x07, 0x00, 0x00,
        ],
    );
    assert_only(&f, 10);
    assert_eq!(f.controller_info.is_user_configured, 1);
    assert_eq!(f.controller_info.p_gain, 100);
    assert_eq!(f.controller_info.i_gain, 1000);
    assert_eq!(f.controller_info.d_gain, 2000);
}

#[test]
fn unknown_id_stops_scan() {
    // An unrecognized id ends the sub-record scan; nothing after it is read.
    let mut payload = vec![0x63u8, 0x03, 1, 2, 3];
    payload.extend_from_slice(&[0x03, 0x03, 10, 20, 30]);
    let f = format_feedback(&make_frame(&payload));
    for v in &[
        f.basic_sensor.valid,
        f.docking_ir.valid,
        f.gyro.valid,
        f.controller_info.valid,
    ] {
        assert!(!v);
    }
}

#[test]
fn wrong_size_byte_stops_scan() {
    // A recognized id whose size byte does not fit the id ends the scan.
    let f = parse_single(3, &[1, 2, 3, 4]);
    assert!(!f.docking_ir.valid);
}

#[test]
fn truncated_sub_record_stops_scan() {
    // A sub-record that would run past the end of the packet is not read.
    let payload = vec![0x01u8, 0x0F, 0x34, 0x12, 0x01];
    let f = format_feedback(&make_frame(&payload));
    assert!(!f.basic_sensor.valid);
}

#[test]
fn feedback_new_is_all_invalid() {
    let f = Feedback::new();
    assert_eq!(f.epoch_time_stamp, "");
    for v in flags(&f).iter() {
        assert!(!v);
    }
}

#[test]
fn scan_handles_many_records() {
    // Several sub-records in one payload, parsed in order.
    let mut payload = Vec::new();
    payload.extend_from_slice(&[0x06, 0x02, 1, 2]);
    payload.extend_from_slice(&[0x03, 0x03, 4, 5, 6]);
    payload.extend_from_slice(&[0x0A, 0x04, 7, 8, 9, 0]);
    let f = format_feedback(&make_frame(&payload));
    assert!(f.current.valid);
    assert!(f.docking_ir.valid);
    assert!(f.hardware_version.valid);
    assert!(!f.basic_sensor.valid);
    assert_eq!(f.current.left_motor, 1);
    assert_eq!(f.docking_ir.right_signal, 4);
    assert_eq!(f.hardware_version.patch, 7);
}
