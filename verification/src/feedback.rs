//! Typed feedback records and the payload parser.
//!
//! An inbound packet payload is a concatenation of sub-records, each
//! `id size content`, and one packet yields exactly one [`Feedback`] whose
//! per-variant `valid` flags record which sub-records were present.

use vstd::prelude::*;

verus! {

/// The sub-record identifiers the payload scanner recognizes.
#[derive(Clone, Copy, Debug, PartialEq, Eq, Structural)]
pub enum FeedbackId {
    BasicSensor,
    DockingIR,
    InertialSensor,
    Cliff,
    Current,
    HardwareVersion,
    FirmwareVersion,
    RawDataOf3AxisGyro,
    GeneralPurposeInput,
    UniqueDeviceId,
    ControllerInfo,
}

pub const FDB_SIZE_BASIC_SENSOR_DATA: u8 = 15;

pub const FDB_SIZE_DOCKING_IR: u8 = 3;

pub const FDB_SIZE_INERTIAL_SENSOR: u8 = 7;

pub const FDB_SIZE_CLIFF: u8 = 6;

pub const FDB_SIZE_CURRENT: u8 = 2;

pub const FDB_SIZE_HARDWARE_VERSION: u8 = 4;

pub const FDB_SIZE_FIRMWARE_VERSION: u8 = 4;

pub const FDB_SIZE_RAW_DATA_3_AXIS_GYRO_A: u8 = 14;

pub const FDB_SIZE_RAW_DATA_3_AXIS_GYRO_B: u8 = 20;

pub const FDB_SIZE_GENERAL_PURPOSE_OUTPUT: u8 = 16;

pub const FDB_SIZE_UNIQUE_DEVICE_IDENTIFIER: u8 = 12;

pub const FDB_SIZE_CONTROLLER_INFO: u8 = 13;

/// The wire code of each recognized sub-record id.
pub open spec fn spec_feedback_id(v: u8) -> Option<FeedbackId> {
    if v == 1 {
        Some(FeedbackId::BasicSensor)
    } else if v == 3 {
        Some(FeedbackId::DockingIR)
    } else if v == 4 {
        Some(FeedbackId::InertialSensor)
    } else if v == 5 {
        Some(FeedbackId::Cliff)
    } else if v == 6 {
        Some(FeedbackId::Current)
    } else if v == 10 {
        Some(FeedbackId::HardwareVersion)
    } else if v == 11 {
        Some(FeedbackId::FirmwareVersion)
    } else if v == 13 {
        Some(FeedbackId::RawDataOf3AxisGyro)
    } else if v == 16 {
        Some(FeedbackId::GeneralPurposeInput)
    } else if v == 19 {
        Some(FeedbackId::UniqueDeviceId)
    } else if v == 21 {
        Some(FeedbackId::ControllerInfo)
    } else {
        None
    }
}

/// Maps a raw id byte to the recognized sub-record id, if any.
pub fn feedback_id_from_u8(v: u8) -> (r: Option<FeedbackId>)
    ensures
        r == spec_feedback_id(v),
{
    match v {
        1 => Some(FeedbackId::BasicSensor),
        3 => Some(FeedbackId::DockingIR),
        4 => Some(FeedbackId::InertialSensor),
        5 => Some(FeedbackId::Cliff),
        6 => Some(FeedbackId::Current),
        10 => Some(FeedbackId::HardwareVersion),
        11 => Some(FeedbackId::FirmwareVersion),
        13 => Some(FeedbackId::RawDataOf3AxisGyro),
        16 => Some(FeedbackId::GeneralPurposeInput),
        19 => Some(FeedbackId::UniqueDeviceId),
        21 => Some(FeedbackId::ControllerInfo),
        _ => None,
    }
}

#[derive(Clone, Debug)]
pub struct BasicSensor {
    pub valid: bool,
    pub time_stamp: u32,
    pub bumper: u32,
    pub wheel_drop: u32,
    pub cliff: u32,
    pub left_encoder: u32,
    pub right_encoder: u32,
    pub left_pwm: u32,
    pub right_pwm: u32,
    pub button: u32,
    pub charger: u32,
    pub battery: u32,
    pub overcurrent_flags: u32,
}

#[derive(Clone, Debug)]
pub struct DockingIR {
    pub valid: bool,
    pub right_signal: u32,
    pub central_signal: u32,
    pub left_signal: u32,
}

#[derive(Clone, Debug)]
pub struct InertialSensor {
    pub valid: bool,
    pub angle: u32,
    pub angle_rate: u32,
}

#[derive(Clone, Debug)]
pub struct Cliff {
    pub valid: bool,
    pub right_cliff_sensor: u32,
    pub central_cliff_sensor: u32,
    pub left_cliff_sensor: u32,
}

#[derive(Clone, Debug)]
pub struct Current {
    pub valid: bool,
    pub left_motor: u32,
    pub right_motor: u32,
}

#[derive(Clone, Debug)]
pub struct HardwareVersion {
    pub valid: bool,
    pub patch: u32,
    pub minor: u32,
    pub major: u32,
}

#[derive(Clone, Debug)]
pub struct FirmwareVersion {
    pub valid: bool,
    pub patch: u32,
    pub minor: u32,
    pub major: u32,
}

#[derive(Clone, Debug)]
pub struct Gyro {
    pub valid: bool,
    pub frame_id: u32,
    pub followed_data_length: u32,
    pub x0: u32,
    pub y0: u32,
    pub z0: u32,
    pub x1: u32,
    pub y1: u32,
    pub z1: u32,
    pub x2: u32,
    pub y2: u32,
    pub z2: u32,
}

#[derive(Clone, Debug)]
pub struct GeneralPurposeInput {
    pub valid: bool,
    pub d_ch0: u32,
    pub a_ch0: u32,
    pub a_ch1: u32,
    pub a_ch2: u32,
    pub a_ch3: u32,
}

#[derive(Clone, Debug)]
pub struct UniqueDeviceId {
    pub valid: bool,
    pub udid0: u32,
    pub udid1: u32,
    pub udid2: u32,
}

#[derive(Clone, Debug)]
pub struct ControllerInfo {
    pub valid: bool,
    pub is_user_configured: u32,
    pub p_gain: u32,
    pub i_gain: u32,
    pub d_gain: u32,
}

/// One decoded inbound packet: every sub-record slot, each marked `valid`
/// iff that sub-record was present, plus the decode-time epoch stamp.
#[derive(Clone, Debug)]
pub struct Feedback {
    pub epoch_time_stamp: String,
    pub basic_sensor: BasicSensor,
    pub docking_ir: DockingIR,
    pub inertial_sensor: InertialSensor,
    pub cliff: Cliff,
    pub current: Current,
    pub hardware_version: HardwareVersion,
    pub firmware_version: FirmwareVersion,
    pub gyro: Gyro,
    pub general_purpose_input: GeneralPurposeInput,
    pub unique_device_id: UniqueDeviceId,
    pub controller_info: ControllerInfo,
}

/// A feedback record with every slot cleared and the given epoch stamp.
pub open spec fn empty_feedback(epoch: String) -> Feedback {
    Feedback {
        epoch_time_stamp: epoch,
        basic_sensor: BasicSensor {
            valid: false,
            time_stamp: 0,
            bumper: 0,
            wheel_drop: 0,
            cliff: 0,
            left_encoder: 0,
            right_encoder: 0,
            left_pwm: 0,
            right_pwm: 0,
            button: 0,
            charger: 0,
            battery: 0,
            overcurrent_flags: 0,
        },
        docking_ir: DockingIR { valid: false, right_signal: 0, central_signal: 0, left_signal: 0 },
        inertial_sensor: InertialSensor { valid: false, angle: 0, angle_rate: 0 },
        cliff: Cliff {
            valid: false,
            right_cliff_sensor: 0,
            central_cliff_sensor: 0,
            left_cliff_sensor: 0,
        },
        current: Current { valid: false, left_motor: 0, right_motor: 0 },
        hardware_version: HardwareVersion { valid: false, patch: 0, minor: 0, major: 0 },
        firmware_version: FirmwareVersion { valid: false, patch: 0, minor: 0, major: 0 },
        gyro: Gyro {
            valid: false,
            frame_id: 0,
            followed_data_length: 0,
            x0: 0,
            y0: 0,
            z0: 0,
            x1: 0,
            y1: 0,
            z1: 0,
            x2: 0,
            y2: 0,
            z2: 0,
        },
        general_purpose_input: GeneralPurposeInput {
            valid: false,
            d_ch0: 0,
            a_ch0: 0,
            a_ch1: 0,
            a_ch2: 0,
            a_ch3: 0,
        },
        unique_device_id: UniqueDeviceId { valid: false, udid0: 0, udid1: 0, udid2: 0 },
        controller_info: ControllerInfo {
            valid: false,
            is_user_configured: 0,
            p_gain: 0,
            i_gain: 0,
            d_gain: 0,
        },
    }
}

impl Feedback {
    /// A fresh record: all slots invalid, empty epoch stamp.
    pub fn new() -> (r: Feedback)
        ensures
            r == empty_feedback(r.epoch_time_stamp),
            r.epoch_time_stamp@ == Seq::<char>::empty(),
    {
        Feedback {
            epoch_time_stamp: String::new(),
            basic_sensor: BasicSensor {
                valid: false,
                time_stamp: 0,
                bumper: 0,
                wheel_drop: 0,
                cliff: 0,
                left_encoder: 0,
                right_encoder: 0,
                left_pwm: 0,
                right_pwm: 0,
                button: 0,
                charger: 0,
                battery: 0,
                overcurrent_flags: 0,
            },
            docking_ir: DockingIR {
                valid: false,
                right_signal: 0,
                central_signal: 0,
                left_signal: 0,
            },
            inertial_sensor: InertialSensor { valid: false, angle: 0, angle_rate: 0 },
            cliff: Cliff {
                valid: false,
                right_cliff_sensor: 0,
                central_cliff_sensor: 0,
                left_cliff_sensor: 0,
            },
            current: Current { valid: false, left_motor: 0, right_motor: 0 },
            hardware_version: HardwareVersion { valid: false, patch: 0, minor: 0, major: 0 },
            firmware_version: FirmwareVersion { valid: false, patch: 0, minor: 0, major: 0 },
            gyro: Gyro {
                valid: false,
                frame_id: 0,
                followed_data_length: 0,
                x0: 0,
                y0: 0,
                z0: 0,
                x1: 0,
                y1: 0,
                z1: 0,
                x2: 0,
                y2: 0,
                z2: 0,
            },
            general_purpose_input: GeneralPurposeInput {
                valid: false,
                d_ch0: 0,
                a_ch0: 0,
                a_ch1: 0,
                a_ch2: 0,
                a_ch3: 0,
            },
            unique_device_id: UniqueDeviceId { valid: false, udid0: 0, udid1: 0, udid2: 0 },
            controller_info: ControllerInfo {
                valid: false,
                is_user_configured: 0,
                p_gain: 0,
                i_gain: 0,
                d_gain: 0,
            },
        }
    }
}

/// The little-endian 16-bit value at `s[i..i + 2]`.
pub open spec fn le16(s: Seq<u8>, i: int) -> u32 {
    (s[i] + s[i + 1] * 0x100) as u32
}

/// The little-endian 32-bit value at `s[i..i + 4]`.
pub open spec fn le32(s: Seq<u8>, i: int) -> u32 {
    (s[i] + s[i + 1] * 0x100 + s[i + 2] * 0x10000 + s[i + 3] * 0x1000000) as u32
}

/// The basic-sensor sub-record whose id byte sits at `s[p]`.
pub open spec fn spec_basic_sensor(s: Seq<u8>, p: int) -> BasicSensor {
    BasicSensor {
        valid: true,
        time_stamp: le16(s, p + 2),
        bumper: s[p + 4] as u32,
        wheel_drop: s[p + 5] as u32,
        cliff: s[p + 6] as u32,
        left_encoder: le16(s, p + 7),
        right_encoder: le16(s, p + 9),
        left_pwm: s[p + 11] as u32,
        right_pwm: s[p + 12] as u32,
        button: s[p + 13] as u32,
        charger: s[p + 14] as u32,
        battery: s[p + 15] as u32,
        overcurrent_flags: s[p + 16] as u32,
    }
}

/// The docking-IR sub-record whose id byte sits at `s[p]`.
pub open spec fn spec_docking_ir(s: Seq<u8>, p: int) -> DockingIR {
    DockingIR {
        valid: true,
        right_signal: s[p + 2] as u32,
        central_signal: s[p + 3] as u32,
        left_signal: s[p + 4] as u32,
    }
}

/// The inertial-sensor sub-record whose id byte sits at `s[p]`.
pub open spec fn spec_inertial_sensor(s: Seq<u8>, p: int) -> InertialSensor {
    InertialSensor { valid: true, angle: le16(s, p + 2), angle_rate: le16(s, p + 4) }
}

/// The cliff sub-record whose id byte sits at `s[p]`.
pub open spec fn spec_cliff(s: Seq<u8>, p: int) -> Cliff {
    Cliff {
        valid: true,
        right_cliff_sensor: le16(s, p + 2),
        central_cliff_sensor: le16(s, p + 4),
        left_cliff_sensor: le16(s, p + 6),
    }
}

/// The motor-current sub-record whose id byte sits at `s[p]`.
pub open spec fn spec_current(s: Seq<u8>, p: int) -> Current {
    Current { valid: true, left_motor: s[p + 2] as u32, right_motor: s[p + 3] as u32 }
}

/// The hardware-version sub-record whose id byte sits at `s[p]`.
pub open spec fn spec_hardware_version(s: Seq<u8>, p: int) -> HardwareVersion {
    HardwareVersion {
        valid: true,
        patch: s[p + 2] as u32,
        minor: s[p + 3] as u32,
        major: s[p + 4] as u32,
    }
}

/// The firmware-version sub-record whose id byte sits at `s[p]`.
pub open spec fn spec_firmware_version(s: Seq<u8>, p: int) -> FirmwareVersion {
    FirmwareVersion {
        valid: true,
        patch: s[p + 2] as u32,
        minor: s[p + 3] as u32,
        major: s[p + 4] as u32,
    }
}

/// The gyro sub-record at `s[p]` carrying `triples` sample triples (2 for a
/// 14-byte record, 3 for a 20-byte record); missing triples stay zero.
pub open spec fn spec_gyro(s: Seq<u8>, p: int, triples: int) -> Gyro {
    Gyro {
        valid: true,
        frame_id: s[p + 2] as u32,
        followed_data_length: s[p + 3] as u32,
        x0: le16(s, p + 4),
        y0: le16(s, p + 6),
        z0: le16(s, p + 8),
        x1: le16(s, p + 10),
        y1: le16(s, p + 12),
        z1: le16(s, p + 14),
        x2: if triples >= 3 {
            le16(s, p + 16)
        } else {
            0
        },
        y2: if triples >= 3 {
            le16(s, p + 18)
        } else {
            0
        },
        z2: if triples >= 3 {
            le16(s, p + 20)
        } else {
            0
        },
    }
}

/// The general-purpose-input sub-record whose id byte sits at `s[p]`.
pub open spec fn spec_general_purpose_input(s: Seq<u8>, p: int) -> GeneralPurposeInput {
    GeneralPurposeInput {
        valid: true,
        d_ch0: le16(s, p + 2),
        a_ch0: le16(s, p + 4),
        a_ch1: le16(s, p + 6),
        a_ch2: le16(s, p + 8),
        a_ch3: le16(s, p + 10),
    }
}

/// The unique-device-id sub-record whose id byte sits at `s[p]`.
pub open spec fn spec_unique_device_id(s: Seq<u8>, p: int) -> UniqueDeviceId {
    UniqueDeviceId {
        valid: true,
        udid0: le32(s, p + 2),
        udid1: le32(s, p + 6),
        udid2: le32(s, p + 10),
    }
}

/// The controller-info sub-record whose id byte sits at `s[p]`.
pub open spec fn spec_controller_info(s: Seq<u8>, p: int) -> ControllerInfo {
    ControllerInfo {
        valid: true,
        is_user_configured: s[p + 2] as u32,
        p_gain: le32(s, p + 3),
        i_gain: le32(s, p + 7),
        d_gain: le32(s, p + 11),
    }
}

/// One bounded pass of the sub-record scanner: at most 11 iterations, each
/// reading `id size content` at cursor `p` and filling the matching slot of
/// `f`. The scan stops past the payload (`p >= L + 3`), at an unrecognized
/// id, at a size byte that does not fit the id, or where a sub-record would
/// run past the end of the packet.
pub open spec fn spec_parse_loop(s: Seq<u8>, p: int, count: int, f: Feedback) -> Feedback
    decreases 11 - count,
{
    if count >= 11 {
        f
    } else if p >= s[2] + 3 {
        f
    } else if p + 2 > s.len() {
        f
    } else {
        let id = s[p];
        let sz = s[p + 1];
        if id == 1 && sz == 15 && p + 17 <= s.len() {
            spec_parse_loop(s, p + 17, count + 1, Feedback { basic_sensor: spec_basic_sensor(s, p), ..f })
        } else if id == 3 && sz == 3 && p + 5 <= s.len() {
            spec_parse_loop(s, p + 5, count + 1, Feedback { docking_ir: spec_docking_ir(s, p), ..f })
        } else if id == 4 && sz == 7 && p + 9 <= s.len() {
            spec_parse_loop(
                s,
                p + 9,
                count + 1,
                Feedback { inertial_sensor: spec_inertial_sensor(s, p), ..f },
            )
        } else if id == 5 && sz == 6 && p + 8 <= s.len() {
            spec_parse_loop(s, p + 8, count + 1, Feedback { cliff: spec_cliff(s, p), ..f })
        } else if id == 6 && sz == 2 && p + 4 <= s.len() {
            spec_parse_loop(s, p + 4, count + 1, Feedback { current: spec_current(s, p), ..f })
        } else if id == 10 && sz == 4 && p + 6 <= s.len() {
            spec_parse_loop(
                s,
                p + 6,
                count + 1,
                Feedback { hardware_version: spec_hardware_version(s, p), ..f },
            )
        } else if id == 11 && sz == 4 && p + 6 <= s.len() {
            spec_parse_loop(
                s,
                p + 6,
                count + 1,
                Feedback { firmware_version: spec_firmware_version(s, p), ..f },
            )
        } else if id == 13 && sz == 14 && p + 16 <= s.len() {
            spec_parse_loop(s, p + 16, count + 1, Feedback { gyro: spec_gyro(s, p, 2), ..f })
        } else if id == 13 && sz == 20 && p + 22 <= s.len() {
            spec_parse_loop(s, p + 22, count + 1, Feedback { gyro: spec_gyro(s, p, 3), ..f })
        } else if id == 16 && sz == 16 && p + 18 <= s.len() {
            spec_parse_loop(
                s,
                p + 18,
                count + 1,
                Feedback { general_purpose_input: spec_general_purpose_input(s, p), ..f },
            )
        } else if id == 19 && sz == 12 && p + 14 <= s.len() {
            spec_parse_loop(
                s,
                p + 14,
                count + 1,
                Feedback { unique_device_id: spec_unique_device_id(s, p), ..f },
            )
        } else if id == 21 && sz == 13 && p + 15 <= s.len() {
            spec_parse_loop(
                s,
                p + 15,
                count + 1,
                Feedback { controller_info: spec_controller_info(s, p), ..f },
            )
        } else {
            f
        }
    }
}

/// The feedback a packet's payload parses to, with the given epoch stamp.
pub open spec fn spec_parse(s: Seq<u8>, epoch: String) -> Feedback {
    spec_parse_loop(s, 3, 0, empty_feedback(epoch))
}

/// A nonempty string of decimal digits, with no sign and no other
/// characters: the shape of an unsigned integer rendered in base ten.
pub open spec fn is_decimal_digits(s: Seq<char>) -> bool {
    &&& s.len() > 0
    &&& forall|i: int| 0 <= i < s.len() ==> '0' <= #[trigger] s[i] <= '9'
}

/// Relies on std::time::SystemTime::now: milliseconds since the Unix epoch,
/// as a decimal string. The value depends on the clock, so only the shape
/// is promised: an unsigned integer formats as nonempty decimal digits. A
/// clock before the epoch reads as zero.
#[verifier::external_body]
pub fn get_epoch_ms() -> (r: String)
    ensures
        is_decimal_digits(r@),
{
    std::time::SystemTime::now()
        .duration_since(std::time::UNIX_EPOCH)
        .unwrap_or(std::time::Duration::from_millis(0))
        .as_millis()
        .to_string()
}

/// Reads the little-endian 16-bit value at `packet[i..i + 2]`.
fn read_le16(packet: &Vec<u8>, i: usize) -> (r: u32)
    requires
        i + 2 <= packet.len(),
    ensures
        r == le16(packet@, i as int),
{
    packet[i] as u32 + (packet[i + 1] as u32) * 0x100
}

/// Reads the little-endian 32-bit value at `packet[i..i + 4]`.
fn read_le32(packet: &Vec<u8>, i: usize) -> (r: u32)
    requires
        i + 4 <= packet.len(),
    ensures
        r == le32(packet@, i as int),
{
    packet[i] as u32 + (packet[i + 1] as u32) * 0x100 + (packet[i + 2] as u32) * 0x10000 + (packet[i
        + 3] as u32) * 0x1000000
}

/// Decodes the basic-sensor sub-record whose id byte sits at `packet[p]`.
fn parse_basic_sensor(packet: &Vec<u8>, p: usize) -> (b: BasicSensor)
    requires
        p + 17 <= packet.len(),
    ensures
        b == spec_basic_sensor(packet@, p as int),
{
    BasicSensor {
        valid: true,
        time_stamp: read_le16(packet, p + 2),
        bumper: packet[p + 4] as u32,
        wheel_drop: packet[p + 5] as u32,
        cliff: packet[p + 6] as u32,
        left_encoder: read_le16(packet, p + 7),
        right_encoder: read_le16(packet, p + 9),
        left_pwm: packet[p + 11] as u32,
        right_pwm: packet[p + 12] as u32,
        button: packet[p + 13] as u32,
        charger: packet[p + 14] as u32,
        battery: packet[p + 15] as u32,
        overcurrent_flags: packet[p + 16] as u32,
    }
}

/// Decodes the docking-IR sub-record whose id byte sits at `packet[p]`.
fn parse_docking_ir(packet: &Vec<u8>, p: usize) -> (d: DockingIR)
    requires
        p + 5 <= packet.len(),
    ensures
        d == spec_docking_ir(packet@, p as int),
{
    DockingIR {
        valid: true,
        right_signal: packet[p + 2] as u32,
        central_signal: packet[p + 3] as u32,
        left_signal: packet[p + 4] as u32,
    }
}

/// Decodes the inertial-sensor sub-record whose id byte sits at `packet[p]`.
fn parse_inertial_sensor(packet: &Vec<u8>, p: usize) -> (r: InertialSensor)
    requires
        p + 9 <= packet.len(),
    ensures
        r == spec_inertial_sensor(packet@, p as int),
{
    InertialSensor { valid: true, angle: read_le16(packet, p + 2), angle_rate: read_le16(packet, p + 4) }
}

/// Decodes the cliff sub-record whose id byte sits at `packet[p]`.
fn parse_cliff(packet: &Vec<u8>, p: usize) -> (c: Cliff)
    requires
        p + 8 <= packet.len(),
    ensures
        c == spec_cliff(packet@, p as int),
{
    Cliff {
        valid: true,
        right_cliff_sensor: read_le16(packet, p + 2),
        central_cliff_sensor: read_le16(packet, p + 4),
        left_cliff_sensor: read_le16(packet, p + 6),
    }
}

/// Decodes the motor-current sub-record whose id byte sits at `packet[p]`.
fn parse_current(packet: &Vec<u8>, p: usize) -> (c: Current)
    requires
        p + 4 <= packet.len(),
    ensures
        c == spec_current(packet@, p as int),
{
    Current { valid: true, left_motor: packet[p + 2] as u32, right_motor: packet[p + 3] as u32 }
}

/// Decodes the hardware-version sub-record whose id byte sits at `packet[p]`.
fn parse_hardware_version(packet: &Vec<u8>, p: usize) -> (h: HardwareVersion)
    requires
        p + 6 <= packet.len(),
    ensures
        h == spec_hardware_version(packet@, p as int),
{
    HardwareVersion {
        valid: true,
        patch: packet[p + 2] as u32,
        minor: packet[p + 3] as u32,
        major: packet[p + 4] as u32,
    }
}

/// Decodes the firmware-version sub-record whose id byte sits at `packet[p]`.
fn parse_firmware_version(packet: &Vec<u8>, p: usize) -> (h: FirmwareVersion)
    requires
        p + 6 <= packet.len(),
    ensures
        h == spec_firmware_version(packet@, p as int),
{
    FirmwareVersion {
        valid: true,
        patch: packet[p + 2] as u32,
        minor: packet[p + 3] as u32,
        major: packet[p + 4] as u32,
    }
}

/// Decodes a gyro sub-record with two or three sample triples, as its size
/// byte dictates.
fn parse_gyro(packet: &Vec<u8>, p: usize, three: bool) -> (g: Gyro)
    requires
        !three ==> p + 16 <= packet.len(),
        three ==> p + 22 <= packet.len(),
    ensures
        g == spec_gyro(packet@, p as int, if three { 3int } else { 2int }),
{
    Gyro {
        valid: true,
        frame_id: packet[p + 2] as u32,
        followed_data_length: packet[p + 3] as u32,
        x0: read_le16(packet, p + 4),
        y0: read_le16(packet, p + 6),
        z0: read_le16(packet, p + 8),
        x1: read_le16(packet, p + 10),
        y1: read_le16(packet, p + 12),
        z1: read_le16(packet, p + 14),
        x2: if three {
            read_le16(packet, p + 16)
        } else {
            0
        },
        y2: if three {
            read_le16(packet, p + 18)
        } else {
            0
        },
        z2: if three {
            read_le16(packet, p + 20)
        } else {
            0
        },
    }
}

/// Decodes the general-purpose-input sub-record whose id byte sits at
/// `packet[p]`.
fn parse_general_purpose_input(packet: &Vec<u8>, p: usize) -> (g: GeneralPurposeInput)
    requires
        p + 18 <= packet.len(),
    ensures
        g == spec_general_purpose_input(packet@, p as int),
{
    GeneralPurposeInput {
        valid: true,
        d_ch0: read_le16(packet, p + 2),
        a_ch0: read_le16(packet, p + 4),
        a_ch1: read_le16(packet, p + 6),
        a_ch2: read_le16(packet, p + 8),
        a_ch3: read_le16(packet, p + 10),
    }
}

/// Decodes the unique-device-id sub-record whose id byte sits at `packet[p]`.
fn parse_unique_device_id(packet: &Vec<u8>, p: usize) -> (u: UniqueDeviceId)
    requires
        p + 14 <= packet.len(),
    ensures
        u == spec_unique_device_id(packet@, p as int),
{
    UniqueDeviceId {
        valid: true,
        udid0: read_le32(packet, p + 2),
        udid1: read_le32(packet, p + 6),
        udid2: read_le32(packet, p + 10),
    }
}

/// Decodes the controller-info sub-record whose id byte sits at `packet[p]`.
fn parse_controller_info(packet: &Vec<u8>, p: usize) -> (c: ControllerInfo)
    requires
        p + 15 <= packet.len(),
    ensures
        c == spec_controller_info(packet@, p as int),
{
    ControllerInfo {
        valid: true,
        is_user_configured: packet[p + 2] as u32,
        p_gain: read_le32(packet, p + 3),
        i_gain: read_le32(packet, p + 7),
        d_gain: read_le32(packet, p + 11),
    }
}

/// Parses the payload of `packet` into a feedback record stamped with the
/// decode-time epoch. The scan is bounded and stops early at an unrecognized
/// id, a size byte that does not fit the id, or a sub-record that would run
/// past the end of the packet; whatever was read up to that point keeps its
/// `valid` flag.
pub fn format_feedback(packet: &Vec<u8>) -> (f: Feedback)
    requires
        packet@.len() >= 3,
    ensures
        f == spec_parse(packet@, f.epoch_time_stamp),
        is_decimal_digits(f.epoch_time_stamp@),
{
    let n = packet.len();
    let total_len = packet[2] as usize;
    let mut f = Feedback::new();
    f.epoch_time_stamp = get_epoch_ms();
    let ghost epoch = f.epoch_time_stamp;
    let mut index: usize = 3;
    let mut exit_count: usize = 0;
    loop
        invariant
            n == packet@.len(),
            3 <= n,
            total_len == packet@[2],
            3 <= index <= n,
            exit_count <= 11,
            f.epoch_time_stamp == epoch,
            spec_parse(packet@, epoch) == spec_parse_loop(packet@, index as int, exit_count as int, f),
        ensures
            f == spec_parse(packet@, epoch),
            f.epoch_time_stamp == epoch,
        decreases 11 - exit_count,
    {
        if exit_count >= 11 {
            break;
        }
        if index >= total_len + 3 {
            break;
        }
        if n - index < 2 {
            break;
        }
        let id = packet[index];
        let sz = packet[index + 1];
        match feedback_id_from_u8(id) {
            Some(FeedbackId::BasicSensor) => {
                if sz == FDB_SIZE_BASIC_SENSOR_DATA && n - index >= 17 {
                    f.basic_sensor = parse_basic_sensor(packet, index);
                    index = index + 17;
                } else {
                    break;
                }
            },
            Some(FeedbackId::DockingIR) => {
                if sz == FDB_SIZE_DOCKING_IR && n - index >= 5 {
                    f.docking_ir = parse_docking_ir(packet, index);
                    index = index + 5;
                } else {
                    break;
                }
            },
            Some(FeedbackId::InertialSensor) => {
                if sz == FDB_SIZE_INERTIAL_SENSOR && n - index >= 9 {
                    f.inertial_sensor = parse_inertial_sensor(packet, index);
                    index = index + 9;
                } else {
                    break;
                }
            },
            Some(FeedbackId::Cliff) => {
                if sz == FDB_SIZE_CLIFF && n - index >= 8 {
                    f.cliff = parse_cliff(packet, index);
                    index = index + 8;
                } else {
                    break;
                }
            },
            Some(FeedbackId::Current) => {
                if sz == FDB_SIZE_CURRENT && n - index >= 4 {
                    f.current = parse_current(packet, index);
                    index = index + 4;
                } else {
                    break;
                }
            },
            Some(FeedbackId::HardwareVersion) => {
                if sz == FDB_SIZE_HARDWARE_VERSION && n - index >= 6 {
                    f.hardware_version = parse_hardware_version(packet, index);
                    index = index + 6;
                } else {
                    break;
                }
            },
            Some(FeedbackId::FirmwareVersion) => {
                if sz == FDB_SIZE_FIRMWARE_VERSION && n - index >= 6 {
                    f.firmware_version = parse_firmware_version(packet, index);
                    index = index + 6;
                } else {
                    break;
                }
            },
            Some(FeedbackId::RawDataOf3AxisGyro) => {
                if sz == FDB_SIZE_RAW_DATA_3_AXIS_GYRO_A && n - index >= 16 {
                    f.gyro = parse_gyro(packet, index, false);
                    index = index + 16;
                } else if sz == FDB_SIZE_RAW_DATA_3_AXIS_GYRO_B && n - index >= 22 {
                    f.gyro = parse_gyro(packet, index, true);
                    index = index + 22;
                } else {
                    break;
                }
            },
            Some(FeedbackId::GeneralPurposeInput) => {
                if sz == FDB_SIZE_GENERAL_PURPOSE_OUTPUT && n - index >= 18 {
                    f.general_purpose_input = parse_general_purpose_input(packet, index);
                    index = index + 18;
                } else {
                    break;
                }
            },
            Some(FeedbackId::UniqueDeviceId) => {
                if sz == FDB_SIZE_UNIQUE_DEVICE_IDENTIFIER && n - index >= 14 {
                    f.unique_device_id = parse_unique_device_id(packet, index);
                    index = index + 14;
                } else {
                    break;
                }
            },
            Some(FeedbackId::ControllerInfo) => {
                if sz == FDB_SIZE_CONTROLLER_INFO && n - index >= 15 {
                    f.controller_info = parse_controller_info(packet, index);
                    index = index + 15;
                } else {
                    break;
                }
            },
            None => {
                break;
            },
        }
        exit_count = exit_count + 1;
    }
    f
}

/// The (id, size) pairs the payload scanner recognizes.
pub open spec fn known_subrecord(id: u8, sz: u8) -> bool {
    ||| (id == 1 && sz == 15)
    ||| (id == 3 && sz == 3)
    ||| (id == 4 && sz == 7)
    ||| (id == 5 && sz == 6)
    ||| (id == 6 && sz == 2)
    ||| (id == 10 && sz == 4)
    ||| (id == 11 && sz == 4)
    ||| (id == 13 && (sz == 14 || sz == 20))
    ||| (id == 16 && sz == 16)
    ||| (id == 19 && sz == 12)
    ||| (id == 21 && sz == 13)
}

/// Exactly the slot belonging to `id` is marked valid.
pub open spec fn single_variant_valid(f: Feedback, id: u8) -> bool {
    &&& f.basic_sensor.valid == (id == 1)
    &&& f.docking_ir.valid == (id == 3)
    &&& f.inertial_sensor.valid == (id == 4)
    &&& f.cliff.valid == (id == 5)
    &&& f.current.valid == (id == 6)
    &&& f.hardware_version.valid == (id == 10)
    &&& f.firmware_version.valid == (id == 11)
    &&& f.gyro.valid == (id == 13)
    &&& f.general_purpose_input.valid == (id == 16)
    &&& f.unique_device_id.valid == (id == 19)
    &&& f.controller_info.valid == (id == 21)
}

/// Sub-record coverage: a packet whose payload holds a single recognized
/// sub-record parses to a feedback in which exactly that variant's `valid`
/// flag is set, whatever the content bytes, checksum byte and epoch are.
pub proof fn lemma_single_subrecord_coverage(
    id: u8,
    sz: u8,
    content: Seq<u8>,
    crc: u8,
    epoch: String,
)
    requires
        known_subrecord(id, sz),
        content.len() == sz,
    ensures
        ({
            let packet = seq![0xAAu8, 0x55u8, (sz + 2) as u8, id, sz] + content + seq![crc];
            single_variant_valid(spec_parse(packet, epoch), id)
        }),
{
    let packet = seq![0xAAu8, 0x55u8, (sz + 2) as u8, id, sz] + content + seq![crc];
    assert(packet.len() == sz + 6);
    assert(packet[2] == (sz + 2) as u8);
    assert(packet[3] == id);
    assert(packet[4] == sz);
    reveal_with_fuel(spec_parse_loop, 3);
}

/// Two-sub-record coverage: a packet whose payload holds a basic-sensor
/// sub-record immediately followed by a docking-IR sub-record parses to a
/// feedback with exactly those two variants valid, the docking-IR fields
/// taken from its three content bytes in order, whatever the content,
/// checksum byte and epoch are.
pub proof fn lemma_basic_sensor_docking_ir_packet(
    bs: Seq<u8>,
    d: Seq<u8>,
    crc: u8,
    epoch: String,
)
    requires
        bs.len() == 15,
        d.len() == 3,
    ensures
        ({
            let packet = seq![0xAAu8, 0x55u8, 22u8, 1u8, 15u8] + bs + seq![3u8, 3u8] + d
                + seq![crc];
            let f = spec_parse(packet, epoch);
            &&& f.basic_sensor == spec_basic_sensor(packet, 3)
            &&& f.basic_sensor.valid
            &&& f.docking_ir.valid
            &&& f.docking_ir.right_signal == d[0] as u32
            &&& f.docking_ir.central_signal == d[1] as u32
            &&& f.docking_ir.left_signal == d[2] as u32
            &&& !f.inertial_sensor.valid
            &&& !f.cliff.valid
            &&& !f.current.valid
            &&& !f.hardware_version.valid
            &&& !f.firmware_version.valid
            &&& !f.gyro.valid
            &&& !f.general_purpose_input.valid
            &&& !f.unique_device_id.valid
            &&& !f.controller_info.valid
        }),
{
    let packet = seq![0xAAu8, 0x55u8, 22u8, 1u8, 15u8] + bs + seq![3u8, 3u8] + d + seq![crc];
    assert(packet.len() == 26);
    assert(packet[2] == 22u8);
    assert(packet[3] == 1u8);
    assert(packet[4] == 15u8);
    assert(packet[20] == 3u8);
    assert(packet[21] == 3u8);
    assert(packet[22] == d[0]);
    assert(packet[23] == d[1]);
    assert(packet[24] == d[2]);
    reveal_with_fuel(spec_parse_loop, 4);
}

} // verus!
