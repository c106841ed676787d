use turtlebot2::rx::CommandId;
use turtlebot2::tx::base_control_command;
use turtlebot2::tx::base_control_frame;
use turtlebot2::tx::close_command;
use turtlebot2::tx::close_port_command;
use turtlebot2::tx::command_id_code;
use turtlebot2::tx::general_purpose_output_frame;
use turtlebot2::tx::get_controller_gain;
use turtlebot2::tx::get_controller_gain_frame;
use turtlebot2::tx::open_command;
use turtlebot2::tx::open_port_command;
use turtlebot2::tx::request_extra_frame;
use turtlebot2::tx::set_controller_gain_frame;
use turtlebot2::tx::sound_command;
use turtlebot2::tx::sound_frame;
use turtlebot2::tx::sound_frame_corrected;
use turtlebot2::tx::sound_sequence_frame;
use turtlebot2::tx::wire_command;
use turtlebot2::tx::TxError;

/// XOR of `frame[2..len - 1]`, the span the checksum covers.
fn xor_span_of(frame: &[u8]) -> u8 {
    let mut acc = 0u8;
    for b in &frame[2..frame.len() - 1] {
        acc ^= b;
    }
    acc
}

fn assert_checksummed(frame: &[u8]) {
    assert_eq!(*frame.last().unwrap(), xor_span_of(frame));
}

#[test]
fn base_control_encode_literal() {
    let f = base_control_frame(0x0100, 0x0000);
    assert_eq!(f, vec![0xAA, 0x55, 0x07, 0x01, 0x04, 0x00, 0x01, 0x00, 0x00, 0x03]);
}

#[test]
fn base_control_checksum_holds_across_arguments() {
    for &(speed, radius) in
        &[(0u16, 0u16), (1, 1), (0x1234, 0xFEDC), (0xFFFF, 0xFFFF), (0x00AA, 0x5500)] {
        assert_checksummed(&base_control_frame(speed, radius));
    }
}

#[test]
fn sound_encode() {
    // The period formula 1 / (freq * amp) gives 1 only for freq == amp == 1.
    let f = sound_frame(1, 1, 5);
    assert_eq!(f, vec![0xAA, 0x55, 0x06, 0x03, 0x03, 0x01, 0x00, 0x05, 0x02]);
    let g = sound_frame(10, 3, 7);
    assert_eq!(&g[5..8], &[0x00, 0x00, 0x07]);
    assert_checksummed(&g);
}

#[test]
fn sound_corrected_encode() {
    // 1_000_000 / 200 == 5000 == 0x1388.
    let f = sound_frame_corrected(200, 9);
    assert_eq!(&f[5..8], &[0x88, 0x13, 0x09]);
    assert_checksummed(&f);
    // A very low frequency saturates the 16-bit period.
    let g = sound_frame_corrected(1, 1);
    assert_eq!(&g[5..7], &[0xFF, 0xFF]);
}

#[test]
fn sound_sequence_encode() {
    let f = sound_sequence_frame(3);
    assert_eq!(f, vec![0xAA, 0x55, 0x04, 0x04, 0x01, 0x03, 0x02]);
}

#[test]
fn request_extra_encode() {
    let f = request_extra_frame(true, true, true);
    assert_eq!(f, vec![0xAA, 0x55, 0x05, 0x09, 0x02, 0x83, 0x8D]);
    let g = request_extra_frame(true, false, false);
    assert_eq!(g[5], 0x01);
    let h = request_extra_frame(false, true, false);
    assert_eq!(h[5], 0x02);
    let u = request_extra_frame(false, false, true);
    assert_eq!(u[5], 0x80);
    assert_checksummed(&u);
}

#[test]
fn general_purpose_output_encode() {
    let f = general_purpose_output_frame(
        false, false, false, false, false, false, false, false, false, false, false, false,
    );
    assert_eq!(f, vec![0xAA, 0x55, 0x05, 0x0C, 0x02, 0x00, 0x00, 0x0B]);
    let g = general_purpose_output_frame(
        true, false, false, false, true, false, false, false, false, true, false, false,
    );
    // d_out_ch0 (bit 0) and power_3v3 (bit 4); red_led2 (bit 2).
    assert_eq!(g[5], 0x11);
    assert_eq!(g[6], 0x04);
    assert_checksummed(&g);
}

#[test]
fn set_controller_gain_encode_defaults() {
    // Zero p and d select the defaults 1 and 2; both are scaled by 1000.
    let f = set_controller_gain_frame(true, 0, 50, 0);
    assert_eq!(&f[..6], &[0xAA, 0x55, 0x10, 0x0D, 0x0D, 0x01]);
    assert_eq!(&f[6..10], &[0xE8, 0x03, 0x00, 0x00]); // p: 1000
    assert_eq!(&f[10..14], &[0x64, 0x00, 0x00, 0x00]); // i: clamped up to 100
    assert_eq!(&f[14..18], &[0xD0, 0x07, 0x00, 0x00]); // d: 2000
    assert_checksummed(&f);
}

#[test]
fn set_controller_gain_encode_scaling_and_clamp() {
    let f = set_controller_gain_frame(false, 3, 2500, 4);
    assert_eq!(f[5], 0x00);
    assert_eq!(&f[6..10], &[0xB8, 0x0B, 0x00, 0x00]); // p: 3000
    assert_eq!(&f[10..14], &[0xC4, 0x09, 0x00, 0x00]); // i: 2500 within range
    assert_eq!(&f[14..18], &[0xA0, 0x0F, 0x00, 0x00]); // d: 4000
    let g = set_controller_gain_frame(false, 1, 33_000_000, 1);
    assert_eq!(&g[10..14], &[0x00, 0x48, 0xE8, 0x01]); // i: clamped down to 32,000,000
}

#[test]
fn serial_control_command_constructors() {
    let open = open_command(String::from("/dev/ttyUSB0"));
    assert_eq!(open.ty, CommandId::SerialControl);
    assert_eq!(open.serial_command, "open");
    assert_eq!(open.serial_port_name, "/dev/ttyUSB0");
    assert!(open.payload.is_empty());

    let close = close_command();
    assert_eq!(close.ty, CommandId::SerialControl);
    assert_eq!(close.serial_command, "close");
    assert_eq!(close.serial_port_name, "");
    assert!(close.payload.is_empty());
}

#[test]
fn wire_command_carries_tag_and_frame() {
    let cmd = wire_command(CommandId::BaseControl, base_control_frame(0x0100, 0x0000));
    assert_eq!(cmd.ty, CommandId::BaseControl);
    assert_eq!(cmd.serial_command, "");
    assert_eq!(cmd.serial_port_name, "");
    assert_eq!(cmd.payload, vec![0xAA, 0x55, 0x07, 0x01, 0x04, 0x00, 0x01, 0x00, 0x00, 0x03]);
}

#[test]
fn get_controller_gain_encode() {
    let f = get_controller_gain_frame();
    assert_eq!(f, vec![0xAA, 0x55, 0x04, 0x0E, 0x01, 0xFF, 0xF4]);
}

#[test]
fn command_codes() {
    assert_eq!(command_id_code(CommandId::SerialControl), 0);
    assert_eq!(command_id_code(CommandId::BaseControl), 1);
    assert_eq!(command_id_code(CommandId::Sound), 3);
    assert_eq!(command_id_code(CommandId::SoundSequence), 4);
    assert_eq!(command_id_code(CommandId::RequestExtra), 9);
    assert_eq!(command_id_code(CommandId::GeneralPurposeOutput), 12);
    assert_eq!(command_id_code(CommandId::SetControllerGain), 13);
    assert_eq!(command_id_code(CommandId::GetControllerGain), 14);
}

#[test]
fn commands_reach_the_channel() {
    let (tx, rx) = crossbeam_channel::unbounded();
    base_control_command(&tx, 0x0100, 0x0000).unwrap();
    let cmd = rx.try_recv().unwrap();
    assert_eq!(cmd.ty, CommandId::BaseControl);
    assert_eq!(cmd.payload, vec![0xAA, 0x55, 0x07, 0x01, 0x04, 0x00, 0x01, 0x00, 0x00, 0x03]);

    get_controller_gain(&tx).unwrap();
    let cmd = rx.try_recv().unwrap();
    assert_eq!(cmd.ty, CommandId::GetControllerGain);
    assert_eq!(cmd.payload, vec![0xAA, 0x55, 0x04, 0x0E, 0x01, 0xFF, 0xF4]);
}

#[test]
fn port_commands_carry_the_subcommand() {
    let (tx, rx) = crossbeam_channel::unbounded();
    open_port_command(&tx, String::from("/dev/ttyUSB0")).unwrap();
    let cmd = rx.try_recv().unwrap();
    assert_eq!(cmd.ty, CommandId::SerialControl);
    assert_eq!(cmd.serial_command, "open");
    assert_eq!(cmd.serial_port_name, "/dev/ttyUSB0");
    assert!(cmd.payload.is_empty());

    close_port_command(&tx).unwrap();
    let cmd = rx.try_recv().unwrap();
    assert_eq!(cmd.ty, CommandId::SerialControl);
    assert_eq!(cmd.serial_command, "close");
}

#[test]
fn sound_command_rejects_zero_arguments() {
    let (tx, rx) = crossbeam_channel::unbounded();
    assert_eq!(sound_command(&tx, 0, 1, 1), Err(TxError::InvalidArgument));
    assert_eq!(sound_command(&tx, 1, 0, 1), Err(TxError::InvalidArgument));
    assert_eq!(sound_command(&tx, 1, 1, 0), Err(TxError::InvalidArgument));
    assert!(rx.try_recv().is_err());
    assert!(sound_command(&tx, 1, 1, 1).is_ok());
    assert!(rx.try_recv().is_ok());
}
