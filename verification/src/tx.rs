//! Outbound encoder: builders for the fixed command set, each producing a
//! length-prefixed frame that ends in the XOR checksum of bytes two onward,
//! and the enqueue path onto the process command channel.

use vstd::prelude::*;

use crate::frame::checksum_ok;
use crate::frame::compute_checksum;
use crate::frame::lemma_appended_checksum;
use crate::frame::xor_span;
use crate::rx::Command;
use crate::rx::CommandId;

verus! {

pub const CMD_LEN_BASE_CONTROL: u8 = 7;

pub const CMD_LEN_SOUND: u8 = 6;

pub const CMD_LEN_SOUND_SEQUENCE: u8 = 4;

pub const CMD_LEN_REQUEST_EXTRA: u8 = 5;

pub const CMD_LEN_GENERAL_PURPOSE_OUTPUT: u8 = 5;

pub const CMD_LEN_SET_CONTROLLER_GAIN: u8 = 16;

pub const CMD_LEN_GET_CONTROLLER_GAIN: u8 = 4;

pub const CMD_SIZE_BASE_CONTROL: u8 = 4;

pub const CMD_SIZE_SOUND: u8 = 3;

pub const CMD_SIZE_SOUND_SEQUENCE: u8 = 1;

pub const CMD_SIZE_REQUEST_EXTRA: u8 = 2;

pub const CMD_SIZE_GENERAL_PURPOSE_OUTPUT: u8 = 2;

pub const CMD_SIZE_SET_CONTROLLER_GAIN: u8 = 13;

pub const CMD_SIZE_GET_CONTROLLER_GAIN: u8 = 1;

/// An argument a builder rejects before anything is enqueued.
#[derive(Clone, Copy, Debug, PartialEq, Eq, Structural)]
pub enum TxError {
    InvalidArgument,
}

/// The wire code of each command kind.
pub open spec fn spec_command_code(ty: CommandId) -> u8 {
    match ty {
        CommandId::SerialControl => 0,
        CommandId::BaseControl => 1,
        CommandId::Sound => 3,
        CommandId::SoundSequence => 4,
        CommandId::RequestExtra => 9,
        CommandId::GeneralPurposeOutput => 12,
        CommandId::SetControllerGain => 13,
        CommandId::GetControllerGain => 14,
    }
}

/// Maps a command kind to its wire code.
pub fn command_id_code(ty: CommandId) -> (v: u8)
    ensures
        v == spec_command_code(ty),
{
    match ty {
        CommandId::SerialControl => 0,
        CommandId::BaseControl => 1,
        CommandId::Sound => 3,
        CommandId::SoundSequence => 4,
        CommandId::RequestExtra => 9,
        CommandId::GeneralPurposeOutput => 12,
        CommandId::SetControllerGain => 13,
        CommandId::GetControllerGain => 14,
    }
}

/// The low and high little-endian bytes of a 16-bit value.
pub open spec fn le16_bytes(v: u16) -> Seq<u8> {
    seq![(v % 0x100) as u8, (v / 0x100) as u8]
}

/// The four little-endian bytes of a 32-bit value.
pub open spec fn le32_bytes(v: u32) -> Seq<u8> {
    seq![
        (v % 0x100) as u8,
        ((v / 0x100) % 0x100) as u8,
        ((v / 0x10000) % 0x100) as u8,
        ((v / 0x1000000) % 0x100) as u8,
    ]
}

/// A command body with its checksum byte appended.
pub open spec fn with_crc(body: Seq<u8>) -> Seq<u8> {
    body.push(xor_span(body, 2, body.len() as int))
}

/// Appends the checksum of `v[2..]` to `v`.
fn append_crc(v: &mut Vec<u8>)
    requires
        old(v)@.len() >= 2,
    ensures
        final(v)@ == with_crc(old(v)@),
{
    let crc = compute_checksum(v);
    v.push(crc);
}

/// Appends a 16-bit value in little-endian order.
fn push_le16(v: &mut Vec<u8>, x: u16)
    ensures
        final(v)@ == old(v)@ + le16_bytes(x),
{
    v.push((x % 0x100) as u8);
    v.push((x / 0x100) as u8);
    proof {
        assert(final(v)@ =~= old(v)@ + le16_bytes(x));
    }
}

/// Appends a 32-bit value in little-endian order.
fn push_le32(v: &mut Vec<u8>, x: u32)
    ensures
        final(v)@ == old(v)@ + le32_bytes(x),
{
    v.push((x % 0x100) as u8);
    v.push(((x / 0x100) % 0x100) as u8);
    v.push(((x / 0x10000) % 0x100) as u8);
    v.push(((x / 0x1000000) % 0x100) as u8);
    proof {
        assert(final(v)@ =~= old(v)@ + le32_bytes(x));
    }
}

/// The base-control frame before its checksum.
pub open spec fn spec_base_control_body(speed: u16, radius: u16) -> Seq<u8> {
    seq![0xAAu8, 0x55u8, CMD_LEN_BASE_CONTROL, 1u8, CMD_SIZE_BASE_CONTROL] + le16_bytes(speed)
        + le16_bytes(radius)
}

/// The complete base-control frame.
pub open spec fn spec_base_control_frame(speed: u16, radius: u16) -> Seq<u8> {
    with_crc(spec_base_control_body(speed, radius))
}

/// Builds the base-control frame: speed and radius as little-endian 16-bit
/// values, then the checksum.
pub fn base_control_frame(speed: u16, radius: u16) -> (v: Vec<u8>)
    ensures
        v@ == spec_base_control_frame(speed, radius),
{
    let mut v: Vec<u8> = Vec::new();
    v.push(0xAA);
    v.push(0x55);
    v.push(CMD_LEN_BASE_CONTROL);
    v.push(command_id_code(CommandId::BaseControl));
    v.push(CMD_SIZE_BASE_CONTROL);
    push_le16(&mut v, speed);
    push_le16(&mut v, radius);
    proof {
        assert(v@ =~= spec_base_control_body(speed, radius));
    }
    append_crc(&mut v);
    v
}

/// Every base-control frame ends in its own checksum and carries the
/// base-control length byte.
pub proof fn lemma_base_control_checksum(speed: u16, radius: u16)
    ensures
        checksum_ok(spec_base_control_frame(speed, radius)),
        spec_base_control_frame(speed, radius)[2] == CMD_LEN_BASE_CONTROL,
        spec_base_control_frame(speed, radius).len() == 10,
{
    lemma_appended_checksum(spec_base_control_body(speed, radius));
}

/// The sound frame before its checksum. The period is `1 / (freq * amp)` in
/// integer arithmetic, which collapses to zero for every product above one;
/// `sound_frame_corrected` carries the intended period instead.
pub open spec fn spec_sound_body(freq: u8, amp: u8, duration: u8) -> Seq<u8> {
    let period = (1int / (freq * amp)) as u16;
    seq![0xAAu8, 0x55u8, CMD_LEN_SOUND, 3u8, CMD_SIZE_SOUND] + le16_bytes(period) + seq![duration]
}

/// The complete sound frame.
pub open spec fn spec_sound_frame(freq: u8, amp: u8, duration: u8) -> Seq<u8> {
    with_crc(spec_sound_body(freq, amp, duration))
}

/// Builds the sound frame with the period formula `1 / (freq * amp)`.
pub fn sound_frame(freq: u8, amp: u8, duration: u8) -> (v: Vec<u8>)
    requires
        freq != 0,
        amp != 0,
    ensures
        v@ == spec_sound_frame(freq, amp, duration),
{
    proof {
        assert(1 <= (freq as int) * (amp as int) < 0x10000) by (nonlinear_arith)
            requires
                1 <= freq as int <= 255,
                1 <= amp as int <= 255,
        ;
    }
    let prod: u16 = (freq as u16) * (amp as u16);
    let tmp: u16 = 1 / prod;
    let mut v: Vec<u8> = Vec::new();
    v.push(0xAA);
    v.push(0x55);
    v.push(CMD_LEN_SOUND);
    v.push(command_id_code(CommandId::Sound));
    v.push(CMD_SIZE_SOUND);
    push_le16(&mut v, tmp);
    v.push(duration);
    proof {
        assert(v@ =~= spec_sound_body(freq, amp, duration));
    }
    append_crc(&mut v);
    v
}

/// The corrected sound frame body: the period in microseconds,
/// `1_000_000 / freq`, saturated to 16 bits.
pub open spec fn spec_sound_corrected_body(freq: u8, duration: u8) -> Seq<u8> {
    let period_us = 1_000_000int / (freq as int);
    let period = if period_us > 0xFFFF {
        0xFFFFu16
    } else {
        period_us as u16
    };
    seq![0xAAu8, 0x55u8, CMD_LEN_SOUND, 3u8, CMD_SIZE_SOUND] + le16_bytes(period) + seq![duration]
}

/// The complete corrected sound frame.
pub open spec fn spec_sound_corrected_frame(freq: u8, duration: u8) -> Seq<u8> {
    with_crc(spec_sound_corrected_body(freq, duration))
}

/// Builds a sound frame whose period is `1_000_000 / freq` microseconds,
/// saturated to 16 bits: the period the device expects, in place of the
/// degenerate `1 / (freq * amp)` that `sound_frame` reproduces.
pub fn sound_frame_corrected(freq: u8, duration: u8) -> (v: Vec<u8>)
    requires
        freq != 0,
    ensures
        v@ == spec_sound_corrected_frame(freq, duration),
{
    let period_us: u32 = 1_000_000 / (freq as u32);
    let period: u16 = if period_us > 0xFFFF {
        0xFFFF
    } else {
        period_us as u16
    };
    let mut v: Vec<u8> = Vec::new();
    v.push(0xAA);
    v.push(0x55);
    v.push(CMD_LEN_SOUND);
    v.push(command_id_code(CommandId::Sound));
    v.push(CMD_SIZE_SOUND);
    push_le16(&mut v, period);
    v.push(duration);
    proof {
        assert(v@ =~= spec_sound_corrected_body(freq, duration));
    }
    append_crc(&mut v);
    v
}

/// Every sound frame ends in its own checksum.
pub proof fn lemma_sound_checksum(freq: u8, amp: u8, duration: u8)
    requires
        freq != 0,
        amp != 0,
    ensures
        checksum_ok(spec_sound_frame(freq, amp, duration)),
        spec_sound_frame(freq, amp, duration)[2] == CMD_LEN_SOUND,
        spec_sound_frame(freq, amp, duration).len() == 9,
{
    lemma_appended_checksum(spec_sound_body(freq, amp, duration));
}

/// The sound-sequence frame before its checksum.
pub open spec fn spec_sound_sequence_body(seq_no: u8) -> Seq<u8> {
    seq![0xAAu8, 0x55u8, CMD_LEN_SOUND_SEQUENCE, 4u8, CMD_SIZE_SOUND_SEQUENCE, seq_no]
}

/// The complete sound-sequence frame.
pub open spec fn spec_sound_sequence_frame(seq_no: u8) -> Seq<u8> {
    with_crc(spec_sound_sequence_body(seq_no))
}

/// Builds the sound-sequence frame: one sequence byte.
pub fn sound_sequence_frame(seq_no: u8) -> (v: Vec<u8>)
    ensures
        v@ == spec_sound_sequence_frame(seq_no),
{
    let mut v: Vec<u8> = Vec::new();
    v.push(0xAA);
    v.push(0x55);
    v.push(CMD_LEN_SOUND_SEQUENCE);
    v.push(command_id_code(CommandId::SoundSequence));
    v.push(CMD_SIZE_SOUND_SEQUENCE);
    v.push(seq_no);
    proof {
        assert(v@ =~= spec_sound_sequence_body(seq_no));
    }
    append_crc(&mut v);
    v
}

/// Every sound-sequence frame ends in its own checksum.
pub proof fn lemma_sound_sequence_checksum(seq_no: u8)
    ensures
        checksum_ok(spec_sound_sequence_frame(seq_no)),
        spec_sound_sequence_frame(seq_no)[2] == CMD_LEN_SOUND_SEQUENCE,
        spec_sound_sequence_frame(seq_no).len() == 7,
{
    lemma_appended_checksum(spec_sound_sequence_body(seq_no));
}

/// The request-extra option byte: bit 0 requests the hardware version,
/// bit 1 the firmware version, bit 7 the unique device id.
pub open spec fn spec_request_extra_flags(hw_ver: bool, fw_ver: bool, udid: bool) -> u8 {
    ((if hw_ver {
        1int
    } else {
        0int
    }) + (if fw_ver {
        2int
    } else {
        0int
    }) + (if udid {
        128int
    } else {
        0int
    })) as u8
}

/// The request-extra frame before its checksum.
pub open spec fn spec_request_extra_body(hw_ver: bool, fw_ver: bool, udid: bool) -> Seq<u8> {
    seq![
        0xAAu8,
        0x55u8,
        CMD_LEN_REQUEST_EXTRA,
        9u8,
        CMD_SIZE_REQUEST_EXTRA,
        spec_request_extra_flags(hw_ver, fw_ver, udid),
    ]
}

/// The complete request-extra frame.
pub open spec fn spec_request_extra_frame(hw_ver: bool, fw_ver: bool, udid: bool) -> Seq<u8> {
    with_crc(spec_request_extra_body(hw_ver, fw_ver, udid))
}

/// Builds the request-extra frame: one bit-packed option byte.
pub fn request_extra_frame(hw_ver: bool, fw_ver: bool, udid: bool) -> (v: Vec<u8>)
    ensures
        v@ == spec_request_extra_frame(hw_ver, fw_ver, udid),
{
    let mut tmp: u8 = 0;
    if hw_ver {
        tmp = tmp + 1;
    }
    if fw_ver {
        tmp = tmp + 2;
    }
    if udid {
        tmp = tmp + 128;
    }
    let mut v: Vec<u8> = Vec::new();
    v.push(0xAA);
    v.push(0x55);
    v.push(CMD_LEN_REQUEST_EXTRA);
    v.push(command_id_code(CommandId::RequestExtra));
    v.push(CMD_SIZE_REQUEST_EXTRA);
    v.push(tmp);
    proof {
        assert(v@ =~= spec_request_extra_body(hw_ver, fw_ver, udid));
    }
    append_crc(&mut v);
    v
}

/// Every request-extra frame ends in its own checksum.
pub proof fn lemma_request_extra_checksum(hw_ver: bool, fw_ver: bool, udid: bool)
    ensures
        checksum_ok(spec_request_extra_frame(hw_ver, fw_ver, udid)),
        spec_request_extra_frame(hw_ver, fw_ver, udid)[2] == CMD_LEN_REQUEST_EXTRA,
        spec_request_extra_frame(hw_ver, fw_ver, udid).len() == 7,
{
    lemma_appended_checksum(spec_request_extra_body(hw_ver, fw_ver, udid));
}

/// The first general-purpose-output byte: digital-out lanes in bits 0..=3,
/// power rails in bits 4..=7.
pub open spec fn spec_gpo_byte0(
    d_out_ch0: bool,
    d_out_ch1: bool,
    d_out_ch2: bool,
    d_out_ch3: bool,
    power_3v3: bool,
    power_5v0: bool,
    power_12v5a: bool,
    power_12v1a5: bool,
) -> u8 {
    ((if d_out_ch0 {
        1int
    } else {
        0int
    }) + (if d_out_ch1 {
        2int
    } else {
        0int
    }) + (if d_out_ch2 {
        4int
    } else {
        0int
    }) + (if d_out_ch3 {
        8int
    } else {
        0int
    }) + (if power_3v3 {
        16int
    } else {
        0int
    }) + (if power_5v0 {
        32int
    } else {
        0int
    }) + (if power_12v5a {
        64int
    } else {
        0int
    }) + (if power_12v1a5 {
        128int
    } else {
        0int
    })) as u8
}

/// The second general-purpose-output byte: LED channels in bits 0..=3.
pub open spec fn spec_gpo_byte1(
    red_led1: bool,
    red_led2: bool,
    green_led1: bool,
    green_led2: bool,
) -> u8 {
    ((if red_led1 {
        1int
    } else {
        0int
    }) + (if green_led1 {
        2int
    } else {
        0int
    }) + (if red_led2 {
        4int
    } else {
        0int
    }) + (if green_led2 {
        8int
    } else {
        0int
    })) as u8
}

/// The general-purpose-output frame before its checksum.
pub open spec fn spec_general_purpose_output_body(
    d_out_ch0: bool,
    d_out_ch1: bool,
    d_out_ch2: bool,
    d_out_ch3: bool,
    power_3v3: bool,
    power_5v0: bool,
    power_12v5a: bool,
    power_12v1a5: bool,
    red_led1: bool,
    red_led2: bool,
    green_led1: bool,
    green_led2: bool,
) -> Seq<u8> {
    seq![
        0xAAu8,
        0x55u8,
        CMD_LEN_GENERAL_PURPOSE_OUTPUT,
        12u8,
        CMD_SIZE_GENERAL_PURPOSE_OUTPUT,
        spec_gpo_byte0(
            d_out_ch0,
            d_out_ch1,
            d_out_ch2,
            d_out_ch3,
            power_3v3,
            power_5v0,
            power_12v5a,
            power_12v1a5,
        ),
        spec_gpo_byte1(red_led1, red_led2, green_led1, green_led2),
    ]
}

/// The complete general-purpose-output frame.
pub open spec fn spec_general_purpose_output_frame(
    d_out_ch0: bool,
    d_out_ch1: bool,
    d_out_ch2: bool,
    d_out_ch3: bool,
    power_3v3: bool,
    power_5v0: bool,
    power_12v5a: bool,
    power_12v1a5: bool,
    red_led1: bool,
    red_led2: bool,
    green_led1: bool,
    green_led2: bool,
) -> Seq<u8> {
    with_crc(
        spec_general_purpose_output_body(
            d_out_ch0,
            d_out_ch1,
            d_out_ch2,
            d_out_ch3,
            power_3v3,
            power_5v0,
            power_12v5a,
            power_12v1a5,
            red_led1,
            red_led2,
            green_led1,
            green_led2,
        ),
    )
}

/// Packs the digital-out lanes and power rails into the first
/// general-purpose-output byte.
fn gpo_byte0(
    d_out_ch0: bool,
    d_out_ch1: bool,
    d_out_ch2: bool,
    d_out_ch3: bool,
    power_3v3: bool,
    power_5v0: bool,
    power_12v5a: bool,
    power_12v1a5: bool,
) -> (b: u8)
    ensures
        b == spec_gpo_byte0(
            d_out_ch0,
            d_out_ch1,
            d_out_ch2,
            d_out_ch3,
            power_3v3,
            power_5v0,
            power_12v5a,
            power_12v1a5,
        ),
{
    let mut tmp0: u8 = 0;
    if d_out_ch0 {
        tmp0 = tmp0 + 1;
    }
    if d_out_ch1 {
        tmp0 = tmp0 + 2;
    }
    if d_out_ch2 {
        tmp0 = tmp0 + 4;
    }
    if d_out_ch3 {
        tmp0 = tmp0 + 8;
    }
    if power_3v3 {
        tmp0 = tmp0 + 16;
    }
    if power_5v0 {
        tmp0 = tmp0 + 32;
    }
    if power_12v5a {
        tmp0 = tmp0 + 64;
    }
    if power_12v1a5 {
        tmp0 = tmp0 + 128;
    }
    tmp0
}

/// Packs the LED channels into the second general-purpose-output byte.
fn gpo_byte1(red_led1: bool, red_led2: bool, green_led1: bool, green_led2: bool) -> (b: u8)
    ensures
        b == spec_gpo_byte1(red_led1, red_led2, green_led1, green_led2),
{
    let mut tmp1: u8 = 0;
    if red_led1 {
        tmp1 = tmp1 + 1;
    }
    if green_led1 {
        tmp1 = tmp1 + 2;
    }
    if red_led2 {
        tmp1 = tmp1 + 4;
    }
    if green_led2 {
        tmp1 = tmp1 + 8;
    }
    tmp1
}

/// Builds the general-purpose-output frame: two bit-packed bytes.
pub fn general_purpose_output_frame(
    d_out_ch0: bool,
    d_out_ch1: bool,
    d_out_ch2: bool,
    d_out_ch3: bool,
    power_3v3: bool,
    power_5v0: bool,
    power_12v5a: bool,
    power_12v1a5: bool,
    red_led1: bool,
    red_led2: bool,
    green_led1: bool,
    green_led2: bool,
) -> (v: Vec<u8>)
    ensures
        v@ == spec_general_purpose_output_frame(
            d_out_ch0,
            d_out_ch1,
            d_out_ch2,
            d_out_ch3,
            power_3v3,
            power_5v0,
            power_12v5a,
            power_12v1a5,
            red_led1,
            red_led2,
            green_led1,
            green_led2,
        ),
{
    let tmp0 = gpo_byte0(
        d_out_ch0,
        d_out_ch1,
        d_out_ch2,
        d_out_ch3,
        power_3v3,
        power_5v0,
        power_12v5a,
        power_12v1a5,
    );
    let tmp1 = gpo_byte1(red_led1, red_led2, green_led1, green_led2);
    let mut v: Vec<u8> = Vec::new();
    v.push(0xAA);
    v.push(0x55);
    v.push(CMD_LEN_GENERAL_PURPOSE_OUTPUT);
    v.push(command_id_code(CommandId::GeneralPurposeOutput));
    v.push(CMD_SIZE_GENERAL_PURPOSE_OUTPUT);
    v.push(tmp0);
    v.push(tmp1);
    proof {
        assert(v@ =~= spec_general_purpose_output_body(
            d_out_ch0,
            d_out_ch1,
            d_out_ch2,
            d_out_ch3,
            power_3v3,
            power_5v0,
            power_12v5a,
            power_12v1a5,
            red_led1,
            red_led2,
            green_led1,
            green_led2,
        ));
    }
    append_crc(&mut v);
    v
}

/// Every general-purpose-output frame ends in its own checksum.
pub proof fn lemma_general_purpose_output_checksum(
    d_out_ch0: bool,
    d_out_ch1: bool,
    d_out_ch2: bool,
    d_out_ch3: bool,
    power_3v3: bool,
    power_5v0: bool,
    power_12v5a: bool,
    power_12v1a5: bool,
    red_led1: bool,
    red_led2: bool,
    green_led1: bool,
    green_led2: bool,
)
    ensures
        checksum_ok(
            spec_general_purpose_output_frame(
                d_out_ch0,
                d_out_ch1,
                d_out_ch2,
                d_out_ch3,
                power_3v3,
                power_5v0,
                power_12v5a,
                power_12v1a5,
                red_led1,
                red_led2,
                green_led1,
                green_led2,
            ),
        ),
        spec_general_purpose_output_frame(
            d_out_ch0,
            d_out_ch1,
            d_out_ch2,
            d_out_ch3,
            power_3v3,
            power_5v0,
            power_12v5a,
            power_12v1a5,
            red_led1,
            red_led2,
            green_led1,
            green_led2,
        ).len() == 8,
{
    lemma_appended_checksum(
        spec_general_purpose_output_body(
            d_out_ch0,
            d_out_ch1,
            d_out_ch2,
            d_out_ch3,
            power_3v3,
            power_5v0,
            power_12v5a,
            power_12v1a5,
            red_led1,
            red_led2,
            green_led1,
            green_led2,
        ),
    );
}

/// The clamped gains: a zero proportional gain defaults to 1, a zero
/// derivative gain to 2, and the integral gain (already scaled by 1000)
/// is clamped to [0.1, 32000.0] in scaled units, so values below 100 rise
/// to 100 and values above 32,000,000 fall to 32,000,000.
pub open spec fn spec_clamped_gains(p: u32, i_milli: u32, d: u32) -> (u32, u32, u32) {
    (
        if p == 0 {
            1000u32
        } else {
            (p * 1000) as u32
        },
        if i_milli < 100 {
            100u32
        } else if i_milli > 32_000_000 {
            32_000_000u32
        } else {
            i_milli
        },
        if d == 0 {
            2000u32
        } else {
            (d * 1000) as u32
        },
    )
}

/// The set-controller-gain frame before its checksum.
pub open spec fn spec_set_controller_gain_body(
    is_user_configured: bool,
    p: u32,
    i_milli: u32,
    d: u32,
) -> Seq<u8> {
    let gains = spec_clamped_gains(p, i_milli, d);
    seq![
        0xAAu8,
        0x55u8,
        CMD_LEN_SET_CONTROLLER_GAIN,
        13u8,
        CMD_SIZE_SET_CONTROLLER_GAIN,
        if is_user_configured {
            1u8
        } else {
            0u8
        },
    ] + le32_bytes(gains.0) + le32_bytes(gains.1) + le32_bytes(gains.2)
}

/// The complete set-controller-gain frame.
pub open spec fn spec_set_controller_gain_frame(
    is_user_configured: bool,
    p: u32,
    i_milli: u32,
    d: u32,
) -> Seq<u8> {
    with_crc(spec_set_controller_gain_body(is_user_configured, p, i_milli, d))
}

/// Builds the set-controller-gain frame. `p` and `d` are scaled by 1000 on
/// the wire (zero selects the defaults 1 and 2); `i_milli` is the integral
/// gain already multiplied by 1000 and is clamped to [100, 32_000_000].
pub fn set_controller_gain_frame(is_user_configured: bool, p: u32, i_milli: u32, d: u32) -> (v:
    Vec<u8>)
    requires
        p <= 0xFFFF_FFFFu32 / 1000,
        d <= 0xFFFF_FFFFu32 / 1000,
    ensures
        v@ == spec_set_controller_gain_frame(is_user_configured, p, i_milli, d),
{
    let pp: u32 = if p == 0 {
        1000
    } else {
        p * 1000
    };
    let ii: u32 = if i_milli < 100 {
        100
    } else if i_milli > 32_000_000 {
        32_000_000
    } else {
        i_milli
    };
    let dd: u32 = if d == 0 {
        2000
    } else {
        d * 1000
    };
    let mut v: Vec<u8> = Vec::new();
    v.push(0xAA);
    v.push(0x55);
    v.push(CMD_LEN_SET_CONTROLLER_GAIN);
    v.push(command_id_code(CommandId::SetControllerGain));
    v.push(CMD_SIZE_SET_CONTROLLER_GAIN);
    v.push(if is_user_configured {
        1
    } else {
        0
    });
    push_le32(&mut v, pp);
    push_le32(&mut v, ii);
    push_le32(&mut v, dd);
    proof {
        assert(v@ =~= spec_set_controller_gain_body(is_user_configured, p, i_milli, d));
    }
    append_crc(&mut v);
    v
}

/// Every set-controller-gain frame ends in its own checksum.
pub proof fn lemma_set_controller_gain_checksum(
    is_user_configured: bool,
    p: u32,
    i_milli: u32,
    d: u32,
)
    ensures
        checksum_ok(spec_set_controller_gain_frame(is_user_configured, p, i_milli, d)),
        spec_set_controller_gain_frame(is_user_configured, p, i_milli, d)[2]
            == CMD_LEN_SET_CONTROLLER_GAIN,
        spec_set_controller_gain_frame(is_user_configured, p, i_milli, d).len() == 19,
{
    lemma_appended_checksum(spec_set_controller_gain_body(is_user_configured, p, i_milli, d));
}

/// The get-controller-gain frame before its checksum: a single `0xFF` poll
/// byte.
pub open spec fn spec_get_controller_gain_body() -> Seq<u8> {
    seq![0xAAu8, 0x55u8, CMD_LEN_GET_CONTROLLER_GAIN, 14u8, CMD_SIZE_GET_CONTROLLER_GAIN, 0xFFu8]
}

/// The complete get-controller-gain frame.
pub open spec fn spec_get_controller_gain_frame() -> Seq<u8> {
    with_crc(spec_get_controller_gain_body())
}

/// Builds the get-controller-gain poll frame.
pub fn get_controller_gain_frame() -> (v: Vec<u8>)
    ensures
        v@ == spec_get_controller_gain_frame(),
{
    let mut v: Vec<u8> = Vec::new();
    v.push(0xAA);
    v.push(0x55);
    v.push(CMD_LEN_GET_CONTROLLER_GAIN);
    v.push(command_id_code(CommandId::GetControllerGain));
    v.push(CMD_SIZE_GET_CONTROLLER_GAIN);
    v.push(0xFF);
    proof {
        assert(v@ =~= spec_get_controller_gain_body());
    }
    append_crc(&mut v);
    v
}

/// Every get-controller-gain frame ends in its own checksum.
pub proof fn lemma_get_controller_gain_checksum()
    ensures
        checksum_ok(spec_get_controller_gain_frame()),
        spec_get_controller_gain_frame()[2] == CMD_LEN_GET_CONTROLLER_GAIN,
        spec_get_controller_gain_frame().len() == 7,
{
    lemma_appended_checksum(spec_get_controller_gain_body());
}

#[verifier::external_type_specification]
#[verifier::external_body]
#[verifier::reject_recursive_types(T)]
pub struct ExSender<T>(crossbeam_channel::Sender<T>);

/// Relies on crossbeam_channel::Sender::send: the message joins the
/// channel's queue unless every receiver has disconnected. The enqueue path
/// treats a send to a vanished consumer as a dropped command, so the result
/// is discarded.
#[verifier::external_body]
pub fn send(tx: &crossbeam_channel::Sender<Command>, cmd: Command) {
    let _ = tx.send(cmd);
}

/// The `open` serial-control command for the named port.
pub fn open_command(serial_port: String) -> (c: Command)
    ensures
        c.ty == CommandId::SerialControl,
        c.serial_command@ == "open"@,
        c.serial_port_name@ == serial_port@,
        c.payload@ == Seq::<u8>::empty(),
{
    let mut cmd = Command::new();
    cmd.serial_command = String::from_str("open");
    cmd.serial_port_name = serial_port;
    cmd
}

/// The `close` serial-control command.
pub fn close_command() -> (c: Command)
    ensures
        c.ty == CommandId::SerialControl,
        c.serial_command@ == "close"@,
        c.serial_port_name@ == Seq::<char>::empty(),
        c.payload@ == Seq::<u8>::empty(),
{
    let mut cmd = Command::new();
    cmd.serial_command = String::from_str("close");
    cmd
}

/// A command carrying a fully serialized frame under its wire tag, with no
/// serial-control fields.
pub fn wire_command(ty: CommandId, payload: Vec<u8>) -> (c: Command)
    ensures
        c.ty == ty,
        c.serial_command@ == Seq::<char>::empty(),
        c.serial_port_name@ == Seq::<char>::empty(),
        c.payload == payload,
{
    let mut cmd = Command::new();
    cmd.ty = ty;
    cmd.payload = payload;
    cmd
}

/// Asks the coordinator to open the named serial port: enqueues the
/// `open_command` for it.
pub fn open_port_command(tx: &crossbeam_channel::Sender<Command>, serial_port: String) -> (r:
    Result<(), TxError>)
    ensures
        r is Ok,
{
    send(tx, open_command(serial_port));
    Ok(())
}

/// Asks the coordinator to close the open serial port: enqueues the
/// `close_command`.
pub fn close_port_command(tx: &crossbeam_channel::Sender<Command>) -> (r: Result<(), TxError>)
    ensures
        r is Ok,
{
    send(tx, close_command());
    Ok(())
}

/// Enqueues a base-control command with the given speed and radius.
pub fn base_control_command(tx: &crossbeam_channel::Sender<Command>, speed: u16, radius: u16) -> (r:
    Result<(), TxError>)
    ensures
        r is Ok,
{
    send(tx, wire_command(CommandId::BaseControl, base_control_frame(speed, radius)));
    Ok(())
}

/// Enqueues a sound command; a zero frequency, amplitude or duration is
/// rejected and nothing is enqueued.
pub fn sound_command(tx: &crossbeam_channel::Sender<Command>, freq: u8, amp: u8, duration: u8) -> (r:
    Result<(), TxError>)
    ensures
        r is Ok <==> (freq != 0 && amp != 0 && duration != 0),
        r is Err ==> r->Err_0 == TxError::InvalidArgument,
{
    if freq == 0 || amp == 0 || duration == 0 {
        return Err(TxError::InvalidArgument);
    }
    send(tx, wire_command(CommandId::Sound, sound_frame(freq, amp, duration)));
    Ok(())
}

/// Enqueues a predefined sound-sequence command.
pub fn sound_sequence_command(tx: &crossbeam_channel::Sender<Command>, seq_no: u8) -> (r: Result<
    (),
    TxError,
>)
    ensures
        r is Ok,
{
    send(tx, wire_command(CommandId::SoundSequence, sound_sequence_frame(seq_no)));
    Ok(())
}

/// Enqueues a request for the hardware version, firmware version or unique
/// device id.
pub fn request_extra_command(
    tx: &crossbeam_channel::Sender<Command>,
    hw_ver: bool,
    fw_ver: bool,
    udid: bool,
) -> (r: Result<(), TxError>)
    ensures
        r is Ok,
{
    send(tx, wire_command(CommandId::RequestExtra, request_extra_frame(hw_ver, fw_ver, udid)));
    Ok(())
}

/// Enqueues a general-purpose-output command for the digital-out lanes,
/// power rails and LED channels.
pub fn general_purpose_output_command(
    tx: &crossbeam_channel::Sender<Command>,
    d_out_ch0: bool,
    d_out_ch1: bool,
    d_out_ch2: bool,
    d_out_ch3: bool,
    power_3v3: bool,
    power_5v0: bool,
    power_12v5a: bool,
    power_12v1a5: bool,
    red_led1: bool,
    red_led2: bool,
    green_led1: bool,
    green_led2: bool,
) -> (r: Result<(), TxError>)
    ensures
        r is Ok,
{
    let payload = general_purpose_output_frame(
        d_out_ch0,
        d_out_ch1,
        d_out_ch2,
        d_out_ch3,
        power_3v3,
        power_5v0,
        power_12v5a,
        power_12v1a5,
        red_led1,
        red_led2,
        green_led1,
        green_led2,
    );
    send(tx, wire_command(CommandId::GeneralPurposeOutput, payload));
    Ok(())
}

/// Enqueues a set-controller-gain command. `i_milli` is the integral gain
/// scaled by 1000; `p` and `d` are scaled on the wire and must leave the
/// product within 32 bits.
pub fn set_controller_gain_command(
    tx: &crossbeam_channel::Sender<Command>,
    is_user_configured: bool,
    p: u32,
    i_milli: u32,
    d: u32,
) -> (r: Result<(), TxError>)
    requires
        p <= 0xFFFF_FFFFu32 / 1000,
        d <= 0xFFFF_FFFFu32 / 1000,
    ensures
        r is Ok,
{
    let payload = set_controller_gain_frame(is_user_configured, p, i_milli, d);
    send(tx, wire_command(CommandId::SetControllerGain, payload));
    Ok(())
}

/// Enqueues a poll for the current controller gains.
pub fn get_controller_gain(tx: &crossbeam_channel::Sender<Command>) -> (r: Result<(), TxError>)
    ensures
        r is Ok,
{
    send(tx, wire_command(CommandId::GetControllerGain, get_controller_gain_frame()));
    Ok(())
}

} // verus!
