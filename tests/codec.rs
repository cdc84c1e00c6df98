use livelybot_motor::codec::{
    ANGLE_COMMAND_ID, MODE_DISABLED, MODE_POSITION_STREAM, PAD, PING_ID_BASE, REG_KD, REG_KP,
    REG_TORQUE_LIMIT, VELOCITY_COMMAND_ID,
};
use livelybot_motor::commands::{
    KD_POSITION_BITS, KD_VELOCITY_BITS, KP_POSITION_BITS, KP_VELOCITY_BITS, MODE_SETTLE_MS,
    REGISTER_SETTLE_MS, TORQUE_LIMIT_VELOCITY_BITS,
};
use livelybot_motor::{
    build_angle_frame, build_mode_frame, build_ping_frame, build_register_write_frame,
    build_velocity_frame, disable_frame, enable_sequence, saturate_i16, velocity_mode_sequence,
    Frame, MAGIC_POS,
};

fn register_payload(register: u8, value: f32) -> [u8; 8] {
    let b = value.to_le_bytes();
    [0x0D, register, b[0], b[1], b[2], b[3], 0x50, 0x50]
}

#[test]
fn saturation_clamps_above_and_below() {
    assert_eq!(saturate_i16(32768), 32767);
    assert_eq!(saturate_i16(1_000_000), 32767);
    assert_eq!(saturate_i16(i64::MAX), 32767);
    assert_eq!(saturate_i16(-32769), -32768);
    assert_eq!(saturate_i16(-1_000_000), -32768);
    assert_eq!(saturate_i16(i64::MIN), -32768);
}

#[test]
fn saturation_keeps_in_range_values() {
    assert_eq!(saturate_i16(32767), 32767);
    assert_eq!(saturate_i16(-32768), -32768);
    assert_eq!(saturate_i16(0), 0);
    assert_eq!(saturate_i16(1234), 1234);
    assert_eq!(saturate_i16(-4321), -4321);
}

#[test]
fn saturation_after_truncation_toward_zero() {
    // 32767.5 truncates to 32767, never rounds up to 32768.
    assert_eq!(saturate_i16(32767.5f64 as i64), 32767);
    assert_eq!(saturate_i16(-32768.9f64 as i64), -32768);
    // 90 degrees is a quarter turn of 10000 units.
    assert_eq!(saturate_i16(((90.0f64 / 360.0) * 10000.0) as i64), 2500);
    // 1.5 rad/s at 4000 units each.
    assert_eq!(saturate_i16((1.5f64 * 4000.0) as i64), 6000);
    // 10 rad/s exceeds the range.
    assert_eq!(saturate_i16((10.0f64 * 4000.0) as i64), 32767);
    // -0.9999 N*m at 200 units truncates toward zero.
    assert_eq!(saturate_i16((-0.9999f64 * 200.0) as i64), -199);
}

#[test]
fn angle_frame_layout() {
    let f = build_angle_frame(100, 200, 300);
    assert_eq!(f.id, 0x0090);
    assert_eq!(f.id, ANGLE_COMMAND_ID);
    assert_eq!(f.data, [100, 0, 200, 0, 0x2C, 0x01, 0x50, 0x50]);
    let mut expected = Vec::new();
    expected.extend_from_slice(&100i16.to_le_bytes());
    expected.extend_from_slice(&200i16.to_le_bytes());
    expected.extend_from_slice(&300i16.to_le_bytes());
    expected.extend_from_slice(&[0x50, 0x50]);
    assert_eq!(f.data.to_vec(), expected);
}

#[test]
fn angle_frame_negative_values() {
    let f = build_angle_frame(-1, i16::MIN, i16::MAX);
    assert_eq!(f.data, [0xFF, 0xFF, 0x00, 0x80, 0xFF, 0x7F, PAD, PAD]);
}

#[test]
fn velocity_frame_layout() {
    let f = build_velocity_frame(MAGIC_POS, -6000, 15000);
    assert_eq!(f.id, 0x00AD);
    assert_eq!(f.id, VELOCITY_COMMAND_ID);
    let v = (-6000i16).to_le_bytes();
    let a = 15000i16.to_le_bytes();
    assert_eq!(f.data, [0x00, 0x80, v[0], v[1], a[0], a[1], 0x50, 0x50]);
    assert_eq!(MAGIC_POS, -32768);
}

#[test]
fn mode_frame_layout() {
    let f = build_mode_frame(7, MODE_POSITION_STREAM);
    assert_eq!(f, Frame { id: 7, data: [0x01, 0x00, 0x0A, 0x50, 0x50, 0x50, 0x50, 0x50] });
}

#[test]
fn register_write_frame_layout() {
    let f = build_register_write_frame(3, REG_KP, 1.0f32.to_bits());
    assert_eq!(f.id, 3);
    assert_eq!(f.data, register_payload(0x23, 1.0));
    let g = build_register_write_frame(9, REG_TORQUE_LIMIT, (-2.5f32).to_bits());
    assert_eq!(g.data, register_payload(0x22, -2.5));
}

#[test]
fn ping_frame_layout() {
    let f = build_ping_frame(5);
    assert_eq!(f.id, 0x8005);
    assert_eq!(f.id, PING_ID_BASE | 5);
    assert_eq!(f.data, [0x11, 0x00, 0x50, 0x50, 0x50, 0x50, 0x50, 0x50]);
    assert_eq!(build_ping_frame(127).id, 0x807F);
    assert_eq!(build_ping_frame(255).id, 0x80FF);
}

#[test]
fn gain_constants_are_float_bits() {
    assert_eq!(KP_POSITION_BITS, 1.0f32.to_bits());
    assert_eq!(KD_POSITION_BITS, 0.1f32.to_bits());
    assert_eq!(TORQUE_LIMIT_VELOCITY_BITS, 3.0f32.to_bits());
    assert_eq!(KP_VELOCITY_BITS, 2.0f32.to_bits());
    assert_eq!(KD_VELOCITY_BITS, 0.2f32.to_bits());
}

#[test]
fn enable_sequence_order_and_delays() {
    let seq = enable_sequence(4);
    assert_eq!(seq.len(), 3);
    assert_eq!(seq[0].frame, Frame { id: 4, data: [0x01, 0x00, 0x0A, 0x50, 0x50, 0x50, 0x50, 0x50] });
    assert_eq!(seq[0].delay_after_ms, 50);
    assert_eq!(seq[1].frame, Frame { id: 4, data: register_payload(0x23, 1.0) });
    assert_eq!(seq[1].delay_after_ms, 20);
    assert_eq!(seq[2].frame, Frame { id: 4, data: register_payload(0x24, 0.1) });
    assert_eq!(seq[2].delay_after_ms, 0);
}

#[test]
fn velocity_mode_sequence_order_and_delays() {
    let seq = velocity_mode_sequence(2);
    assert_eq!(seq.len(), 4);
    assert_eq!(seq[0].frame, build_mode_frame(2, 0x0A));
    assert_eq!(seq[0].delay_after_ms, MODE_SETTLE_MS);
    assert_eq!(seq[1].frame, Frame { id: 2, data: register_payload(0x22, 3.0) });
    assert_eq!(seq[1].delay_after_ms, REGISTER_SETTLE_MS);
    assert_eq!(seq[2].frame, Frame { id: 2, data: register_payload(0x23, 2.0) });
    assert_eq!(seq[2].delay_after_ms, 0);
    assert_eq!(seq[3].frame, Frame { id: 2, data: register_payload(REG_KD, 0.2) });
    assert_eq!(seq[3].delay_after_ms, 0);
}

#[test]
fn disable_frames_are_identical() {
    let a = disable_frame(6);
    let b = disable_frame(6);
    assert_eq!(a, b);
    assert_eq!(a, Frame { id: 6, data: [0x01, 0x00, 0x00, 0x50, 0x50, 0x50, 0x50, 0x50] });
    assert_eq!(a, build_mode_frame(6, MODE_DISABLED));
}
