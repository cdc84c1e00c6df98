//! Unit saturation and the byte layout of outbound command frames.

use vstd::prelude::*;

verus! {

/// Sentinel position meaning "no position constraint" in a velocity command.
pub const MAGIC_POS: i16 = -32768;

/// Value of every unused payload byte.
pub const PAD: u8 = 0x50;

/// Identifier of the angle-stream command.
pub const ANGLE_COMMAND_ID: u32 = 0x0090;

/// Identifier of the velocity + acceleration command.
pub const VELOCITY_COMMAND_ID: u32 = 0x00AD;

/// Base of the extended identifier of a ping; the motor ID is or-ed into it.
pub const PING_ID_BASE: u32 = 0x8000;

/// First payload byte of a ping.
pub const PING_OPCODE: u8 = 0x11;

/// First payload byte of a mode-select command.
pub const MODE_OPCODE: u8 = 0x01;

/// First payload byte of a register write.
pub const REGISTER_WRITE_OPCODE: u8 = 0x0D;

/// Mode byte that disables the motor.
pub const MODE_DISABLED: u8 = 0x00;

/// Mode byte that selects position / stream mode.
pub const MODE_POSITION_STREAM: u8 = 0x0A;

/// Register holding the torque limit.
pub const REG_TORQUE_LIMIT: u8 = 0x22;

/// Register holding the proportional gain.
pub const REG_KP: u8 = 0x23;

/// Register holding the derivative gain.
pub const REG_KD: u8 = 0x24;

/// A command frame: a CAN identifier and exactly eight payload bytes.
#[derive(Clone, Copy, Debug, PartialEq, Eq)]
pub struct Frame {
    pub id: u32,
    pub data: [u8; 8],
}

/// `v` clamped to the signed 16-bit range.
pub open spec fn clamp_i16(v: int) -> int {
    if v > 32767 {
        32767
    } else if v < -32768 {
        -32768
    } else {
        v
    }
}

/// Clamps an already truncated scaled quantity to the signed 16-bit range,
/// never wrapping.
pub fn saturate_i16(v: i64) -> (r: i16)
    ensures
        r as int == clamp_i16(v as int),
        v > 32767 ==> r == 32767,
        v < -32768 ==> r == -32768,
        -32768 <= v <= 32767 ==> r as int == v as int,
{
    if v > 32767 {
        32767
    } else if v < -32768 {
        -32768
    } else {
        v as i16
    }
}

/// The two's-complement bit pattern of `v` as an unsigned number.
pub open spec fn u16_bits(v: i16) -> int {
    if v < 0 {
        v as int + 65536
    } else {
        v as int
    }
}

/// Little-endian bytes of a signed 16-bit value.
pub open spec fn le_i16(v: i16) -> Seq<u8> {
    seq![(u16_bits(v) % 256) as u8, (u16_bits(v) / 256) as u8]
}

/// Little-endian bytes of a 32-bit word.
pub open spec fn le_u32(w: u32) -> Seq<u8> {
    seq![
        (w as int % 256) as u8,
        (w as int / 256 % 256) as u8,
        (w as int / 65536 % 256) as u8,
        (w as int / 16777216) as u8,
    ]
}

/// Payload of the angle-stream and velocity commands: three little-endian
/// 16-bit fields and two padding bytes.
pub open spec fn triple_payload(a: i16, b: i16, c: i16) -> Seq<u8> {
    le_i16(a) + le_i16(b) + le_i16(c) + seq![PAD, PAD]
}

/// Payload of a mode-select command.
pub open spec fn mode_payload(mode: u8) -> Seq<u8> {
    seq![MODE_OPCODE, 0x00, mode, PAD, PAD, PAD, PAD, PAD]
}

/// Payload of a register write carrying the IEEE-754 bits of a 32-bit float.
pub open spec fn register_payload(register: u8, value_bits: u32) -> Seq<u8> {
    seq![REGISTER_WRITE_OPCODE, register] + le_u32(value_bits) + seq![PAD, PAD]
}

/// Payload of a ping.
pub open spec fn ping_payload() -> Seq<u8> {
    seq![PING_OPCODE, 0x00, PAD, PAD, PAD, PAD, PAD, PAD]
}

/// `f` is the mode-select frame for `motor_id` with mode byte `mode`.
pub open spec fn is_mode_frame(f: Frame, motor_id: u8, mode: u8) -> bool {
    f.id == motor_id as u32 && f.data@ == mode_payload(mode)
}

/// `f` writes `value_bits` to `register` of motor `motor_id`.
pub open spec fn is_register_frame(f: Frame, motor_id: u8, register: u8, value_bits: u32) -> bool {
    f.id == motor_id as u32 && f.data@ == register_payload(register, value_bits)
}

fn le_i16_bytes(v: i16) -> (r: (u8, u8))
    ensures
        seq![r.0, r.1] == le_i16(v),
{
    let u: u32 = if v < 0 {
        (v as i32 + 65536) as u32
    } else {
        v as u32
    };
    let r = ((u % 256) as u8, (u / 256) as u8);
    assert(seq![r.0, r.1] =~= le_i16(v));
    r
}

fn triple_frame(id: u32, a: i16, b: i16, c: i16) -> (f: Frame)
    ensures
        f.id == id,
        f.data@ == triple_payload(a, b, c),
{
    let (a0, a1) = le_i16_bytes(a);
    let (b0, b1) = le_i16_bytes(b);
    let (c0, c1) = le_i16_bytes(c);
    let f = Frame { id, data: [a0, a1, b0, b1, c0, c1, PAD, PAD] };
    assert(f.data@ =~= triple_payload(a, b, c));
    f
}

/// Angle-stream command: position, maximum velocity and maximum torque.
pub fn build_angle_frame(position: i16, max_velocity: i16, max_torque: i16) -> (f: Frame)
    ensures
        f.id == ANGLE_COMMAND_ID,
        f.data@ == triple_payload(position, max_velocity, max_torque),
{
    triple_frame(ANGLE_COMMAND_ID, position, max_velocity, max_torque)
}

/// Velocity + acceleration command; `position` is normally [`MAGIC_POS`].
pub fn build_velocity_frame(position: i16, velocity: i16, acceleration: i16) -> (f: Frame)
    ensures
        f.id == VELOCITY_COMMAND_ID,
        f.data@ == triple_payload(position, velocity, acceleration),
{
    triple_frame(VELOCITY_COMMAND_ID, position, velocity, acceleration)
}

/// Mode-select command addressed to `motor_id`.
pub fn build_mode_frame(motor_id: u8, mode: u8) -> (f: Frame)
    ensures
        is_mode_frame(f, motor_id, mode),
{
    let f = Frame { id: motor_id as u32, data: [MODE_OPCODE, 0x00, mode, PAD, PAD, PAD, PAD, PAD] };
    assert(f.data@ =~= mode_payload(mode));
    f
}

/// Register write addressed to `motor_id`; `value_bits` are the IEEE-754 bits
/// of the 32-bit float written.
pub fn build_register_write_frame(motor_id: u8, register: u8, value_bits: u32) -> (f: Frame)
    ensures
        is_register_frame(f, motor_id, register, value_bits),
{
    let b0 = (value_bits % 256) as u8;
    let b1 = (value_bits / 256 % 256) as u8;
    let b2 = (value_bits / 65536 % 256) as u8;
    let b3 = (value_bits / 16777216) as u8;
    let f = Frame {
        id: motor_id as u32,
        data: [REGISTER_WRITE_OPCODE, register, b0, b1, b2, b3, PAD, PAD],
    };
    assert(f.data@ =~= register_payload(register, value_bits));
    f
}

/// Ping of `motor_id`: identifier `0x8000 | motor_id`.
pub fn build_ping_frame(motor_id: u8) -> (f: Frame)
    ensures
        f.id == PING_ID_BASE + motor_id as u32,
        f.data@ == ping_payload(),
{
    let f = Frame {
        id: PING_ID_BASE + motor_id as u32,
        data: [PING_OPCODE, 0x00, PAD, PAD, PAD, PAD, PAD, PAD],
    };
    assert(f.data@ =~= ping_payload());
    f
}

} // verus!
