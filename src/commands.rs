//! Ordered command sequences that bring a motor into a control mode, and the
//! disable command.

use vstd::prelude::*;
use crate::codec::{
    build_mode_frame, build_register_write_frame, is_mode_frame, is_register_frame, Frame,
    MODE_DISABLED, MODE_POSITION_STREAM, REG_KD, REG_KP, REG_TORQUE_LIMIT,
};

verus! {

/// IEEE-754 bits of the 32-bit float 1.0: proportional gain of position mode.
pub const KP_POSITION_BITS: u32 = 0x3F80_0000;

/// IEEE-754 bits of the 32-bit float 0.1: derivative gain of position mode.
pub const KD_POSITION_BITS: u32 = 0x3DCC_CCCD;

/// IEEE-754 bits of the 32-bit float 3.0: torque limit of velocity mode.
pub const TORQUE_LIMIT_VELOCITY_BITS: u32 = 0x4040_0000;

/// IEEE-754 bits of the 32-bit float 2.0: proportional gain of velocity mode.
pub const KP_VELOCITY_BITS: u32 = 0x4000_0000;

/// IEEE-754 bits of the 32-bit float 0.2: derivative gain of velocity mode.
pub const KD_VELOCITY_BITS: u32 = 0x3E4C_CCCD;

/// Settle delay after the mode-select frame of an enable sequence.
pub const MODE_SETTLE_MS: u64 = 50;

/// Settle delay after the first register write of an enable sequence.
pub const REGISTER_SETTLE_MS: u64 = 20;

/// One step of a command sequence: a frame to send, then a delay to wait
/// before the next step.
#[derive(Clone, Copy, Debug, PartialEq, Eq)]
pub struct Command {
    pub frame: Frame,
    pub delay_after_ms: u64,
}

/// `c` sends the mode-select frame and then waits `delay`.
pub open spec fn is_mode_step(c: Command, motor_id: u8, mode: u8, delay: u64) -> bool {
    is_mode_frame(c.frame, motor_id, mode) && c.delay_after_ms == delay
}

/// `c` writes `bits` to `register` and then waits `delay`.
pub open spec fn is_register_step(c: Command, motor_id: u8, register: u8, bits: u32, delay: u64) -> bool {
    is_register_frame(c.frame, motor_id, register, bits) && c.delay_after_ms == delay
}

fn step(frame: Frame, delay_after_ms: u64) -> (c: Command)
    ensures
        c.frame == frame,
        c.delay_after_ms == delay_after_ms,
{
    Command { frame, delay_after_ms }
}

/// Sequence that enables `motor_id` in position / stream mode: mode 0x0A, wait
/// 50 ms; Kp = 1.0, wait 20 ms; Kd = 0.1.
pub fn enable_sequence(motor_id: u8) -> (r: Vec<Command>)
    ensures
        r@.len() == 3,
        is_mode_step(r@[0], motor_id, MODE_POSITION_STREAM, MODE_SETTLE_MS),
        is_register_step(r@[1], motor_id, REG_KP, KP_POSITION_BITS, REGISTER_SETTLE_MS),
        is_register_step(r@[2], motor_id, REG_KD, KD_POSITION_BITS, 0),
{
    let mut r: Vec<Command> = Vec::new();
    r.push(step(build_mode_frame(motor_id, MODE_POSITION_STREAM), MODE_SETTLE_MS));
    r.push(step(build_register_write_frame(motor_id, REG_KP, KP_POSITION_BITS), REGISTER_SETTLE_MS));
    r.push(step(build_register_write_frame(motor_id, REG_KD, KD_POSITION_BITS), 0));
    r
}

/// Sequence that enables `motor_id` for velocity control: mode 0x0A, wait
/// 50 ms; torque limit = 3.0, wait 20 ms; Kp = 2.0; Kd = 0.2.
pub fn velocity_mode_sequence(motor_id: u8) -> (r: Vec<Command>)
    ensures
        r@.len() == 4,
        is_mode_step(r@[0], motor_id, MODE_POSITION_STREAM, MODE_SETTLE_MS),
        is_register_step(
            r@[1],
            motor_id,
            REG_TORQUE_LIMIT,
            TORQUE_LIMIT_VELOCITY_BITS,
            REGISTER_SETTLE_MS,
        ),
        is_register_step(r@[2], motor_id, REG_KP, KP_VELOCITY_BITS, 0),
        is_register_step(r@[3], motor_id, REG_KD, KD_VELOCITY_BITS, 0),
{
    let mut r: Vec<Command> = Vec::new();
    r.push(step(build_mode_frame(motor_id, MODE_POSITION_STREAM), MODE_SETTLE_MS));
    r.push(
        step(
            build_register_write_frame(motor_id, REG_TORQUE_LIMIT, TORQUE_LIMIT_VELOCITY_BITS),
            REGISTER_SETTLE_MS,
        ),
    );
    r.push(step(build_register_write_frame(motor_id, REG_KP, KP_VELOCITY_BITS), 0));
    r.push(step(build_register_write_frame(motor_id, REG_KD, KD_VELOCITY_BITS), 0));
    r
}

/// The single frame that disables `motor_id`: mode byte 0x00.
pub fn disable_frame(motor_id: u8) -> (f: Frame)
    ensures
        is_mode_frame(f, motor_id, MODE_DISABLED),
{
    build_mode_frame(motor_id, MODE_DISABLED)
}

/// Disabling a motor is idempotent: any two disable frames for the same motor
/// are the same frame, so sending it again re-sends the identical payload.
pub proof fn disable_frame_is_unique(motor_id: u8, a: Frame, b: Frame)
    requires
        is_mode_frame(a, motor_id, MODE_DISABLED),
        is_mode_frame(b, motor_id, MODE_DISABLED),
    ensures
        a == b,
{
    assert(a.data =~= b.data);
}

} // verus!
