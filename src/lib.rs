//! Client-side driver logic for the LivelyBot high-torque motor protocol over CAN.
//!
//! The library holds the protocol codec (saturating unit conversion and the
//! byte layout of every command frame), the decoding of discovery replies, the
//! decisions of the ping / scan protocol, and the ordered command sequences
//! that initialise a motor. Moving frames on and off the bus is left to the
//! caller.

pub mod codec;
pub mod commands;
pub mod discovery;

pub use codec::{
    build_angle_frame, build_mode_frame, build_ping_frame, build_register_write_frame,
    build_velocity_frame, saturate_i16, Frame, MAGIC_POS,
};
pub use commands::{disable_frame, enable_sequence, velocity_mode_sequence, Command};
pub use discovery::{
    decode_field, detect_motor_id, direct_id, offline_info, online_info, ping_reply,
    ping_window_open, record_scan_outcome, scan_ids, source_id, MotorInfo,
};
