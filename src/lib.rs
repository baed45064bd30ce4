//! Decoder for the fixed-layout telemetry datagram that a racing simulator
//! broadcasts every physics tick.
//!
//! The wire format is packed little-endian: every field is either a 32-bit
//! IEEE-754 float or an unsigned byte, with no padding anywhere. Float fields
//! are carried in this library as their raw bit patterns (`u32`); a consumer
//! turns them into floats with `f32::from_bits`.

mod decode;
mod encode;
mod frame;
mod laws;
mod wire;

pub use decode::{decode, decode_participant, DecodeError};
pub use encode::{encode, encode_participant, extends};
pub use frame::{
    car_state_layout, controls_layout, extended_layout, frame_layout, motion_layout,
    participant_layout, participants_layout, status_layout, u32x3_at, u32x4_at, u8x4_at,
    ParticipantRecord, TelemetryFrame, FRAME_SIZE, FRONT_LEFT, FRONT_RIGHT, NUM_CARS_OFFSET,
    NUM_PARTICIPANTS, PARTICIPANTS_OFFSET, PARTICIPANT_SIZE, REAR_LEFT, REAR_RIGHT,
};
pub use laws::{decode_encode_round_trip, encoding_unique, slots_independent_of_num_cars, wheel_order};
pub use wire::u32_at;
