use crate::wire::u32_at;
use vstd::prelude::*;

verus! {

/// Size in bytes of one encoded frame.
pub const FRAME_SIZE: usize = 1289;

/// Size in bytes of one encoded participant record.
pub const PARTICIPANT_SIZE: usize = 45;

/// Number of participant slots in every frame, whatever the number of cars.
pub const NUM_PARTICIPANTS: usize = 20;

/// Byte offset of the first participant record within a frame.
pub const PARTICIPANTS_OFFSET: usize = 337;

/// Byte offset of `num_cars` within a frame.
pub const NUM_CARS_OFFSET: usize = 335;

/// Index of the rear-left wheel in every per-wheel array.
pub const REAR_LEFT: usize = 0;

/// Index of the rear-right wheel in every per-wheel array.
pub const REAR_RIGHT: usize = 1;

/// Index of the front-left wheel in every per-wheel array.
pub const FRONT_LEFT: usize = 2;

/// Index of the front-right wheel in every per-wheel array.
pub const FRONT_RIGHT: usize = 3;

/// Four consecutive little-endian words starting at byte `i`.
pub open spec fn u32x4_at(b: Seq<u8>, i: int) -> Seq<u32> {
    seq![u32_at(b, i), u32_at(b, i + 4), u32_at(b, i + 8), u32_at(b, i + 12)]
}

/// Three consecutive little-endian words starting at byte `i`.
pub open spec fn u32x3_at(b: Seq<u8>, i: int) -> Seq<u32> {
    seq![u32_at(b, i), u32_at(b, i + 4), u32_at(b, i + 8)]
}

/// Four consecutive bytes starting at byte `i`.
pub open spec fn u8x4_at(b: Seq<u8>, i: int) -> Seq<u8> {
    seq![b[i], b[i + 1], b[i + 2], b[i + 3]]
}

/// One car's slot of a frame. Float fields hold their IEEE-754 bit patterns.
#[derive(Clone, Copy, Debug, PartialEq, Eq)]
pub struct ParticipantRecord {
    /// World-space position of the car: x, y, z.
    pub world_position: [u32; 3],
    /// Last lap time, in seconds.
    pub last_lap_time: u32,
    /// Time into the current lap, in seconds.
    pub current_lap_time: u32,
    /// Best lap time, in seconds.
    pub best_lap_time: u32,
    /// Time of sector 1, or 0.
    pub sector1_time: u32,
    /// Time of sector 2, or 0.
    pub sector2_time: u32,
    /// Distance into the current lap, in metres.
    pub lap_distance: u32,
    /// Driver identifier.
    pub driver_id: u8,
    /// Team identifier.
    pub team_id: u8,
    /// Race position of the car.
    pub car_position: u8,
    /// Current lap number.
    pub current_lap_num: u8,
    /// Tyre compound: 0 ultra soft to 4 hard, 5 intermediate, 6 wet.
    pub tyre_compound: u8,
    /// Pit state: 0 none, 1 pitting, 2 in the pit area.
    pub in_pits: u8,
    /// Current sector: 0, 1 or 2.
    pub sector: u8,
    /// Current lap: 0 valid, 1 invalid.
    pub current_lap_invalid: u8,
    /// Accumulated time penalties, in seconds.
    pub penalties: u8,
}

/// The bytes of `b` from `base` on encode the participant record `p`.
pub open spec fn participant_layout(p: ParticipantRecord, b: Seq<u8>, base: int) -> bool {
    &&& p.world_position@ == u32x3_at(b, base)
    &&& p.last_lap_time == u32_at(b, base + 12)
    &&& p.current_lap_time == u32_at(b, base + 16)
    &&& p.best_lap_time == u32_at(b, base + 20)
    &&& p.sector1_time == u32_at(b, base + 24)
    &&& p.sector2_time == u32_at(b, base + 28)
    &&& p.lap_distance == u32_at(b, base + 32)
    &&& p.driver_id == b[base + 36]
    &&& p.team_id == b[base + 37]
    &&& p.car_position == b[base + 38]
    &&& p.current_lap_num == b[base + 39]
    &&& p.tyre_compound == b[base + 40]
    &&& p.in_pits == b[base + 41]
    &&& p.sector == b[base + 42]
    &&& p.current_lap_invalid == b[base + 43]
    &&& p.penalties == b[base + 44]
}

/// One decoded snapshot of the simulation. Float fields hold their IEEE-754
/// bit patterns; per-wheel arrays are indexed rear-left, rear-right,
/// front-left, front-right.
#[derive(Clone, Copy, Debug, PartialEq, Eq)]
pub struct TelemetryFrame {
    /// Session time, in seconds.
    pub time: u32,
    /// Time into the current lap, in seconds.
    pub lap_time: u32,
    /// Distance into the current lap, in metres.
    pub lap_distance: u32,
    /// Total distance covered in the session, in metres.
    pub total_distance: u32,
    /// World-space position, x component.
    pub x: u32,
    /// World-space position, y component.
    pub y: u32,
    /// World-space position, z component.
    pub z: u32,
    /// Speed of the car, in metres per second.
    pub speed: u32,
    /// World-space velocity, x component.
    pub xv: u32,
    /// World-space velocity, y component.
    pub yv: u32,
    /// World-space velocity, z component.
    pub zv: u32,
    /// World-space right direction, x component.
    pub xr: u32,
    /// World-space right direction, y component.
    pub yr: u32,
    /// World-space right direction, z component.
    pub zr: u32,
    /// World-space forward direction, x component.
    pub xd: u32,
    /// World-space forward direction, y component.
    pub yd: u32,
    /// World-space forward direction, z component.
    pub zd: u32,
    /// Suspension position per wheel.
    pub susp_pos: [u32; 4],
    /// Suspension velocity per wheel.
    pub susp_vel: [u32; 4],
    /// Wheel speed per wheel.
    pub wheel_speed: [u32; 4],
    /// Throttle input.
    pub throttle: u32,
    /// Steering input.
    pub steer: u32,
    /// Brake input.
    pub brake: u32,
    /// Clutch input.
    pub clutch: u32,
    /// Selected gear.
    pub gear: u32,
    /// Lateral g-force.
    pub gforce_lat: u32,
    /// Longitudinal g-force.
    pub gforce_lon: u32,
    /// Current lap.
    pub lap: u32,
    /// Engine speed, in revolutions per minute.
    pub engine_rate: u32,
    /// SLI Pro support flag.
    pub sli_pro_native_support: u32,
    /// Race position of the car.
    pub car_position: u32,
    /// KERS energy left.
    pub kers_level: u32,
    /// KERS maximum energy.
    pub kers_max_level: u32,
    /// DRS state: 0 off, 1 on.
    pub drs: u32,
    /// Traction control: 0 (off) to 2 (high).
    pub traction_control: u32,
    /// Anti-lock brakes: 0 off, 1 on.
    pub anti_lock_brakes: u32,
    /// Current fuel mass.
    pub fuel_in_tank: u32,
    /// Fuel capacity.
    pub fuel_capacity: u32,
    /// Pit state: 0 none, 1 pitting, 2 in the pit area.
    pub in_pits: u32,
    /// Current sector: 0, 1 or 2.
    pub sector: u32,
    /// Time of sector 1, or 0.
    pub sector1_time: u32,
    /// Time of sector 2, or 0.
    pub sector2_time: u32,
    /// Brake temperature per wheel, in degrees Celsius.
    pub brakes_temp: [u32; 4],
    /// Tyre pressure per wheel, in PSI.
    pub tyres_pressure: [u32; 4],
    /// Team identifier.
    pub team_info: u32,
    /// Total number of laps in the race.
    pub total_laps: u32,
    /// Track length, in metres.
    pub track_size: u32,
    /// Last lap time, in seconds.
    pub last_lap_time: u32,
    /// Engine speed at which the rev limiter engages.
    pub max_rpm: u32,
    /// Idle engine speed.
    pub idle_rpm: u32,
    /// Number of gears.
    pub max_gears: u32,
    /// Session type: 0 unknown, 1 practice, 2 qualifying, 3 race.
    pub session_type: u32,
    /// DRS allowed: 0 no, 1 yes, -1 unknown.
    pub drs_allowed: u32,
    /// Track number, -1 when unknown.
    pub track_number: u32,
    /// Flag shown to the car: -1 unknown, 0 none, 1 green, 2 blue, 3 yellow, 4 red.
    pub vehicle_fia_flags: u32,
    /// Era of the cars: 2017 (modern) or 1980 (classic).
    pub era: u32,
    /// Engine temperature, in degrees Celsius.
    pub engine_temperature: u32,
    /// Vertical g-force.
    pub gforce_vert: u32,
    /// Angular velocity, x component.
    pub ang_vel_x: u32,
    /// Angular velocity, y component.
    pub ang_vel_y: u32,
    /// Angular velocity, z component.
    pub ang_vel_z: u32,
    /// Tyre temperature per wheel, in degrees Celsius.
    pub tyres_temperature: [u8; 4],
    /// Tyre wear per wheel, in percent.
    pub tyres_wear: [u8; 4],
    /// Tyre compound: 0 ultra soft to 4 hard, 5 intermediate, 6 wet.
    pub tyre_compound: u8,
    /// Front brake bias, in percent.
    pub front_brake_bias: u8,
    /// Fuel mix: 0 lean, 1 standard, 2 rich, 3 max.
    pub fuel_mix: u8,
    /// Current lap: 0 valid, 1 invalid.
    pub current_lap_invalid: u8,
    /// Tyre damage per wheel, in percent.
    pub tyres_damage: [u8; 4],
    /// Front left wing damage, in percent.
    pub front_left_wing_damage: u8,
    /// Front right wing damage, in percent.
    pub front_right_wing_damage: u8,
    /// Rear wing damage, in percent.
    pub rear_wing_damage: u8,
    /// Engine damage, in percent.
    pub engine_damage: u8,
    /// Gear box damage, in percent.
    pub gear_box_damage: u8,
    /// Exhaust damage, in percent.
    pub exhaust_damage: u8,
    /// Pit limiter: 0 off, 1 on.
    pub pit_limiter_status: u8,
    /// Pit speed limit, in miles per hour.
    pub pit_speed_limit: u8,
    /// Time left in the session, in seconds.
    pub session_time_left: u32,
    /// Rev lights indicator, in percent.
    pub rev_lights_percent: u8,
    /// Whether the player is spectating.
    pub is_spectating: u8,
    /// Index of the car being spectated.
    pub spectator_car_index: u8,
    /// Number of participant slots that hold a car.
    pub num_cars: u8,
    /// Slot of the player's car.
    pub player_car_index: u8,
    /// All participant slots, of which the first `num_cars` hold a car.
    pub car_data: [ParticipantRecord; 20],
    /// Yaw angle.
    pub yaw: u32,
    /// Pitch angle.
    pub pitch: u32,
    /// Roll angle.
    pub roll: u32,
    /// Local-space velocity, x component.
    pub x_local_velocity: u32,
    /// Local-space velocity, y component.
    pub y_local_velocity: u32,
    /// Local-space velocity, z component.
    pub z_local_velocity: u32,
    /// Suspension acceleration per wheel.
    pub susp_acceleration: [u32; 4],
    /// Angular acceleration, x component.
    pub ang_acc_x: u32,
    /// Angular acceleration, y component.
    pub ang_acc_y: u32,
    /// Angular acceleration, z component.
    pub ang_acc_z: u32,
}

/// Positions, velocities and suspension: the bytes from `base` on.
pub open spec fn motion_layout(f: TelemetryFrame, b: Seq<u8>, base: int) -> bool {
    &&& f.time == u32_at(b, base)
    &&& f.lap_time == u32_at(b, base + 4)
    &&& f.lap_distance == u32_at(b, base + 8)
    &&& f.total_distance == u32_at(b, base + 12)
    &&& f.x == u32_at(b, base + 16)
    &&& f.y == u32_at(b, base + 20)
    &&& f.z == u32_at(b, base + 24)
    &&& f.speed == u32_at(b, base + 28)
    &&& f.xv == u32_at(b, base + 32)
    &&& f.yv == u32_at(b, base + 36)
    &&& f.zv == u32_at(b, base + 40)
    &&& f.xr == u32_at(b, base + 44)
    &&& f.yr == u32_at(b, base + 48)
    &&& f.zr == u32_at(b, base + 52)
    &&& f.xd == u32_at(b, base + 56)
    &&& f.yd == u32_at(b, base + 60)
    &&& f.zd == u32_at(b, base + 64)
    &&& f.susp_pos@ == u32x4_at(b, base + 68)
    &&& f.susp_vel@ == u32x4_at(b, base + 84)
    &&& f.wheel_speed@ == u32x4_at(b, base + 100)
}

/// Driver inputs and car settings: the bytes from `base` on.
pub open spec fn controls_layout(f: TelemetryFrame, b: Seq<u8>, base: int) -> bool {
    &&& f.throttle == u32_at(b, base)
    &&& f.steer == u32_at(b, base + 4)
    &&& f.brake == u32_at(b, base + 8)
    &&& f.clutch == u32_at(b, base + 12)
    &&& f.gear == u32_at(b, base + 16)
    &&& f.gforce_lat == u32_at(b, base + 20)
    &&& f.gforce_lon == u32_at(b, base + 24)
    &&& f.lap == u32_at(b, base + 28)
    &&& f.engine_rate == u32_at(b, base + 32)
    &&& f.sli_pro_native_support == u32_at(b, base + 36)
    &&& f.car_position == u32_at(b, base + 40)
    &&& f.kers_level == u32_at(b, base + 44)
    &&& f.kers_max_level == u32_at(b, base + 48)
    &&& f.drs == u32_at(b, base + 52)
    &&& f.traction_control == u32_at(b, base + 56)
    &&& f.anti_lock_brakes == u32_at(b, base + 60)
    &&& f.fuel_in_tank == u32_at(b, base + 64)
    &&& f.fuel_capacity == u32_at(b, base + 68)
    &&& f.in_pits == u32_at(b, base + 72)
    &&& f.sector == u32_at(b, base + 76)
    &&& f.sector1_time == u32_at(b, base + 80)
    &&& f.sector2_time == u32_at(b, base + 84)
}

/// Brakes, tyres, session and engine data: the bytes from `base` on.
pub open spec fn car_state_layout(f: TelemetryFrame, b: Seq<u8>, base: int) -> bool {
    &&& f.brakes_temp@ == u32x4_at(b, base)
    &&& f.tyres_pressure@ == u32x4_at(b, base + 16)
    &&& f.team_info == u32_at(b, base + 32)
    &&& f.total_laps == u32_at(b, base + 36)
    &&& f.track_size == u32_at(b, base + 40)
    &&& f.last_lap_time == u32_at(b, base + 44)
    &&& f.max_rpm == u32_at(b, base + 48)
    &&& f.idle_rpm == u32_at(b, base + 52)
    &&& f.max_gears == u32_at(b, base + 56)
    &&& f.session_type == u32_at(b, base + 60)
    &&& f.drs_allowed == u32_at(b, base + 64)
    &&& f.track_number == u32_at(b, base + 68)
    &&& f.vehicle_fia_flags == u32_at(b, base + 72)
    &&& f.era == u32_at(b, base + 76)
    &&& f.engine_temperature == u32_at(b, base + 80)
    &&& f.gforce_vert == u32_at(b, base + 84)
    &&& f.ang_vel_x == u32_at(b, base + 88)
    &&& f.ang_vel_y == u32_at(b, base + 92)
    &&& f.ang_vel_z == u32_at(b, base + 96)
}

/// Byte-wide status fields and the session clock: the bytes from `base` on.
pub open spec fn status_layout(f: TelemetryFrame, b: Seq<u8>, base: int) -> bool {
    &&& f.tyres_temperature@ == u8x4_at(b, base)
    &&& f.tyres_wear@ == u8x4_at(b, base + 4)
    &&& f.tyre_compound == b[base + 8]
    &&& f.front_brake_bias == b[base + 9]
    &&& f.fuel_mix == b[base + 10]
    &&& f.current_lap_invalid == b[base + 11]
    &&& f.tyres_damage@ == u8x4_at(b, base + 12)
    &&& f.front_left_wing_damage == b[base + 16]
    &&& f.front_right_wing_damage == b[base + 17]
    &&& f.rear_wing_damage == b[base + 18]
    &&& f.engine_damage == b[base + 19]
    &&& f.gear_box_damage == b[base + 20]
    &&& f.exhaust_damage == b[base + 21]
    &&& f.pit_limiter_status == b[base + 22]
    &&& f.pit_speed_limit == b[base + 23]
    &&& f.session_time_left == u32_at(b, base + 24)
    &&& f.rev_lights_percent == b[base + 28]
    &&& f.is_spectating == b[base + 29]
    &&& f.spectator_car_index == b[base + 30]
    &&& f.num_cars == b[base + 31]
    &&& f.player_car_index == b[base + 32]
}

/// Orientation, local velocity and accelerations: the bytes from `base` on.
pub open spec fn extended_layout(f: TelemetryFrame, b: Seq<u8>, base: int) -> bool {
    &&& f.yaw == u32_at(b, base)
    &&& f.pitch == u32_at(b, base + 4)
    &&& f.roll == u32_at(b, base + 8)
    &&& f.x_local_velocity == u32_at(b, base + 12)
    &&& f.y_local_velocity == u32_at(b, base + 16)
    &&& f.z_local_velocity == u32_at(b, base + 20)
    &&& f.susp_acceleration@ == u32x4_at(b, base + 24)
    &&& f.ang_acc_x == u32_at(b, base + 40)
    &&& f.ang_acc_y == u32_at(b, base + 44)
    &&& f.ang_acc_z == u32_at(b, base + 48)
}

/// The participant slots `cars`, stored back to back from `base` on.
pub open spec fn participants_layout(cars: Seq<ParticipantRecord>, b: Seq<u8>, base: int) -> bool {
    &&& cars.len() == NUM_PARTICIPANTS
    &&& forall|k: int|
        0 <= k < NUM_PARTICIPANTS ==> participant_layout(
            #[trigger] cars[k],
            b,
            base + k * PARTICIPANT_SIZE,
        )
}

/// `b` is exactly the encoding of `f`: every field at its offset, in order,
/// with no padding.
pub open spec fn frame_layout(f: TelemetryFrame, b: Seq<u8>) -> bool {
    &&& b.len() == FRAME_SIZE
    &&& motion_layout(f, b, 0)
    &&& controls_layout(f, b, 116)
    &&& car_state_layout(f, b, 204)
    &&& status_layout(f, b, 304)
    &&& participants_layout(f.car_data@, b, PARTICIPANTS_OFFSET as int)
    &&& extended_layout(f, b, 1237)
}

} // verus!
