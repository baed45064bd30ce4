use crate::frame::{
    frame_layout, participant_layout, participants_layout, u32x3_at, u32x4_at, u8x4_at,
    ParticipantRecord, TelemetryFrame, FRAME_SIZE, NUM_PARTICIPANTS, PARTICIPANTS_OFFSET,
    PARTICIPANT_SIZE,
};
use crate::wire::{read_u32_le, u32_at};
use vstd::prelude::*;

verus! {

/// Why a buffer could not be decoded.
#[derive(Clone, Copy, Debug, PartialEq, Eq)]
pub enum DecodeError {
    /// The buffer's length is not the frame size.
    SizeMismatch { expected: usize, actual: usize },
    /// The buffer ran out of bytes in the middle of the named field.
    Truncated { field: &'static str },
}

/// Takes the little-endian word at `*pos`, or fails if fewer than four bytes remain.
fn take_u32(b: &[u8], pos: &mut usize, field: &'static str) -> (r: Result<u32, DecodeError>)
    ensures
        match r {
            Ok(x) => *old(pos) + 4 <= b@.len() && *final(pos) == *old(pos) + 4 && x == u32_at(
                b@,
                *old(pos) as int,
            ),
            Err(e) => *old(pos) + 4 > b@.len() && e == DecodeError::Truncated { field },
        },
{
    if *pos > b.len() || b.len() - *pos < 4 {
        return Err(DecodeError::Truncated { field });
    }
    Ok(read_u32_le(b, pos))
}

/// Takes the byte at `*pos`, or fails if none remains.
fn take_u8(b: &[u8], pos: &mut usize, field: &'static str) -> (r: Result<u8, DecodeError>)
    ensures
        match r {
            Ok(x) => *old(pos) + 1 <= b@.len() && *final(pos) == *old(pos) + 1 && x == b@[*old(
                pos,
            ) as int],
            Err(e) => *old(pos) + 1 > b@.len() && e == DecodeError::Truncated { field },
        },
{
    if *pos >= b.len() {
        return Err(DecodeError::Truncated { field });
    }
    let x = b[*pos];
    *pos = *pos + 1;
    Ok(x)
}

/// Takes four consecutive little-endian words.
fn take_u32x4(b: &[u8], pos: &mut usize, field: &'static str) -> (r: Result<[u32; 4], DecodeError>)
    ensures
        match r {
            Ok(a) => *old(pos) + 16 <= b@.len() && *final(pos) == *old(pos) + 16 && a@ == u32x4_at(
                b@,
                *old(pos) as int,
            ),
            Err(e) => *old(pos) + 16 > b@.len() && e == DecodeError::Truncated { field },
        },
{
    let w0 = take_u32(b, pos, field)?;
    let w1 = take_u32(b, pos, field)?;
    let w2 = take_u32(b, pos, field)?;
    let w3 = take_u32(b, pos, field)?;
    let a = [w0, w1, w2, w3];
    assert(a@ =~= u32x4_at(b@, *old(pos) as int));
    Ok(a)
}

/// Takes three consecutive little-endian words.
fn take_u32x3(b: &[u8], pos: &mut usize, field: &'static str) -> (r: Result<[u32; 3], DecodeError>)
    ensures
        match r {
            Ok(a) => *old(pos) + 12 <= b@.len() && *final(pos) == *old(pos) + 12 && a@ == u32x3_at(
                b@,
                *old(pos) as int,
            ),
            Err(e) => *old(pos) + 12 > b@.len() && e == DecodeError::Truncated { field },
        },
{
    let w0 = take_u32(b, pos, field)?;
    let w1 = take_u32(b, pos, field)?;
    let w2 = take_u32(b, pos, field)?;
    let a = [w0, w1, w2];
    assert(a@ =~= u32x3_at(b@, *old(pos) as int));
    Ok(a)
}

/// Takes four consecutive bytes.
fn take_u8x4(b: &[u8], pos: &mut usize, field: &'static str) -> (r: Result<[u8; 4], DecodeError>)
    ensures
        match r {
            Ok(a) => *old(pos) + 4 <= b@.len() && *final(pos) == *old(pos) + 4 && a@ == u8x4_at(
                b@,
                *old(pos) as int,
            ),
            Err(e) => *old(pos) + 4 > b@.len() && e == DecodeError::Truncated { field },
        },
{
    let x0 = take_u8(b, pos, field)?;
    let x1 = take_u8(b, pos, field)?;
    let x2 = take_u8(b, pos, field)?;
    let x3 = take_u8(b, pos, field)?;
    let a = [x0, x1, x2, x3];
    assert(a@ =~= u8x4_at(b@, *old(pos) as int));
    Ok(a)
}

/// Decodes the participant record at `*pos` and moves the cursor past it.
/// Fails with `Truncated` exactly when fewer than a record's bytes remain.
pub fn decode_participant(b: &[u8], pos: &mut usize) -> (r: Result<ParticipantRecord, DecodeError>)
    ensures
        match r {
            Ok(p) => *old(pos) + 45 <= b@.len() && *final(pos) == *old(pos) + 45
                && participant_layout(p, b@, *old(pos) as int),
            Err(e) => *old(pos) + 45 > b@.len() && e is Truncated,
        },
{
    let world_position = take_u32x3(b, pos, "world_position")?;
    let last_lap_time = take_u32(b, pos, "last_lap_time")?;
    let current_lap_time = take_u32(b, pos, "current_lap_time")?;
    let best_lap_time = take_u32(b, pos, "best_lap_time")?;
    let sector1_time = take_u32(b, pos, "sector1_time")?;
    let sector2_time = take_u32(b, pos, "sector2_time")?;
    let lap_distance = take_u32(b, pos, "lap_distance")?;
    let driver_id = take_u8(b, pos, "driver_id")?;
    let team_id = take_u8(b, pos, "team_id")?;
    let car_position = take_u8(b, pos, "car_position")?;
    let current_lap_num = take_u8(b, pos, "current_lap_num")?;
    let tyre_compound = take_u8(b, pos, "tyre_compound")?;
    let in_pits = take_u8(b, pos, "in_pits")?;
    let sector = take_u8(b, pos, "sector")?;
    let current_lap_invalid = take_u8(b, pos, "current_lap_invalid")?;
    let penalties = take_u8(b, pos, "penalties")?;
    Ok(
        ParticipantRecord {
            world_position, last_lap_time, current_lap_time, best_lap_time, sector1_time,
            sector2_time, lap_distance, driver_id, team_id, car_position, current_lap_num,
            tyre_compound, in_pits, sector, current_lap_invalid, penalties,
        },
    )
}

/// Decodes all participant slots, one record after another, from `*pos` on.
fn decode_participants(b: &[u8], pos: &mut usize) -> (r: Result<[ParticipantRecord; 20], DecodeError>)
    ensures
        match r {
            Ok(cars) => *old(pos) + NUM_PARTICIPANTS * PARTICIPANT_SIZE <= b@.len() && *final(pos)
                == *old(pos) + NUM_PARTICIPANTS * PARTICIPANT_SIZE && participants_layout(
                cars@,
                b@,
                *old(pos) as int,
            ),
            Err(e) => *old(pos) + NUM_PARTICIPANTS * PARTICIPANT_SIZE > b@.len() && e is Truncated,
        },
{
    let ghost start = *pos as int;
    let first = decode_participant(b, pos)?;
    let mut cars = [first; 20];
    let mut k: usize = 1;
    while k < NUM_PARTICIPANTS
        invariant
            1 <= k <= NUM_PARTICIPANTS,
            start == *old(pos),
            *pos == start + k * PARTICIPANT_SIZE,
            start + k * PARTICIPANT_SIZE <= b@.len(),
            cars@.len() == NUM_PARTICIPANTS,
            forall|j: int| 0 <= j < k ==> participant_layout(#[trigger] cars@[j], b@, start + j * PARTICIPANT_SIZE),
        decreases NUM_PARTICIPANTS - k,
    {
        let rec = match decode_participant(b, pos) {
            Ok(p) => p,
            Err(e) => {
                return Err(e);
            },
        };
        cars[k] = rec;
        k = k + 1;
    }
    Ok(cars)
}

/// Decodes one datagram. A buffer whose length is not the frame size is
/// refused as a whole; any other buffer decodes, field by field in wire
/// order, to the one frame whose encoding it is.
pub fn decode(b: &[u8]) -> (r: Result<TelemetryFrame, DecodeError>)
    ensures
        match r {
            Ok(f) => frame_layout(f, b@),
            Err(e) => b@.len() != FRAME_SIZE && e == DecodeError::SizeMismatch {
                expected: FRAME_SIZE,
                actual: b@.len() as usize,
            },
        },
{
    if b.len() != FRAME_SIZE {
        return Err(DecodeError::SizeMismatch { expected: FRAME_SIZE, actual: b.len() });
    }
    let mut pos: usize = 0;
    let time = take_u32(b, &mut pos, "time")?;
    let lap_time = take_u32(b, &mut pos, "lap_time")?;
    let lap_distance = take_u32(b, &mut pos, "lap_distance")?;
    let total_distance = take_u32(b, &mut pos, "total_distance")?;
    let x = take_u32(b, &mut pos, "x")?;
    let y = take_u32(b, &mut pos, "y")?;
    let z = take_u32(b, &mut pos, "z")?;
    let speed = take_u32(b, &mut pos, "speed")?;
    let xv = take_u32(b, &mut pos, "xv")?;
    let yv = take_u32(b, &mut pos, "yv")?;
    let zv = take_u32(b, &mut pos, "zv")?;
    let xr = take_u32(b, &mut pos, "xr")?;
    let yr = take_u32(b, &mut pos, "yr")?;
    let zr = take_u32(b, &mut pos, "zr")?;
    let xd = take_u32(b, &mut pos, "xd")?;
    let yd = take_u32(b, &mut pos, "yd")?;
    let zd = take_u32(b, &mut pos, "zd")?;
    let susp_pos = take_u32x4(b, &mut pos, "susp_pos")?;
    let susp_vel = take_u32x4(b, &mut pos, "susp_vel")?;
    let wheel_speed = take_u32x4(b, &mut pos, "wheel_speed")?;
    let throttle = take_u32(b, &mut pos, "throttle")?;
    let steer = take_u32(b, &mut pos, "steer")?;
    let brake = take_u32(b, &mut pos, "brake")?;
    let clutch = take_u32(b, &mut pos, "clutch")?;
    let gear = take_u32(b, &mut pos, "gear")?;
    let gforce_lat = take_u32(b, &mut pos, "gforce_lat")?;
    let gforce_lon = take_u32(b, &mut pos, "gforce_lon")?;
    let lap = take_u32(b, &mut pos, "lap")?;
    let engine_rate = take_u32(b, &mut pos, "engine_rate")?;
    let sli_pro_native_support = take_u32(b, &mut pos, "sli_pro_native_support")?;
    let car_position = take_u32(b, &mut pos, "car_position")?;
    let kers_level = take_u32(b, &mut pos, "kers_level")?;
    let kers_max_level = take_u32(b, &mut pos, "kers_max_level")?;
    let drs = take_u32(b, &mut pos, "drs")?;
    let traction_control = take_u32(b, &mut pos, "traction_control")?;
    let anti_lock_brakes = take_u32(b, &mut pos, "anti_lock_brakes")?;
    let fuel_in_tank = take_u32(b, &mut pos, "fuel_in_tank")?;
    let fuel_capacity = take_u32(b, &mut pos, "fuel_capacity")?;
    let in_pits = take_u32(b, &mut pos, "in_pits")?;
    let sector = take_u32(b, &mut pos, "sector")?;
    let sector1_time = take_u32(b, &mut pos, "sector1_time")?;
    let sector2_time = take_u32(b, &mut pos, "sector2_time")?;
    let brakes_temp = take_u32x4(b, &mut pos, "brakes_temp")?;
    let tyres_pressure = take_u32x4(b, &mut pos, "tyres_pressure")?;
    let team_info = take_u32(b, &mut pos, "team_info")?;
    let total_laps = take_u32(b, &mut pos, "total_laps")?;
    let track_size = take_u32(b, &mut pos, "track_size")?;
    let last_lap_time = take_u32(b, &mut pos, "last_lap_time")?;
    let max_rpm = take_u32(b, &mut pos, "max_rpm")?;
    let idle_rpm = take_u32(b, &mut pos, "idle_rpm")?;
    let max_gears = take_u32(b, &mut pos, "max_gears")?;
    let session_type = take_u32(b, &mut pos, "session_type")?;
    let drs_allowed = take_u32(b, &mut pos, "drs_allowed")?;
    let track_number = take_u32(b, &mut pos, "track_number")?;
    let vehicle_fia_flags = take_u32(b, &mut pos, "vehicle_fia_flags")?;
    let era = take_u32(b, &mut pos, "era")?;
    let engine_temperature = take_u32(b, &mut pos, "engine_temperature")?;
    let gforce_vert = take_u32(b, &mut pos, "gforce_vert")?;
    let ang_vel_x = take_u32(b, &mut pos, "ang_vel_x")?;
    let ang_vel_y = take_u32(b, &mut pos, "ang_vel_y")?;
    let ang_vel_z = take_u32(b, &mut pos, "ang_vel_z")?;
    let tyres_temperature = take_u8x4(b, &mut pos, "tyres_temperature")?;
    let tyres_wear = take_u8x4(b, &mut pos, "tyres_wear")?;
    let tyre_compound = take_u8(b, &mut pos, "tyre_compound")?;
    let front_brake_bias = take_u8(b, &mut pos, "front_brake_bias")?;
    let fuel_mix = take_u8(b, &mut pos, "fuel_mix")?;
    let current_lap_invalid = take_u8(b, &mut pos, "current_lap_invalid")?;
    let tyres_damage = take_u8x4(b, &mut pos, "tyres_damage")?;
    let front_left_wing_damage = take_u8(b, &mut pos, "front_left_wing_damage")?;
    let front_right_wing_damage = take_u8(b, &mut pos, "front_right_wing_damage")?;
    let rear_wing_damage = take_u8(b, &mut pos, "rear_wing_damage")?;
    let engine_damage = take_u8(b, &mut pos, "engine_damage")?;
    let gear_box_damage = take_u8(b, &mut pos, "gear_box_damage")?;
    let exhaust_damage = take_u8(b, &mut pos, "exhaust_damage")?;
    let pit_limiter_status = take_u8(b, &mut pos, "pit_limiter_status")?;
    let pit_speed_limit = take_u8(b, &mut pos, "pit_speed_limit")?;
    let session_time_left = take_u32(b, &mut pos, "session_time_left")?;
    let rev_lights_percent = take_u8(b, &mut pos, "rev_lights_percent")?;
    let is_spectating = take_u8(b, &mut pos, "is_spectating")?;
    let spectator_car_index = take_u8(b, &mut pos, "spectator_car_index")?;
    let num_cars = take_u8(b, &mut pos, "num_cars")?;
    let player_car_index = take_u8(b, &mut pos, "player_car_index")?;
    let car_data = decode_participants(b, &mut pos)?;
    let yaw = take_u32(b, &mut pos, "yaw")?;
    let pitch = take_u32(b, &mut pos, "pitch")?;
    let roll = take_u32(b, &mut pos, "roll")?;
    let x_local_velocity = take_u32(b, &mut pos, "x_local_velocity")?;
    let y_local_velocity = take_u32(b, &mut pos, "y_local_velocity")?;
    let z_local_velocity = take_u32(b, &mut pos, "z_local_velocity")?;
    let susp_acceleration = take_u32x4(b, &mut pos, "susp_acceleration")?;
    let ang_acc_x = take_u32(b, &mut pos, "ang_acc_x")?;
    let ang_acc_y = take_u32(b, &mut pos, "ang_acc_y")?;
    let ang_acc_z = take_u32(b, &mut pos, "ang_acc_z")?;
    Ok(
        TelemetryFrame {
            time, lap_time, lap_distance, total_distance, x, y, z, speed, xv, yv, zv, xr, yr,
            zr, xd, yd, zd, susp_pos, susp_vel, wheel_speed, throttle, steer, brake, clutch,
            gear, gforce_lat, gforce_lon, lap, engine_rate, sli_pro_native_support,
            car_position, kers_level, kers_max_level, drs, traction_control, anti_lock_brakes,
            fuel_in_tank, fuel_capacity, in_pits, sector, sector1_time, sector2_time,
            brakes_temp, tyres_pressure, team_info, total_laps, track_size, last_lap_time,
            max_rpm, idle_rpm, max_gears, session_type, drs_allowed, track_number,
            vehicle_fia_flags, era, engine_temperature, gforce_vert, ang_vel_x, ang_vel_y,
            ang_vel_z, tyres_temperature, tyres_wear, tyre_compound, front_brake_bias, fuel_mix,
            current_lap_invalid, tyres_damage, front_left_wing_damage, front_right_wing_damage,
            rear_wing_damage, engine_damage, gear_box_damage, exhaust_damage,
            pit_limiter_status, pit_speed_limit, session_time_left, rev_lights_percent,
            is_spectating, spectator_car_index, num_cars, player_car_index, car_data, yaw,
            pitch, roll, x_local_velocity, y_local_velocity, z_local_velocity,
            susp_acceleration, ang_acc_x, ang_acc_y, ang_acc_z,
        },
    )
}

} // verus!
