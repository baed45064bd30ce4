use crate::frame::{
    car_state_layout, controls_layout, extended_layout, frame_layout, motion_layout,
    participant_layout, status_layout, u32x3_at, u32x4_at, u8x4_at, ParticipantRecord,
    TelemetryFrame, FRAME_SIZE, NUM_PARTICIPANTS, PARTICIPANTS_OFFSET, PARTICIPANT_SIZE,
};
use crate::wire::{push_u32_le, u32_at};
use vstd::prelude::*;

verus! {

/// `b2` starts with all of `b1`.
pub open spec fn extends(b1: Seq<u8>, b2: Seq<u8>) -> bool {
    &&& b1.len() <= b2.len()
    &&& forall|i: int| 0 <= i < b1.len() ==> #[trigger] b2[i] == b1[i]
}

/// Appends four little-endian words.
fn push_u32x4(out: &mut Vec<u8>, a: &[u32; 4])
    ensures
        final(out)@.len() == old(out)@.len() + 16,
        extends(old(out)@, final(out)@),
        u32x4_at(final(out)@, old(out)@.len() as int) == a@,
{
    push_u32_le(out, a[0]);
    push_u32_le(out, a[1]);
    push_u32_le(out, a[2]);
    push_u32_le(out, a[3]);
    assert(u32x4_at(out@, old(out)@.len() as int) =~= a@);
}

/// Appends three little-endian words.
fn push_u32x3(out: &mut Vec<u8>, a: &[u32; 3])
    ensures
        final(out)@.len() == old(out)@.len() + 12,
        extends(old(out)@, final(out)@),
        u32x3_at(final(out)@, old(out)@.len() as int) == a@,
{
    push_u32_le(out, a[0]);
    push_u32_le(out, a[1]);
    push_u32_le(out, a[2]);
    assert(u32x3_at(out@, old(out)@.len() as int) =~= a@);
}

/// Appends four bytes.
fn push_u8x4(out: &mut Vec<u8>, a: &[u8; 4])
    ensures
        final(out)@.len() == old(out)@.len() + 4,
        extends(old(out)@, final(out)@),
        u8x4_at(final(out)@, old(out)@.len() as int) == a@,
{
    out.push(a[0]);
    out.push(a[1]);
    out.push(a[2]);
    out.push(a[3]);
    assert(u8x4_at(out@, old(out)@.len() as int) =~= a@);
}

/// Appends the encoding of one participant record.
pub fn encode_participant(p: &ParticipantRecord, out: &mut Vec<u8>)
    ensures
        final(out)@.len() == old(out)@.len() + PARTICIPANT_SIZE,
        extends(old(out)@, final(out)@),
        participant_layout(*p, final(out)@, old(out)@.len() as int),
{
    push_u32x3(out, &p.world_position);
    push_u32_le(out, p.last_lap_time);
    push_u32_le(out, p.current_lap_time);
    push_u32_le(out, p.best_lap_time);
    push_u32_le(out, p.sector1_time);
    push_u32_le(out, p.sector2_time);
    push_u32_le(out, p.lap_distance);
    out.push(p.driver_id);
    out.push(p.team_id);
    out.push(p.car_position);
    out.push(p.current_lap_num);
    out.push(p.tyre_compound);
    out.push(p.in_pits);
    out.push(p.sector);
    out.push(p.current_lap_invalid);
    out.push(p.penalties);
}

/// Appends positions, velocities and suspension.
fn encode_motion(f: &TelemetryFrame, out: &mut Vec<u8>)
    ensures
        final(out)@.len() == old(out)@.len() + 116,
        extends(old(out)@, final(out)@),
        motion_layout(*f, final(out)@, old(out)@.len() as int),
{
    push_u32_le(out, f.time);
    push_u32_le(out, f.lap_time);
    push_u32_le(out, f.lap_distance);
    push_u32_le(out, f.total_distance);
    push_u32_le(out, f.x);
    push_u32_le(out, f.y);
    push_u32_le(out, f.z);
    push_u32_le(out, f.speed);
    push_u32_le(out, f.xv);
    push_u32_le(out, f.yv);
    push_u32_le(out, f.zv);
    push_u32_le(out, f.xr);
    push_u32_le(out, f.yr);
    push_u32_le(out, f.zr);
    push_u32_le(out, f.xd);
    push_u32_le(out, f.yd);
    push_u32_le(out, f.zd);
    push_u32x4(out, &f.susp_pos);
    push_u32x4(out, &f.susp_vel);
    push_u32x4(out, &f.wheel_speed);
}

/// Appends driver inputs and car settings.
fn encode_controls(f: &TelemetryFrame, out: &mut Vec<u8>)
    ensures
        final(out)@.len() == old(out)@.len() + 88,
        extends(old(out)@, final(out)@),
        controls_layout(*f, final(out)@, old(out)@.len() as int),
{
    push_u32_le(out, f.throttle);
    push_u32_le(out, f.steer);
    push_u32_le(out, f.brake);
    push_u32_le(out, f.clutch);
    push_u32_le(out, f.gear);
    push_u32_le(out, f.gforce_lat);
    push_u32_le(out, f.gforce_lon);
    push_u32_le(out, f.lap);
    push_u32_le(out, f.engine_rate);
    push_u32_le(out, f.sli_pro_native_support);
    push_u32_le(out, f.car_position);
    push_u32_le(out, f.kers_level);
    push_u32_le(out, f.kers_max_level);
    push_u32_le(out, f.drs);
    push_u32_le(out, f.traction_control);
    push_u32_le(out, f.anti_lock_brakes);
    push_u32_le(out, f.fuel_in_tank);
    push_u32_le(out, f.fuel_capacity);
    push_u32_le(out, f.in_pits);
    push_u32_le(out, f.sector);
    push_u32_le(out, f.sector1_time);
    push_u32_le(out, f.sector2_time);
}

/// Appends brakes, tyres, session and engine data.
fn encode_car_state(f: &TelemetryFrame, out: &mut Vec<u8>)
    ensures
        final(out)@.len() == old(out)@.len() + 100,
        extends(old(out)@, final(out)@),
        car_state_layout(*f, final(out)@, old(out)@.len() as int),
{
    push_u32x4(out, &f.brakes_temp);
    push_u32x4(out, &f.tyres_pressure);
    push_u32_le(out, f.team_info);
    push_u32_le(out, f.total_laps);
    push_u32_le(out, f.track_size);
    push_u32_le(out, f.last_lap_time);
    push_u32_le(out, f.max_rpm);
    push_u32_le(out, f.idle_rpm);
    push_u32_le(out, f.max_gears);
    push_u32_le(out, f.session_type);
    push_u32_le(out, f.drs_allowed);
    push_u32_le(out, f.track_number);
    push_u32_le(out, f.vehicle_fia_flags);
    push_u32_le(out, f.era);
    push_u32_le(out, f.engine_temperature);
    push_u32_le(out, f.gforce_vert);
    push_u32_le(out, f.ang_vel_x);
    push_u32_le(out, f.ang_vel_y);
    push_u32_le(out, f.ang_vel_z);
}

/// Appends the byte-wide status fields and the session clock.
fn encode_status(f: &TelemetryFrame, out: &mut Vec<u8>)
    ensures
        final(out)@.len() == old(out)@.len() + 33,
        extends(old(out)@, final(out)@),
        status_layout(*f, final(out)@, old(out)@.len() as int),
{
    push_u8x4(out, &f.tyres_temperature);
    push_u8x4(out, &f.tyres_wear);
    out.push(f.tyre_compound);
    out.push(f.front_brake_bias);
    out.push(f.fuel_mix);
    out.push(f.current_lap_invalid);
    push_u8x4(out, &f.tyres_damage);
    out.push(f.front_left_wing_damage);
    out.push(f.front_right_wing_damage);
    out.push(f.rear_wing_damage);
    out.push(f.engine_damage);
    out.push(f.gear_box_damage);
    out.push(f.exhaust_damage);
    out.push(f.pit_limiter_status);
    out.push(f.pit_speed_limit);
    push_u32_le(out, f.session_time_left);
    out.push(f.rev_lights_percent);
    out.push(f.is_spectating);
    out.push(f.spectator_car_index);
    out.push(f.num_cars);
    out.push(f.player_car_index);
}

/// Appends orientation, local velocity and accelerations.
fn encode_extended(f: &TelemetryFrame, out: &mut Vec<u8>)
    ensures
        final(out)@.len() == old(out)@.len() + 52,
        extends(old(out)@, final(out)@),
        extended_layout(*f, final(out)@, old(out)@.len() as int),
{
    push_u32_le(out, f.yaw);
    push_u32_le(out, f.pitch);
    push_u32_le(out, f.roll);
    push_u32_le(out, f.x_local_velocity);
    push_u32_le(out, f.y_local_velocity);
    push_u32_le(out, f.z_local_velocity);
    push_u32x4(out, &f.susp_acceleration);
    push_u32_le(out, f.ang_acc_x);
    push_u32_le(out, f.ang_acc_y);
    push_u32_le(out, f.ang_acc_z);
}

/// Encodes a frame into the wire format, the inverse of `decode`.
pub fn encode(f: &TelemetryFrame) -> (r: Vec<u8>)
    ensures
        frame_layout(*f, r@),
{
    let mut out: Vec<u8> = Vec::new();
    encode_motion(f, &mut out);
    encode_controls(f, &mut out);
    encode_car_state(f, &mut out);
    encode_status(f, &mut out);
    let mut k: usize = 0;
    while k < NUM_PARTICIPANTS
        invariant
            0 <= k <= NUM_PARTICIPANTS,
            out@.len() == PARTICIPANTS_OFFSET + k * PARTICIPANT_SIZE,
            motion_layout(*f, out@, 0),
            controls_layout(*f, out@, 116),
            car_state_layout(*f, out@, 204),
            status_layout(*f, out@, 304),
            forall|j: int|
                0 <= j < k ==> participant_layout(
                    #[trigger] f.car_data@[j],
                    out@,
                    PARTICIPANTS_OFFSET + j * PARTICIPANT_SIZE,
                ),
        decreases NUM_PARTICIPANTS - k,
    {
        encode_participant(&f.car_data[k], &mut out);
        k = k + 1;
    }
    encode_extended(f, &mut out);
    out
}

} // verus!
