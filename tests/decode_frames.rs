use udp_telemetry::{
    decode, decode_participant, encode, encode_participant, DecodeError, FRAME_SIZE, FRONT_LEFT,
    FRONT_RIGHT, NUM_CARS_OFFSET, NUM_PARTICIPANTS, PARTICIPANTS_OFFSET, PARTICIPANT_SIZE,
    REAR_LEFT, REAR_RIGHT,
};

fn put_f32(buf: &mut [u8], off: usize, v: f32) {
    buf[off..off + 4].copy_from_slice(&v.to_le_bytes());
}

fn patterned() -> Vec<u8> {
    (0..FRAME_SIZE).map(|i| (i * 7 + 3) as u8).collect()
}

#[test]
fn all_zero_buffer_decodes_to_zero_frame() {
    let buf = vec![0u8; 1289];
    let f = decode(&buf).unwrap();
    assert_eq!(f.time, 0);
    assert_eq!(f32::from_bits(f.speed), 0.0);
    assert_eq!(f.susp_pos, [0; 4]);
    assert_eq!(f.tyres_wear, [0; 4]);
    assert_eq!(f.fuel_mix, 0);
    assert_eq!(f.num_cars, 0);
    assert_eq!(f.player_car_index, 0);
    assert_eq!(f.ang_acc_z, 0);
    for car in f.car_data.iter() {
        assert_eq!(car.world_position, [0; 3]);
        assert_eq!(car.lap_distance, 0);
        assert_eq!(car.driver_id, 0);
        assert_eq!(car.penalties, 0);
    }
    assert_eq!(encode(&f), buf);
}

#[test]
fn one_byte_short_is_size_mismatch() {
    let buf = vec![0u8; 1288];
    assert_eq!(
        decode(&buf),
        Err(DecodeError::SizeMismatch { expected: 1289, actual: 1288 })
    );
}

#[test]
fn oversized_is_size_mismatch() {
    let buf = vec![0u8; 1300];
    assert_eq!(
        decode(&buf),
        Err(DecodeError::SizeMismatch { expected: 1289, actual: 1300 })
    );
}

#[test]
fn empty_buffer_is_size_mismatch() {
    assert_eq!(
        decode(&[]),
        Err(DecodeError::SizeMismatch { expected: 1289, actual: 0 })
    );
}

#[test]
fn any_wrong_length_is_size_mismatch() {
    for len in [1usize, 45, 337, 1288, 1290, 2578] {
        let buf = patterned().into_iter().cycle().take(len).collect::<Vec<u8>>();
        assert_eq!(
            decode(&buf),
            Err(DecodeError::SizeMismatch { expected: FRAME_SIZE, actual: len })
        );
    }
}

#[test]
fn float_field_is_little_endian() {
    let mut buf = vec![0u8; FRAME_SIZE];
    put_f32(&mut buf, 28, 3.6);
    let f = decode(&buf).unwrap();
    assert_eq!(f.speed, 0x4066_6666);
    assert_eq!(f32::from_bits(f.speed), 3.6);
    assert_eq!(f.time, 0);
    assert_eq!(f.xv, 0);
}

#[test]
fn float_bytes_match_bincode_encoding() {
    let mut buf = vec![0u8; FRAME_SIZE];
    let bytes = bincode::serialize(&-12.5f32).unwrap();
    buf[1237..1241].copy_from_slice(&bytes);
    let f = decode(&buf).unwrap();
    assert_eq!(f32::from_bits(f.yaw), -12.5);
}

#[test]
fn per_wheel_arrays_keep_wire_order() {
    let mut buf = vec![0u8; FRAME_SIZE];
    for (w, v) in [1.0f32, 2.0, 3.0, 4.0].iter().enumerate() {
        put_f32(&mut buf, 68 + 4 * w, *v);
        put_f32(&mut buf, 1261 + 4 * w, *v * 10.0);
        buf[308 + w] = 10 * (w as u8 + 1);
    }
    let f = decode(&buf).unwrap();
    assert_eq!(f32::from_bits(f.susp_pos[REAR_LEFT]), 1.0);
    assert_eq!(f32::from_bits(f.susp_pos[REAR_RIGHT]), 2.0);
    assert_eq!(f32::from_bits(f.susp_pos[FRONT_LEFT]), 3.0);
    assert_eq!(f32::from_bits(f.susp_pos[FRONT_RIGHT]), 4.0);
    assert_eq!(f32::from_bits(f.susp_acceleration[REAR_LEFT]), 10.0);
    assert_eq!(f32::from_bits(f.susp_acceleration[FRONT_RIGHT]), 40.0);
    assert_eq!(f.tyres_wear, [10, 20, 30, 40]);
    assert_eq!(f.susp_vel, [0; 4]);
}

#[test]
fn all_slots_decoded_whatever_num_cars() {
    let mut buf = vec![0u8; FRAME_SIZE];
    buf[NUM_CARS_OFFSET] = 3;
    for k in 0..NUM_PARTICIPANTS {
        let base = PARTICIPANTS_OFFSET + k * PARTICIPANT_SIZE;
        put_f32(&mut buf, base, k as f32 + 0.5);
        buf[base + 36] = 100 + k as u8;
        buf[base + 44] = k as u8;
    }
    let f = decode(&buf).unwrap();
    assert_eq!(f.num_cars, 3);
    for k in 0..NUM_PARTICIPANTS {
        let car = &f.car_data[k];
        assert_eq!(f32::from_bits(car.world_position[0]), k as f32 + 0.5);
        assert_eq!(car.driver_id, 100 + k as u8);
        assert_eq!(car.penalties, k as u8);
    }
    let mut other = buf.clone();
    other[NUM_CARS_OFFSET] = 20;
    let g = decode(&other).unwrap();
    assert_eq!(g.num_cars, 20);
    assert_eq!(g.car_data, f.car_data);
}

#[test]
fn round_trip_through_encode() {
    let buf = patterned();
    let f = decode(&buf).unwrap();
    let bytes = encode(&f);
    assert_eq!(bytes.len(), FRAME_SIZE);
    assert_eq!(bytes, buf);
    assert_eq!(decode(&bytes), Ok(f));
}

#[test]
fn field_offsets_of_a_patterned_buffer() {
    let buf = patterned();
    let f = decode(&buf).unwrap();
    let word = |o: usize| u32::from_le_bytes([buf[o], buf[o + 1], buf[o + 2], buf[o + 3]]);
    assert_eq!(f.time, word(0));
    assert_eq!(f.lap, word(144));
    assert_eq!(f.team_info, word(236));
    assert_eq!(f.fuel_mix, buf[314]);
    assert_eq!(f.session_time_left, word(328));
    assert_eq!(f.player_car_index, buf[336]);
    assert_eq!(f.car_data[1].best_lap_time, word(PARTICIPANTS_OFFSET + PARTICIPANT_SIZE + 20));
    assert_eq!(f.yaw, word(1237));
    assert_eq!(f.ang_acc_z, word(1285));
}

#[test]
fn participant_matches_bincode_layout() {
    let rec = (
        [1.5f32, -2.0, 3.25],
        61.0f32,
        12.5f32,
        59.75f32,
        20.0f32,
        21.5f32,
        1234.5f32,
        7u8,
        3u8,
        2u8,
        14u8,
        4u8,
        1u8,
        2u8,
        0u8,
        5u8,
    );
    let bytes = bincode::serialize(&rec).unwrap();
    assert_eq!(bytes.len(), PARTICIPANT_SIZE);
    let mut pos = 0usize;
    let p = decode_participant(&bytes, &mut pos).unwrap();
    assert_eq!(pos, PARTICIPANT_SIZE);
    assert_eq!(p.world_position, [1.5f32.to_bits(), (-2.0f32).to_bits(), 3.25f32.to_bits()]);
    assert_eq!(f32::from_bits(p.last_lap_time), 61.0);
    assert_eq!(f32::from_bits(p.lap_distance), 1234.5);
    assert_eq!(p.driver_id, 7);
    assert_eq!(p.current_lap_num, 14);
    assert_eq!(p.penalties, 5);
    let mut out = Vec::new();
    encode_participant(&p, &mut out);
    assert_eq!(out, bytes);
}

#[test]
fn short_participant_is_truncated() {
    let bytes = vec![9u8; PARTICIPANT_SIZE - 1];
    let mut pos = 0usize;
    assert!(matches!(
        decode_participant(&bytes, &mut pos),
        Err(DecodeError::Truncated { .. })
    ));
    let bytes = vec![9u8; 100];
    let mut pos = 60usize;
    assert!(matches!(
        decode_participant(&bytes, &mut pos),
        Err(DecodeError::Truncated { .. })
    ));
    let mut pos = 55usize;
    assert!(decode_participant(&bytes, &mut pos).is_ok());
    assert_eq!(pos, 100);
}
