use crate::frame::{
    car_state_layout, controls_layout, extended_layout, frame_layout, motion_layout,
    participant_layout, status_layout, u32x3_at, u32x4_at, u8x4_at, ParticipantRecord, TelemetryFrame, FRAME_SIZE,
    NUM_CARS_OFFSET, NUM_PARTICIPANTS, PARTICIPANTS_OFFSET, PARTICIPANT_SIZE,
};
use crate::wire::u32_at;
use vstd::prelude::*;

verus! {

/// Two participant records laid out over the same bytes are the same record.
proof fn participant_determined_by_bytes(
    p: ParticipantRecord,
    q: ParticipantRecord,
    b1: Seq<u8>,
    b2: Seq<u8>,
    base: int,
)
    requires
        participant_layout(p, b1, base),
        participant_layout(q, b2, base),
        forall|i: int| base <= i < base + PARTICIPANT_SIZE ==> b1[i] == b2[i],
    ensures
        p == q,
{
    assert(p.world_position =~= q.world_position);
}

/// Decoding the encoding of a frame gives that frame back: a buffer is the
/// encoding of at most one frame, so what `decode` returns for the output of
/// `encode(f)` is `f`, field by field and in every array's order.
pub proof fn decode_encode_round_trip(f: TelemetryFrame, g: TelemetryFrame, b: Seq<u8>)
    requires
        frame_layout(f, b),
        frame_layout(g, b),
    ensures
        g == f,
{
    assert forall|k: int| 0 <= k < NUM_PARTICIPANTS implies g.car_data@[k] == f.car_data@[k] by {
        participant_determined_by_bytes(
            f.car_data@[k],
            g.car_data@[k],
            b,
            b,
            PARTICIPANTS_OFFSET + k * PARTICIPANT_SIZE,
        );
    }
    assert(f.car_data =~= g.car_data);
    assert(f.susp_pos =~= g.susp_pos);
    assert(f.susp_vel =~= g.susp_vel);
    assert(f.wheel_speed =~= g.wheel_speed);
    assert(f.brakes_temp =~= g.brakes_temp);
    assert(f.tyres_pressure =~= g.tyres_pressure);
    assert(f.tyres_temperature =~= g.tyres_temperature);
    assert(f.tyres_wear =~= g.tyres_wear);
    assert(f.tyres_damage =~= g.tyres_damage);
    assert(f.susp_acceleration =~= g.susp_acceleration);
}

/// All participant slots are decoded whatever `num_cars` says: two buffers
/// that differ at most in the `num_cars` byte decode to the same slots, each
/// slot being the record stored at its own offset.
pub proof fn slots_independent_of_num_cars(
    f1: TelemetryFrame,
    f2: TelemetryFrame,
    b1: Seq<u8>,
    b2: Seq<u8>,
)
    requires
        frame_layout(f1, b1),
        frame_layout(f2, b2),
        forall|i: int| 0 <= i < FRAME_SIZE && i != NUM_CARS_OFFSET ==> b1[i] == b2[i],
    ensures
        f1.car_data == f2.car_data,
        forall|k: int|
            0 <= k < NUM_PARTICIPANTS ==> participant_layout(
                #[trigger] f1.car_data@[k],
                b1,
                PARTICIPANTS_OFFSET + k * PARTICIPANT_SIZE,
            ),
{
    assert forall|k: int| 0 <= k < NUM_PARTICIPANTS implies f1.car_data@[k] == f2.car_data@[k] by {
        participant_determined_by_bytes(
            f1.car_data@[k],
            f2.car_data@[k],
            b1,
            b2,
            PARTICIPANTS_OFFSET + k * PARTICIPANT_SIZE,
        );
    }
    assert(f1.car_data =~= f2.car_data);
}

/// Every per-wheel array holds its wheels in wire order: the value at index
/// `w` (rear-left, rear-right, front-left, front-right) is the `w`-th element
/// stored for that field.
pub proof fn wheel_order(f: TelemetryFrame, b: Seq<u8>)
    requires
        frame_layout(f, b),
    ensures
        forall|w: int|
            0 <= w < 4 ==> {
                &&& f.susp_pos@[w] == u32_at(b, 68 + 4 * w)
                &&& f.susp_vel@[w] == u32_at(b, 84 + 4 * w)
                &&& f.wheel_speed@[w] == u32_at(b, 100 + 4 * w)
                &&& f.brakes_temp@[w] == u32_at(b, 204 + 4 * w)
                &&& f.tyres_pressure@[w] == u32_at(b, 220 + 4 * w)
                &&& f.tyres_temperature@[w] == b[304 + w]
                &&& f.tyres_wear@[w] == b[308 + w]
                &&& f.tyres_damage@[w] == b[316 + w]
                &&& f.susp_acceleration@[w] == u32_at(b, 1261 + 4 * w)
            },
{
    words_in_order(f.susp_pos@, b, 68);
    words_in_order(f.susp_vel@, b, 84);
    words_in_order(f.wheel_speed@, b, 100);
    words_in_order(f.brakes_temp@, b, 204);
    words_in_order(f.tyres_pressure@, b, 220);
    bytes_in_order(f.tyres_temperature@, b, 304);
    bytes_in_order(f.tyres_wear@, b, 308);
    bytes_in_order(f.tyres_damage@, b, 316);
    words_in_order(f.susp_acceleration@, b, 1261);
}

/// Element `w` of four words stored from `off` is the word at `off + 4 * w`.
proof fn words_in_order(s: Seq<u32>, b: Seq<u8>, off: int)
    requires
        s == u32x4_at(b, off),
    ensures
        forall|w: int| 0 <= w < 4 ==> #[trigger] s[w] == u32_at(b, off + 4 * w),
{
    assert forall|w: int| 0 <= w < 4 implies #[trigger] s[w] == u32_at(b, off + 4 * w) by {
        if w == 0 {
        } else if w == 1 {
        } else if w == 2 {
        } else {
        }
    }
}

/// Element `w` of four bytes stored from `off` is the byte at `off + w`.
proof fn bytes_in_order(s: Seq<u8>, b: Seq<u8>, off: int)
    requires
        s == u8x4_at(b, off),
    ensures
        forall|w: int| 0 <= w < 4 ==> #[trigger] s[w] == b[off + w],
{
    assert forall|w: int| 0 <= w < 4 implies #[trigger] s[w] == b[off + w] by {
        if w == 0 {
        } else if w == 1 {
        } else if w == 2 {
        } else {
        }
    }
}


/// A frame has exactly one encoding: every byte of a frame buffer belongs to
/// one field, with no padding, so encoding a decoded buffer gives back the
/// very same bytes.
pub proof fn encoding_unique(f: TelemetryFrame, b1: Seq<u8>, b2: Seq<u8>)
    requires
        frame_layout(f, b1),
        frame_layout(f, b2),
    ensures
        b1 == b2,
{
    motion_bytes_determined(f, b1, b2, 0);
    controls_bytes_determined(f, b1, b2, 116);
    car_state_bytes_determined(f, b1, b2, 204);
    status_bytes_determined(f, b1, b2, 304);
    extended_bytes_determined(f, b1, b2, 1237);
    assert forall|i: int| 0 <= i < FRAME_SIZE implies b1[i] == b2[i] by {
        if PARTICIPANTS_OFFSET <= i < 1237 {
            let k = (i - PARTICIPANTS_OFFSET) / PARTICIPANT_SIZE as int;
            assert(0 <= k < NUM_PARTICIPANTS && PARTICIPANTS_OFFSET + k * PARTICIPANT_SIZE <= i
                < PARTICIPANTS_OFFSET + k * PARTICIPANT_SIZE + PARTICIPANT_SIZE);
            participant_bytes_determined(
                f.car_data@[k],
                b1,
                b2,
                PARTICIPANTS_OFFSET + k * PARTICIPANT_SIZE,
            );
        }
    }
    assert(b1 =~= b2);
}

/// Equal words at `i` come from equal bytes.
proof fn word_bytes_determined(b1: Seq<u8>, b2: Seq<u8>, i: int)
    requires
        0 <= i,
        i + 4 <= b1.len(),
        i + 4 <= b2.len(),
        u32_at(b1, i) == u32_at(b2, i),
    ensures
        forall|j: int| i <= j < i + 4 ==> #[trigger] b1[j] == b2[j],
{
    let (a0, a1, a2, a3) = (b1[i] as int, b1[i + 1] as int, b1[i + 2] as int, b1[i + 3] as int);
    let (c0, c1, c2, c3) = (b2[i] as int, b2[i + 1] as int, b2[i + 2] as int, b2[i + 3] as int);
    assert(a0 + a1 * 0x100 + a2 * 0x1_0000 + a3 * 0x100_0000 == c0 + c1 * 0x100 + c2 * 0x1_0000
        + c3 * 0x100_0000);
    assert(a0 == c0 && a1 == c1 && a2 == c2 && a3 == c3);
    assert forall|j: int| i <= j < i + 4 implies #[trigger] b1[j] == b2[j] by {
        if j == i {
        } else if j == i + 1 {
        } else if j == i + 2 {
        } else {
        }
    }
}

/// Equal runs of four words at `i` come from equal bytes.
proof fn words_bytes_determined(b1: Seq<u8>, b2: Seq<u8>, i: int)
    requires
        0 <= i,
        i + 16 <= b1.len(),
        i + 16 <= b2.len(),
        u32x4_at(b1, i) == u32x4_at(b2, i),
    ensures
        forall|j: int| i <= j < i + 16 ==> #[trigger] b1[j] == b2[j],
{
    assert(u32x4_at(b1, i)[0] == u32x4_at(b2, i)[0]);
    assert(u32x4_at(b1, i)[1] == u32x4_at(b2, i)[1]);
    assert(u32x4_at(b1, i)[2] == u32x4_at(b2, i)[2]);
    assert(u32x4_at(b1, i)[3] == u32x4_at(b2, i)[3]);
    word_bytes_determined(b1, b2, i);
    word_bytes_determined(b1, b2, i + 4);
    word_bytes_determined(b1, b2, i + 8);
    word_bytes_determined(b1, b2, i + 12);
    assert forall|j: int| i <= j < i + 16 implies #[trigger] b1[j] == b2[j] by {
        if j < i + 4 {
        } else if j < i + 8 {
        } else if j < i + 12 {
        } else {
        }
    }
}

/// Equal runs of three words at `i` come from equal bytes.
proof fn words3_bytes_determined(b1: Seq<u8>, b2: Seq<u8>, i: int)
    requires
        0 <= i,
        i + 12 <= b1.len(),
        i + 12 <= b2.len(),
        u32x3_at(b1, i) == u32x3_at(b2, i),
    ensures
        forall|j: int| i <= j < i + 12 ==> #[trigger] b1[j] == b2[j],
{
    assert(u32x3_at(b1, i)[0] == u32x3_at(b2, i)[0]);
    assert(u32x3_at(b1, i)[1] == u32x3_at(b2, i)[1]);
    assert(u32x3_at(b1, i)[2] == u32x3_at(b2, i)[2]);
    word_bytes_determined(b1, b2, i);
    word_bytes_determined(b1, b2, i + 4);
    word_bytes_determined(b1, b2, i + 8);
    assert forall|j: int| i <= j < i + 12 implies #[trigger] b1[j] == b2[j] by {
        if j < i + 4 {
        } else if j < i + 8 {
        } else {
        }
    }
}

/// Equal runs of four bytes at `i`.
proof fn bytes4_determined(b1: Seq<u8>, b2: Seq<u8>, i: int)
    requires
        0 <= i,
        i + 4 <= b1.len(),
        i + 4 <= b2.len(),
        u8x4_at(b1, i) == u8x4_at(b2, i),
    ensures
        forall|j: int| i <= j < i + 4 ==> #[trigger] b1[j] == b2[j],
{
    assert(u8x4_at(b1, i)[0] == u8x4_at(b2, i)[0]);
    assert(u8x4_at(b1, i)[1] == u8x4_at(b2, i)[1]);
    assert(u8x4_at(b1, i)[2] == u8x4_at(b2, i)[2]);
    assert(u8x4_at(b1, i)[3] == u8x4_at(b2, i)[3]);
    assert forall|j: int| i <= j < i + 4 implies #[trigger] b1[j] == b2[j] by {
        if j == i {
        } else if j == i + 1 {
        } else if j == i + 2 {
        } else {
        }
    }
}

/// The bytes of a participant record are fixed by the record.
proof fn participant_bytes_determined(p: ParticipantRecord, b1: Seq<u8>, b2: Seq<u8>, base: int)
    requires
        0 <= base,
        base + 45 <= b1.len(),
        base + 45 <= b2.len(),
        participant_layout(p, b1, base),
        participant_layout(p, b2, base),
    ensures
        forall|i: int| base <= i < base + 45 ==> #[trigger] b1[i] == b2[i],
{
    words3_bytes_determined(b1, b2, base);
    word_bytes_determined(b1, b2, base + 12);
    word_bytes_determined(b1, b2, base + 16);
    word_bytes_determined(b1, b2, base + 20);
    word_bytes_determined(b1, b2, base + 24);
    word_bytes_determined(b1, b2, base + 28);
    word_bytes_determined(b1, b2, base + 32);
    assert forall|i: int| base <= i < base + 45 implies #[trigger] b1[i] == b2[i] by {
        if i < base + 12 {
        } else if i < base + 16 {
        } else if i < base + 20 {
        } else if i < base + 24 {
        } else if i < base + 28 {
        } else if i < base + 32 {
        } else if i < base + 36 {
        } else if i < base + 37 {
        } else if i < base + 38 {
        } else if i < base + 39 {
        } else if i < base + 40 {
        } else if i < base + 41 {
        } else if i < base + 42 {
        } else if i < base + 43 {
        } else if i < base + 44 {
        } else {
        }
    }
}

/// The motion bytes are fixed by the frame.
proof fn motion_bytes_determined(f: TelemetryFrame, b1: Seq<u8>, b2: Seq<u8>, base: int)
    requires
        0 <= base,
        base + 116 <= b1.len(),
        base + 116 <= b2.len(),
        motion_layout(f, b1, base),
        motion_layout(f, b2, base),
    ensures
        forall|i: int| base <= i < base + 116 ==> #[trigger] b1[i] == b2[i],
{
    word_bytes_determined(b1, b2, base);
    word_bytes_determined(b1, b2, base + 4);
    word_bytes_determined(b1, b2, base + 8);
    word_bytes_determined(b1, b2, base + 12);
    word_bytes_determined(b1, b2, base + 16);
    word_bytes_determined(b1, b2, base + 20);
    word_bytes_determined(b1, b2, base + 24);
    word_bytes_determined(b1, b2, base + 28);
    word_bytes_determined(b1, b2, base + 32);
    word_bytes_determined(b1, b2, base + 36);
    word_bytes_determined(b1, b2, base + 40);
    word_bytes_determined(b1, b2, base + 44);
    word_bytes_determined(b1, b2, base + 48);
    word_bytes_determined(b1, b2, base + 52);
    word_bytes_determined(b1, b2, base + 56);
    word_bytes_determined(b1, b2, base + 60);
    word_bytes_determined(b1, b2, base + 64);
    words_bytes_determined(b1, b2, base + 68);
    words_bytes_determined(b1, b2, base + 84);
    words_bytes_determined(b1, b2, base + 100);
    assert forall|i: int| base <= i < base + 116 implies #[trigger] b1[i] == b2[i] by {
        if i < base + 4 {
        } else if i < base + 8 {
        } else if i < base + 12 {
        } else if i < base + 16 {
        } else if i < base + 20 {
        } else if i < base + 24 {
        } else if i < base + 28 {
        } else if i < base + 32 {
        } else if i < base + 36 {
        } else if i < base + 40 {
        } else if i < base + 44 {
        } else if i < base + 48 {
        } else if i < base + 52 {
        } else if i < base + 56 {
        } else if i < base + 60 {
        } else if i < base + 64 {
        } else if i < base + 68 {
        } else if i < base + 84 {
        } else if i < base + 100 {
        } else {
        }
    }
}

/// The control bytes are fixed by the frame.
proof fn controls_bytes_determined(f: TelemetryFrame, b1: Seq<u8>, b2: Seq<u8>, base: int)
    requires
        0 <= base,
        base + 88 <= b1.len(),
        base + 88 <= b2.len(),
        controls_layout(f, b1, base),
        controls_layout(f, b2, base),
    ensures
        forall|i: int| base <= i < base + 88 ==> #[trigger] b1[i] == b2[i],
{
    word_bytes_determined(b1, b2, base);
    word_bytes_determined(b1, b2, base + 4);
    word_bytes_determined(b1, b2, base + 8);
    word_bytes_determined(b1, b2, base + 12);
    word_bytes_determined(b1, b2, base + 16);
    word_bytes_determined(b1, b2, base + 20);
    word_bytes_determined(b1, b2, base + 24);
    word_bytes_determined(b1, b2, base + 28);
    word_bytes_determined(b1, b2, base + 32);
    word_bytes_determined(b1, b2, base + 36);
    word_bytes_determined(b1, b2, base + 40);
    word_bytes_determined(b1, b2, base + 44);
    word_bytes_determined(b1, b2, base + 48);
    word_bytes_determined(b1, b2, base + 52);
    word_bytes_determined(b1, b2, base + 56);
    word_bytes_determined(b1, b2, base + 60);
    word_bytes_determined(b1, b2, base + 64);
    word_bytes_determined(b1, b2, base + 68);
    word_bytes_determined(b1, b2, base + 72);
    word_bytes_determined(b1, b2, base + 76);
    word_bytes_determined(b1, b2, base + 80);
    word_bytes_determined(b1, b2, base + 84);
    assert forall|i: int| base <= i < base + 88 implies #[trigger] b1[i] == b2[i] by {
        if i < base + 4 {
        } else if i < base + 8 {
        } else if i < base + 12 {
        } else if i < base + 16 {
        } else if i < base + 20 {
        } else if i < base + 24 {
        } else if i < base + 28 {
        } else if i < base + 32 {
        } else if i < base + 36 {
        } else if i < base + 40 {
        } else if i < base + 44 {
        } else if i < base + 48 {
        } else if i < base + 52 {
        } else if i < base + 56 {
        } else if i < base + 60 {
        } else if i < base + 64 {
        } else if i < base + 68 {
        } else if i < base + 72 {
        } else if i < base + 76 {
        } else if i < base + 80 {
        } else if i < base + 84 {
        } else {
        }
    }
}

/// The car state bytes are fixed by the frame.
proof fn car_state_bytes_determined(f: TelemetryFrame, b1: Seq<u8>, b2: Seq<u8>, base: int)
    requires
        0 <= base,
        base + 100 <= b1.len(),
        base + 100 <= b2.len(),
        car_state_layout(f, b1, base),
        car_state_layout(f, b2, base),
    ensures
        forall|i: int| base <= i < base + 100 ==> #[trigger] b1[i] == b2[i],
{
    words_bytes_determined(b1, b2, base);
    words_bytes_determined(b1, b2, base + 16);
    word_bytes_determined(b1, b2, base + 32);
    word_bytes_determined(b1, b2, base + 36);
    word_bytes_determined(b1, b2, base + 40);
    word_bytes_determined(b1, b2, base + 44);
    word_bytes_determined(b1, b2, base + 48);
    word_bytes_determined(b1, b2, base + 52);
    word_bytes_determined(b1, b2, base + 56);
    word_bytes_determined(b1, b2, base + 60);
    word_bytes_determined(b1, b2, base + 64);
    word_bytes_determined(b1, b2, base + 68);
    word_bytes_determined(b1, b2, base + 72);
    word_bytes_determined(b1, b2, base + 76);
    word_bytes_determined(b1, b2, base + 80);
    word_bytes_determined(b1, b2, base + 84);
    word_bytes_determined(b1, b2, base + 88);
    word_bytes_determined(b1, b2, base + 92);
    word_bytes_determined(b1, b2, base + 96);
    assert forall|i: int| base <= i < base + 100 implies #[trigger] b1[i] == b2[i] by {
        if i < base + 16 {
        } else if i < base + 32 {
        } else if i < base + 36 {
        } else if i < base + 40 {
        } else if i < base + 44 {
        } else if i < base + 48 {
        } else if i < base + 52 {
        } else if i < base + 56 {
        } else if i < base + 60 {
        } else if i < base + 64 {
        } else if i < base + 68 {
        } else if i < base + 72 {
        } else if i < base + 76 {
        } else if i < base + 80 {
        } else if i < base + 84 {
        } else if i < base + 88 {
        } else if i < base + 92 {
        } else if i < base + 96 {
        } else {
        }
    }
}

/// The status bytes are fixed by the frame.
proof fn status_bytes_determined(f: TelemetryFrame, b1: Seq<u8>, b2: Seq<u8>, base: int)
    requires
        0 <= base,
        base + 33 <= b1.len(),
        base + 33 <= b2.len(),
        status_layout(f, b1, base),
        status_layout(f, b2, base),
    ensures
        forall|i: int| base <= i < base + 33 ==> #[trigger] b1[i] == b2[i],
{
    bytes4_determined(b1, b2, base);
    bytes4_determined(b1, b2, base + 4);
    bytes4_determined(b1, b2, base + 12);
    word_bytes_determined(b1, b2, base + 24);
    assert forall|i: int| base <= i < base + 33 implies #[trigger] b1[i] == b2[i] by {
        if i < base + 4 {
        } else if i < base + 8 {
        } else if i < base + 9 {
        } else if i < base + 10 {
        } else if i < base + 11 {
        } else if i < base + 12 {
        } else if i < base + 16 {
        } else if i < base + 17 {
        } else if i < base + 18 {
        } else if i < base + 19 {
        } else if i < base + 20 {
        } else if i < base + 21 {
        } else if i < base + 22 {
        } else if i < base + 23 {
        } else if i < base + 24 {
        } else if i < base + 28 {
        } else if i < base + 29 {
        } else if i < base + 30 {
        } else if i < base + 31 {
        } else if i < base + 32 {
        } else {
        }
    }
}

/// The extended motion bytes are fixed by the frame.
proof fn extended_bytes_determined(f: TelemetryFrame, b1: Seq<u8>, b2: Seq<u8>, base: int)
    requires
        0 <= base,
        base + 52 <= b1.len(),
        base + 52 <= b2.len(),
        extended_layout(f, b1, base),
        extended_layout(f, b2, base),
    ensures
        forall|i: int| base <= i < base + 52 ==> #[trigger] b1[i] == b2[i],
{
    word_bytes_determined(b1, b2, base);
    word_bytes_determined(b1, b2, base + 4);
    word_bytes_determined(b1, b2, base + 8);
    word_bytes_determined(b1, b2, base + 12);
    word_bytes_determined(b1, b2, base + 16);
    word_bytes_determined(b1, b2, base + 20);
    words_bytes_determined(b1, b2, base + 24);
    word_bytes_determined(b1, b2, base + 40);
    word_bytes_determined(b1, b2, base + 44);
    word_bytes_determined(b1, b2, base + 48);
    assert forall|i: int| base <= i < base + 52 implies #[trigger] b1[i] == b2[i] by {
        if i < base + 4 {
        } else if i < base + 8 {
        } else if i < base + 12 {
        } else if i < base + 16 {
        } else if i < base + 20 {
        } else if i < base + 24 {
        } else if i < base + 40 {
        } else if i < base + 44 {
        } else if i < base + 48 {
        } else {
        }
    }
}

} // verus!
