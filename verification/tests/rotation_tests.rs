use outline_scene::rotation::RotatingEntity;
use outline_scene::rotation::rotate_all;
use outline_scene::rotation::rotate_tick;

const QUARTER_TURN: u32 = 0x4000_0000;
const HALF_TURN: u32 = 0x8000_0000;

#[test]
fn one_tick_advances_the_yaw_by_the_elapsed_time() {
    let mut entity = RotatingEntity { yaw: QUARTER_TURN };
    rotate_tick(&mut entity, HALF_TURN);
    assert_eq!(entity.yaw, 0xC000_0000);
}

#[test]
fn yaw_wraps_modulo_a_full_turn() {
    // three quarters plus a half is a turn and a quarter: one quarter remains
    let mut entity = RotatingEntity { yaw: 0xC000_0000 };
    rotate_tick(&mut entity, HALF_TURN);
    assert_eq!(entity.yaw, QUARTER_TURN);
    let mut top = RotatingEntity { yaw: u32::MAX };
    rotate_tick(&mut top, 2);
    assert_eq!(top.yaw, 1);
}

#[test]
fn rotation_is_frame_rate_independent() {
    // one tick with the whole elapsed time...
    let mut once = RotatingEntity { yaw: 123_456_789 };
    rotate_tick(&mut once, 0xF000_0000);
    // ...lands exactly where many smaller ticks with the same total land
    let mut split = RotatingEntity { yaw: 123_456_789 };
    rotate_tick(&mut split, 0x7000_0000);
    rotate_tick(&mut split, 0x4000_0000);
    rotate_tick(&mut split, 0x4000_0000);
    assert_eq!(once.yaw, split.yaw);
}

#[test]
fn every_rotating_entity_advances() {
    let mut entities = vec![
        RotatingEntity { yaw: 0 },
        RotatingEntity { yaw: QUARTER_TURN },
        RotatingEntity { yaw: u32::MAX },
    ];
    rotate_all(&mut entities, 5);
    assert_eq!(entities[0].yaw, 5);
    assert_eq!(entities[1].yaw, QUARTER_TURN + 5);
    assert_eq!(entities[2].yaw, 4);
}
