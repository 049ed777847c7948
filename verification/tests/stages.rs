use platformer::damping::apply_movement_damping;
use platformer::ground::{detect_grounded, is_grounded};
use platformer::input::{direction, movement_events, Key, Keys, MovementEvent};
use platformer::movement::{apply_event, events_fit, move_playable, move_x};
use platformer::playable::{spawn_player, MovementDampingFactor, Playable, Velocity, DAMPING_PERCENT};
use platformer::scene::{player_body, spawn_floor, Body, BodyKind, GRAVITY_Y};
use platformer::units::{
    scale, JUMP_SPEED, MAX_X_SPEED, MICROS_PER_SECOND, MILLI, MOVE_SPEED, STOP_SPEED,
};

fn up() -> Key {
    Key { pressed: false, just_pressed: false }
}

fn held() -> Key {
    Key { pressed: true, just_pressed: false }
}

fn struck() -> Key {
    Key { pressed: true, just_pressed: true }
}

fn player(x: i64, y: i64, grounded: bool) -> Playable {
    let mut p = spawn_player();
    p.velocity = Velocity { x, y };
    p.grounded = grounded;
    p
}

#[test]
fn constants_have_their_values() {
    assert_eq!(MILLI, 1_000);
    assert_eq!(MICROS_PER_SECOND, 1_000_000);
    assert_eq!(MOVE_SPEED, 30_000);
    assert_eq!(MAX_X_SPEED, 200_000);
    assert_eq!(JUMP_SPEED, 10_000_000);
    assert_eq!(STOP_SPEED, 190_000);
    assert_eq!(DAMPING_PERCENT, 92);
    assert_eq!(GRAVITY_Y, -1_000_000);
}

#[test]
fn direction_is_right_minus_left() {
    assert_eq!(direction(false, false), 0);
    assert_eq!(direction(false, true), 1);
    assert_eq!(direction(true, false), -1);
    assert_eq!(direction(true, true), 0);
}

#[test]
fn no_key_gives_no_event() {
    let keys = Keys { left: up(), right: up(), jump: up() };
    assert_eq!(movement_events(&keys), Vec::<MovementEvent>::new());
}

#[test]
fn opposite_keys_cancel() {
    let keys = Keys { left: held(), right: held(), jump: up() };
    assert_eq!(movement_events(&keys), Vec::<MovementEvent>::new());
}

#[test]
fn move_keys_give_signed_move() {
    let right = Keys { left: up(), right: held(), jump: up() };
    assert_eq!(movement_events(&right), vec![MovementEvent::Move(1)]);
    let left = Keys { left: struck(), right: up(), jump: up() };
    assert_eq!(movement_events(&left), vec![MovementEvent::Move(-1)]);
}

#[test]
fn move_comes_before_jump() {
    let keys = Keys { left: held(), right: up(), jump: struck() };
    assert_eq!(movement_events(&keys), vec![MovementEvent::Move(-1), MovementEvent::Jump]);
}

#[test]
fn jump_is_edge_triggered() {
    let edge = Keys { left: up(), right: up(), jump: struck() };
    assert_eq!(movement_events(&edge), vec![MovementEvent::Jump]);
    let level = Keys { left: up(), right: up(), jump: held() };
    assert_eq!(movement_events(&level), Vec::<MovementEvent>::new());
    let odd = Keys { left: up(), right: up(), jump: Key { pressed: false, just_pressed: true } };
    assert_eq!(movement_events(&odd), vec![MovementEvent::Jump]);
}

#[test]
fn move_adds_gain_of_the_tick() {
    assert_eq!(move_x(0, 1, 1_000), 30_000);
    assert_eq!(move_x(0, -1, 1_000), -30_000);
    assert_eq!(move_x(10_000, 1, 1), 10_030);
    assert_eq!(move_x(-5, 1, 0), -5);
    assert_eq!(move_x(100_000, 0, 16_000), 100_000);
    assert_eq!(move_x(0, 2, 1_000), 60_000);
}

#[test]
fn move_clamps_to_the_cap() {
    assert_eq!(move_x(0, 1, 16_000), 200_000);
    assert_eq!(move_x(0, -1, 16_000), -200_000);
    assert_eq!(move_x(199_999, 1, 1), 200_000);
    assert_eq!(move_x(-200_000, 1, 20_000), 200_000);
    assert_eq!(move_x(200_000, -1, u64::MAX), -200_000);
    assert_eq!(move_x(0, 127, u64::MAX), 200_000);
    assert_eq!(move_x(0, -128, u64::MAX), -200_000);
}

#[test]
fn move_within_cap_stays_within_cap() {
    let speeds = [-200_000i64, -199_999, -1, 0, 1, 150_000, 200_000];
    let ticks = [0u64, 1, 16_000, 33_333, 1_000_000, u64::MAX];
    for v in speeds {
        for d in [-1i8, 0, 1] {
            for dt in ticks {
                let r = move_x(v, d, dt);
                assert!(-MAX_X_SPEED <= r && r <= MAX_X_SPEED);
            }
        }
    }
}

#[test]
fn guard_looks_at_speed_before_the_move() {
    // At the cap the move still applies; beyond it nothing does, not even braking.
    assert_eq!(move_x(200_000, 1, 16_000), 200_000);
    assert_eq!(move_x(200_000, -1, 1_000), 170_000);
    assert_eq!(move_x(200_001, -1, 1_000), 200_001);
    assert_eq!(move_x(-200_001, 1, 1_000), -200_001);
    assert_eq!(move_x(i64::MAX, -1, u64::MAX), i64::MAX);
    assert_eq!(move_x(i64::MIN, 1, u64::MAX), i64::MIN);
}

#[test]
fn jump_on_the_ground_adds_jump_speed() {
    let mut p = player(120_000, -3_000, true);
    apply_event(&mut p, MovementEvent::Jump, 16_000);
    assert_eq!(p.velocity, Velocity { x: 120_000, y: -3_000 + 10_000_000 });
    assert!(p.grounded);
}

#[test]
fn jump_in_the_air_does_nothing() {
    let before = player(120_000, -3_000, false);
    let mut p = before;
    apply_event(&mut p, MovementEvent::Jump, 16_000);
    assert_eq!(p, before);
}

#[test]
fn move_event_leaves_vertical_speed() {
    let mut p = player(0, 777, false);
    apply_event(&mut p, MovementEvent::Move(1), 2_000);
    assert_eq!(p.velocity, Velocity { x: 60_000, y: 777 });
    assert!(!p.grounded);
}

#[test]
fn events_apply_in_order() {
    let mut p = player(0, 0, true);
    let events = vec![MovementEvent::Move(1), MovementEvent::Jump, MovementEvent::Move(-1)];
    move_playable(&mut p, &events, 1_000);
    assert_eq!(p.velocity, Velocity { x: 0, y: 10_000_000 });

    let mut q = player(190_000, 0, false);
    let events = vec![MovementEvent::Move(1), MovementEvent::Move(-1)];
    move_playable(&mut q, &events, 1_000);
    assert_eq!(q.velocity, Velocity { x: 170_000, y: 0 });
}

#[test]
fn jumps_in_one_tick_stack() {
    let mut p = player(0, 5, true);
    move_playable(&mut p, &vec![MovementEvent::Jump, MovementEvent::Jump], 16_000);
    assert_eq!(p.velocity, Velocity { x: 0, y: 20_000_005 });

    let mut q = player(0, 5, false);
    move_playable(&mut q, &vec![MovementEvent::Jump, MovementEvent::Jump], 16_000);
    assert_eq!(q.velocity, Velocity { x: 0, y: 5 });
}

#[test]
fn empty_queue_changes_nothing() {
    let before = player(-42, 42, true);
    let mut p = before;
    move_playable(&mut p, &Vec::new(), 16_000);
    assert_eq!(p, before);
}

#[test]
fn jump_reaches_the_largest_speed() {
    let mut p = player(0, i64::MAX - JUMP_SPEED, true);
    apply_event(&mut p, MovementEvent::Jump, 0);
    assert_eq!(p.velocity.y, i64::MAX);
}

#[test]
fn queue_fits_while_there_is_room_for_its_jumps() {
    let jump = MovementEvent::Jump;
    let step = MovementEvent::Move(1);
    let high = player(0, i64::MAX - JUMP_SPEED, true);
    assert!(events_fit(&high, &vec![]));
    assert!(events_fit(&high, &vec![jump]));
    assert!(events_fit(&high, &vec![step, jump, step]));
    assert!(!events_fit(&high, &vec![jump, jump]));
    assert!(!events_fit(&high, &vec![jump, step, jump]));
    let higher = player(0, i64::MAX - JUMP_SPEED + 1, true);
    assert!(!events_fit(&higher, &vec![jump]));
    assert!(events_fit(&higher, &vec![step, step]));
    let falling = player(0, i64::MAX, false);
    assert!(events_fit(&falling, &vec![jump, jump, jump]));
    let low = player(i64::MIN, i64::MIN, true);
    assert!(events_fit(&low, &vec![jump, step, jump]));
}

#[test]
fn no_contact_means_not_grounded() {
    assert!(!is_grounded(0, &Vec::new()));
    let mut p = player(0, 0, true);
    detect_grounded(&mut p, 1_000_000, &Vec::new());
    assert!(!p.grounded);
    let mut q = player(0, 0, false);
    detect_grounded(&mut q, i64::MIN, &Vec::new());
    assert!(!q.grounded);
}

#[test]
fn contact_below_grounds() {
    assert!(is_grounded(0, &vec![Some(-400_000)]));
    assert!(is_grounded(0, &vec![Some(5), Some(-1)]));
    assert!(is_grounded(i64::MAX, &vec![Some(i64::MAX - 1)]));
    let mut p = player(7, 8, false);
    detect_grounded(&mut p, -383_000, &vec![Some(-400_000)]);
    assert!(p.grounded);
    assert_eq!(p.velocity, Velocity { x: 7, y: 8 });
}

#[test]
fn contact_level_or_above_does_not_ground() {
    assert!(!is_grounded(0, &vec![Some(0)]));
    assert!(!is_grounded(0, &vec![Some(1), Some(400_000)]));
    assert!(!is_grounded(i64::MIN, &vec![Some(i64::MIN)]));
    let mut p = player(0, 0, true);
    detect_grounded(&mut p, 10, &vec![Some(10), Some(11)]);
    assert!(!p.grounded);
}

#[test]
fn unknown_contact_is_skipped() {
    assert!(!is_grounded(0, &vec![None]));
    assert!(!is_grounded(0, &vec![None, Some(3), None]));
    assert!(is_grounded(0, &vec![None, Some(-3), None]));
}

#[test]
fn scale_rounds_toward_zero() {
    assert_eq!(scale(50_000, 92), 46_000);
    assert_eq!(scale(123_457, 92), 113_580);
    assert_eq!(scale(-123_457, 92), -113_580);
    assert_eq!(scale(1, 92), 0);
    assert_eq!(scale(-1, 92), 0);
    assert_eq!(scale(50_001, 92), 46_000);
    assert_eq!(scale(-50_001, 92), -46_000);
    assert_eq!(scale(99, 0), 0);
    assert_eq!(scale(-99, 100), -99);
    assert_eq!(scale(i64::MAX, 100), i64::MAX);
    assert_eq!(scale(i64::MIN, 100), i64::MIN);
    assert_eq!(scale(i64::MIN, 50), i64::MIN / 2);
    assert_eq!(scale(i64::MAX, 92), 8_485_502_273_906_393_742);
}

#[test]
fn friction_stops_slow_grounded_player() {
    for x in [190_000i64, -190_000, 189_999, 1, -1, 0, 50_000] {
        let mut p = player(x, 123, true);
        apply_movement_damping(&mut p);
        assert_eq!(p.velocity, Velocity { x: 0, y: 123 });
        assert!(p.grounded);
    }
}

#[test]
fn fast_grounded_player_is_scaled() {
    let mut p = player(190_001, 0, true);
    apply_movement_damping(&mut p);
    assert_eq!(p.velocity.x, 174_800);
    let mut q = player(-200_000, 9, true);
    apply_movement_damping(&mut q);
    assert_eq!(q.velocity, Velocity { x: -184_000, y: 9 });
}

#[test]
fn airborne_player_is_scaled() {
    let mut p = player(50_000, -77, false);
    apply_movement_damping(&mut p);
    assert_eq!(p.velocity, Velocity { x: 46_000, y: -77 });
    let mut q = player(-100, 0, false);
    apply_movement_damping(&mut q);
    assert_eq!(q.velocity.x, -92);
    let mut r = player(1, 0, false);
    apply_movement_damping(&mut r);
    assert_eq!(r.velocity.x, 0);
}

#[test]
fn damping_uses_the_players_factor() {
    let mut p = player(1_000, 0, false);
    p.damping = MovementDampingFactor::new(50).unwrap();
    apply_movement_damping(&mut p);
    assert_eq!(p.velocity.x, 500);
    assert_eq!(p.damping.percent(), 50);
    let mut q = player(1_000, 0, false);
    q.damping = MovementDampingFactor::new(100).unwrap();
    apply_movement_damping(&mut q);
    assert_eq!(q.velocity.x, 1_000);
    let mut r = player(-1_000, 0, false);
    r.damping = MovementDampingFactor::new(0).unwrap();
    apply_movement_damping(&mut r);
    assert_eq!(r.velocity.x, 0);
}

#[test]
fn damping_factor_is_at_most_one() {
    assert_eq!(MovementDampingFactor::new(0).map(|f| f.percent()), Some(0));
    assert_eq!(MovementDampingFactor::new(92).map(|f| f.percent()), Some(92));
    assert_eq!(MovementDampingFactor::new(100).map(|f| f.percent()), Some(100));
    assert_eq!(MovementDampingFactor::new(101), None);
    assert_eq!(MovementDampingFactor::new(255), None);
}

#[test]
fn player_is_spawned_at_rest() {
    let p = spawn_player();
    assert_eq!(p.velocity, Velocity { x: 0, y: 0 });
    assert!(!p.grounded);
    assert_eq!(p.damping.percent(), 92);
}

#[test]
fn scene_bodies_have_their_shapes() {
    assert_eq!(
        player_body(),
        Body { kind: BodyKind::Dynamic, width: 22_000, height: 34_000, x: 0, y: 0 }
    );
    assert_eq!(
        spawn_floor(),
        Body { kind: BodyKind::Static, width: 3_000_000, height: 30_000, x: 0, y: -400_000 }
    );
}
