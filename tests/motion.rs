use tile_motion::{
    can_translate, can_turn, has_arrow_input, keyboard_input, move_player, pressed_direction,
    shortest_turn, tick, turn_player, Actor, Arrows, Direction, Moving, Player, Position,
    Rotating, FULL_TURN, HALF_TURN, QUARTER_TURN, TILE,
};

fn keys(left: bool, right: bool, up: bool, down: bool) -> Arrows {
    Arrows { left, right, up, down }
}

fn none() -> Arrows {
    keys(false, false, false, false)
}

fn only(d: Direction) -> Arrows {
    match d {
        Direction::Left => keys(true, false, false, false),
        Direction::Right => keys(false, true, false, false),
        Direction::Up => keys(false, false, true, false),
        Direction::Down => keys(false, false, false, true),
    }
}

#[test]
fn direction_angles() {
    assert_eq!(Direction::Right.index(), 0);
    assert_eq!(Direction::Up.index(), 1);
    assert_eq!(Direction::Left.index(), 2);
    assert_eq!(Direction::Down.index(), 3);
    assert_eq!(Direction::Right.angle(), 0);
    assert_eq!(Direction::Up.angle(), QUARTER_TURN);
    assert_eq!(Direction::Left.angle(), HALF_TURN);
    assert_eq!(Direction::Down.angle(), 3 * QUARTER_TURN);
}

#[test]
fn arrow_input_detected() {
    assert!(!has_arrow_input(&none()));
    assert!(has_arrow_input(&only(Direction::Left)));
    assert!(has_arrow_input(&only(Direction::Right)));
    assert!(has_arrow_input(&only(Direction::Up)));
    assert!(has_arrow_input(&only(Direction::Down)));
}

#[test]
fn priority_left_right_up_down() {
    assert_eq!(pressed_direction(&keys(true, true, true, true)), Some(Direction::Left));
    assert_eq!(pressed_direction(&keys(false, true, true, true)), Some(Direction::Right));
    assert_eq!(pressed_direction(&keys(false, false, true, true)), Some(Direction::Up));
    assert_eq!(pressed_direction(&keys(false, false, false, true)), Some(Direction::Down));
    assert_eq!(pressed_direction(&none()), None);
}

#[test]
fn no_input_is_no_op() {
    let mut a = Actor::spawn(Direction::Up);
    let before = a;
    keyboard_input(&none(), &mut a);
    assert_eq!(a, before);
}

#[test]
fn input_starts_step_and_turn() {
    let mut a = Actor::spawn(Direction::Up);
    keyboard_input(&keys(false, true, false, true), &mut a);
    assert_eq!(a.moving, Some(Moving { distance: TILE, direction: Direction::Right }));
    assert_eq!(a.rotating, Some(Rotating { direction: 0 }));
    assert_eq!(a.player, Player { direction: QUARTER_TURN });
    assert_eq!(a.position, Position { x: 0, z: 0 });
}

#[test]
fn no_turn_when_already_facing() {
    let mut a = Actor::spawn(Direction::Up);
    keyboard_input(&only(Direction::Up), &mut a);
    assert_eq!(a.moving, Some(Moving { distance: TILE, direction: Direction::Up }));
    assert_eq!(a.rotating, None);
}

#[test]
fn input_ignored_while_moving() {
    let mut a = Actor::spawn(Direction::Up);
    keyboard_input(&only(Direction::Left), &mut a);
    move_player(1_000, &mut a);
    let during = a;
    for d in [Direction::Left, Direction::Right, Direction::Up, Direction::Down] {
        keyboard_input(&only(d), &mut a);
        assert_eq!(a, during);
    }
    keyboard_input(&keys(true, true, true, true), &mut a);
    assert_eq!(a, during);
}

#[test]
fn translation_partial_then_exact() {
    let mut a = Actor::spawn(Direction::Right);
    keyboard_input(&only(Direction::Down), &mut a);
    move_player(150_000, &mut a);
    assert_eq!(a.position, Position { x: 0, z: 150_000 });
    assert_eq!(a.moving, Some(Moving { distance: 250_000, direction: Direction::Down }));
    move_player(300_000, &mut a);
    assert_eq!(a.position, Position { x: 0, z: TILE as i64 });
    assert_eq!(a.moving, None);
    move_player(300_000, &mut a);
    assert_eq!(a.position, Position { x: 0, z: TILE as i64 });
}

#[test]
fn translation_exact_remaining_ends_step() {
    let mut a = Actor::spawn(Direction::Up);
    keyboard_input(&only(Direction::Up), &mut a);
    move_player(TILE, &mut a);
    assert_eq!(a.position, Position { x: 0, z: -(TILE as i64) });
    assert_eq!(a.moving, None);
}

#[test]
fn translation_completes_over_jittery_samples() {
    for d in [Direction::Left, Direction::Right, Direction::Up, Direction::Down] {
        let mut a = Actor::spawn(Direction::Right);
        keyboard_input(&only(d), &mut a);
        for e in [16_667u64, 8_000, 33_333, 0, 120_001, 99_999, 16_667, 250_000] {
            move_player(e, &mut a);
        }
        assert_eq!(a.moving, None);
        let t = TILE as i64;
        let expected = match d {
            Direction::Left => Position { x: -t, z: 0 },
            Direction::Right => Position { x: t, z: 0 },
            Direction::Up => Position { x: 0, z: -t },
            Direction::Down => Position { x: 0, z: t },
        };
        assert_eq!(a.position, expected);
    }
}

#[test]
fn zero_elapsed_makes_no_progress() {
    let mut a = Actor::spawn(Direction::Up);
    keyboard_input(&only(Direction::Right), &mut a);
    let before = a;
    move_player(0, &mut a);
    turn_player(0, &mut a);
    assert_eq!(a, before);
}

#[test]
fn shortest_turn_down_after_right() {
    assert_eq!(shortest_turn(0, 3 * QUARTER_TURN), -QUARTER_TURN);
    assert_eq!(shortest_turn(3 * QUARTER_TURN, 0), QUARTER_TURN);
    assert_eq!(shortest_turn(QUARTER_TURN, HALF_TURN), QUARTER_TURN);
    assert_eq!(shortest_turn(5 * FULL_TURN + 1, 0), -1);
}

#[test]
fn half_turn_goes_positive() {
    assert_eq!(shortest_turn(0, HALF_TURN), HALF_TURN);
    assert_eq!(shortest_turn(HALF_TURN, 0), HALF_TURN);
    assert_eq!(shortest_turn(QUARTER_TURN, 3 * QUARTER_TURN), HALF_TURN);
}

#[test]
fn rotation_turns_the_short_way() {
    let mut a = Actor::spawn(Direction::Right);
    keyboard_input(&only(Direction::Down), &mut a);
    assert_eq!(a.rotating, Some(Rotating { direction: 3 * QUARTER_TURN }));
    turn_player(100_000, &mut a);
    assert_eq!(a.player.direction, -300_000);
    assert_eq!(a.rotating, Some(Rotating { direction: 3 * QUARTER_TURN }));
    turn_player(100_000, &mut a);
    assert_eq!(a.player.direction, -600_000);
    turn_player(200_000, &mut a);
    assert_eq!(a.player.direction, 3 * QUARTER_TURN);
    assert_eq!(a.rotating, None);
}

#[test]
fn rotation_completes_exactly_over_jittery_samples() {
    let mut a = Actor::spawn(Direction::Up);
    a.rotating = Some(Rotating { direction: -123_457 });
    for e in [1_111u64, 40_000, 7, 100_000, 33_333, 250_000, 250_000] {
        turn_player(e, &mut a);
    }
    assert_eq!(a.player.direction, -123_457);
    assert_eq!(a.rotating, None);
}

#[test]
fn unreduced_angle_snaps_to_target() {
    let mut a = Actor::spawn(Direction::Right);
    a.player.direction = FULL_TURN;
    keyboard_input(&only(Direction::Right), &mut a);
    assert_eq!(a.rotating, Some(Rotating { direction: 0 }));
    turn_player(0, &mut a);
    assert_eq!(a.player.direction, 0);
    assert_eq!(a.rotating, None);
}

#[test]
fn scenario_up_then_left_in_one_long_tick() {
    let mut a = Actor::spawn(Direction::Up);
    assert_eq!(a.player.direction, QUARTER_TURN);
    assert!(tick(&only(Direction::Left), 10_000_000, &mut a));
    assert_eq!(a.position, Position { x: -(TILE as i64), z: 0 });
    assert_eq!(a.player.direction, HALF_TURN);
    assert_eq!(a.moving, None);
    assert_eq!(a.rotating, None);
}

#[test]
fn split_samples_match_one_sample() {
    let mut whole = Actor::spawn(Direction::Up);
    keyboard_input(&only(Direction::Down), &mut whole);
    let mut split = whole;
    tick(&none(), 600_000, &mut whole);
    for e in [100_000u64, 50_000, 25_000, 125_000, 300_000] {
        tick(&none(), e, &mut split);
    }
    assert_eq!(whole, split);

    let mut whole = Actor::spawn(Direction::Right);
    keyboard_input(&only(Direction::Left), &mut whole);
    let mut split = whole;
    tick(&none(), 300_000, &mut whole);
    for e in [100_000u64, 0, 150_000, 50_000] {
        tick(&none(), e, &mut split);
    }
    assert_eq!(whole, split);
    assert_eq!(whole.player.direction, 900_000);
    assert_eq!(whole.position, Position { x: -300_000, z: 0 });
}

#[test]
fn tick_refuses_out_of_range_step() {
    let mut a = Actor::spawn(Direction::Right);
    a.position.x = i64::MAX - 10;
    let before = a;
    assert!(!tick(&only(Direction::Right), 1_000, &mut a));
    assert_eq!(a, before);
    keyboard_input(&only(Direction::Right), &mut a);
    assert!(!can_translate(&a));
    a.position.x = 0;
    assert!(can_translate(&a));
}

#[test]
fn turn_range_checked() {
    let mut a = Actor::spawn(Direction::Right);
    a.player.direction = i64::MAX;
    a.rotating = Some(Rotating { direction: 0 });
    assert!(!can_turn(&a));
    a.player.direction = 0;
    a.rotating = Some(Rotating { direction: QUARTER_TURN });
    assert!(can_turn(&a));
}

#[test]
fn press_during_unfinished_turn_keeps_turn() {
    let mut a = Actor::spawn(Direction::Right);
    keyboard_input(&only(Direction::Left), &mut a);
    assert_eq!(a.rotating, Some(Rotating { direction: HALF_TURN }));
    tick(&none(), TILE, &mut a);
    assert_eq!(a.moving, None);
    assert_eq!(a.player.direction, 1_200_000);
    assert_eq!(a.rotating, Some(Rotating { direction: HALF_TURN }));
    keyboard_input(&only(Direction::Up), &mut a);
    assert_eq!(a.moving, Some(Moving { distance: TILE, direction: Direction::Up }));
    assert_eq!(a.rotating, Some(Rotating { direction: HALF_TURN }));
    assert_eq!(a.player.direction, 1_200_000);
    tick(&none(), 1_000_000, &mut a);
    assert_eq!(a.player.direction, HALF_TURN);
    assert_eq!(a.rotating, None);
    assert_eq!(a.position, Position { x: -(TILE as i64), z: -(TILE as i64) });
}
