use snake::centered_offset;
use snake::food_spawner;
use snake::position_translation;
use snake::random_food_position;
use snake::size_scaling;
use snake::snake_movement;
use snake::snake_movement_input;
use snake::spawn_food_timer;
use snake::spawn_movement_timer;
use snake::spawn_snake;
use snake::steer;
use snake::Direction;
use snake::Position;
use snake::Size;

#[test]
fn opposite_swaps_pairs() {
    assert_eq!(Direction::Left.opposite(), Direction::Right);
    assert_eq!(Direction::Right.opposite(), Direction::Left);
    assert_eq!(Direction::Up.opposite(), Direction::Down);
    assert_eq!(Direction::Down.opposite(), Direction::Up);
}

#[test]
fn steer_rejects_reversal_for_all_four() {
    assert_eq!(steer(Direction::Up, Direction::Down), Direction::Up);
    assert_eq!(steer(Direction::Down, Direction::Up), Direction::Down);
    assert_eq!(steer(Direction::Left, Direction::Right), Direction::Left);
    assert_eq!(steer(Direction::Right, Direction::Left), Direction::Right);
}

#[test]
fn steer_accepts_same_and_orthogonal() {
    assert_eq!(steer(Direction::Up, Direction::Up), Direction::Up);
    assert_eq!(steer(Direction::Up, Direction::Left), Direction::Left);
    assert_eq!(steer(Direction::Up, Direction::Right), Direction::Right);
    assert_eq!(steer(Direction::Left, Direction::Up), Direction::Up);
    assert_eq!(steer(Direction::Left, Direction::Down), Direction::Down);
    assert_eq!(steer(Direction::Left, Direction::Left), Direction::Left);
}

#[test]
fn input_priority_is_left_down_up_right() {
    let mut head = spawn_snake().0;
    head.direction = Direction::Up;
    snake_movement_input(&mut head, true, true, true, true);
    assert_eq!(head.direction, Direction::Left);
    let mut head2 = spawn_snake().0;
    head2.direction = Direction::Right;
    snake_movement_input(&mut head2, false, true, true, true);
    assert_eq!(head2.direction, Direction::Down);
    let mut head3 = spawn_snake().0;
    head3.direction = Direction::Right;
    snake_movement_input(&mut head3, false, false, true, true);
    assert_eq!(head3.direction, Direction::Up);
}

#[test]
fn input_without_keys_keeps_direction() {
    let mut head = spawn_snake().0;
    head.direction = Direction::Left;
    snake_movement_input(&mut head, false, false, false, false);
    assert_eq!(head.direction, Direction::Left);
}

#[test]
fn input_reversal_is_ignored() {
    let mut head = spawn_snake().0;
    head.direction = Direction::Up;
    snake_movement_input(&mut head, false, true, false, false);
    assert_eq!(head.direction, Direction::Up);
}

#[test]
fn input_left_then_down_from_up_ends_down() {
    let mut head = spawn_snake().0;
    assert_eq!(head.direction, Direction::Up);
    snake_movement_input(&mut head, true, false, false, false);
    assert_eq!(head.direction, Direction::Left);
    snake_movement_input(&mut head, false, true, false, false);
    assert_eq!(head.direction, Direction::Down);
}

#[test]
fn movement_steps_one_tile_with_wraparound() {
    let mut timer = spawn_movement_timer();
    let head = spawn_snake().0;
    let mut pos = Position { x: 9, y: 3 };
    let moved = snake_movement(&mut timer, 150_000, &head, &mut pos);
    assert!(moved);
    assert_eq!(pos, Position { x: 9, y: 4 });
    let mut pos2 = Position { x: 9, y: 9 };
    let moved2 = snake_movement(&mut timer, 150_000, &head, &mut pos2);
    assert!(moved2);
    assert_eq!(pos2, Position { x: 9, y: 0 });
}

#[test]
fn movement_before_timer_fires_leaves_position() {
    let mut timer = spawn_movement_timer();
    let head = spawn_snake().0;
    let mut pos = Position { x: 3, y: 3 };
    let moved = snake_movement(&mut timer, 100_000, &head, &mut pos);
    assert!(!moved);
    assert_eq!(pos, Position { x: 3, y: 3 });
    let moved2 = snake_movement(&mut timer, 50_000, &head, &mut pos);
    assert!(moved2);
    assert_eq!(pos, Position { x: 3, y: 4 });
}

#[test]
fn movement_wraps_to_negative_from_zero() {
    let mut timer = spawn_movement_timer();
    let mut head = spawn_snake().0;
    head.direction = Direction::Left;
    let mut pos = Position { x: 0, y: 0 };
    let moved = snake_movement(&mut timer, 150_000, &head, &mut pos);
    assert!(moved);
    assert_eq!(pos, Position { x: -1, y: 0 });
    let moved2 = snake_movement(&mut timer, 150_000, &head, &mut pos);
    assert!(moved2);
    assert_eq!(pos, Position { x: -2, y: 0 });
}

#[test]
fn repeated_movement_stays_inside_wrap_band() {
    for start in [-9i32, -5, 0, 3, 9] {
        for dir in [Direction::Left, Direction::Right, Direction::Up, Direction::Down] {
            let mut timer = spawn_movement_timer();
            let mut head = spawn_snake().0;
            head.direction = dir;
            let mut pos = Position { x: start, y: start };
            for _ in 0..100 {
                let moved = snake_movement(&mut timer, 150_000, &head, &mut pos);
                assert!(moved);
                assert!(-9 <= pos.x && pos.x <= 9);
                assert!(-9 <= pos.y && pos.y <= 9);
            }
        }
    }
}

#[test]
fn centered_offset_exact_values() {
    assert_eq!(centered_offset(0, 10), -5);
    assert_eq!(centered_offset(7, 10), 2);
    assert_eq!(centered_offset(15, 10), 0);
    assert_eq!(centered_offset(9, 10), 4);
    assert_eq!(centered_offset(u32::MAX, 10), 0);
}

#[test]
fn random_food_positions_stay_in_centered_bounds() {
    for _ in 0..10_000 {
        let p = random_food_position();
        assert!(-5 <= p.x && p.x < 5);
        assert!(-5 <= p.y && p.y < 5);
    }
}

#[test]
fn food_spawner_fires_once_per_second() {
    let mut timer = spawn_food_timer();
    let none = food_spawner(&mut timer, 400_000);
    assert!(none.is_none());
    let some = food_spawner(&mut timer, 700_000);
    let (_food, pos, size) = some.expect("timer fired after a full second");
    assert!(-5 <= pos.x && pos.x < 5);
    assert!(-5 <= pos.y && pos.y < 5);
    assert_eq!(size.width, 8);
    assert_eq!(size.height, 8);
    let again = food_spawner(&mut timer, 100_000);
    assert!(again.is_none());
}

#[test]
fn spawn_snake_initial_state() {
    let (head, pos, size) = spawn_snake();
    assert_eq!(head.direction, Direction::Up);
    assert_eq!(pos, Position { x: 3, y: 3 });
    assert_eq!(size.width, 8);
    assert_eq!(size.height, 8);
}

#[test]
fn timers_have_documented_periods() {
    let food = spawn_food_timer();
    assert_eq!(food.timer.period_micros, 1_000_000);
    assert_eq!(food.timer.elapsed_micros, 0);
    let movement = spawn_movement_timer();
    assert_eq!(movement.timer.period_micros, 150_000);
    assert_eq!(movement.timer.elapsed_micros, 0);
}

#[test]
fn timer_keeps_overshoot_on_firing() {
    let mut timer = spawn_food_timer();
    let fired = timer.timer.tick(2_300_000);
    assert!(fired);
    assert_eq!(timer.timer.elapsed_micros, 300_000);
}

#[test]
fn translation_exact_values() {
    // In hundredths of a pixel for the 10-tile arena on a 500-pixel window:
    // grid 3 maps to pixel 170, grid 0 to pixel 20.
    assert_eq!(position_translation(3, 500, 10), 17_000);
    assert_eq!(position_translation(0, 500, 10), 2_000);
    assert_eq!(position_translation(-5, 500, 10), -23_000);
}

#[test]
fn translation_is_reproducible() {
    let a = position_translation(7, 500, 10);
    let b = position_translation(7, 500, 10);
    assert_eq!(a, b);
}

#[test]
fn translation_is_linear_in_the_grid_coordinate() {
    let slope = 10 * 500;
    for p in -10i32..10 {
        let here = position_translation(p, 500, 10);
        let next = position_translation(p + 1, 500, 10);
        assert_eq!(next - here, slope);
    }
}

#[test]
fn scaling_exact_values() {
    // An eight-tenths-of-a-tile sprite on a 500 by 400 window scales to
    // 40 by 32 pixels, reported in hundredths of a pixel.
    let s = size_scaling(&Size::square(8), 500, 400);
    assert_eq!(s, (4_000, 3_200));
}
