use breakout_core::geometry::Point;
use breakout_core::motion::Velocity;
use breakout_core::player::{direction, move_square, paddle_velocity, Direction, Keys};

fn keys(left: bool, right: bool, up: bool, down: bool) -> Keys {
    Keys { left, right, up, down }
}

#[test]
fn no_key_gives_no_direction() {
    assert_eq!(Keys::none(), keys(false, false, false, false));
    assert_eq!(direction(Keys::none()), Direction { x: 0, y: 0 });
}

#[test]
fn each_key_gives_its_direction() {
    assert_eq!(direction(keys(true, false, false, false)), Direction { x: -1, y: 0 });
    assert_eq!(direction(keys(false, true, false, false)), Direction { x: 1, y: 0 });
    assert_eq!(direction(keys(false, false, true, false)), Direction { x: 0, y: 1 });
    assert_eq!(direction(keys(false, false, false, true)), Direction { x: 0, y: -1 });
}

#[test]
fn keys_on_both_axes_give_a_diagonal() {
    assert_eq!(direction(keys(true, false, true, false)), Direction { x: -1, y: 1 });
    assert_eq!(direction(keys(false, true, false, true)), Direction { x: 1, y: -1 });
}

#[test]
fn up_and_down_cancel() {
    assert_eq!(direction(keys(false, false, true, true)), Direction { x: 0, y: 0 });
    assert_eq!(direction(keys(true, false, true, true)), Direction { x: -1, y: 0 });
}

#[test]
fn right_overrides_left() {
    assert_eq!(direction(keys(true, true, false, false)), Direction { x: 1, y: 0 });
    assert_eq!(direction(keys(true, true, true, true)), Direction { x: 1, y: 0 });
}

#[test]
fn paddle_velocity_is_direction_times_speed() {
    assert_eq!(paddle_velocity(keys(true, false, false, true), 100), Velocity { x: -100, y: -100 });
    assert_eq!(paddle_velocity(Keys::none(), 100), Velocity { x: 0, y: 0 });
    assert_eq!(
        paddle_velocity(keys(false, true, true, false), u32::MAX),
        Velocity { x: u32::MAX as i64, y: u32::MAX as i64 }
    );
}

#[test]
fn the_paddle_moves_left_and_right_by_speed_times_time() {
    let start = Point::new(0, 100);
    let left = move_square(start, keys(true, false, false, false), 100, 2);
    assert_eq!(left, Some(Point::new(-200, 100)));
    let back = move_square(Point::new(-200, 100), keys(false, true, false, false), 100, 2);
    assert_eq!(back, Some(start));
    let further = move_square(start, keys(false, true, false, false), 100, 3);
    assert_eq!(further, Some(Point::new(300, 100)));
}

#[test]
fn the_paddle_is_not_held_back_at_the_edge_of_the_world() {
    // The world reaches 450 to either side; the paddle goes on.
    let out = move_square(Point::new(400, 100), keys(false, true, false, false), 100, 1);
    assert_eq!(out, Some(Point::new(500, 100)));
    let further = move_square(Point::new(500, 100), keys(false, true, true, false), 100, 10);
    assert_eq!(further, Some(Point::new(1500, 1100)));
    let back = move_square(Point::new(1500, 1100), keys(true, false, false, true), 100, 10);
    assert_eq!(back, out);
}

#[test]
fn the_paddle_stays_when_no_key_is_held() {
    let start = Point::new(-7, 9);
    assert_eq!(move_square(start, Keys::none(), 100, 16), Some(start));
    assert_eq!(move_square(start, keys(true, false, false, false), 100, 0), Some(start));
    assert_eq!(move_square(start, keys(true, false, false, false), 0, 16), Some(start));
}

#[test]
fn the_paddle_cannot_leave_the_grid() {
    let right = keys(false, true, false, false);
    let left = keys(true, false, false, false);
    assert_eq!(move_square(Point::new(i64::MAX, 0), right, 1, 1), None);
    assert_eq!(move_square(Point::new(i64::MAX, 0), left, 1, 1), Some(Point::new(i64::MAX - 1, 0)));
    assert_eq!(
        move_square(Point::new(i64::MAX, 0), Keys::none(), u32::MAX, u32::MAX),
        Some(Point::new(i64::MAX, 0))
    );
    assert_eq!(move_square(Point::new(0, i64::MIN), keys(false, false, false, true), 1, 1), None);
    assert_eq!(
        move_square(Point::new(0, i64::MAX - 10), keys(false, false, true, false), u32::MAX, u32::MAX),
        None
    );
}

#[test]
fn the_paddle_can_reach_the_last_point_of_the_grid() {
    let right = keys(false, true, false, false);
    assert_eq!(
        move_square(Point::new(i64::MAX - 6, 0), right, 3, 2),
        Some(Point::new(i64::MAX, 0))
    );
}
