use breakout_core::geometry::{Aabb, Circle, Point};

fn unit_box() -> Aabb {
    Aabb::new(Point::new(0, 0), 1, 1)
}

#[test]
fn new_keeps_what_it_is_given() {
    assert_eq!(Point::new(3, -4), Point { x: 3, y: -4 });
    assert_eq!(
        Aabb::new(Point::new(1, 2), 3, 4),
        Aabb { center: Point { x: 1, y: 2 }, half_width: 3, half_height: 4 }
    );
    assert_eq!(
        Circle::new(Point::new(1, 2), 3),
        Circle { center: Point { x: 1, y: 2 }, radius: 3 }
    );
}

#[test]
fn closest_point_of_an_outside_point_lies_on_the_edge() {
    assert_eq!(unit_box().closest_point(Point::new(10, 0)), Point::new(1, 0));
    assert_eq!(unit_box().closest_point(Point::new(0, -10)), Point::new(0, -1));
}

#[test]
fn closest_point_beyond_a_corner_is_the_corner() {
    assert_eq!(unit_box().closest_point(Point::new(-10, -10)), Point::new(-1, -1));
    assert_eq!(unit_box().closest_point(Point::new(7, 9)), Point::new(1, 1));
}

#[test]
fn closest_point_of_an_inside_point_is_the_point() {
    let b = Aabb::new(Point::new(100, 100), 32, 32);
    assert_eq!(b.closest_point(Point::new(90, 120)), Point::new(90, 120));
    assert_eq!(b.closest_point(Point::new(132, 68)), Point::new(132, 68));
}

#[test]
fn closest_point_of_a_box_off_centre() {
    let b = Aabb::new(Point::new(40, -20), 32, 8);
    assert_eq!(b.closest_point(Point::new(0, 0)), Point::new(8, -12));
    assert_eq!(b.closest_point(Point::new(100, -100)), Point::new(72, -28));
}

#[test]
fn closest_point_at_the_ends_of_the_grid() {
    let b = Aabb::new(Point::new(i64::MAX, i64::MIN), u32::MAX, u32::MAX);
    assert_eq!(
        b.closest_point(Point::new(i64::MIN, i64::MAX)),
        Point::new(i64::MAX - u32::MAX as i64, i64::MIN + u32::MAX as i64)
    );
    assert_eq!(
        b.closest_point(Point::new(i64::MAX, i64::MIN)),
        Point::new(i64::MAX, i64::MIN)
    );
}

#[test]
fn a_circle_that_touches_a_box_intersects_it() {
    let b = Aabb::new(Point::new(0, 0), 10, 10);
    assert!(Circle::new(Point::new(15, 0), 5).intersects(&b));
    assert!(!Circle::new(Point::new(16, 0), 5).intersects(&b));
}

#[test]
fn a_circle_near_a_corner_is_measured_along_the_diagonal() {
    let b = Aabb::new(Point::new(0, 0), 10, 10);
    // The corner is (10, 10); (13, 14) lies 5 away from it.
    assert!(Circle::new(Point::new(13, 14), 5).intersects(&b));
    // (14, 14) lies sqrt(32) away, which is more than 5 though each axis is within 5.
    assert!(!Circle::new(Point::new(14, 14), 5).intersects(&b));
}

#[test]
fn a_circle_whose_centre_is_inside_intersects_whatever_its_radius() {
    let b = Aabb::new(Point::new(0, 0), 10, 10);
    assert!(Circle::new(Point::new(3, -7), 0).intersects(&b));
    assert!(Circle::new(Point::new(10, 10), 0).intersects(&b));
    assert!(!Circle::new(Point::new(11, 10), 0).intersects(&b));
}

#[test]
fn intersects_at_the_ends_of_the_grid() {
    let b = Aabb::new(Point::new(i64::MIN, 0), 0, 0);
    assert!(!Circle::new(Point::new(i64::MAX, 0), u32::MAX).intersects(&b));
    let near = Aabb::new(Point::new(i64::MAX - u32::MAX as i64, 0), 0, 0);
    assert!(Circle::new(Point::new(i64::MAX, 0), u32::MAX).intersects(&near));
}
