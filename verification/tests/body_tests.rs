use collision_detect::body::{Body, Visual};
use collision_detect::rect::Rect;

fn image() -> Visual {
    Visual { id: 3, width: 32, height: 48 }
}

#[test]
fn new_body_stands_at_the_origin() {
    let body = Body::new(image());
    assert_eq!(body.position(), (0, 0));
    assert_eq!(body.visual, image());
    assert_eq!(body, Body { visual: image(), x: 0, y: 0 });
}

#[test]
fn with_pos_puts_the_body_there() {
    let body = Body::with_pos(image(), (500, -400));
    assert_eq!(body.position(), (500, -400));
    assert_eq!(body.x, 500);
    assert_eq!(body.y, -400);
    assert_eq!(body.visual, image());
}

#[test]
fn bounds_are_the_image_size_at_the_position() {
    let at_origin = Body::new(image());
    assert_eq!(at_origin.global_bounds(), Rect::new(0, 0, 32, 48));
    let elsewhere = Body::with_pos(image(), (-7, 9));
    assert_eq!(elsewhere.global_bounds(), Rect::new(-7, 9, 32, 48));
}

#[test]
fn bounds_follow_the_body() {
    let mut body = Body::with_pos(image(), (10, 10));
    body.move_((5, -20));
    assert_eq!(body.global_bounds(), Rect::new(15, -10, 32, 48));
    body.set_position((100, 200));
    assert_eq!(body.global_bounds(), Rect::new(100, 200, 32, 48));
}

#[test]
fn set_position_replaces_the_position() {
    let mut body = Body::with_pos(image(), (1, 2));
    body.set_position((-30, 40));
    assert_eq!(body.position(), (-30, 40));
    assert_eq!(body.visual, image());
}

#[test]
fn move_adds_the_offset() {
    let mut body = Body::with_pos(image(), (10, 20));
    body.move_((3, -4));
    assert_eq!(body.position(), (13, 16));
    body.move_((0, 0));
    assert_eq!(body.position(), (13, 16));
    body.move_((-13, -16));
    assert_eq!(body.position(), (0, 0));
    assert_eq!(body.visual, image());
}

#[test]
fn two_moves_equal_one_move_by_the_sum() {
    let offsets: Vec<((i32, i32), (i32, i32))> = vec![
        ((1, 2), (3, 4)),
        ((-80, 0), (80, 0)),
        ((5, -5), (-20, 20)),
        ((0, 0), (7, -7)),
        ((1000000, -1000000), (-999999, 999999)),
    ];
    for (first, second) in offsets {
        let mut stepwise = Body::with_pos(image(), (500, 400));
        stepwise.move_(first);
        stepwise.move_(second);
        let mut at_once = Body::with_pos(image(), (500, 400));
        at_once.move_((first.0 + second.0, first.1 + second.1));
        assert_eq!(stepwise, at_once);
    }
}

#[test]
fn move_stops_at_the_ends_of_the_coordinate_range() {
    let mut body = Body::with_pos(image(), (i32::MAX - 1, i32::MIN + 1));
    body.move_((5, -5));
    assert_eq!(body.position(), (i32::MAX, i32::MIN));
    body.move_((i32::MAX, i32::MIN));
    assert_eq!(body.position(), (i32::MAX, i32::MIN));
    let mut other = Body::with_pos(image(), (i32::MIN, i32::MAX));
    other.move_((i32::MIN, i32::MAX));
    assert_eq!(other.position(), (i32::MIN, i32::MAX));
    other.move_((i32::MAX, i32::MIN));
    assert_eq!(other.position(), (-1, -1));
}

#[test]
fn move_back_from_a_range_end_starts_at_the_end() {
    let mut stepwise = Body::with_pos(image(), (i32::MAX, 0));
    stepwise.move_((1, 0));
    stepwise.move_((-1, 0));
    assert_eq!(stepwise.position(), (i32::MAX - 1, 0));
    let mut at_once = Body::with_pos(image(), (i32::MAX, 0));
    at_once.move_((0, 0));
    assert_eq!(at_once.position(), (i32::MAX, 0));
}

#[test]
fn moves_past_a_range_end_in_one_direction_add_up() {
    let mut stepwise = Body::with_pos(image(), (i32::MAX - 2, 0));
    stepwise.move_((5, 0));
    stepwise.move_((5, 0));
    let mut at_once = Body::with_pos(image(), (i32::MAX - 2, 0));
    at_once.move_((10, 0));
    assert_eq!(stepwise, at_once);
    assert_eq!(stepwise.position(), (i32::MAX, 0));
}
