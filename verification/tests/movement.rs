use snake::direction::Direction;
use snake::entity::Entity;
use snake::geometry::{Color, Position, Rect};
use snake::snake::Snake;

fn green() -> Color {
    Color { r: 0, g: 255, b: 0, a: 255 }
}

fn full_viewport() -> Rect {
    Rect { left: 0, top: 0, width: 400, height: 400 }
}

#[test]
fn opposite_pairs() {
    assert!(Direction::Left.is_opposite_to(&Some(Direction::Right)));
    assert!(Direction::Right.is_opposite_to(&Some(Direction::Left)));
    assert!(Direction::Up.is_opposite_to(&Some(Direction::Down)));
    assert!(Direction::Down.is_opposite_to(&Some(Direction::Up)));
}

#[test]
fn no_direction_opposite_to_itself() {
    assert!(!Direction::Left.is_opposite_to(&Some(Direction::Left)));
    assert!(!Direction::Right.is_opposite_to(&Some(Direction::Right)));
    assert!(!Direction::Up.is_opposite_to(&Some(Direction::Up)));
    assert!(!Direction::Down.is_opposite_to(&Some(Direction::Down)));
}

#[test]
fn nothing_is_opposite_to_none() {
    assert!(!Direction::Left.is_opposite_to(&None));
    assert!(!Direction::Up.is_opposite_to(&None));
    assert!(!Direction::Right.is_opposite_to(&None));
    assert!(!Direction::Down.is_opposite_to(&None));
}

#[test]
fn advance_without_direction_moves_nothing() {
    let mut player = Snake::new(Position { x: 120, y: 80 }, 40, green());
    player.grow();
    player.advance(full_viewport());
    assert_eq!(player.segments.len(), 2);
    assert_eq!(player.segments[0].position, Position { x: 120, y: 80 });
    assert_eq!(player.segments[1].position, Position { x: 120, y: 80 });
    assert_eq!(player.direction, None);
}

#[test]
fn advance_moves_head_one_cell_right() {
    // viewport 400x400 at the origin, entity size 40, head at (0,0)
    let mut player = Snake::new(Position { x: 0, y: 0 }, 40, green());
    player.next_direction = Some(Direction::Right);
    player.advance(full_viewport());
    assert_eq!(player.segments.len(), 1);
    assert_eq!(player.head_position(), Position { x: 40, y: 0 });
    assert_eq!(player.direction, Some(Direction::Right));
}

#[test]
fn advance_wraps_around_the_right_edge() {
    // head on the rightmost column: (380 + 40) mod 400 = 20
    let mut player = Snake::new(Position { x: 380, y: 0 }, 40, green());
    player.next_direction = Some(Direction::Right);
    player.advance(full_viewport());
    assert_eq!(player.head_position(), Position { x: 20, y: 0 });
}

#[test]
fn advance_wraps_with_offset_origin() {
    // the wrap must use the viewport origin, not the window edge
    let viewport = Rect { left: 40, top: 80, width: 320, height: 280 };
    let mut player = Snake::new(Position { x: 40, y: 80 }, 40, green());
    player.next_direction = Some(Direction::Up);
    player.advance(viewport);
    assert_eq!(player.head_position(), Position { x: 40, y: 320 });
}

#[test]
fn advance_recycles_the_tail_as_new_head() {
    let mut player = Snake::new(Position { x: 80, y: 80 }, 40, green());
    player.segments.push_back(Entity::new(40, Position { x: 40, y: 80 }, green()));
    player.segments.push_back(Entity::new(40, Position { x: 0, y: 80 }, green()));
    player.next_direction = Some(Direction::Down);
    player.advance(full_viewport());
    assert_eq!(player.segments.len(), 3);
    // the head moved one cell down, the others shifted back by one
    assert_eq!(player.segments[0].position, Position { x: 80, y: 120 });
    assert_eq!(player.segments[1].position, Position { x: 80, y: 80 });
    assert_eq!(player.segments[2].position, Position { x: 40, y: 80 });
}

#[test]
fn single_segment_snake_never_self_collides() {
    let mut player = Snake::new(Position { x: 0, y: 0 }, 40, green());
    assert!(!player.self_collision());
    player.next_direction = Some(Direction::Left);
    player.advance(full_viewport());
    assert!(!player.self_collision());
}

#[test]
fn grow_appends_a_segment_at_the_head_position() {
    let mut player = Snake::new(Position { x: 160, y: 200 }, 40, green());
    player.grow();
    assert_eq!(player.segments.len(), 2);
    assert_eq!(player.segments[1].position, Position { x: 160, y: 200 });
    player.grow();
    assert_eq!(player.segments.len(), 3);
    assert_eq!(player.segments[2].position, Position { x: 160, y: 200 });
}

#[test]
fn reset_keeps_only_the_head_and_clears_directions() {
    let mut player = Snake::new(Position { x: 0, y: 0 }, 40, green());
    player.next_direction = Some(Direction::Right);
    player.advance(full_viewport());
    player.grow();
    player.grow();
    assert_eq!(player.segments.len(), 3);
    player.reset();
    assert_eq!(player.segments.len(), 1);
    assert_eq!(player.head_position(), Position { x: 40, y: 0 });
    assert_eq!(player.direction, None);
    assert_eq!(player.next_direction, None);
}

#[test]
fn collision_respects_the_skip_count() {
    let mut player = Snake::new(Position { x: 0, y: 0 }, 40, green());
    player.segments.push_back(Entity::new(40, Position { x: 40, y: 0 }, green()));
    let probe = Rect { left: 20, top: 0, width: 40, height: 40 };
    // the probe overlaps both segments
    assert!(player.collision(&probe, 0));
    assert!(player.collision(&probe, 1));
    // skipping past every segment finds nothing
    assert!(!player.collision(&probe, 2));
}

#[test]
fn touching_rectangles_do_not_collide() {
    let a = Rect { left: 0, top: 0, width: 40, height: 40 };
    let b = Rect { left: 40, top: 0, width: 40, height: 40 };
    let c = Rect { left: 39, top: 0, width: 40, height: 40 };
    assert!(!a.intersects(&b));
    assert!(a.intersects(&c));
    assert!(a.intersects(&a));
}
