use vstd::prelude::*;

use std::collections::VecDeque;

use crate::direction::Direction;
use crate::entity::Entity;
use crate::geometry::{overlaps, Color, Position, Rect};

verus! {

/// One coordinate moved by `delta` and wrapped toroidally into the interval
/// `[origin, origin + extent)`.
pub open spec fn spec_wrap(c: int, delta: int, origin: int, extent: int) -> int {
    (c - origin + delta) % extent + origin
}

/// The position one advance ahead of `head`: offset by one segment size in
/// direction `d` and wrapped into the viewport.
pub open spec fn spec_next_position(head: Position, size: u32, d: Direction, vp: Rect) -> Position {
    match d {
        Direction::Left => Position {
            x: spec_wrap(head.x as int, vp.width - size, vp.left as int, vp.width as int) as u32,
            y: head.y,
        },
        Direction::Up => Position {
            x: head.x,
            y: spec_wrap(head.y as int, vp.height - size, vp.top as int, vp.height as int) as u32,
        },
        Direction::Right => Position {
            x: spec_wrap(head.x as int, size as int, vp.left as int, vp.width as int) as u32,
            y: head.y,
        },
        Direction::Down => Position {
            x: head.x,
            y: spec_wrap(head.y as int, size as int, vp.top as int, vp.height as int) as u32,
        },
    }
}

/// The rectangle used when testing `probe` against the segment `seg`: it
/// sits at the segment's position but takes the probe's extent.
pub open spec fn spec_probe_rect(seg: Entity, probe: Rect) -> Rect {
    Rect {
        left: seg.position.x,
        top: seg.position.y,
        width: probe.width,
        height: probe.height,
    }
}

/// Whether `probe` overlaps some segment of `segs` at index `skip` or later.
pub open spec fn spec_seq_collision(segs: Seq<Entity>, probe: Rect, skip: int) -> bool {
    exists|i: int|
        skip <= i < segs.len() && overlaps(probe, spec_probe_rect(#[trigger] segs[i], probe))
}

/// Whether the head of `segs` overlaps one of the later segments.
pub open spec fn spec_seq_self_collision(segs: Seq<Entity>) -> bool {
    segs.len() > 0 && spec_seq_collision(segs, segs[0].spec_area(), 1)
}

/// The snake: its segments (head first), the direction applied on the most
/// recent advance, and the direction requested for the next advance.
pub struct Snake {
    pub segments: VecDeque<Entity>,
    pub direction: Option<Direction>,
    pub next_direction: Option<Direction>,
}

impl Snake {
    /// A well-formed snake has at least one segment of positive size, and
    /// every segment shares the head's size and color.
    pub open spec fn wf(self) -> bool {
        &&& 1 <= self.segments@.len()
        &&& 0 < self.segments@[0].size
        &&& forall|i: int|
            0 <= i < self.segments@.len() ==> (#[trigger] self.segments@[i]).size
                == self.segments@[0].size && self.segments@[i].color == self.segments@[0].color
    }

    /// The segment sequence one advance ahead: the pending direction is
    /// committed, the tail segment is removed and re-inserted at the front as
    /// the new head — moved one segment size ahead of the old head and
    /// wrapped into the viewport when a direction is set, left at its own
    /// position when none is.
    pub open spec fn spec_advanced_segments(self, viewport: Rect) -> Seq<Entity>
        recommends
            1 <= self.segments@.len(),
    {
        let n = self.segments@.len() as int;
        let tail = self.segments@[n - 1];
        let moved = match self.next_direction {
            Some(d) => Entity {
                position: spec_next_position(
                    self.segments@[0].position,
                    self.segments@[0].size,
                    d,
                    viewport,
                ),
                ..tail
            },
            None => tail,
        };
        seq![moved] + self.segments@.take(n - 1)
    }

    /// Creates a new snake made of the single head segment.
    pub fn new(position: Position, size: u32, color: Color) -> (s: Snake)
        requires
            0 < size,
        ensures
            s.wf(),
            s.segments@ =~= seq![Entity { position, size, color }],
            s.direction is None,
            s.next_direction is None,
    {
        let mut segments = VecDeque::new();
        let head = Entity::new(size, position, color);
        segments.push_back(head);
        Snake { segments, direction: None, next_direction: None }
    }

    /// The position of the snake head.
    pub fn head_position(&self) -> (p: Position)
        requires
            1 <= self.segments@.len(),
        ensures
            p == self.segments@[0].position,
    {
        // the snake always has at least one segment
        self.segments[0].position()
    }

    /// The side length of each snake segment.
    pub fn size(&self) -> (s: u32)
        requires
            1 <= self.segments@.len(),
        ensures
            s == self.segments@[0].size,
    {
        self.segments[0].size()
    }

    /// The square covered by the snake head.
    pub fn area(&self) -> (a: Rect)
        requires
            1 <= self.segments@.len(),
        ensures
            a == self.segments@[0].spec_area(),
    {
        self.segments[0].area()
    }

    /// The fill color of each snake segment.
    pub fn color(&self) -> (c: Color)
        requires
            1 <= self.segments@.len(),
        ensures
            c == self.segments@[0].color,
    {
        self.segments[0].color()
    }

    /// Whether the snake head overlaps one of its later segments.
    pub fn self_collision(&self) -> (r: bool)
        requires
            1 <= self.segments@.len(),
        ensures
            r == spec_seq_self_collision(self.segments@),
    {
        let area = self.area();
        self.collision(&area, 1)
    }

    /// Whether `area` overlaps some segment at index `n_skip` or later, each
    /// segment taken as a rectangle at its own position but with the probe's
    /// extent.
    pub fn collision(&self, area: &Rect, n_skip: usize) -> (r: bool)
        ensures
            r == spec_seq_collision(self.segments@, *area, n_skip as int),
    {
        let n = self.segments.len();
        let mut i = n_skip;
        while i < n
            invariant
                n == self.segments@.len(),
                n_skip <= i,
                forall|j: int|
                    n_skip <= j < i && j < n ==> !overlaps(
                        *area,
                        spec_probe_rect(#[trigger] self.segments@[j], *area),
                    ),
            decreases n - i,
        {
            let seg_position = self.segments[i].position();
            let seg_area = Rect {
                left: seg_position.x,
                top: seg_position.y,
                width: area.width,
                height: area.height,
            };
            if area.intersects(&seg_area) {
                return true;
            }
            i = i + 1;
        }
        false
    }

    /// Appends one segment at the current head position; it starts moving on
    /// a later advance, when its turn comes to be recycled.
    pub fn grow(&mut self)
        requires
            old(self).wf(),
        ensures
            final(self).wf(),
            final(self).segments@ =~= old(self).segments@.push(
                Entity {
                    position: old(self).segments@[0].position,
                    size: old(self).segments@[0].size,
                    color: old(self).segments@[0].color,
                },
            ),
            final(self).direction == old(self).direction,
            final(self).next_direction == old(self).next_direction,
    {
        let segment = Entity::new(self.size(), self.head_position(), self.color());
        self.segments.push_back(segment);
    }

    /// Removes every segment but the head and clears both direction fields.
    pub fn reset(&mut self)
        requires
            1 <= old(self).segments@.len(),
        ensures
            final(self).segments@ =~= seq![old(self).segments@[0]],
            final(self).direction is None,
            final(self).next_direction is None,
    {
        while self.segments.len() > 1
            invariant
                1 <= self.segments@.len() <= old(self).segments@.len(),
                self.segments@ =~= old(self).segments@.take(self.segments@.len() as int),
            decreases self.segments@.len(),
        {
            let ghost prev = self.segments@;
            self.segments.pop_back();
            proof {
                assert(self.segments@ =~= prev.subrange(0, prev.len() - 1));
                assert(self.segments@ =~= old(self).segments@.take(
                    self.segments@.len() as int,
                ));
            }
        }
        self.direction = None;
        self.next_direction = None;
    }

    /// Advances the snake one step: commits the pending direction, then
    /// recycles the tail segment as the new head. With a direction set, the
    /// new head sits one segment size ahead of the old head, wrapped
    /// toroidally into the viewport; with none set, every segment keeps its
    /// position.
    pub fn advance(&mut self, viewport: Rect)
        requires
            old(self).wf(),
            viewport.spec_valid_viewport(),
            old(self).next_direction is Some ==> {
                &&& viewport.spec_contains(old(self).segments@[0].position)
                &&& old(self).segments@[0].size <= viewport.width
                &&& old(self).segments@[0].size <= viewport.height
            },
        ensures
            final(self).wf(),
            final(self).segments@ =~= old(self).spec_advanced_segments(viewport),
            final(self).segments@.len() == old(self).segments@.len(),
            final(self).direction == old(self).next_direction,
            final(self).next_direction == old(self).next_direction,
            old(self).next_direction is Some ==> viewport.spec_contains(
                final(self).segments@[0].position,
            ),
    {
        self.direction = self.next_direction;
        let front_position = self.head_position();
        let size = self.size();
        // the snake always has at least one segment
        let mut last = self.segments.pop_back().unwrap();
        let back_position = last.position();
        // the old tail becomes the new head, which gives the illusion of
        // movement; the play area wraps around like the surface of a torus
        let new_position = match self.direction {
            Some(Direction::Left) => {
                let x = (front_position.x as u64 + viewport.width as u64 - size as u64
                    - viewport.left as u64) % (viewport.width as u64) + viewport.left as u64;
                Position { x: x as u32, y: front_position.y }
            },
            Some(Direction::Up) => {
                let y = (front_position.y as u64 + viewport.height as u64 - size as u64
                    - viewport.top as u64) % (viewport.height as u64) + viewport.top as u64;
                Position { x: front_position.x, y: y as u32 }
            },
            Some(Direction::Right) => {
                let x = (front_position.x as u64 + size as u64 - viewport.left as u64) % (
                viewport.width as u64) + viewport.left as u64;
                Position { x: x as u32, y: front_position.y }
            },
            Some(Direction::Down) => {
                let y = (front_position.y as u64 + size as u64 - viewport.top as u64) % (
                viewport.height as u64) + viewport.top as u64;
                Position { x: front_position.x, y: y as u32 }
            },
            None => back_position,
        };
        last.set_position(new_position);
        self.segments.push_front(last);
    }
}

/// A single-segment snake never collides with itself, whatever its state.
pub proof fn lemma_single_segment_no_self_collision(segs: Seq<Entity>)
    requires
        segs.len() == 1,
    ensures
        !spec_seq_self_collision(segs),
{
}

/// Advancing with an unset direction moves nothing: the recycled tail keeps
/// its own position, and every other segment is carried over unchanged.
pub proof fn lemma_advance_unset_direction(s: Snake, viewport: Rect)
    requires
        1 <= s.segments@.len(),
        s.next_direction is None,
    ensures
        ({
            let adv = s.spec_advanced_segments(viewport);
            let n = s.segments@.len() as int;
            &&& adv.len() == n
            &&& adv[0] == s.segments@[n - 1]
            &&& forall|i: int| 1 <= i < n ==> adv[i] == s.segments@[i - 1]
        }),
{
}

/// Advancing with a set direction translates the head by exactly one segment
/// size in that direction, wrapped into the viewport; the segment count is
/// unchanged, and the former tail entity becomes the new head.
pub proof fn lemma_advance_set_direction(s: Snake, viewport: Rect, d: Direction)
    requires
        1 <= s.segments@.len(),
        s.next_direction == Some(d),
    ensures
        ({
            let adv = s.spec_advanced_segments(viewport);
            let n = s.segments@.len() as int;
            let tail = s.segments@[n - 1];
            &&& adv.len() == n
            &&& adv[0].position == spec_next_position(
                s.segments@[0].position,
                s.segments@[0].size,
                d,
                viewport,
            )
            &&& adv[0].size == tail.size
            &&& adv[0].color == tail.color
            &&& forall|i: int| 1 <= i < n ==> adv[i] == s.segments@[i - 1]
        }),
{
}

} // verus!
