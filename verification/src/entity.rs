use vstd::prelude::*;

use crate::geometry::{Color, Position, Rect};

verus! {

/// A single game entity: a positioned, colored, axis-aligned square. Both
/// snake segments and the food are entities.
#[derive(Clone, Copy, Debug, PartialEq, Eq, Structural)]
pub struct Entity {
    pub position: Position,
    pub size: u32,
    pub color: Color,
}

impl Entity {
    /// The square this entity covers.
    pub open spec fn spec_area(self) -> Rect {
        Rect {
            left: self.position.x,
            top: self.position.y,
            width: self.size,
            height: self.size,
        }
    }

    /// Creates a new entity with the given size, position and color.
    pub fn new(size: u32, position: Position, color: Color) -> (e: Entity)
        ensures
            e == (Entity { position, size, color }),
    {
        Entity { position, size, color }
    }

    /// The position of the entity.
    pub fn position(&self) -> (p: Position)
        ensures
            p == self.position,
    {
        self.position
    }

    /// Moves the entity to `position`; size and color are untouched.
    pub fn set_position(&mut self, position: Position)
        ensures
            *final(self) == (Entity { position, ..*old(self) }),
    {
        self.position = position;
    }

    /// The side length of the entity's square.
    pub fn size(&self) -> (s: u32)
        ensures
            s == self.size,
    {
        self.size
    }

    /// The square covered by the entity.
    pub fn area(&self) -> (a: Rect)
        ensures
            a == self.spec_area(),
    {
        Rect {
            left: self.position.x,
            top: self.position.y,
            width: self.size,
            height: self.size,
        }
    }

    /// The fill color of the entity.
    pub fn color(&self) -> (c: Color)
        ensures
            c == self.color,
    {
        self.color
    }
}

} // verus!
