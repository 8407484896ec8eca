//! Bodies: an image placed at a position.

use vstd::prelude::*;
use crate::rect::Rect;

verus! {

/// The image a body is drawn with: the handle under which the drawing
/// program keeps the image, and the image's own size.
///
/// The image itself stays with the program that loaded it, which has to keep
/// it for as long as a body shows it.
#[derive(Clone, Copy, Debug, PartialEq, Eq, Structural)]
pub struct Visual {
    pub id: usize,
    pub width: u32,
    pub height: u32,
}

/// An image at a position. The position is that of the image's corner with
/// the least coordinates.
#[derive(Clone, Copy, Debug, PartialEq, Eq, Structural)]
pub struct Body {
    pub visual: Visual,
    pub x: i32,
    pub y: i32,
}

/// The coordinate nearest to `v` that a position can hold.
pub open spec fn spec_clamp(v: int) -> int {
    if v < i32::MIN {
        i32::MIN as int
    } else if v > i32::MAX {
        i32::MAX as int
    } else {
        v
    }
}

/// Whether a move by `first` from `start` is stopped at an end of the
/// coordinate range and a move by `second` then leads away from that end.
pub open spec fn turns_back(start: int, first: int, second: int) -> bool {
    (start + first > i32::MAX && second < 0) || (start + first < i32::MIN && second > 0)
}

impl Body {
    /// The rectangle that the body covers: its image's size, at its position.
    pub open spec fn spec_bounds(self) -> Rect {
        Rect { left: self.x, top: self.y, width: self.visual.width, height: self.visual.height }
    }

    /// The body after a move by `offset`. On each axis the position changes
    /// by the offset, and stops at the end of the coordinate range where the
    /// sum lies beyond it.
    pub open spec fn moved(self, offset: (int, int)) -> Body {
        Body {
            visual: self.visual,
            x: spec_clamp(self.x + offset.0) as i32,
            y: spec_clamp(self.y + offset.1) as i32,
        }
    }

    /// A body that shows `visual` at the origin.
    pub fn new(visual: Visual) -> (body: Body)
        ensures
            body == (Body { visual, x: 0, y: 0 }),
    {
        Body { visual, x: 0, y: 0 }
    }

    /// A body that shows `visual` at `pos`.
    pub fn with_pos(visual: Visual, pos: (i32, i32)) -> (body: Body)
        ensures
            body == (Body { visual, x: pos.0, y: pos.1 }),
    {
        Body { visual, x: pos.0, y: pos.1 }
    }

    /// The rectangle that the body covers now.
    pub fn global_bounds(&self) -> (r: Rect)
        ensures
            r == self.spec_bounds(),
    {
        Rect::new(self.x, self.y, self.visual.width, self.visual.height)
    }

    /// The body's position.
    pub fn position(&self) -> (pos: (i32, i32))
        ensures
            pos == (self.x, self.y),
    {
        (self.x, self.y)
    }

    /// Puts the body at `pos`.
    pub fn set_position(&mut self, pos: (i32, i32))
        ensures
            *final(self) == (Body { visual: old(self).visual, x: pos.0, y: pos.1 }),
    {
        self.x = pos.0;
        self.y = pos.1;
    }

    /// Moves the body by `offset`. A coordinate that would leave the range
    /// of positions stops at the end of the range.
    pub fn move_(&mut self, offset: (i32, i32))
        ensures
            *final(self) == old(self).moved((offset.0 as int, offset.1 as int)),
    {
        self.x = clamped(self.x as i64 + offset.0 as i64);
        self.y = clamped(self.y as i64 + offset.1 as i64);
    }
}

fn clamped(v: i64) -> (r: i32)
    ensures
        r == spec_clamp(v as int),
{
    if v < i32::MIN as i64 {
        i32::MIN
    } else if v > i32::MAX as i64 {
        i32::MAX
    } else {
        v as i32
    }
}

/// A move that stays within the coordinate range adds the offset to the
/// position, and keeps the image.
pub proof fn lemma_move_adds_offset(body: Body, offset: (int, int))
    requires
        i32::MIN <= body.x + offset.0 <= i32::MAX,
        i32::MIN <= body.y + offset.1 <= i32::MAX,
    ensures
        body.moved(offset).x == body.x + offset.0,
        body.moved(offset).y == body.y + offset.1,
        body.moved(offset).visual == body.visual,
{
}

/// Two moves in a row end where one move by the sum of the two offsets ends,
/// unless the first is stopped at an end of the coordinate range and the
/// second leads away from that end.
pub proof fn lemma_moves_add_up(body: Body, first: (int, int), second: (int, int))
    requires
        !turns_back(body.x as int, first.0, second.0),
        !turns_back(body.y as int, first.1, second.1),
    ensures
        body.moved(first).moved(second) == body.moved((first.0 + second.0, first.1 + second.1)),
{
}

/// The law above leaves out no more than it must: where the first move is
/// stopped at an end of the coordinate range and the second, an offset that a
/// move can take, leads away from that end, the two moves in a row end
/// elsewhere than one move by the sum.
pub proof fn lemma_moves_that_turn_back_differ(body: Body, first: (int, int), second: (int, int))
    requires
        turns_back(body.x as int, first.0, second.0) || turns_back(body.y as int, first.1, second.1),
        i32::MIN <= second.0 <= i32::MAX,
        i32::MIN <= second.1 <= i32::MAX,
    ensures
        body.moved(first).moved(second) != body.moved((first.0 + second.0, first.1 + second.1)),
{
}

} // verus!
