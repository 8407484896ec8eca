//! Axis-aligned rectangles and the test whether two of them overlap.

use vstd::prelude::*;

verus! {

/// An axis-aligned rectangle, given by its corner with the least coordinates
/// and by its size.
///
/// The rectangle stands for the grid cells `(x, y)` with
/// `min_x() <= x < max_x()` and `min_y() <= y < max_y()`; its view is the set
/// of these cells. A rectangle of width or height zero covers no cell.
#[derive(Clone, Copy, Debug, PartialEq, Eq, Structural)]
pub struct Rect {
    pub left: i32,
    pub top: i32,
    pub width: u32,
    pub height: u32,
}

impl View for Rect {
    type V = Set<(int, int)>;

    open spec fn view(&self) -> Set<(int, int)> {
        Set::new(|cell: (int, int)| self.covers(cell.0, cell.1))
    }
}

impl Rect {
    /// The least x coordinate of the rectangle.
    pub open spec fn min_x(self) -> int {
        self.left as int
    }

    /// The x coordinate just past the rectangle.
    pub open spec fn max_x(self) -> int {
        self.left + self.width
    }

    /// The least y coordinate of the rectangle.
    pub open spec fn min_y(self) -> int {
        self.top as int
    }

    /// The y coordinate just past the rectangle.
    pub open spec fn max_y(self) -> int {
        self.top + self.height
    }

    /// Whether the rectangle has no area.
    pub open spec fn is_degenerate(self) -> bool {
        self.width == 0 || self.height == 0
    }

    /// Whether the cell `(x, y)` lies in the rectangle.
    pub open spec fn covers(self, x: int, y: int) -> bool {
        self.min_x() <= x < self.max_x() && self.min_y() <= y < self.max_y()
    }

    /// Whether two rectangles overlap in an area that is not empty.
    ///
    /// Each rectangle must begin strictly before the other ends, on both
    /// axes, so rectangles that only touch along an edge or at a corner do
    /// not overlap. A rectangle without area overlaps nothing, itself
    /// included.
    pub open spec fn spec_intersects(self, other: Rect) -> bool {
        &&& !self.is_degenerate()
        &&& !other.is_degenerate()
        &&& self.min_x() < other.max_x()
        &&& other.min_x() < self.max_x()
        &&& self.min_y() < other.max_y()
        &&& other.min_y() < self.max_y()
    }

    /// The area in which two rectangles overlap, if they overlap: it begins
    /// where the later of the two begins and ends where the earlier of the
    /// two ends, on both axes.
    pub open spec fn spec_intersection(self, other: Rect) -> Option<Rect> {
        if self.spec_intersects(other) {
            let left = spec_larger(self.min_x(), other.min_x());
            let top = spec_larger(self.min_y(), other.min_y());
            let right = spec_smaller(self.max_x(), other.max_x());
            let bottom = spec_smaller(self.max_y(), other.max_y());
            Some(
                Rect {
                    left: left as i32,
                    top: top as i32,
                    width: (right - left) as u32,
                    height: (bottom - top) as u32,
                },
            )
        } else {
            None
        }
    }

    /// The rectangle with the given corner and size.
    pub fn new(left: i32, top: i32, width: u32, height: u32) -> (r: Rect)
        ensures
            r == (Rect { left, top, width, height }),
    {
        Rect { left, top, width, height }
    }

    /// The x coordinate just past the rectangle.
    pub fn right(&self) -> (r: i64)
        ensures
            r == self.max_x(),
    {
        self.left as i64 + self.width as i64
    }

    /// The y coordinate just past the rectangle.
    pub fn bottom(&self) -> (r: i64)
        ensures
            r == self.max_y(),
    {
        self.top as i64 + self.height as i64
    }

    /// The area in which the two rectangles overlap: the rectangle of the
    /// cells that lie in both, or `None` if no cell does.
    pub fn intersection(&self, other: &Rect) -> (r: Option<Rect>)
        ensures
            r == self.spec_intersection(*other),
            r is Some == self.spec_intersects(*other),
            match r {
                Some(overlap) => overlap@ == self@.intersect(other@),
                None => self@.disjoint(other@),
            },
    {
        let left: i64 = larger(self.left as i64, other.left as i64);
        let top: i64 = larger(self.top as i64, other.top as i64);
        let right: i64 = smaller(self.right(), other.right());
        let bottom: i64 = smaller(self.bottom(), other.bottom());
        proof {
            lemma_intersection_is_shared_cells(*self, *other);
        }
        if left < right && top < bottom {
            Some(Rect::new(left as i32, top as i32, (right - left) as u32, (bottom - top) as u32))
        } else {
            None
        }
    }

    /// Tells whether the two rectangles overlap in an area that is not
    /// empty, that is, whether some cell lies in both.
    pub fn intersects(&self, other: &Rect) -> (r: bool)
        ensures
            r == self.spec_intersects(*other),
            r == !self@.disjoint(other@),
    {
        proof {
            lemma_intersection_is_shared_cells(*self, *other);
        }
        self.intersection(other).is_some()
    }
}

/// The lesser of two numbers.
pub open spec fn spec_smaller(a: int, b: int) -> int {
    if a < b { a } else { b }
}

/// The greater of two numbers.
pub open spec fn spec_larger(a: int, b: int) -> int {
    if a > b { a } else { b }
}

fn smaller(a: i64, b: i64) -> (r: i64)
    ensures
        r == spec_smaller(a as int, b as int),
{
    if a < b { a } else { b }
}

fn larger(a: i64, b: i64) -> (r: i64)
    ensures
        r == spec_larger(a as int, b as int),
{
    if a > b { a } else { b }
}

/// Two rectangles overlap exactly if some cell lies in both of them, and
/// the area in which they overlap is made of the cells that lie in both.
pub proof fn lemma_intersection_is_shared_cells(a: Rect, b: Rect)
    ensures
        a.spec_intersects(b) <==> exists|x: int, y: int| a.covers(x, y) && b.covers(x, y),
        a.spec_intersects(b) <==> !a@.disjoint(b@),
        a.spec_intersection(b) matches Some(overlap) ==> overlap@ == a@.intersect(b@),
{
    let x = spec_larger(a.min_x(), b.min_x());
    let y = spec_larger(a.min_y(), b.min_y());
    if a.spec_intersects(b) {
        assert(a.covers(x, y) && b.covers(x, y));
        assert(a@.contains((x, y)) && b@.contains((x, y)));
        let overlap = a.spec_intersection(b)->0;
        assert forall|cell: (int, int)| overlap@.contains(cell) == a@.intersect(b@).contains(
            cell,
        ) by {
            assert(overlap.covers(cell.0, cell.1) == (a.covers(cell.0, cell.1) && b.covers(
                cell.0,
                cell.1,
            )));
        }
        assert(overlap@ =~= a@.intersect(b@));
    }
    if !a@.disjoint(b@) {
        let cell = choose|cell: (int, int)| a@.contains(cell) && b@.contains(cell);
        assert(a.covers(cell.0, cell.1) && b.covers(cell.0, cell.1));
    }
    if exists|x: int, y: int| a.covers(x, y) && b.covers(x, y) {
        let (px, py) = choose|x: int, y: int| a.covers(x, y) && b.covers(x, y);
        assert(a.covers(px, py) && b.covers(px, py));
    }
}

/// Overlap does not depend on the order of the two rectangles.
pub proof fn lemma_intersects_symmetric(a: Rect, b: Rect)
    ensures
        a.spec_intersects(b) == b.spec_intersects(a),
{
}

/// A rectangle overlaps itself exactly if it has an area.
pub proof fn lemma_intersects_self(a: Rect)
    ensures
        a.spec_intersects(a) == !a.is_degenerate(),
{
}

/// A rectangle without area overlaps no rectangle.
pub proof fn lemma_degenerate_intersects_nothing(a: Rect, b: Rect)
    requires
        a.is_degenerate(),
    ensures
        !a.spec_intersects(b),
        !b.spec_intersects(a),
{
}

/// Rectangles of which one ends, on some axis, where the other begins do not
/// overlap, however much of the edge they share.
pub proof fn lemma_touching_rects_do_not_intersect(a: Rect, b: Rect)
    requires
        a.max_x() == b.min_x() || b.max_x() == a.min_x() || a.max_y() == b.min_y() || b.max_y()
            == a.min_y(),
    ensures
        !a.spec_intersects(b),
{
}

} // verus!
