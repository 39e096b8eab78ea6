//! Rectangles on the screen.
use vstd::prelude::*;

verus! {

#[derive(Clone, Copy, Debug, PartialEq, Eq, Structural)]
pub struct Rect {
    pub left: i32,
    pub top: i32,
    pub right: i32,
    pub bottom: i32,
}

/// A rectangle with coordinates of any size.
#[verifier::ext_equal]
pub struct RectModel {
    pub left: int,
    pub top: int,
    pub right: int,
    pub bottom: int,
}

impl View for Rect {
    type V = RectModel;

    open spec fn view(&self) -> RectModel {
        RectModel {
            left: self.left as int,
            top: self.top as int,
            right: self.right as int,
            bottom: self.bottom as int,
        }
    }
}

pub open spec fn fits(x: int) -> bool {
    i32::MIN <= x <= i32::MAX
}

impl RectModel {
    /// All four edges are coordinates that a window can have.
    pub open spec fn fits(self) -> bool {
        fits(self.left) && fits(self.top) && fits(self.right) && fits(self.bottom)
    }

    /// Every point of `other` is a point of this rectangle.
    pub open spec fn covers(self, other: RectModel) -> bool {
        self.left <= other.left && self.top <= other.top && other.right <= self.right
            && other.bottom <= self.bottom
    }

    pub open spec fn moved(self, dx: int, dy: int) -> RectModel {
        RectModel {
            left: self.left + dx,
            top: self.top + dy,
            right: self.right + dx,
            bottom: self.bottom + dy,
        }
    }

    /// Larger by `edge` on each side.
    pub open spec fn widened(self, edge: int) -> RectModel {
        RectModel {
            left: self.left - edge,
            top: self.top - edge,
            right: self.right + edge,
            bottom: self.bottom + edge,
        }
    }

    /// The smallest rectangle that covers both.
    pub open spec fn union(self, other: RectModel) -> RectModel {
        RectModel {
            left: min_int(self.left, other.left),
            top: min_int(self.top, other.top),
            right: max_int(self.right, other.right),
            bottom: max_int(self.bottom, other.bottom),
        }
    }
}

pub open spec fn min_int(a: int, b: int) -> int {
    if a <= b {
        a
    } else {
        b
    }
}

pub open spec fn max_int(a: int, b: int) -> int {
    if a >= b {
        a
    } else {
        b
    }
}

pub fn min_i64(a: i64, b: i64) -> (r: i64)
    ensures
        r == min_int(a as int, b as int),
{
    if a <= b {
        a
    } else {
        b
    }
}

pub fn max_i64(a: i64, b: i64) -> (r: i64)
    ensures
        r == max_int(a as int, b as int),
{
    if a >= b {
        a
    } else {
        b
    }
}

/// A rectangle whose edges are known to fit.
pub fn rect_of(left: i64, top: i64, right: i64, bottom: i64) -> (r: Rect)
    requires
        fits(left as int),
        fits(top as int),
        fits(right as int),
        fits(bottom as int),
    ensures
        r@ == (RectModel {
            left: left as int,
            top: top as int,
            right: right as int,
            bottom: bottom as int,
        }),
{
    Rect { left: left as i32, top: top as i32, right: right as i32, bottom: bottom as i32 }
}

pub open spec fn rect_models(rects: Seq<Rect>) -> Seq<RectModel> {
    rects.map_values(|r: Rect| r@)
}


/// Where the caret was last seen.
pub struct CaretRect(pub Rect);

pub fn caret_rect_set(caret: &mut CaretRect, r: Rect)
    ensures
        final(caret).0 == r,
{
    caret.0 = r;
}

pub fn caret_rect_get(caret: &CaretRect) -> (r: Rect)
    ensures
        r == caret.0,
{
    caret.0
}

/// The union of two rectangles covers both, and nothing smaller does.
pub proof fn unions_are_the_smallest_cover(a: RectModel, b: RectModel, c: RectModel)
    ensures
        a.union(b).covers(a),
        a.union(b).covers(b),
        c.covers(a) && c.covers(b) ==> c.covers(a.union(b)),
        a.union(b) == b.union(a),
        a.union(a) == a,
{
}

/// One rectangle covers another where all four edges lie inside it.
pub proof fn covers_are_told_by_the_edges(a: RectModel, b: RectModel, x: int, y: int)
    ensures
        a.covers(a),
        a.covers(b) && b.covers(a) ==> a == b,
        a.covers(b) && b.left <= x <= b.right && b.top <= y <= b.bottom ==> a.left <= x <= a.right
            && a.top <= y <= a.bottom,
{
}

/// Moving a rectangle keeps its size and can be undone; widening one by an edge lays
/// it round the old one, with that edge on each side.
pub proof fn moving_keeps_the_size(a: RectModel, dx: int, dy: int, edge: int)
    ensures
        a.moved(dx, dy).right - a.moved(dx, dy).left == a.right - a.left,
        a.moved(dx, dy).bottom - a.moved(dx, dy).top == a.bottom - a.top,
        a.moved(dx, dy).left == a.left + dx,
        a.moved(dx, dy).top == a.top + dy,
        a.moved(dx, dy).moved(-dx, -dy) == a,
        edge >= 0 ==> a.widened(edge).covers(a),
        a.widened(edge).right - a.widened(edge).left == a.right - a.left + 2 * edge,
        a.widened(edge).bottom - a.widened(edge).top == a.bottom - a.top + 2 * edge,
        a.left - a.widened(edge).left == edge && a.top - a.widened(edge).top == edge,
{
}

/// The smaller and the larger of two numbers are these numbers.
pub proof fn smaller_and_larger(a: int, b: int)
    ensures
        min_int(a, b) <= a && min_int(a, b) <= b,
        max_int(a, b) >= a && max_int(a, b) >= b,
        min_int(a, b) + max_int(a, b) == a + b,
        min_int(a, b) == a || min_int(a, b) == b,
{
}

}
