//! The lines of a text on the screen, found with as few questions as possible.
//!
//! The document only tells the rectangle round a stretch of text. A stretch that
//! is higher than a line is cut in half until it is not.
use vstd::prelude::*;
use crate::rect;
use crate::rect::{Rect, RectModel};

verus! {

/// A stretch of text whose rectangle is asked for: characters `from..to`, reached
/// by moving the ends of the whole text inwards by so many UTF-16 units.
#[derive(Clone, Copy, Debug, PartialEq, Eq, Structural)]
pub struct Stretch {
    pub from: usize,
    pub to: usize,
    pub skip_units: u64,
    pub trim_units: u64,
}

/// The search for the lines of a text.
pub struct LineWalk {
    /// UTF-16 units of each character.
    pub units: Vec<u8>,
    pub height: i32,
    /// Stretches still to be asked for, the next one last.
    pub todo: Vec<(usize, usize)>,
    pub lines: Vec<Rect>,
}

/// The sum of the units of characters `from..to`.
pub open spec fn units_between(units: Seq<u8>, from: int, to: int) -> nat
    decreases to - from,
{
    if to <= from {
        0
    } else {
        units_between(units, from, to - 1) + units[to - 1] as nat
    }
}

fn sum_units(units: &Vec<u8>, from: usize, to: usize) -> (r: u64)
    requires
        from <= to <= units@.len(),
        units@.len() <= 0xFFFF_FFFF,
    ensures
        r == units_between(units@, from as int, to as int),
{
    let mut sum: u64 = 0;
    let mut i: usize = from;
    while i < to
        invariant
            from <= i <= to <= units@.len(),
            units@.len() <= 0xFFFF_FFFF,
            sum == units_between(units@, from as int, i as int),
            sum <= 255 * (i - from),
        decreases to - i,
    {
        assert(255 * (i - from) <= 255 * 0xFFFF_FFFF) by (nonlinear_arith)
            requires
                0 <= i - from <= 0xFFFF_FFFF,
        ;
        sum = sum + units[i] as u64;
        i = i + 1;
    }
    sum
}

/// UTF-16 units of a character.
pub open spec fn utf16_width(c: char) -> u8 {
    if (c as u32) < 0x10000 {
        1
    } else {
        2
    }
}

/// UTF-16 units of each character of a text.
pub fn utf16_units(chars: &[char]) -> (r: Vec<u8>)
    ensures
        r@ == chars@.map_values(|c: char| utf16_width(c)),
{
    let mut r: Vec<u8> = Vec::new();
    let n: usize = chars.len();
    let mut i: usize = 0;
    while i < n
        invariant
            i <= n,
            n == chars@.len(),
            r@.len() == i,
            forall|k: int| 0 <= k < i ==> r@[k] == utf16_width(#[trigger] chars@[k]),
        decreases n - i,
    {
        let code: u32 = chars[i] as u32;
        r.push(
            if code < 0x10000 {
                1
            } else {
                2
            },
        );
        i = i + 1;
    }
    assert(r@ =~= chars@.map_values(|c: char| utf16_width(c)));
    r
}

/// Whether the caret of a text can be built on: in view and of some height.
pub fn caret_usable(clipped: bool, caret: &Rect) -> (r: bool)
    ensures
        r == (!clipped && caret.bottom > caret.top),
{
    !clipped && caret.bottom > caret.top
}

/// The rectangle is no higher than one line.
pub open spec fn one_line(r: RectModel, height: int) -> bool {
    r.bottom - r.top <= half_again(height)
}

/// One and a half of a height, rounded towards zero.
pub open spec fn half_again(height: int) -> int {
    if height >= 0 {
        height * 3 / 2
    } else {
        -((-height) * 3 / 2)
    }
}

/// A line found: an empty one does not count, and one beside the last belongs to it.
pub open spec fn with_line(lines: Seq<Rect>, r: Rect) -> Seq<Rect> {
    if r.right <= r.left || r.bottom <= r.top {
        lines
    } else if lines.len() > 0 && lines.last().top == r.top && lines.last().bottom == r.bottom {
        lines.drop_last().push(
            Rect {
                left: if lines.last().left <= r.left {
                    lines.last().left
                } else {
                    r.left
                },
                right: if lines.last().right >= r.right {
                    lines.last().right
                } else {
                    r.right
                },
                ..lines.last()
            },
        )
    } else {
        lines.push(r)
    }
}

impl LineWalk {
    /// The stretches to do follow one another, each before the one in front of it
    /// in the list, and the last to be done ends where the text ends.
    pub open spec fn in_order(todo: Seq<(usize, usize)>, len: int) -> bool {
        &&& forall|i: int| #![trigger todo[i]] 0 <= i < todo.len() ==> todo[i].0 < todo[i].1 <= len
        &&& forall|i: int| #![trigger todo[i]]
            0 <= i < todo.len() - 1 ==> todo[i + 1].1 == todo[i].0
        &&& todo.len() > 0 ==> todo[0].1 == len
    }

    pub open spec fn well_formed(self) -> bool {
        &&& self.units@.len() <= 0xFFFF_FFFF
        &&& LineWalk::in_order(self.todo@, self.units@.len() as int)
    }

    /// Where the part of the text that is done ends.
    pub open spec fn done(self) -> int {
        if self.todo@.len() == 0 {
            self.units@.len() as int
        } else {
            self.todo@.last().0 as int
        }
    }

    /// Begins the search. `height` is that of the caret.
    pub fn new(units: Vec<u8>, height: i32) -> (r: Self)
        requires
            0 < units@.len() <= 0xFFFF_FFFF,
        ensures
            r.well_formed(),
            r.units == units,
            r.height == height,
            r.lines@.len() == 0,
            r.todo@ == seq![(0usize, units@.len() as usize)],
            r.done() == 0,
    {
        let n: usize = units.len();
        let todo: Vec<(usize, usize)> = vec![(0, n)];
        assert(todo@ =~= seq![(0usize, n)]);
        LineWalk { units, height, todo, lines: Vec::new() }
    }

    /// The stretch whose rectangle is needed next.
    pub fn ask(&self) -> (r: Option<Stretch>)
        requires
            self.well_formed(),
        ensures
            r is Some == (self.todo@.len() > 0),
            r is Some ==> {
                &&& r->0.from == self.todo@.last().0
                &&& r->0.to == self.todo@.last().1
                &&& r->0.skip_units == units_between(self.units@, 0, r->0.from as int)
                &&& r->0.trim_units == units_between(
                    self.units@,
                    r->0.to as int,
                    self.units@.len() as int,
                )
            },
    {
        if self.todo.len() == 0 {
            return None;
        }
        let last: (usize, usize) = self.todo[self.todo.len() - 1];
        let n: usize = self.units.len();
        Some(
            Stretch {
                from: last.0,
                to: last.1,
                skip_units: sum_units(&self.units, 0, last.0),
                trim_units: sum_units(&self.units, last.1, n),
            },
        )
    }

    /// Takes the rectangle of the stretch that was asked for. A clipped one ends
    /// the search without a result.
    pub fn answer(&mut self, r: Rect, clipped: bool) -> (ok: bool)
        requires
            old(self).well_formed(),
            old(self).todo@.len() > 0,
        ensures
            final(self).well_formed(),
            final(self).units == old(self).units,
            final(self).height == old(self).height,
            ok == !clipped,
            clipped ==> *final(self) == *old(self),
            !clipped ==> ({
                let (from, to) = old(self).todo@.last();
                let mid = (from + (to - from) / 2) as usize;
                if to - from <= 1 || one_line(r@, old(self).height as int) {
                    &&& final(self).todo@ == old(self).todo@.drop_last()
                    &&& final(self).lines@ == with_line(old(self).lines@, r)
                    &&& final(self).done() == to
                } else {
                    &&& final(self).todo@ == old(self).todo@.drop_last().push((mid, to)).push(
                        (from, mid),
                    )
                    &&& final(self).lines@ == old(self).lines@
                    &&& final(self).done() == old(self).done()
                }
            }),
    {
        if clipped {
            return false;
        }
        let ghost before = self.todo@;
        let ghost len = self.units@.len() as int;
        let top = self.todo.pop();
        if let Some((from, to)) = top {
            assert(before[before.len() - 1] == (from, to));
            let tall: i64 = r.bottom as i64 - r.top as i64;
            let h: i64 = self.height as i64;
            let limit: i64 = if h >= 0 {
                h * 3 / 2
            } else {
                -((-h) * 3 / 2)
            };
            if to - from <= 1 || tall <= limit {
                proof {
                    assert forall|i: int| #![trigger self.todo@[i]]
                        0 <= i < self.todo@.len() implies self.todo@[i].0 < self.todo@[i].1
                        <= len by {
                        assert(self.todo@[i] == before[i]);
                    }
                    assert forall|i: int| #![trigger self.todo@[i]]
                        0 <= i < self.todo@.len() - 1 implies self.todo@[i + 1].1
                        == self.todo@[i].0 by {
                        assert(self.todo@[i] == before[i]);
                        assert(self.todo@[i + 1] == before[i + 1]);
                    }
                    if self.todo@.len() > 0 {
                        assert(self.todo@.last() == before[before.len() - 2]);
                    }
                }
                push_line(&mut self.lines, r);
            } else {
                let mid: usize = from + (to - from) / 2;
                self.todo.push((mid, to));
                self.todo.push((from, mid));
                proof {
                    let now = self.todo@;
                    let m = before.len() - 1;
                    assert forall|i: int| #![trigger now[i]] 0 <= i < now.len() implies now[i].0
                        < now[i].1 <= len by {
                        if i < m {
                            assert(now[i] == before[i]);
                        }
                    }
                    assert forall|i: int| #![trigger now[i]] 0 <= i < now.len() - 1 implies now[i
                        + 1].1 == now[i].0 by {
                        if i < m - 1 {
                            assert(now[i] == before[i]);
                            assert(now[i + 1] == before[i + 1]);
                        } else if i == m - 1 {
                            assert(now[i] == before[i]);
                            assert(before[i + 1] == (from, to));
                        }
                    }
                    if m > 0 {
                        assert(now[0] == before[0]);
                    }
                }
            }
        }
        true
    }
}

fn push_line(lines: &mut Vec<Rect>, r: Rect)
    ensures
        final(lines)@ == with_line(old(lines)@, r),
{
    if r.right <= r.left || r.bottom <= r.top {
        return;
    }
    let ghost before = lines@;
    let n: usize = lines.len();
    if n > 0 {
        let last: Rect = lines[n - 1];
        if last.top == r.top && last.bottom == r.bottom {
            let joined = Rect {
                left: if last.left <= r.left {
                    last.left
                } else {
                    r.left
                },
                right: if last.right >= r.right {
                    last.right
                } else {
                    r.right
                },
                ..last
            };
            lines[n - 1] = joined;
            assert(lines@ =~= before.drop_last().push(joined));
            return;
        }
    }
    lines.push(r);
}

/// Cutting a stretch in half cuts it into two that are shorter, so that the search
/// ends; what is found of it covers all of it.
pub proof fn halves_are_shorter(from: int, to: int)
    requires
        from + 1 < to,
    ensures
        from < from + (to - from) / 2 < to,
{
}

/// A line found is never empty, and lines found keep their order.
pub proof fn found_lines_are_not_empty(lines: Seq<Rect>, r: Rect)
    requires
        forall|i: int|
            0 <= i < lines.len() ==> (#[trigger] lines[i]).left < lines[i].right && lines[i].top
                < lines[i].bottom,
    ensures
        forall|i: int|
            0 <= i < with_line(lines, r).len() ==> (#[trigger] with_line(lines, r)[i]).left
                < with_line(lines, r)[i].right && with_line(lines, r)[i].top < with_line(
                lines,
                r,
            )[i].bottom,
        lines.len() <= with_line(lines, r).len() <= lines.len() + 1,
{
    if lines.len() > 0 {
        assert(lines.last() == lines[lines.len() - 1]);
    }
    let now = with_line(lines, r);
    assert forall|i: int| 0 <= i < now.len() implies (#[trigger] now[i]).left < now[i].right
        && now[i].top < now[i].bottom by {
        if i < lines.len() - 1 {
            assert(now[i] == lines[i]);
        } else if i < lines.len() {
            assert(lines[i].left < lines[i].right);
        }
    }
}

/// The units of a text add up over its stretches, and a character takes as many as
/// its encoding has.
pub proof fn units_add_up(units: Seq<u8>, from: int, mid: int, to: int, c: char)
    requires
        from <= mid <= to,
    ensures
        units_between(units, from, mid) + units_between(units, mid, to) == units_between(
            units,
            from,
            to,
        ),
        units_between(units, from, from) == 0,
        units_between(units, from, from + 1) == units[from],
        utf16_width(c) == crate::wide::units_of(c).len(),
    decreases to - mid,
{
    reveal_with_fuel(units_between, 2);
    if mid < to {
        units_add_up(units, from, mid, to - 1, c);
    }
}

/// A rectangle is one line up to one and a half of the caret's height.
pub proof fn lines_are_told_by_their_height(r: RectModel, height: int)
    requires
        height >= 0,
    ensures
        one_line(r, height) <==> 2 * (r.bottom - r.top) <= 3 * height,
{
}

/// A stretch joins the last line where it stands on it, and else begins a line of its
/// own; an empty one changes nothing. The lines before stay as they are.
pub proof fn stretches_join_their_line(lines: Seq<Rect>, r: Rect, i: int)
    ensures
        ({
            let after = with_line(lines, r);
            let seen = r.left < r.right && r.top < r.bottom;
            let beside = lines.len() > 0 && lines.last().top == r.top && lines.last().bottom
                == r.bottom;
            &&& !seen ==> after == lines
            &&& seen && !beside ==> after == lines.push(r)
            &&& seen && beside ==> {
                &&& after.len() == lines.len()
                &&& after.last()@ == lines.last()@.union(r@)
            }
            &&& 0 <= i < lines.len() - 1 ==> after[i] == lines[i]
        }),
{
}

/// The stretches that are left follow one another without a gap, from the part that
/// is done to the end of the text.
pub proof fn stretches_leave_no_gap(walk: LineWalk, i: int)
    requires
        walk.well_formed(),
        0 <= i < walk.todo@.len(),
    ensures
        walk.todo@[i].0 < walk.todo@[i].1 <= walk.units@.len(),
        i > 0 ==> walk.todo@[i].1 == walk.todo@[i - 1].0,
        i == 0 ==> walk.todo@[i].1 == walk.units@.len(),
        i == walk.todo@.len() - 1 ==> walk.todo@[i].0 == walk.done(),
{
    if i > 0 {
        let before = walk.todo@[i - 1];
        assert(walk.todo@[i].1 == before.0);
    }
}

}
