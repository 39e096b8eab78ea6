//! Text cut into rows of a fixed width.
use vstd::prelude::*;
use vstd::string::*;
use crate::text;
use crate::text::{chars_of, lines_of, string_of};

verus! {

/// A line cut into rows of `width` characters; an empty line gives one empty row.
pub open spec fn rows_of_line(line: Seq<char>, width: int) -> Seq<Seq<char>>
    decreases line.len(),
{
    if width <= 0 || line.len() <= width {
        seq![line]
    } else {
        seq![line.take(width)] + rows_of_line(line.skip(width), width)
    }
}

/// The rows of several lines, one behind the other.
pub open spec fn rows_of_lines(lines: Seq<Seq<char>>, width: int) -> Seq<Seq<char>>
    decreases lines.len(),
{
    if lines.len() == 0 {
        Seq::empty()
    } else {
        rows_of_lines(lines.drop_last(), width) + rows_of_line(lines.last(), width)
    }
}

/// A text cut at its line ends and then at the width.
pub open spec fn wrapped(t: Seq<char>, width: int) -> Seq<Seq<char>> {
    rows_of_lines(text::lines(t), width)
}

/// Appends the rows of one line.
fn push_rows(rows: &mut Vec<String>, line: &Vec<char>, width: usize)
    requires
        width > 0,
    ensures
        text::texts(final(rows)@) == text::texts(old(rows)@) + rows_of_line(line@, width as int),
{
    let ghost before = text::texts(rows@);
    let ghost whole = rows_of_line(line@, width as int);
    let n: usize = line.len();
    let mut from: usize = 0;
    assert(line@.skip(0) =~= line@);
    while n - from > width
        invariant
            from <= n,
            n == line@.len(),
            width > 0,
            whole == rows_of_line(line@, width as int),
            before + whole == text::texts(rows@) + rows_of_line(
                line@.skip(from as int),
                width as int,
            ),
        decreases n - from,
    {
        let ghost rest = line@.skip(from as int);
        let ghost so_far = text::texts(rows@);
        let row = string_of(line, from, from + width);
        rows.push(row);
        proof {
            assert(row@ =~= rest.take(width as int));
            assert(rest.skip(width as int) =~= line@.skip(from + width));
            assert(text::texts(rows@) =~= so_far.push(row@));
            assert(so_far + (seq![rest.take(width as int)] + rows_of_line(
                rest.skip(width as int),
                width as int,
            )) =~= so_far.push(row@) + rows_of_line(line@.skip(from + width), width as int));
        }
        from = from + width;
    }
    let ghost so_far = text::texts(rows@);
    let row = string_of(line, from, n);
    rows.push(row);
    proof {
        assert(row@ =~= line@.skip(from as int));
        assert(text::texts(rows@) =~= so_far + seq![row@]);
    }
}

/// Cuts a text into rows of `width` characters, and at its line ends.
pub fn wrap(t: &str, width: usize) -> (r: Vec<String>)
    requires
        width > 0,
    ensures
        text::texts(r@) == wrapped(t@, width as int),
{
    let chars: Vec<char> = chars_of(t);
    let lines: Vec<Vec<char>> = lines_of(&chars);
    let ghost models = text::lines(t@);
    let mut rows: Vec<String> = Vec::new();
    assert(text::texts(rows@) =~= Seq::empty());
    let mut i: usize = 0;
    while i < lines.len()
        invariant
            i <= lines@.len(),
            width > 0,
            models == text::char_rows(lines@),
            text::texts(rows@) == rows_of_lines(models.take(i as int), width as int),
        decreases lines@.len() - i,
    {
        push_rows(&mut rows, &lines[i], width);
        proof {
            let longer = models.take(i + 1);
            assert(longer.drop_last() =~= models.take(i as int));
            assert(longer.last() == lines@[i as int]@);
        }
        i = i + 1;
    }
    assert(models.take(models.len() as int) =~= models);
    rows
}

/// The rows of a line put together.
pub open spec fn joined(rows: Seq<Seq<char>>) -> Seq<char>
    decreases rows.len(),
{
    if rows.len() == 0 {
        Seq::empty()
    } else {
        rows[0] + joined(rows.skip(1))
    }
}

/// Wrapping loses no character: the rows of a line join to the line, and no row is
/// wider than asked.
pub proof fn wrapping_loses_nothing(line: Seq<char>, width: int)
    requires
        width > 0,
    ensures
        joined(rows_of_line(line, width)) == line,
        rows_of_line(line, width).len() >= 1,
        forall|i: int|
            0 <= i < rows_of_line(line, width).len() ==> (#[trigger] rows_of_line(line, width)[i]).len()
                <= width,
    decreases line.len(),
{
    let rows = rows_of_line(line, width);
    if line.len() <= width {
        assert(rows.skip(1) =~= Seq::empty());
        assert(joined(rows) =~= line) by {
            assert(joined(rows.skip(1)) =~= Seq::empty());
        }
    } else {
        wrapping_loses_nothing(line.skip(width), width);
        let rest = rows_of_line(line.skip(width), width);
        assert(rows.skip(1) =~= rest);
        assert(line.take(width) + line.skip(width) =~= line);
        assert forall|i: int| 0 <= i < rows.len() implies (#[trigger] rows[i]).len() <= width by {
            if i > 0 {
                assert(rows[i] == rest[i - 1]);
            }
        }
    }
}


/// Rows joined one behind the other.
proof fn lemma_joined_append(a: Seq<Seq<char>>, b: Seq<Seq<char>>)
    ensures
        joined(a + b) == joined(a) + joined(b),
    decreases a.len(),
{
    if a.len() == 0 {
        assert(a + b =~= b);
        assert(joined(a) + joined(b) =~= joined(b));
    } else {
        assert((a + b).skip(1) =~= a.skip(1) + b);
        assert((a + b)[0] == a[0]);
        lemma_joined_append(a.skip(1), b);
        assert(joined(a + b) =~= joined(a) + joined(b));
    }
}

/// Wrapping a text loses nothing but its line ends: the rows join to its lines.
pub proof fn wrapping_keeps_every_line(lines: Seq<Seq<char>>, width: int)
    requires
        width > 0,
    ensures
        joined(rows_of_lines(lines, width)) == joined(lines),
        lines.len() <= rows_of_lines(lines, width).len(),
    decreases lines.len(),
{
    if lines.len() > 0 {
        wrapping_keeps_every_line(lines.drop_last(), width);
        wrapping_loses_nothing(lines.last(), width);
        lemma_joined_append(
            rows_of_lines(lines.drop_last(), width),
            rows_of_line(lines.last(), width),
        );
        lemma_joined_append(lines.drop_last(), seq![lines.last()]);
        assert(lines.drop_last() + seq![lines.last()] =~= lines);
        assert(joined(seq![lines.last()]) =~= lines.last()) by {
            assert(seq![lines.last()].skip(1) =~= Seq::empty());
            assert(joined(seq![lines.last()].skip(1)) =~= Seq::empty());
        }
    }
}

/// Rows are filled from the front: row `i` holds the characters from `i` widths on,
/// and only the last one may be less than full. An empty line is one empty row.
pub proof fn rows_are_filled_from_the_front(line: Seq<char>, width: int, i: int)
    requires
        width > 0,
        0 <= i < rows_of_line(line, width).len(),
    ensures
        ({
            let rows = rows_of_line(line, width);
            let from = i * width;
            let to = if from + width <= line.len() {
                from + width
            } else {
                line.len() as int
            };
            &&& 0 <= from <= line.len()
            &&& rows[i] == line.subrange(from, to)
            &&& i + 1 < rows.len() ==> rows[i].len() == width
            &&& line.len() > 0 ==> rows[i].len() > 0
        }),
    decreases line.len(),
{
    let rows = rows_of_line(line, width);
    if line.len() <= width {
        assert(i == 0);
        assert(line.subrange(0, line.len() as int) =~= line);
    } else if i == 0 {
        assert(line.take(width) =~= line.subrange(0, width));
    } else {
        let rest = line.skip(width);
        rows_are_filled_from_the_front(rest, width, i - 1);
        vstd::arithmetic::mul::lemma_mul_is_distributive_sub_other_way(width, i, 1);
        let from = (i - 1) * width;
        let to = if from + width <= rest.len() {
            from + width
        } else {
            rest.len() as int
        };
        assert(rest.subrange(from, to) =~= line.subrange(from + width, to + width));
        assert(rows[i] == rows_of_line(rest, width)[i - 1]);
    }
}

/// A text is cut at its line ends first: its rows are those of its lines, one line
/// behind the other.
pub proof fn lines_are_wrapped_one_by_one(t: Seq<char>, line: Seq<char>, width: int)
    requires
        forall|i: int| 0 <= i < line.len() ==> #[trigger] line[i] != '\n',
    ensures
        wrapped(line.push('\n') + t, width) == rows_of_line(text::strip_cr(line), width) + wrapped(
            t,
            width,
        ),
        line.len() > 0 ==> wrapped(line, width) == rows_of_line(line, width),
        wrapped(Seq::empty(), width).len() == 0,
{
    text::line_feeds_end_lines(line, t);
    lemma_rows_join(seq![text::strip_cr(line)], text::lines(t), width);
    lemma_rows_of_one(text::strip_cr(line), width);
    lemma_rows_of_one(line, width);
    assert(text::lines(Seq::empty()) =~= Seq::<Seq<char>>::empty());
}

proof fn lemma_rows_of_one(line: Seq<char>, width: int)
    ensures
        rows_of_lines(seq![line], width) == rows_of_line(line, width),
{
    assert(seq![line].drop_last() =~= Seq::<Seq<char>>::empty());
    assert(rows_of_lines(seq![line].drop_last(), width) =~= Seq::<Seq<char>>::empty());
    assert(rows_of_lines(seq![line], width) =~= rows_of_line(line, width));
}

proof fn lemma_rows_join(a: Seq<Seq<char>>, b: Seq<Seq<char>>, width: int)
    ensures
        rows_of_lines(a + b, width) == rows_of_lines(a, width) + rows_of_lines(b, width),
    decreases b.len(),
{
    if b.len() == 0 {
        assert(a + b =~= a);
        assert(rows_of_lines(a, width) + rows_of_lines(b, width) =~= rows_of_lines(a, width));
    } else {
        lemma_rows_join(a, b.drop_last(), width);
        assert((a + b).drop_last() =~= a + b.drop_last());
        assert((a + b).last() == b.last());
        assert(rows_of_lines(a + b, width) =~= rows_of_lines(a, width) + rows_of_lines(b, width));
    }
}

}
