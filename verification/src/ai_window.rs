//! Where the AI's text is shown: a pool beside the caret, or over the text that it
//! replaces.
use vstd::prelude::*;
use vstd::string::*;
use crate::rect;
use crate::rect::{Rect, RectModel, max_i64, min_i64, rect_of};

verus! {

/// Where the text stands: the caret, the lines of the text and the visible part
/// of the document.
#[derive(Clone, Debug)]
pub struct Geometry {
    pub caret: Rect,
    pub lines: Vec<Rect>,
    pub viewport: Rect,
}

/// What is shown.
pub struct AiView {
    pub geometry: Geometry,
    pub text: String,
    /// The text shown replaces that of the document.
    pub replace: bool,
    pub busy: bool,
    /// An instruction is being typed.
    pub editing: bool,
}

/// Three logical pixels, rounded: close to the caret without touching it.
pub open spec fn gap(dpi: u32) -> int {
    (3 * rect::max_int(dpi as int, 96) + 48) / 96
}

pub fn caret_gap(dpi: u32) -> (r: i32)
    ensures
        r == gap(dpi),
{
    let d: i64 = if dpi < 96 {
        96
    } else {
        dpi as i64
    };
    ((3 * d + 48) / 96) as i32
}

/// Text that has no characters is never handed to the drawing functions: measured,
/// it takes no room. Gives the height drawn, or nothing where there is text to draw.
pub fn draw_text(text: &[u16], rect: &mut Rect, measure: bool) -> (r: Option<i32>)
    ensures
        r == (if text@.len() == 0 {
            Some(0i32)
        } else {
            None
        }),
        *final(rect) == (if text@.len() == 0 && measure {
            Rect { right: old(rect).left, bottom: old(rect).top, ..*old(rect) }
        } else {
            *old(rect)
        }),
{
    if text.len() == 0 {
        if measure {
            rect.right = rect.left;
            rect.bottom = rect.top;
        }
        return Some(0);
    }
    None
}

/// The text that is drawn: while an instruction is typed, with a caret behind it.
pub fn drawn_text(text: &str, editing: bool) -> (r: String)
    ensures
        r@ == (if editing {
            text@.push('│')
        } else {
            text@
        }),
{
    let mut s = text.to_owned();
    if editing {
        s.push('│');
    }
    s
}

/// A result is shown, not an instruction or a wait.
pub open spec fn preview(busy: bool, editing: bool) -> bool {
    !editing && !busy
}

/// The rectangle that the pool starts from: the first line that is replaced, or
/// the place beside the caret.
pub open spec fn anchor(g: Geometry, replace: bool, dpi: u32) -> RectModel {
    if replace {
        if g.lines@.len() > 0 {
            g.lines@[0]@
        } else {
            g.caret@
        }
    } else {
        RectModel { left: g.caret.right + gap(dpi), ..g.caret@ }
    }
}

/// The height of a line, within limits.
pub open spec fn line_height(a: RectModel) -> int {
    let h = a.bottom - a.top;
    if h < 12 {
        12
    } else if h > 120 {
        120
    } else {
        h
    }
}

pub open spec fn padding(height: int) -> int {
    rect::max_int(height / 6, 2)
}

/// How wide the text may get: to the edge of the document, up to twenty-four
/// characters, but never less than two.
pub open spec fn max_width(viewport_right: int, a: RectModel, height: int) -> int {
    rect::max_int(
        rect::min_int(viewport_right - a.left - padding(height), height * 24),
        height * 2,
    )
}

pub open spec fn font_size(height: int, is_preview: bool) -> int {
    if is_preview {
        height
    } else {
        rect::max_int(height * 2 / 3, 8)
    }
}

/// What is fixed before the text is measured.
#[derive(Clone, Copy, Debug, PartialEq, Eq, Structural)]
pub struct MeasurePlan {
    pub anchor: Rect,
    pub height: i32,
    pub padding: i32,
    pub width: i32,
    pub font_height: i32,
}

impl MeasurePlan {
    pub open spec fn of(self, g: Geometry, replace: bool, is_preview: bool, dpi: u32) -> bool {
        let a = anchor(g, replace, dpi);
        let h = line_height(a);
        &&& self.anchor@ == a
        &&& self.height == h
        &&& self.padding == padding(h)
        &&& self.width == max_width(g.viewport.right as int, a, h)
        &&& self.font_height == font_size(h, is_preview)
    }

    /// The sizes belong to a line height within its limits.
    pub open spec fn well_formed(self) -> bool {
        &&& 12 <= self.height <= 120
        &&& self.padding == padding(self.height as int)
        &&& self.height * 2 <= self.width <= self.height * 24
        &&& (self.font_height == font_size(self.height as int, true) || self.font_height
            == font_size(self.height as int, false))
    }
}

/// The sizes with which the text is measured.
pub fn measure_plan(view: &AiView, dpi: u32) -> (r: MeasurePlan)
    requires
        !view.replace ==> rect::fits(view.geometry.caret.right + gap(dpi)),
    ensures
        r.of(view.geometry, view.replace, preview(view.busy, view.editing), dpi),
        r.well_formed(),
{
    let g = &view.geometry;
    let mut a: Rect = g.caret;
    if view.replace {
        if g.lines.len() > 0 {
            a = g.lines[0];
        }
    } else {
        a.left = g.caret.right + caret_gap(dpi);
    }
    let tall: i64 = a.bottom as i64 - a.top as i64;
    let height: i64 = if tall < 12 {
        12
    } else if tall > 120 {
        120
    } else {
        tall
    };
    let pad: i64 = max_i64(height / 6, 2);
    let width: i64 = max_i64(
        min_i64(g.viewport.right as i64 - a.left as i64 - pad, height * 24),
        height * 2,
    );
    let font: i64 = if !view.editing && !view.busy {
        height
    } else {
        max_i64(height * 2 / 3, 8)
    };
    MeasurePlan {
        anchor: a,
        height: height as i32,
        padding: pad as i32,
        width: width as i32,
        font_height: font as i32,
    }
}

/// The pool for a text of the measured size.
pub open spec fn pool_for(p: MeasurePlan, right: int, bottom: int) -> RectModel {
    RectModel {
        left: p.anchor.left as int,
        top: p.anchor.top as int,
        right: p.anchor.left + rect::min_int(
            rect::max_int(right, p.height as int / 3),
            p.width as int,
        ) + p.padding * 2,
        bottom: p.anchor.top + rect::max_int(bottom, p.height as int),
    }
}

/// Half of a number, rounded towards zero.
pub open spec fn half(x: int) -> int {
    if x >= 0 {
        x / 2
    } else {
        -((-x) / 2)
    }
}

/// A pool that grows or shrinks in place does so by half of the way.
pub open spec fn eased(pool: RectModel, previous: Option<RectModel>) -> RectModel {
    match previous {
        Some(p) if p.left == pool.left && p.top == pool.top && p.bottom == pool.bottom => {
            let delta = pool.right - p.right;
            if delta > 2 || delta < -2 {
                RectModel { right: p.right + half(delta), ..pool }
            } else {
                pool
            }
        },
        _ => pool,
    }
}

/// A pool that would leave the screen on the right or below is moved back.
pub open spec fn on_screen(pool: RectModel, work: Option<RectModel>) -> RectModel {
    match work {
        Some(w) => pool.moved(
            -rect::max_int(pool.right - w.right, 0),
            -rect::max_int(pool.bottom - w.bottom, 0),
        ),
        None => pool,
    }
}

/// The pool as it is shown.
pub open spec fn shown_pool(
    p: MeasurePlan,
    right: int,
    bottom: int,
    previous: Option<RectModel>,
    work: Option<RectModel>,
) -> RectModel {
    on_screen(eased(pool_for(p, right, bottom), previous), work)
}

/// How far a mask reaches over the line that it hides.
pub open spec fn mask_edge(p: MeasurePlan) -> int {
    rect::max_int(p.padding as int / 2, 2)
}

/// The parts of the window: a mask for each line that is replaced, then the pool.
pub open spec fn parts(lines: Seq<Rect>, replace: bool, p: MeasurePlan, pool: RectModel) -> Seq<
    RectModel,
> {
    if replace {
        lines.map_values(|r: Rect| r@.widened(mask_edge(p))).push(pool)
    } else {
        seq![pool]
    }
}

/// The smallest rectangle that covers the pool and all parts.
pub open spec fn bounds_of(all: Seq<RectModel>, pool: RectModel) -> RectModel
    decreases all.len(),
{
    if all.len() == 0 {
        pool
    } else {
        bounds_of(all.drop_last(), pool).union(all.last())
    }
}

/// A window for the text.
pub struct Layout {
    pub pool: Rect,
    /// Its parts, relative to the screen; the pool is the last one.
    pub masks: Vec<Rect>,
    pub bounds: Rect,
    /// Where the text is drawn, relative to the window.
    pub text_rect: Rect,
    /// How much a mask's corners are rounded, and the pool's.
    pub mask_rounding: i32,
    pub pool_rounding: i32,
    pub alpha: u8,
}

pub open spec fn text_place(p: MeasurePlan, pool: RectModel, bounds: RectModel) -> RectModel {
    RectModel {
        left: pool.left - bounds.left + p.padding,
        top: pool.top - bounds.top + rect::max_int(p.height - p.font_height, 0) / 2,
        right: pool.right - bounds.left - p.padding,
        bottom: pool.bottom - bounds.top,
    }
}

pub open spec fn opt_rect(r: Option<Rect>) -> Option<RectModel> {
    match r {
        Some(x) => Some(x@),
        None => None,
    }
}

fn halved(x: i64) -> (r: i64)
    requires
        x > i64::MIN,
    ensures
        r == half(x as int),
{
    if x >= 0 {
        x / 2
    } else {
        -((-x) / 2)
    }
}

/// The pool, eased and kept on the screen.
fn place_pool(
    p: &MeasurePlan,
    right: i32,
    bottom: i32,
    previous: Option<Rect>,
    work: Option<Rect>,
) -> (r: Rect)
    requires
        p.well_formed(),
        shown_pool(*p, right as int, bottom as int, opt_rect(previous), opt_rect(work)).fits(),
    ensures
        r@ == shown_pool(*p, right as int, bottom as int, opt_rect(previous), opt_rect(work)),
{
    let mut pool_left: i64 = p.anchor.left as i64;
    let mut pool_top: i64 = p.anchor.top as i64;
    let mut pool_right: i64 = pool_left + min_i64(
        max_i64(right as i64, (p.height / 3) as i64),
        p.width as i64,
    ) + p.padding as i64 * 2;
    let mut pool_bottom: i64 = pool_top + max_i64(bottom as i64, p.height as i64);
    if let Some(q) = previous {
        if q.left as i64 == pool_left && q.top as i64 == pool_top && q.bottom as i64
            == pool_bottom {
            let delta: i64 = pool_right - q.right as i64;
            if delta > 2 || delta < -2 {
                pool_right = q.right as i64 + halved(delta);
            }
        }
    }
    if let Some(w) = work {
        let dx: i64 = max_i64(pool_right - w.right as i64, 0);
        pool_left = pool_left - dx;
        pool_right = pool_right - dx;
        let dy: i64 = max_i64(pool_bottom - w.bottom as i64, 0);
        pool_top = pool_top - dy;
        pool_bottom = pool_bottom - dy;
    }
    rect_of(pool_left, pool_top, pool_right, pool_bottom)
}

pub open spec fn all_fit(rects: Seq<RectModel>) -> bool {
    forall|i: int| 0 <= i < rects.len() ==> (#[trigger] rects[i]).fits()
}

/// Lays the window out for a text of the measured size. `previous` is the pool that
/// was shown last; only a visible instruction moves gently from it. `work` is the
/// part of the screen that windows may take.
pub fn show_impl(
    view: &AiView,
    plan: &MeasurePlan,
    measured_right: i32,
    measured_bottom: i32,
    previous: Option<Rect>,
    work: Option<Rect>,
    visible: bool,
) -> (r: Layout)
    requires
        plan.well_formed(),
        ({
            let gentle = visible && !preview(view.busy, view.editing);
            let pool = shown_pool(
                *plan,
                measured_right as int,
                measured_bottom as int,
                if gentle {
                    opt_rect(previous)
                } else {
                    None
                },
                opt_rect(work),
            );
            let all = parts(view.geometry.lines@, view.replace, *plan, pool);
            &&& pool.fits()
            &&& all_fit(all)
            &&& text_place(*plan, pool, bounds_of(all, pool)).fits()
        }),
    ensures
        ({
            let gentle = visible && !preview(view.busy, view.editing);
            let pool = shown_pool(
                *plan,
                measured_right as int,
                measured_bottom as int,
                if gentle {
                    opt_rect(previous)
                } else {
                    None
                },
                opt_rect(work),
            );
            let all = parts(view.geometry.lines@, view.replace, *plan, pool);
            &&& r.pool@ == pool
            &&& rect::rect_models(r.masks@) == all
            &&& r.bounds@ == bounds_of(all, pool)
            &&& r.text_rect@ == text_place(*plan, pool, r.bounds@)
            &&& r.mask_rounding == rect::max_int(plan.padding as int, 4)
            &&& r.pool_rounding == plan.height
            &&& r.alpha == (if view.replace {
                255int
            } else {
                185
            })
        }),
{
    let gentle = visible && (view.editing || view.busy);
    let from = if gentle {
        previous
    } else {
        None
    };
    let pool = place_pool(plan, measured_right, measured_bottom, from, work);
    let edge: i64 = max_i64((plan.padding / 2) as i64, 2);
    let ghost all = parts(view.geometry.lines@, view.replace, *plan, pool@);
    let mut masks: Vec<Rect> = Vec::new();
    if view.replace {
        let lines = &view.geometry.lines;
        let mut i: usize = 0;
        while i < lines.len()
            invariant
                i <= lines@.len(),
                lines@ == view.geometry.lines@,
                view.replace,
                edge == mask_edge(*plan),
                2 <= edge <= 20,
                all == parts(view.geometry.lines@, view.replace, *plan, pool@),
                all_fit(all),
                masks@.len() == i,
                forall|k: int| 0 <= k < i ==> (#[trigger] masks@[k])@ == all[k],
            decreases lines@.len() - i,
        {
            let l: Rect = lines[i];
            assert(all[i as int] == l@.widened(edge as int));
            masks.push(
                rect_of(
                    l.left as i64 - edge,
                    l.top as i64 - edge,
                    l.right as i64 + edge,
                    l.bottom as i64 + edge,
                ),
            );
            i = i + 1;
        }
    }
    masks.push(pool);
    assert(rect::rect_models(masks@) =~= all);
    let mut b: Rect = pool;
    let mut k: usize = 0;
    while k < masks.len()
        invariant
            k <= masks@.len(),
            rect::rect_models(masks@) == all,
            b@ == bounds_of(all.take(k as int), pool@),
        decreases masks@.len() - k,
    {
        let m: Rect = masks[k];
        proof {
            assert(all.take(k + 1).drop_last() =~= all.take(k as int));
            assert(all.take(k + 1).last() == m@);
        }
        b = Rect {
            left: if b.left <= m.left {
                b.left
            } else {
                m.left
            },
            top: if b.top <= m.top {
                b.top
            } else {
                m.top
            },
            right: if b.right >= m.right {
                b.right
            } else {
                m.right
            },
            bottom: if b.bottom >= m.bottom {
                b.bottom
            } else {
                m.bottom
            },
        };
        k = k + 1;
    }
    assert(all.take(all.len() as int) =~= all);
    let text_rect = rect_of(
        pool.left as i64 - b.left as i64 + plan.padding as i64,
        pool.top as i64 - b.top as i64 + max_i64(
            plan.height as i64 - plan.font_height as i64,
            0,
        ) / 2,
        pool.right as i64 - b.left as i64 - plan.padding as i64,
        pool.bottom as i64 - b.top as i64,
    );
    Layout {
        pool,
        masks,
        bounds: b,
        text_rect,
        mask_rounding: if plan.padding > 4 {
            plan.padding
        } else {
            4
        },
        pool_rounding: plan.height,
        alpha: if view.replace {
            255
        } else {
            185
        },
    }
}

/// The moment from which the waiting colour is timed: it goes on while the state
/// stays the same. `previous` is the state shown last with its moment.
pub fn pulse_start(previous: Option<(bool, u64)>, busy: bool, now_ms: u64) -> (r: u64)
    ensures
        r == (match previous {
            Some((b, began)) if b == busy => began,
            _ => now_ms,
        }),
{
    match previous {
        Some((b, began)) => if b == busy {
            began
        } else {
            now_ms
        },
        None => now_ms,
    }
}


// Laws

/// The window covers all its parts, the pool among them.
pub proof fn window_covers_its_parts(all: Seq<RectModel>, pool: RectModel, i: int)
    ensures
        bounds_of(all, pool).covers(pool),
        0 <= i < all.len() ==> bounds_of(all, pool).covers(all[i]),
    decreases all.len(),
{
    if all.len() > 0 {
        window_covers_its_parts(all.drop_last(), pool, i);
        if 0 <= i < all.len() - 1 {
            assert(all.drop_last()[i] == all[i]);
        }
    }
}

/// Every line that is replaced is hidden to its edges by its mask.
pub proof fn replaced_lines_are_hidden(
    lines: Seq<Rect>,
    p: MeasurePlan,
    pool: RectModel,
    i: int,
)
    requires
        0 <= i < lines.len(),
    ensures
        parts(lines, true, p, pool)[i].covers(lines[i]@),
        parts(lines, true, p, pool)[i] == lines[i]@.widened(mask_edge(p)),
        mask_edge(p) >= 2,
{
}

/// Text that is not replaced is not masked: only the pool is shown.
pub proof fn unreplaced_text_stays_visible(lines: Seq<Rect>, p: MeasurePlan, pool: RectModel)
    ensures
        parts(lines, false, p, pool) == seq![pool],
        bounds_of(parts(lines, false, p, pool), pool) == pool,
{
    let all = parts(lines, false, p, pool);
    assert(all =~= seq![pool]);
    assert(all.drop_last() =~= Seq::empty());
    assert(bounds_of(all.drop_last(), pool) == pool);
    assert(bounds_of(all, pool) =~= pool);
}

/// The pool never leaves the work area on the right or below, and keeps its size.
pub proof fn pool_stays_on_screen(pool: RectModel, work: RectModel)
    ensures
        on_screen(pool, Some(work)).right <= work.right,
        on_screen(pool, Some(work)).bottom <= work.bottom,
        on_screen(pool, Some(work)).right - on_screen(pool, Some(work)).left == pool.right
            - pool.left,
        on_screen(pool, Some(work)).bottom - on_screen(pool, Some(work)).top == pool.bottom
            - pool.top,
        pool.right <= work.right && pool.bottom <= work.bottom ==> on_screen(pool, Some(work))
            == pool,
{
}

/// An instruction grows to the right from its place beside the caret, as high as
/// the line: more text never makes the pool narrower or moves its left edge.
pub proof fn instruction_grows_to_the_right(
    p: MeasurePlan,
    right: int,
    wider: int,
    bottom: int,
)
    requires
        p.well_formed(),
        0 <= right <= wider,
        bottom <= p.height,
    ensures
        pool_for(p, right, bottom).right <= pool_for(p, wider, bottom).right,
        pool_for(p, right, bottom).left == p.anchor.left,
        pool_for(p, right, bottom).top == p.anchor.top,
        pool_for(p, right, bottom).bottom == p.anchor.top + p.height,
        p.height as int / 3 <= right < wider <= p.width ==> pool_for(p, right, bottom).right
            < pool_for(p, wider, bottom).right,
        pool_for(p, 0, bottom).right - pool_for(p, 0, bottom).left <= p.height,
{
    assert(p.height as int / 3 + padding(p.height as int) * 2 <= p.height) by (nonlinear_arith)
        requires
            12 <= p.height <= 120,
            padding(p.height as int) == rect::max_int(p.height as int / 6, 2),
    {
        assert(p.height as int / 6 * 2 <= p.height as int / 3);
        assert(p.height as int / 3 * 2 <= p.height);
    }
}

/// A moving pool comes closer to where it is going with every step, and never
/// goes past it.
pub proof fn easing_approaches_the_goal(pool: RectModel, previous: RectModel)
    ensures
        pool.right >= previous.right ==> previous.right <= eased(pool, Some(previous)).right
            <= pool.right || eased(pool, Some(previous)) == pool,
        pool.right <= previous.right ==> pool.right <= eased(pool, Some(previous)).right
            <= previous.right || eased(pool, Some(previous)) == pool,
        eased(pool, Some(previous)).left == pool.left,
        eased(pool, Some(previous)).top == pool.top,
        eased(pool, Some(previous)).bottom == pool.bottom,
        eased(pool, None) == pool,
{
}

/// The gap is three logical pixels at the resolution, rounded, and never less.
pub proof fn the_gap_follows_the_resolution(dpi: u32)
    ensures
        dpi <= 96 ==> gap(dpi) == 3,
        dpi >= 96 ==> -48 <= 96 * gap(dpi) - 3 * dpi <= 48,
        gap(192) == 6,
{
}

/// The pool starts at the first line that is replaced, or at the caret where no line
/// is known; beside the caret where nothing is replaced.
pub proof fn the_pool_starts_where_the_text_is(g: Geometry, dpi: u32)
    ensures
        g.lines@.len() > 0 ==> anchor(g, true, dpi) == g.lines@[0]@,
        g.lines@.len() == 0 ==> anchor(g, true, dpi) == g.caret@,
        anchor(g, false, dpi).left == g.caret.right + gap(dpi),
        anchor(g, false, dpi).top == g.caret.top,
        anchor(g, false, dpi).bottom == g.caret.bottom,
        anchor(g, false, dpi).left > g.caret.right,
{
}

/// The text is as high as the line it stands on, between 12 and 120 pixels; an
/// instruction is written two thirds as high.
pub proof fn sizes_follow_the_line(a: RectModel)
    ensures
        ({
            let tall = a.bottom - a.top;
            let h = line_height(a);
            &&& 12 <= tall <= 120 ==> h == tall
            &&& tall < 12 ==> h == 12
            &&& tall > 120 ==> h == 120
            &&& padding(h) == h / 6
            &&& font_size(h, true) == h
            &&& 3 * font_size(h, false) <= 2 * h < 3 * font_size(h, false) + 3
        }),
{
}

/// The text may reach to the edge of the document, but is at least two and at most
/// twenty-four characters wide.
pub proof fn the_text_keeps_to_the_document(edge: int, a: RectModel, height: int)
    requires
        height >= 12,
    ensures
        ({
            let w = max_width(edge, a, height);
            &&& height * 2 <= w <= height * 24
            &&& height * 2 <= edge - a.left - padding(height) <= height * 24 ==> a.left + w
                + padding(height) == edge
            &&& edge - a.left - padding(height) > height * 24 ==> w == height * 24
            &&& edge - a.left - padding(height) < height * 2 ==> w == height * 2
        }),
{
}

/// The pool has room for the measured text with its padding on both sides, as far as
/// the text may get wide, and is at least one line high.
pub proof fn the_pool_holds_the_text(p: MeasurePlan, right: int, bottom: int)
    requires
        p.well_formed(),
    ensures
        ({
            let pool = pool_for(p, right, bottom);
            &&& p.height as int / 3 <= right <= p.width ==> pool.right - pool.left == right + 2
                * p.padding
            &&& right > p.width ==> pool.right - pool.left == p.width + 2 * p.padding
            &&& pool.bottom - pool.top >= p.height
            &&& bottom >= p.height ==> pool.bottom - pool.top == bottom
            &&& pool.left == p.anchor.left && pool.top == p.anchor.top
        }),
{
}

/// A pool that changes in place moves half of the way, rounded; small changes, and
/// those of another place, are made at once.
pub proof fn pools_move_half_of_the_way(pool: RectModel, previous: RectModel)
    ensures
        ({
            let in_place = previous.left == pool.left && previous.top == pool.top
                && previous.bottom == pool.bottom;
            let delta = pool.right - previous.right;
            let next = eased(pool, Some(previous));
            &&& !in_place ==> next == pool
            &&& in_place && -2 <= delta <= 2 ==> next == pool
            &&& in_place && delta > 2 ==> delta - 1 <= 2 * (next.right - previous.right) <= delta
            &&& in_place && delta < -2 ==> delta <= 2 * (next.right - previous.right) <= delta + 1
        }),
{
}

/// A pool that would leave the work area is moved back just as far as it takes, and
/// is never moved to the right or down. Without a work area it stays.
pub proof fn pools_are_moved_back_just_enough(pool: RectModel, work: RectModel)
    ensures
        pool.right > work.right ==> on_screen(pool, Some(work)).right == work.right,
        pool.bottom > work.bottom ==> on_screen(pool, Some(work)).bottom == work.bottom,
        pool.right <= work.right ==> on_screen(pool, Some(work)).left == pool.left,
        pool.bottom <= work.bottom ==> on_screen(pool, Some(work)).top == pool.top,
        on_screen(pool, None) == pool,
{
}

/// The text is drawn inside the pool, with the padding left free on both sides, and
/// in the middle of the line.
pub proof fn the_text_is_drawn_in_the_pool(p: MeasurePlan, pool: RectModel, bounds: RectModel)
    requires
        p.well_formed(),
    ensures
        ({
            let place = text_place(p, pool, bounds).moved(bounds.left, bounds.top);
            &&& place.left == pool.left + p.padding
            &&& place.right == pool.right - p.padding
            &&& place.bottom == pool.bottom
            &&& pool.top <= place.top
            &&& p.height - p.font_height - 1 <= 2 * (place.top - pool.top) <= p.height
                - p.font_height
        }),
{
}

/// The pool is shown last, over the masks of all lines that are replaced.
pub proof fn the_pool_lies_over_the_masks(lines: Seq<Rect>, p: MeasurePlan, pool: RectModel)
    ensures
        parts(lines, true, p, pool).len() == lines.len() + 1,
        parts(lines, true, p, pool).last() == pool,
        parts(lines, false, p, pool).last() == pool,
        p.padding >= 0 ==> mask_edge(p) == 2 || mask_edge(p) == p.padding as int / 2,
{
}

/// A window is no larger than its parts need.
pub proof fn windows_are_no_larger_than_needed(
    all: Seq<RectModel>,
    pool: RectModel,
    c: RectModel,
)
    requires
        c.covers(pool),
        forall|i: int| 0 <= i < all.len() ==> c.covers(#[trigger] all[i]),
    ensures
        c.covers(bounds_of(all, pool)),
    decreases all.len(),
{
    if all.len() > 0 {
        assert forall|i: int| 0 <= i < all.drop_last().len() implies c.covers(
            #[trigger] all.drop_last()[i],
        ) by {
            assert(all.drop_last()[i] == all[i]);
        }
        windows_are_no_larger_than_needed(all.drop_last(), pool, c);
        assert(c.covers(all[all.len() - 1]));
    }
}

/// A result is shown once nothing is typed and nothing is waited for.
pub proof fn previews_are_results(busy: bool, editing: bool)
    ensures
        preview(busy, editing) <==> !(busy || editing),
{
}

/// The sizes with which a text is measured all come from the line that it starts at.
pub proof fn sizes_come_from_one_line(
    p: MeasurePlan,
    g: Geometry,
    replace: bool,
    is_preview: bool,
    dpi: u32,
)
    requires
        p.of(g, replace, is_preview, dpi),
    ensures
        p.well_formed(),
        p.anchor@ == anchor(g, replace, dpi),
        p.height == line_height(p.anchor@),
        p.padding == padding(p.height as int),
        p.font_height == font_size(p.height as int, is_preview),
        p.width == max_width(g.viewport.right as int, p.anchor@, p.height as int),
{
}

/// The pool is shown at the measured place, from where it was, and on the screen:
/// being kept on the screen comes last.
pub proof fn the_shown_pool_is_on_the_screen(
    p: MeasurePlan,
    right: int,
    bottom: int,
    previous: Option<RectModel>,
    work: RectModel,
)
    ensures
        shown_pool(p, right, bottom, previous, Some(work)).right <= work.right,
        shown_pool(p, right, bottom, previous, Some(work)).bottom <= work.bottom,
        shown_pool(p, right, bottom, None, None) == pool_for(p, right, bottom),
        shown_pool(p, right, bottom, previous, None) == eased(
            pool_for(p, right, bottom),
            previous,
        ),
{
}

}
