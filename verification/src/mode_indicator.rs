//! The sign that shows the input mode beside the caret for a moment.
use vstd::prelude::*;
use vstd::string::*;
use crate::ime_mode::ImeMode;
use crate::rect;
use crate::rect::{Rect, max_i64};

verus! {

/// Width and height of the sign, in logical pixels.
pub const WIN_SIZE: i32 = 32;

pub const FONT_HEIGHT: i32 = 22;

/// How high a caret is taken to be.
pub const CARET_HEIGHT_ESTIMATE: i32 = 24;

/// How long the sign is shown, in milliseconds.
pub const FADE_START_MS: u32 = 1500;

/// A length in logical pixels at a resolution, rounded. No resolution is ninety-six.
pub open spec fn scaled_len(value: int, dpi: u32) -> int {
    let d = if dpi == 0 {
        96int
    } else {
        dpi as int
    };
    if value * d + 48 >= 0 {
        (value * d + 48) / 96
    } else {
        -(-(value * d + 48) / 96)
    }
}

pub fn scaled(value: i32, dpi: u32) -> (r: i32)
    requires
        rect::fits(scaled_len(value as int, dpi)),
    ensures
        r == scaled_len(value as int, dpi),
{
    let d: i64 = if dpi == 0 {
        96
    } else {
        dpi as i64
    };
    proof {
        assert(-0x8000_0000 * 0xFFFF_FFFF <= value * d <= 0x7FFF_FFFF * 0xFFFF_FFFF)
            by (nonlinear_arith)
            requires
                -0x8000_0000 <= value <= 0x7FFF_FFFF,
                0 < d <= 0xFFFF_FFFF,
        ;
    }
    let x: i64 = value as i64 * d + 48;
    if x >= 0 {
        (x / 96) as i32
    } else {
        (-(-x / 96)) as i32
    }
}

/// The number nearest to `x` between two bounds, of which the lower one wins.
pub open spec fn within(x: int, low: int, high: int) -> int {
    if x < low {
        low
    } else if x > rect::max_int(high, low) {
        rect::max_int(high, low)
    } else {
        x
    }
}

/// The place of the sign: below the caret, or above it where there is no room
/// below, and inside the work area.
pub open spec fn sign_place(x: int, caret_bottom: int, dpi: u32, work: rect::RectModel) -> (
    int,
    int,
) {
    let size = scaled_len(WIN_SIZE as int, dpi);
    let y = if caret_bottom + size > work.bottom {
        caret_bottom - scaled_len(CARET_HEIGHT_ESTIMATE + 4, dpi) - size
    } else {
        caret_bottom
    };
    (within(x, work.left, work.right - size), within(y, work.top, work.bottom - size))
}

fn clamp_within(x: i64, low: i64, high: i64) -> (r: i64)
    ensures
        r == within(x as int, low as int, high as int),
{
    let top: i64 = max_i64(high, low);
    if x < low {
        low
    } else if x > top {
        top
    } else {
        x
    }
}

/// Lengths of the sign stay in range at every resolution.
proof fn lemma_sign_fits(dpi: u32)
    ensures
        0 <= scaled_len(WIN_SIZE as int, dpi) <= 0x7FFF_FFFF,
        0 <= scaled_len(CARET_HEIGHT_ESTIMATE + 4, dpi) <= 0x7FFF_FFFF,
        0 <= scaled_len(FONT_HEIGHT as int, dpi) <= 0x7FFF_FFFF,
{
}

pub fn position_in_work_area(x: i32, caret_bottom: i32, dpi: u32, work: Rect) -> (r: (i32, i32))
    ensures
        (r.0 as int, r.1 as int) == sign_place(x as int, caret_bottom as int, dpi, work@),
{
    proof {
        lemma_sign_fits(dpi);
    }
    let size: i64 = scaled(WIN_SIZE, dpi) as i64;
    let bottom: i64 = caret_bottom as i64;
    let y: i64 = if bottom + size > work.bottom as i64 {
        bottom - scaled(CARET_HEIGHT_ESTIMATE + 4, dpi) as i64 - size
    } else {
        bottom
    };
    let px: i64 = clamp_within(x as i64, work.left as i64, work.right as i64 - size);
    let py: i64 = clamp_within(y, work.top as i64, work.bottom as i64 - size);
    (px as i32, py as i32)
}

/// The place of the sign; where the work area is not known, at the caret.
pub fn calc_window_position(x: i32, caret_bottom: i32, dpi: u32, work: Option<Rect>) -> (r: (
    i32,
    i32,
))
    ensures
        match work {
            Some(w) => (r.0 as int, r.1 as int) == sign_place(
                x as int,
                caret_bottom as int,
                dpi,
                w@,
            ),
            None => r == (x, caret_bottom),
        },
{
    match work {
        Some(w) => position_in_work_area(x, caret_bottom, dpi, w),
        None => (x, caret_bottom),
    }
}

/// Where the sign is shown: at the caret that is given, or at the one that the
/// system knows (`system_caret`) where none is. Without a caret it is not shown.
pub fn show(x: i32, y: i32, system_caret: Option<(i32, i32)>) -> (r: Option<(i32, i32)>)
    ensures
        r == (if x == 0 && y == 0 {
            system_caret
        } else {
            Some((x, y))
        }),
{
    if x == 0 && y == 0 {
        system_caret
    } else {
        Some((x, y))
    }
}

/// Whether the sign is on the screen.
#[derive(Clone, Copy, Debug, PartialEq, Eq, Structural)]
pub struct Indicator {
    pub visible: bool,
}

impl Indicator {
    pub fn new() -> (r: Self)
        ensures
            !r.visible,
    {
        Indicator { visible: false }
    }

    pub fn shown(&mut self)
        ensures
            final(self).visible,
    {
        self.visible = true;
    }
}

/// Takes the sign off the screen; tells whether there is a window to hide.
pub fn hide_indicator(indicator: &mut Indicator) -> (r: bool)
    ensures
        r == old(indicator).visible,
        !final(indicator).visible,
{
    let was = indicator.visible;
    indicator.visible = false;
    was
}

pub fn is_visible(indicator: &Indicator) -> (r: bool)
    ensures
        r == indicator.visible,
{
    indicator.visible
}

/// What is shown for a mode. While nothing can be converted yet, plain on is not
/// shown.
pub fn indicator_label(mode: ImeMode, ready: bool) -> (r: Option<&'static str>)
    ensures
        crate::text::opt_text(r) == (if mode == ImeMode::On && !ready {
            None
        } else {
            Some(mode.label_text())
        }),
{
    if mode == ImeMode::On && !ready {
        None
    } else {
        Some(mode.label())
    }
}

/// Background and foreground of the sign, as blue, green and red.
pub fn indicator_colors(light: bool) -> (r: (u32, u32))
    ensures
        r == (if light {
            (0x00FFFFFFu32, 0x00555555u32)
        } else {
            (0x00333333u32, 0x00FFFFFFu32)
        }),
{
    if light {
        (0x00FFFFFF, 0x00555555)
    } else {
        (0x00333333, 0x00FFFFFF)
    }
}

/// The sign never leaves a work area that has room for it, and keeps its place at
/// the caret where it fits there.
pub proof fn sign_stays_in_work_area(x: int, caret_bottom: int, dpi: u32, work: rect::RectModel)
    requires
        work.right - work.left >= scaled_len(WIN_SIZE as int, dpi),
        work.bottom - work.top >= scaled_len(WIN_SIZE as int, dpi),
    ensures
        ({
            let (px, py) = sign_place(x, caret_bottom, dpi, work);
            let size = scaled_len(WIN_SIZE as int, dpi);
            &&& work.left <= px && px + size <= work.right
            &&& work.top <= py && py + size <= work.bottom
            &&& work.left <= x && x + size <= work.right && work.top <= caret_bottom && caret_bottom
                + size <= work.bottom ==> (px, py) == (x, caret_bottom)
        }),
{
}

/// A sign without room below the caret is shown above it: it does not cover the
/// line, where there is room above.
pub proof fn sign_moves_above_the_caret(x: int, caret_bottom: int, dpi: u32, work: rect::RectModel)
    requires
        caret_bottom + scaled_len(WIN_SIZE as int, dpi) > work.bottom,
        caret_bottom <= work.bottom,
        caret_bottom - scaled_len(CARET_HEIGHT_ESTIMATE + 4, dpi) - scaled_len(
            WIN_SIZE as int,
            dpi,
        ) >= work.top,
    ensures
        sign_place(x, caret_bottom, dpi, work).1 + scaled_len(WIN_SIZE as int, dpi)
            <= caret_bottom,
        dpi == 0 || dpi >= 96 ==> sign_place(x, caret_bottom, dpi, work).1 + scaled_len(
            WIN_SIZE as int,
            dpi,
        ) < caret_bottom,
{
    if dpi == 0 || dpi >= 96 {
        let d = if dpi == 0 {
            96int
        } else {
            dpi as int
        };
        assert(CARET_HEIGHT_ESTIMATE + 4 == 28);
        assert(scaled_len(28, dpi) == (28 * d + 48) / 96);
    }
}

/// A length is scaled by the resolution and rounded to the nearest pixel: at ninety-six
/// dots per inch, and where none is known, it stays as it is.
pub proof fn lengths_follow_the_resolution(value: int, dpi: u32)
    requires
        value >= 0,
    ensures
        dpi == 0 || dpi == 96 ==> scaled_len(value, dpi) == value,
        dpi > 0 ==> 2 * (96 * scaled_len(value, dpi) - value * dpi) <= 96,
        dpi > 0 ==> 2 * (value * dpi - 96 * scaled_len(value, dpi)) < 96,
        dpi == 192 ==> scaled_len(value, dpi) == 2 * value,
{
    let d = if dpi == 0 {
        96int
    } else {
        dpi as int
    };
    assert(value * d >= 0) by (nonlinear_arith)
        requires
            value >= 0,
            d >= 0,
    ;
    let x = value * d + 48;
    assert(scaled_len(value, dpi) == x / 96);
    assert(d == 96 ==> value * d == 96 * value) by (nonlinear_arith);
    assert(d == 192 ==> value * d == 192 * value) by (nonlinear_arith);
    assert(96 * (x / 96) <= x < 96 * (x / 96) + 96);
}

/// A place between two bounds stays; one outside goes to the nearer bound, and the
/// lower one wins where they cross.
pub proof fn places_stay_within_bounds(x: int, low: int, high: int)
    ensures
        low <= x <= high ==> within(x, low, high) == x,
        x < low ==> within(x, low, high) == low,
        low <= high < x ==> within(x, low, high) == high,
        high < low ==> within(x, low, high) == low,
{
}

/// The sign stands at the caret from left to right wherever it fits there, and below
/// the caret while there is room.
pub proof fn the_sign_stands_at_the_caret(
    x: int,
    caret_bottom: int,
    dpi: u32,
    work: rect::RectModel,
)
    requires
        work.left <= x,
        x + scaled_len(32, dpi) <= work.right,
        work.top <= caret_bottom,
    ensures
        sign_place(x, caret_bottom, dpi, work).0 == x,
        caret_bottom + scaled_len(32, dpi) <= work.bottom ==> sign_place(
            x,
            caret_bottom,
            dpi,
            work,
        ).1 == caret_bottom,
        caret_bottom + scaled_len(32, dpi) > work.bottom && caret_bottom - scaled_len(28, dpi)
            - scaled_len(32, dpi) >= work.top && caret_bottom <= work.bottom ==> sign_place(
            x,
            caret_bottom,
            dpi,
            work,
        ).1 == caret_bottom - scaled_len(28, dpi) - scaled_len(32, dpi),
{
    lemma_sign_fits(dpi);
    assert(CARET_HEIGHT_ESTIMATE + 4 == 28);
}

}
