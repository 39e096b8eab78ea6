//! The icon of the input mode: from a large drawing to smooth pixels.
use vstd::prelude::*;
use vstd::arithmetic::div_mod::*;
use vstd::arithmetic::mul::*;

verus! {

/// How many times larger the drawing is than the icon, in each direction.
pub const SCALE: usize = 4;

/// The largest icon: its drawing still fits a bitmap.
pub const MAX_ICON: usize = 5792;

/// The resolution that the icon is made for: that of the taskbar, where there is
/// one, else that of the system.
pub fn mode_icon_dpi(taskbar_dpi: Option<u32>, system_dpi: u32) -> (r: u32)
    ensures
        r == (match taskbar_dpi {
            Some(d) if d != 0 => d,
            _ => if system_dpi < 96 {
                96
            } else {
                system_dpi
            },
        }),
{
    match taskbar_dpi {
        Some(d) => if d != 0 {
            d
        } else if system_dpi < 96 {
            96
        } else {
            system_dpi
        },
        None => if system_dpi < 96 {
            96
        } else {
            system_dpi
        },
    }
}

/// The size of the icon, from the system's size of small icons.
pub fn mode_icon_size(small_icon: i32) -> (r: i32)
    ensures
        r == (if small_icon < 16 {
            16
        } else if small_icon > 128 {
            128
        } else {
            small_icon as int
        }),
{
    if small_icon < 16 {
        16
    } else if small_icon > 128 {
        128
    } else {
        small_icon
    }
}

/// The first byte of dot (`x`, `y`) of the drawing.
pub open spec fn dot(source: Seq<u8>, size: int, x: int, y: int) -> u8 {
    source[(y * (size * SCALE) + x) * 4]
}

/// How much ink the first `k` dots behind a pixel hold together. The dots are
/// counted row by row.
pub open spec fn ink(source: Seq<u8>, size: int, px: int, py: int, k: int) -> int
    decreases k,
{
    if k <= 0 {
        0
    } else {
        ink(source, size, px, py, k - 1) + dot(
            source,
            size,
            px * SCALE + (k - 1) % (SCALE as int),
            py * SCALE + (k - 1) / (SCALE as int),
        )
    }
}

/// How opaque a pixel is: the rounded mean over its dots.
pub open spec fn alpha(source: Seq<u8>, size: int, px: int, py: int) -> int {
    (ink(source, size, px, py, 16) + 8) / 16
}

/// The brightness of a pixel: black on light themes, white on dark ones, in
/// proportion to how opaque it is.
pub open spec fn shade(light: bool, a: int) -> int {
    if light {
        0
    } else {
        a
    }
}

/// The four bytes of pixel `p`, counted row by row.
pub open spec fn pixel_drawn(
    pixels: Seq<u8>,
    source: Seq<u8>,
    size: int,
    light: bool,
    p: int,
) -> bool {
    let a = alpha(source, size, p % size, p / size);
    &&& pixels[4 * p] == shade(light, a)
    &&& pixels[4 * p + 1] == shade(light, a)
    &&& pixels[4 * p + 2] == shade(light, a)
    &&& pixels[4 * p + 3] == a
}

proof fn lemma_ink_bound(source: Seq<u8>, size: int, px: int, py: int, k: int)
    requires
        0 <= k,
    ensures
        0 <= ink(source, size, px, py, k) <= 255 * k,
    decreases k,
{
    if k > 0 {
        lemma_ink_bound(source, size, px, py, k - 1);
    }
}

/// A dot of the drawing lies inside it.
proof fn lemma_dot_index(size: int, x: int, y: int)
    requires
        0 < size <= MAX_ICON,
        0 <= x < size * SCALE,
        0 <= y < size * SCALE,
    ensures
        0 <= y * (size * SCALE) + x < (size * SCALE) * (size * SCALE),
        (size * SCALE) * (size * SCALE) * 4 <= 0x7FFF_FFFF,
{
    let h = size * SCALE;
    lemma_mul_inequality(y, h - 1, h);
    lemma_mul_is_distributive_sub_other_way(h, h, 1);
    lemma_mul_nonnegative(y, h);
    assert(h * h * 4 <= 0x7FFF_FFFF) by (nonlinear_arith)
        requires
            0 < h <= 23168,
    ;
}

/// The coverage of one pixel.
fn coverage(source: &[u8], size: usize, px: usize, py: usize) -> (r: u8)
    requires
        0 < size <= MAX_ICON,
        px < size,
        py < size,
        source@.len() == (size * SCALE) * (size * SCALE) * 4,
    ensures
        r == alpha(source@, size as int, px as int, py as int),
{
    let high: usize = size * SCALE;
    let mut sum: u32 = 0;
    let mut k: usize = 0;
    while k < 16
        invariant
            k <= 16,
            0 < size <= MAX_ICON,
            px < size,
            py < size,
            high == size * SCALE,
            source@.len() == (size * SCALE) * (size * SCALE) * 4,
            sum == ink(source@, size as int, px as int, py as int, k as int),
            sum <= 255 * k,
        decreases 16 - k,
    {
        let x: usize = px * SCALE + k % SCALE;
        let y: usize = py * SCALE + k / SCALE;
        proof {
            lemma_dot_index(size as int, x as int, y as int);
        }
        let row: usize = y * high;
        sum = sum + source[(row + x) * 4] as u32;
        k = k + 1;
    }
    proof {
        lemma_ink_bound(source@, size as int, px as int, py as int, 16);
    }
    ((sum + 8) / 16) as u8
}

/// Turns a drawing of white text on black, `SCALE` times as large as the icon, into
/// the pixels of the icon: four bytes each, blue, green and red already multiplied
/// by the opacity, and the opacity. `source` has four bytes for each dot, of which
/// only the first counts.
pub fn mode_icon_pixels(source: &[u8], size: usize, light: bool) -> (r: Vec<u8>)
    requires
        0 < size <= MAX_ICON,
        source@.len() == (size * SCALE) * (size * SCALE) * 4,
    ensures
        r@.len() == size * size * 4,
        forall|p: int|
            0 <= p < size * size ==> #[trigger] pixel_drawn(r@, source@, size as int, light, p),
{
    proof {
        lemma_dot_index(size as int, 0, 0);
        assert(size * size <= 0x7FFF_FFFF) by (nonlinear_arith)
            requires
                0 < size <= 5792,
        ;
    }
    let total: usize = size * size;
    let mut pixels: Vec<u8> = Vec::new();
    let mut p: usize = 0;
    while p < total
        invariant
            p <= total,
            total == size * size,
            0 < size <= MAX_ICON,
            source@.len() == (size * SCALE) * (size * SCALE) * 4,
            pixels@.len() == 4 * p,
            forall|q: int|
                0 <= q < p ==> #[trigger] pixel_drawn(
                    pixels@,
                    source@,
                    size as int,
                    light,
                    q,
                ),
        decreases total - p,
    {
        proof {
            lemma_fundamental_div_mod(p as int, size as int);
            lemma_mod_bound(p as int, size as int);
            lemma_div_is_ordered(p as int, total - 1, size as int);
            lemma_last_row(size as int);
        }
        let a: u8 = coverage(source, size, p % size, p / size);
        let c: u8 = if light {
            0
        } else {
            a
        };
        let ghost before = pixels@;
        pixels.push(c);
        pixels.push(c);
        pixels.push(c);
        pixels.push(a);
        proof {
            assert forall|q: int| 0 <= q < p + 1 implies #[trigger] pixel_drawn(
                pixels@,
                source@,
                size as int,
                light,
                q,
            ) by {
                if q < p {
                    assert(pixel_drawn(before, source@, size as int, light, q));
                }
            }
        }
        p = p + 1;
    }
    pixels
}

proof fn lemma_last_row(size: int)
    requires
        0 < size,
    ensures
        (size * size - 1) / size == size - 1,
{
    assert(size * size - 1 == (size - 1) * size + (size - 1)) by (nonlinear_arith)
        requires
            0 < size,
    ;
    lemma_fundamental_div_mod_converse(size * size - 1, size, size - 1, size - 1);
}

// The mask

/// How many bytes a row of the mask takes: rows start at even addresses.
pub open spec fn mask_stride(size: int) -> int {
    (size + 15) / 16 * 2
}

/// A pixel of the row is seen through. What lies right of the icon is.
pub open spec fn seen_through(pixels: Seq<u8>, size: int, x: int, y: int) -> bool {
    x >= size || pixels[(y * size + x) * 4 + 3] == 0
}

/// The value of bit `j` of a byte, counted from the left.
pub open spec fn bit_value(j: int) -> int {
    if j == 0 {
        128
    } else if j == 1 {
        64
    } else if j == 2 {
        32
    } else if j == 3 {
        16
    } else if j == 4 {
        8
    } else if j == 5 {
        4
    } else if j == 6 {
        2
    } else {
        1
    }
}

/// The first `j` bits of a byte of the mask: one where the pixel is seen through.
pub open spec fn mask_bits(pixels: Seq<u8>, size: int, y: int, k: int, j: int) -> int
    decreases j,
{
    if j <= 0 {
        0
    } else {
        mask_bits(pixels, size, y, k, j - 1) + (if seen_through(pixels, size, 8 * k + j - 1, y) {
            bit_value(j - 1)
        } else {
            0
        })
    }
}

/// Byte `k` of row `y` of the mask.
pub open spec fn mask_byte(pixels: Seq<u8>, size: int, y: int, k: int) -> int {
    mask_bits(pixels, size, y, k, 8)
}

fn value_of_bit(j: usize) -> (r: u8)
    requires
        j < 8,
    ensures
        r == bit_value(j as int),
{
    if j == 0 {
        128
    } else if j == 1 {
        64
    } else if j == 2 {
        32
    } else if j == 3 {
        16
    } else if j == 4 {
        8
    } else if j == 5 {
        4
    } else if j == 6 {
        2
    } else {
        1
    }
}

/// The first `j` bits of a byte leave room for the others.
proof fn lemma_mask_bits_bound(pixels: Seq<u8>, size: int, y: int, k: int, j: int)
    requires
        0 <= j <= 8,
    ensures
        0 <= mask_bits(pixels, size, y, k, j) <= 256 - (if j == 0 {
            256int
        } else {
            bit_value(j - 1)
        }),
    decreases j,
{
    if j > 0 {
        lemma_mask_bits_bound(pixels, size, y, k, j - 1);
    }
}

fn byte_of_mask(pixels: &Vec<u8>, size: usize, y: usize, k: usize) -> (r: u8)
    requires
        0 < size <= MAX_ICON,
        y < size,
        k < 2 * size,
        pixels@.len() == size * size * 4,
    ensures
        r == mask_byte(pixels@, size as int, y as int, k as int),
{
    let mut byte: u8 = 0;
    let mut j: usize = 0;
    while j < 8
        invariant
            j <= 8,
            0 < size <= MAX_ICON,
            y < size,
            k < 2 * size,
            pixels@.len() == size * size * 4,
            byte == mask_bits(pixels@, size as int, y as int, k as int, j as int),
        decreases 8 - j,
    {
        let x: usize = 8 * k + j;
        proof {
            lemma_mask_bits_bound(pixels@, size as int, y as int, k as int, j + 1);
        }
        let through = if x >= size {
            true
        } else {
            proof {
                assert(y * size + x < size * size) by (nonlinear_arith)
                    requires
                        y <= size - 1,
                        x <= size - 1,
                        0 <= x,
                ;
                assert(size * size <= 33547264) by (nonlinear_arith)
                    requires
                        0 < size <= 5792,
                ;
                assert(0 <= y * size) by (nonlinear_arith)
                    requires
                        0 <= y,
                        0 <= size,
                ;
            }
            let row: usize = y * size;
            pixels[(row + x) * 4 + 3] == 0
        };
        if through {
            byte = byte + value_of_bit(j);
        }
        j = j + 1;
    }
    byte
}

/// The mask of an icon, for programs that know no opacity: one bit for each pixel,
/// set where it is seen through.
pub fn mode_icon_mask(pixels: &Vec<u8>, size: usize) -> (r: Vec<u8>)
    requires
        0 < size <= MAX_ICON,
        pixels@.len() == size * size * 4,
    ensures
        r@.len() == mask_stride(size as int) * size,
        forall|q: int|
            0 <= q < r@.len() ==> #[trigger] r@[q] == mask_byte(
                pixels@,
                size as int,
                q / mask_stride(size as int),
                q % mask_stride(size as int),
            ),
{
    let stride: usize = (size + 15) / 16 * 2;
    proof {
        assert(stride * size <= 0x7FFF_FFFF) by (nonlinear_arith)
            requires
                0 < size <= 5792,
                0 <= stride <= 726,
        ;
    }
    let total: usize = stride * size;
    let mut mask: Vec<u8> = Vec::new();
    let mut q: usize = 0;
    while q < total
        invariant
            q <= total,
            total == stride * size,
            stride == mask_stride(size as int),
            0 < size <= MAX_ICON,
            0 < stride <= 2 * size,
            pixels@.len() == size * size * 4,
            mask@.len() == q,
            forall|i: int|
                0 <= i < q ==> #[trigger] mask@[i] == mask_byte(
                    pixels@,
                    size as int,
                    i / mask_stride(size as int),
                    i % mask_stride(size as int),
                ),
        decreases total - q,
    {
        proof {
            lemma_mod_bound(q as int, stride as int);
            lemma_fundamental_div_mod(q as int, stride as int);
            lemma_mul_is_commutative(stride as int, size as int);
            if q as int / stride as int >= size {
                lemma_mul_inequality(size as int, q as int / stride as int, stride as int);
                lemma_mul_is_commutative(q as int / stride as int, stride as int);
            }
            lemma_div_pos_is_pos(q as int, stride as int);
        }
        mask.push(byte_of_mask(pixels, size, q / stride, q % stride));
        q = q + 1;
    }
    mask
}

// Laws

/// No pixel is brighter than it is opaque, and a pixel without ink is clear.
pub proof fn pixels_are_premultiplied(
    source: Seq<u8>,
    size: int,
    px: int,
    py: int,
    light: bool,
)
    ensures
        0 <= alpha(source, size, px, py) <= 255,
        0 <= shade(light, alpha(source, size, px, py)) <= alpha(source, size, px, py),
        ink(source, size, px, py, 16) == 0 ==> alpha(source, size, px, py) == 0,
        ink(source, size, px, py, 16) == 16 * 255 ==> alpha(source, size, px, py) == 255,
{
    lemma_ink_bound(source, size, px, py, 16);
}

/// A row of the mask has a bit for every pixel of the row.
pub proof fn mask_rows_hold_every_pixel(size: int)
    requires
        size > 0,
    ensures
        mask_stride(size) * 8 >= size,
        mask_stride(size) % 2 == 0,
        mask_stride(size) > 0,
{
}

/// Where every pixel is seen through, all bits of the mask are set.
pub proof fn clear_pixels_set_all_bits(pixels: Seq<u8>, size: int, y: int, k: int)
    requires
        forall|x: int| 8 * k <= x < 8 * k + 8 ==> #[trigger] seen_through(pixels, size, x, y),
    ensures
        mask_byte(pixels, size, y, k) == 255,
{
    reveal_with_fuel(mask_bits, 9);
    assert(seen_through(pixels, size, 8 * k, y));
    assert(seen_through(pixels, size, 8 * k + 1, y));
    assert(seen_through(pixels, size, 8 * k + 2, y));
    assert(seen_through(pixels, size, 8 * k + 3, y));
    assert(seen_through(pixels, size, 8 * k + 4, y));
    assert(seen_through(pixels, size, 8 * k + 5, y));
    assert(seen_through(pixels, size, 8 * k + 6, y));
    assert(seen_through(pixels, size, 8 * k + 7, y));
}

/// The ink of a pixel is that of the sixteen dots in its square of the drawing, and
/// of no others.
pub proof fn ink_comes_from_the_square(source: Seq<u8>, size: int, px: int, py: int)
    ensures
        ({
            let d = |x: int, y: int| source[((4 * py + y) * (4 * size) + 4 * px + x) * 4] as int;
            ink(source, size, px, py, 16) == d(0, 0) + d(1, 0) + d(2, 0) + d(3, 0) + d(0, 1) + d(
                1,
                1,
            ) + d(2, 1) + d(3, 1) + d(0, 2) + d(1, 2) + d(2, 2) + d(3, 2) + d(0, 3) + d(1, 3) + d(
                2,
                3,
            ) + d(3, 3)
        }),
{
    reveal_with_fuel(ink, 17);
    assert(size * SCALE == 4 * size);
}

/// How opaque a pixel is comes to the nearest sixteenth of its ink: a square of one
/// shade gives that shade.
pub proof fn opacity_is_the_mean(source: Seq<u8>, size: int, px: int, py: int, v: int)
    ensures
        -8 <= 16 * alpha(source, size, px, py) - ink(source, size, px, py, 16) <= 8,
        ink(source, size, px, py, 16) == 16 * v ==> alpha(source, size, px, py) == v,
{
    lemma_ink_bound(source, size, px, py, 16);
}

/// Icons are black for a light taskbar and white for a dark one, and clear where
/// there is no ink.
pub proof fn icons_stand_out_from_the_taskbar(a: int)
    ensures
        shade(true, a) == 0,
        shade(false, a) == a,
{
}

/// A drawn pixel is grey, as opaque as its ink, and stands in its own row and column.
pub proof fn pixels_stand_in_rows(
    pixels: Seq<u8>,
    source: Seq<u8>,
    size: int,
    light: bool,
    x: int,
    y: int,
)
    requires
        0 <= x < size,
        0 <= y,
        pixel_drawn(pixels, source, size, light, y * size + x),
    ensures
        ({
            let p = 4 * (y * size + x);
            &&& pixels[p + 3] == alpha(source, size, x, y)
            &&& pixels[p] == pixels[p + 1] && pixels[p + 1] == pixels[p + 2]
            &&& light ==> pixels[p] == 0
            &&& !light ==> pixels[p] == pixels[p + 3]
        }),
{
    lemma_mul_is_commutative(y, size);
    lemma_fundamental_div_mod_converse(y * size + x, size, y, x);
}

/// A bit of the mask is set exactly where its pixel is seen through: the pixels of a
/// byte from left to right, the highest bit first.
pub proof fn mask_bits_tell_clear_pixels(pixels: Seq<u8>, size: int, y: int, k: int, j: int)
    requires
        0 <= j < 8,
    ensures
        0 <= mask_byte(pixels, size, y, k) <= 255,
        (mask_byte(pixels, size, y, k) / bit_value(j)) % 2 == 1 <==> seen_through(
            pixels,
            size,
            8 * k + j,
            y,
        ),
{
    reveal_with_fuel(mask_bits, 9);
}

/// A pixel is seen through where it has no opacity, and beyond the edge of the icon.
pub proof fn clear_pixels_are_seen_through(pixels: Seq<u8>, size: int, x: int, y: int)
    ensures
        x >= size ==> seen_through(pixels, size, x, y),
        x < size ==> (seen_through(pixels, size, x, y) <==> pixels[4 * (y * size + x) + 3] == 0),
{
}

/// The rows of a mask are as short as even addresses allow.
pub proof fn mask_rows_are_short(size: int)
    requires
        size > 0,
    ensures
        8 * mask_stride(size) < size + 16,
        mask_stride(16) == 2 && mask_stride(17) == 4,
{
}

}
