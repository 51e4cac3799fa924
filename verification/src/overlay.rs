//! The lettering shown once the game is over: "GAME OVER" and the score,
//! each glyph a bitmap of five rows by four pixels.

use crate::render::PixelRect;
use vstd::prelude::*;

verus! {

pub const LETTER_G: [[u8; 4]; 5] = [[1, 1, 1, 0], [1, 0, 0, 0], [1, 1, 1, 1], [1, 0, 0, 1], [1, 1, 1, 0]];

pub const LETTER_A: [[u8; 4]; 5] = [[0, 1, 1, 0], [1, 0, 0, 1], [1, 1, 1, 1], [1, 0, 0, 1], [1, 0, 0, 1]];

pub const LETTER_M: [[u8; 4]; 5] = [[1, 0, 0, 1], [1, 1, 1, 1], [1, 0, 0, 1], [1, 0, 0, 1], [1, 0, 0, 1]];

pub const LETTER_E: [[u8; 4]; 5] = [[1, 1, 1, 1], [1, 0, 0, 0], [1, 1, 1, 0], [1, 0, 0, 0], [1, 1, 1, 1]];

pub const LETTER_O: [[u8; 4]; 5] = [[0, 1, 1, 0], [1, 0, 0, 1], [1, 0, 0, 1], [1, 0, 0, 1], [0, 1, 1, 0]];

pub const LETTER_V: [[u8; 4]; 5] = [[1, 0, 0, 1], [1, 0, 0, 1], [1, 0, 0, 1], [0, 1, 0, 0], [0, 1, 1, 0]];

pub const LETTER_R: [[u8; 4]; 5] = [[1, 1, 1, 0], [1, 0, 0, 1], [1, 1, 1, 0], [1, 0, 0, 1], [1, 0, 0, 1]];

pub const LETTER_S: [[u8; 4]; 5] = [[1, 1, 1, 1], [1, 0, 0, 0], [1, 1, 1, 1], [0, 0, 0, 1], [1, 1, 1, 1]];

pub const LETTER_C: [[u8; 4]; 5] = [[0, 1, 1, 0], [1, 0, 0, 0], [1, 0, 0, 0], [1, 0, 0, 0], [0, 1, 1, 0]];

/// The ten digits, `DIGITS[d]` the glyph of `d`.
pub const DIGITS: [[[u8; 4]; 5]; 10] = [
    [[0, 1, 1, 0], [1, 0, 0, 1], [1, 0, 0, 1], [1, 0, 0, 1], [0, 1, 1, 0]],
    [[0, 1, 0, 0], [0, 1, 0, 0], [0, 1, 0, 0], [0, 1, 0, 0], [1, 1, 1, 0]],
    [[1, 1, 1, 0], [0, 0, 0, 1], [0, 1, 1, 0], [1, 0, 0, 0], [1, 1, 1, 1]],
    [[1, 1, 1, 0], [0, 0, 0, 1], [0, 1, 1, 0], [0, 0, 0, 1], [1, 1, 1, 0]],
    [[1, 0, 1, 0], [1, 0, 1, 0], [1, 1, 1, 1], [0, 0, 1, 0], [0, 0, 1, 0]],
    [[1, 1, 1, 1], [1, 0, 0, 0], [1, 1, 1, 0], [0, 0, 0, 1], [1, 1, 1, 0]],
    [[0, 1, 1, 0], [1, 0, 0, 0], [1, 1, 1, 0], [1, 0, 0, 1], [0, 1, 1, 0]],
    [[1, 1, 1, 1], [0, 0, 0, 1], [0, 0, 1, 0], [0, 1, 0, 0], [0, 1, 0, 0]],
    [[0, 1, 1, 0], [1, 0, 0, 1], [0, 1, 1, 0], [1, 0, 0, 1], [0, 1, 1, 0]],
    [[0, 1, 1, 0], [1, 0, 0, 1], [0, 1, 1, 1], [0, 0, 0, 1], [0, 1, 1, 0]],
];

/// The square of side `size` that shows the pixel in row `row` and column
/// `col` of a glyph whose top left corner is at `(x, y)`.
pub open spec fn pixel_rect(x: int, y: int, size: int, row: int, col: int) -> PixelRect {
    PixelRect {
        x: (x + col * size) as i32,
        y: (y + row * size) as i32,
        width: size as u32,
        height: size as u32,
    }
}

/// The squares of the lit pixels among the first `n` of one row of a glyph,
/// from left to right.
pub open spec fn row_pixels(pixels: [u8; 4], x: int, y: int, size: int, row: int, n: int) -> Seq<
    PixelRect,
>
    decreases n,
{
    if n <= 0 {
        Seq::empty()
    } else if pixels[n - 1] != 0 {
        row_pixels(pixels, x, y, size, row, n - 1).push(pixel_rect(x, y, size, row, n - 1))
    } else {
        row_pixels(pixels, x, y, size, row, n - 1)
    }
}

/// The squares of the lit pixels of the first `n` rows of a glyph, row by
/// row from the top.
pub open spec fn glyph_pixels(glyph: [[u8; 4]; 5], x: int, y: int, size: int, n: int) -> Seq<
    PixelRect,
>
    decreases n,
{
    if n <= 0 {
        Seq::empty()
    } else {
        glyph_pixels(glyph, x, y, size, n - 1) + row_pixels(glyph[n - 1], x, y, size, n - 1, 4)
    }
}

/// The squares of a whole glyph.
pub open spec fn glyph_rects(glyph: [[u8; 4]; 5], x: int, y: int, size: int) -> Seq<PixelRect> {
    glyph_pixels(glyph, x, y, size, 5)
}

/// Appends the squares of a glyph drawn at `(x, y)` with pixels of side
/// `size`.
pub fn draw_glyph(out: &mut Vec<PixelRect>, glyph: &[[u8; 4]; 5], x: i32, y: i32, size: i32)
    requires
        0 <= size,
        4 * size <= i32::MAX,
        x + 3 * size <= i32::MAX,
        y + 4 * size <= i32::MAX,
    ensures
        final(out)@ == old(out)@ + glyph_rects(*glyph, x as int, y as int, size as int),
{
    let mut row: usize = 0;
    while row < 5
        invariant
            0 <= size,
            4 * size <= i32::MAX,
            x + 3 * size <= i32::MAX,
            y + 4 * size <= i32::MAX,
            row <= 5,
            out@ == old(out)@ + glyph_pixels(*glyph, x as int, y as int, size as int, row as int),
        decreases 5 - row,
    {
        let ghost above = out@;
        assert(0 <= row * size <= 4 * size) by (nonlinear_arith)
            requires
                0 <= row <= 4,
                0 <= size,
        ;
        let py: i32 = y + (row as i32) * size;
        let mut col: usize = 0;
        while col < 4
            invariant
                0 <= size,
                4 * size <= i32::MAX,
                x + 3 * size <= i32::MAX,
                row < 5,
                col <= 4,
                py == y + row * size,
                out@ == above + row_pixels(
                    glyph[row as int],
                    x as int,
                    y as int,
                    size as int,
                    row as int,
                    col as int,
                ),
            decreases 4 - col,
        {
            if glyph[row][col] != 0 {
                assert(0 <= col * size <= 3 * size) by (nonlinear_arith)
                    requires
                        0 <= col <= 3,
                        0 <= size,
                ;
                let px: i32 = x + (col as i32) * size;
                out.push(PixelRect { x: px, y: py, width: size as u32, height: size as u32 });
            }
            col += 1;
        }
        row += 1;
    }
}

/// The squares that spell "GAME OVER", in two lines.
pub open spec fn game_over_text_spec() -> Seq<PixelRect> {
    glyph_rects(LETTER_G, 60, 200, 8) + glyph_rects(LETTER_A, 90, 200, 8) + glyph_rects(
        LETTER_M,
        115,
        200,
        8,
    ) + glyph_rects(LETTER_E, 140, 200, 8) + glyph_rects(LETTER_O, 85, 240, 8) + glyph_rects(
        LETTER_V,
        110,
        240,
        8,
    ) + glyph_rects(LETTER_E, 135, 240, 8) + glyph_rects(LETTER_R, 160, 240, 8)
}

/// The squares that spell "GAME OVER".
pub fn game_over_text() -> (rects: Vec<PixelRect>)
    ensures
        rects@ == game_over_text_spec(),
{
    let start_x: i32 = 60;
    let start_y: i32 = 200;
    let pixel_size: i32 = 8;
    let mut rects: Vec<PixelRect> = Vec::new();
    draw_glyph(&mut rects, &LETTER_G, start_x, start_y, pixel_size);
    draw_glyph(&mut rects, &LETTER_A, start_x + 25 + 5, start_y, pixel_size);
    draw_glyph(&mut rects, &LETTER_M, start_x + 50 + 5, start_y, pixel_size);
    draw_glyph(&mut rects, &LETTER_E, start_x + 75 + 5, start_y, pixel_size);
    draw_glyph(&mut rects, &LETTER_O, start_x + 20 + 5, start_y + 40, pixel_size);
    draw_glyph(&mut rects, &LETTER_V, start_x + 45 + 5, start_y + 40, pixel_size);
    draw_glyph(&mut rects, &LETTER_E, start_x + 70 + 5, start_y + 40, pixel_size);
    draw_glyph(&mut rects, &LETTER_R, start_x + 95 + 5, start_y + 40, pixel_size);
    rects
}

/// The decimal digits of a number, most significant first.
pub open spec fn digits(n: nat) -> Seq<u8>
    decreases n,
{
    if n < 10 {
        seq![n as u8]
    } else {
        digits(n / 10).push((n % 10) as u8)
    }
}

/// Ten to the power of `k`.
pub open spec fn pow10(k: nat) -> nat
    decreases k,
{
    if k == 0 {
        1
    } else {
        10 * pow10((k - 1) as nat)
    }
}

/// A number below the `k`-th power of ten has at most `k` digits, each of
/// them below ten.
pub proof fn lemma_digits(n: nat, k: nat)
    requires
        1 <= k,
        n < pow10(k),
    ensures
        1 <= digits(n).len() <= k,
        forall|i: int| 0 <= i < digits(n).len() ==> (#[trigger] digits(n)[i]) < 10,
    decreases n,
{
    if n >= 10 {
        reveal_with_fuel(pow10, 2);
        assert(k >= 2);
        lemma_digits(n / 10, (k - 1) as nat);
    }
}

/// The decimal digits of a number, most significant first.
pub fn decimal_digits(n: usize) -> (out: Vec<u8>)
    ensures
        out@ == digits(n as nat),
        1 <= out.len() <= 20,
        forall|i: int| 0 <= i < out.len() ==> (#[trigger] out[i]) < 10,
    decreases n,
{
    proof {
        reveal_with_fuel(pow10, 21);
        assert(pow10(20) == 100000000000000000000);
        lemma_digits(n as nat, 20);
    }
    if n < 10 {
        let mut out: Vec<u8> = Vec::new();
        out.push(n as u8);
        out
    } else {
        let mut out = decimal_digits(n / 10);
        out.push((n % 10) as u8);
        out
    }
}

/// The squares of the first `n` of the digits, each digit fifteen pixels
/// right of the one before it.
pub open spec fn digit_rects(ds: Seq<u8>, n: int) -> Seq<PixelRect>
    decreases n,
{
    if n <= 0 {
        Seq::empty()
    } else {
        digit_rects(ds, n - 1) + glyph_rects(DIGITS[ds[n - 1] as int], 200 + (n - 1) * 15, 350, 6)
    }
}

/// The squares that spell "SCORE" and, after a gap, the score in decimal.
pub open spec fn score_text_spec(score: nat) -> Seq<PixelRect> {
    glyph_rects(LETTER_S, 80, 350, 6) + glyph_rects(LETTER_C, 100, 350, 6) + glyph_rects(
        LETTER_O,
        120,
        350,
        6,
    ) + glyph_rects(LETTER_R, 140, 350, 6) + glyph_rects(LETTER_E, 160, 350, 6) + digit_rects(
        digits(score),
        digits(score).len() as int,
    )
}

/// The squares that spell "SCORE" and the score.
pub fn score_text(score: usize) -> (rects: Vec<PixelRect>)
    ensures
        rects@ == score_text_spec(score as nat),
{
    let start_x: i32 = 80;
    let start_y: i32 = 350;
    let pixel_size: i32 = 6;
    let mut rects: Vec<PixelRect> = Vec::new();
    draw_glyph(&mut rects, &LETTER_S, start_x, start_y, pixel_size);
    draw_glyph(&mut rects, &LETTER_C, start_x + 20, start_y, pixel_size);
    draw_glyph(&mut rects, &LETTER_O, start_x + 40, start_y, pixel_size);
    draw_glyph(&mut rects, &LETTER_R, start_x + 60, start_y, pixel_size);
    draw_glyph(&mut rects, &LETTER_E, start_x + 80, start_y, pixel_size);
    let ds = decimal_digits(score);
    let ghost label = rects@;
    let mut i: usize = 0;
    while i < ds.len()
        invariant
            i <= ds.len() <= 20,
            start_x == 80,
            start_y == 350,
            pixel_size == 6,
            forall|k: int| 0 <= k < ds.len() ==> (#[trigger] ds[k]) < 10,
            rects@ == label + digit_rects(ds@, i as int),
        decreases ds.len() - i,
    {
        let d: usize = ds[i] as usize;
        draw_glyph(&mut rects, &DIGITS[d], start_x + 120 + (i as i32) * 15, start_y, pixel_size);
        i += 1;
    }
    rects
}

} // verus!
