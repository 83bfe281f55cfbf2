//! The pointer glyph and its compositing onto a captured frame.
//!
//! The glyph is a fixed 12-column by 19-row arrow.  Each cell is either
//! background (left alone), outline (opaque black) or fill (opaque white).
//! Cells that fall outside the destination buffer are skipped silently.

use vstd::prelude::*;
use crate::pixel::{pixel_idx, lemma_pixel_idx_bound, PixelBuffer};

verus! {

/// Number of columns in the glyph.
pub const CURSOR_COLS: u32 = 12;

/// Number of rows in the glyph.
pub const CURSOR_ROWS: u32 = 19;

/// Bit `c` is set when column `c` of the given glyph row is an outline
/// (black) cell.
pub open spec fn outline_mask(row: int) -> u16 {
    if row == 0 {
        0x001u16
    } else if row == 1 {
        0x003u16
    } else if row == 2 {
        0x005u16
    } else if row == 3 {
        0x009u16
    } else if row == 4 {
        0x011u16
    } else if row == 5 {
        0x021u16
    } else if row == 6 {
        0x041u16
    } else if row == 7 {
        0x081u16
    } else if row == 8 {
        0x101u16
    } else if row == 9 {
        0x201u16
    } else if row == 10 {
        0x3C1u16
    } else if row == 11 {
        0x049u16
    } else if row == 12 {
        0x095u16
    } else if row == 13 {
        0x093u16
    } else if row == 14 {
        0x121u16
    } else if row == 15 {
        0x120u16
    } else if row == 16 {
        0x140u16
    } else if row == 17 {
        0x080u16
    } else {
        0x000u16
    }
}

/// Bit `c` is set when column `c` of the given glyph row is a fill
/// (white) cell.
pub open spec fn fill_mask(row: int) -> u16 {
    if row == 2 {
        0x002u16
    } else if row == 3 {
        0x006u16
    } else if row == 4 {
        0x00Eu16
    } else if row == 5 {
        0x01Eu16
    } else if row == 6 {
        0x03Eu16
    } else if row == 7 {
        0x07Eu16
    } else if row == 8 {
        0x0FEu16
    } else if row == 9 {
        0x1FEu16
    } else if row == 10 {
        0x03Eu16
    } else if row == 11 {
        0x036u16
    } else if row == 12 {
        0x062u16
    } else if row == 13 {
        0x060u16
    } else if row == 14 {
        0x0C0u16
    } else if row == 15 {
        0x0C0u16
    } else if row == 16 {
        0x080u16
    } else {
        0x000u16
    }
}

/// The cell of the glyph at `(row, col)`: 0 background, 1 outline,
/// 2 fill.
pub open spec fn cursor_cell(row: int, col: int) -> u8 {
    if ((outline_mask(row) as u32) >> (col as u32)) & 1u32 == 1u32 {
        1u8
    } else if ((fill_mask(row) as u32) >> (col as u32)) & 1u32 == 1u32 {
        2u8
    } else {
        0u8
    }
}

/// Both masks of one glyph row.
fn glyph_masks(row: u32) -> (m: (u16, u16))
    requires
        row < CURSOR_ROWS,
    ensures
        m.0 == outline_mask(row as int),
        m.1 == fill_mask(row as int),
{
    match row {
        0 => (0x001, 0x000),
        1 => (0x003, 0x000),
        2 => (0x005, 0x002),
        3 => (0x009, 0x006),
        4 => (0x011, 0x00E),
        5 => (0x021, 0x01E),
        6 => (0x041, 0x03E),
        7 => (0x081, 0x07E),
        8 => (0x101, 0x0FE),
        9 => (0x201, 0x1FE),
        10 => (0x3C1, 0x03E),
        11 => (0x049, 0x036),
        12 => (0x095, 0x062),
        13 => (0x093, 0x060),
        14 => (0x121, 0x0C0),
        15 => (0x120, 0x0C0),
        16 => (0x140, 0x080),
        17 => (0x080, 0x000),
        _ => (0x000, 0x000),
    }
}

/// The cell of the glyph at `(row, col)`, as executable code.
pub fn cursor_cell_at(row: u32, col: u32) -> (cell: u8)
    requires
        row < CURSOR_ROWS,
        col < CURSOR_COLS,
    ensures
        cell == cursor_cell(row as int, col as int),
{
    let (o, f) = glyph_masks(row);
    if ((o as u32) >> col) & 1u32 == 1u32 {
        1
    } else if ((f as u32) >> col) & 1u32 == 1u32 {
        2
    } else {
        0
    }
}

/// The glyph cell that covers pixel `(px, py)` when the glyph's top-left
/// corner sits at `(mx, my)`; 0 where the glyph does not cover the pixel.
pub open spec fn cell_for_pixel(mx: int, my: int, px: int, py: int) -> u8 {
    if mx <= px < mx + CURSOR_COLS && my <= py < my + CURSOR_ROWS {
        cursor_cell(py - my, px - mx)
    } else {
        0u8
    }
}

/// Channel `c` of a pixel after the glyph cell is stamped over it:
/// outline paints opaque black, fill paints opaque white, background
/// keeps the original byte.
pub open spec fn overlay_channel(cell: u8, c: int, orig: u8) -> u8 {
    if cell == 1 {
        if c == 3 {
            255u8
        } else {
            0u8
        }
    } else if cell == 2 {
        255u8
    } else {
        orig
    }
}

/// Pixel positions in a row-major buffer have distinct linear indices.
proof fn lemma_pixel_linear_injective(width: int, x1: int, y1: int, x2: int, y2: int)
    requires
        0 <= x1 < width,
        0 <= x2 < width,
        0 <= y1,
        0 <= y2,
        !(x1 == x2 && y1 == y2),
    ensures
        y1 * width + x1 != y2 * width + x2,
{
    assert(y1 * width + x1 != y2 * width + x2) by (nonlinear_arith)
        requires
            0 <= x1 < width,
            0 <= x2 < width,
            0 <= y1,
            0 <= y2,
            !(x1 == x2 && y1 == y2),
    ;
}

/// Stamps the glyph onto `buf` with its top-left corner at `(mx, my)`
/// (buffer-local coordinates, possibly negative or past the edges);
/// every covered in-bounds pixel takes the glyph's color, every other
/// byte is untouched.
pub fn overlay_cursor(buf: &mut PixelBuffer, mx: i32, my: i32)
    requires
        old(buf).wf(),
    ensures
        final(buf).wf(),
        final(buf).spec_width() == old(buf).spec_width(),
        final(buf).spec_height() == old(buf).spec_height(),
        forall|px: int, py: int, c: int|
            0 <= px < old(buf).spec_width() && 0 <= py < old(buf).spec_height() && 0 <= c < 4
                ==> final(buf).byte_at(px, py, c) == overlay_channel(
                cell_for_pixel(mx as int, my as int, px, py),
                c,
                old(buf).byte_at(px, py, c),
            ),
{
    let w = buf.width();
    let h = buf.height();
    let mut row: u32 = 0;
    while row < CURSOR_ROWS
        invariant
            buf.wf(),
            buf.spec_width() == old(buf).spec_width(),
            buf.spec_height() == old(buf).spec_height(),
            w == old(buf).spec_width(),
            h == old(buf).spec_height(),
            0 <= row <= CURSOR_ROWS,
            forall|px: int, py: int, c: int|
                0 <= px < w && 0 <= py < h && 0 <= c < 4 ==> buf.byte_at(px, py, c) == (
                if py - my < row {
                    overlay_channel(
                        cell_for_pixel(mx as int, my as int, px, py),
                        c,
                        old(buf).byte_at(px, py, c),
                    )
                } else {
                    old(buf).byte_at(px, py, c)
                }),
        decreases CURSOR_ROWS - row,
    {
        let cy: i64 = (my as i64) + (row as i64);
        if 0 <= cy && cy < (h as i64) {
            let mut col: u32 = 0;
            while col < CURSOR_COLS
                invariant
                    buf.wf(),
                    buf.spec_width() == old(buf).spec_width(),
                    buf.spec_height() == old(buf).spec_height(),
                    w == old(buf).spec_width(),
                    h == old(buf).spec_height(),
                    0 <= row < CURSOR_ROWS,
                    0 <= col <= CURSOR_COLS,
                    cy == my + row,
                    0 <= cy < h,
                    forall|px: int, py: int, c: int|
                        0 <= px < w && 0 <= py < h && 0 <= c < 4 ==> buf.byte_at(px, py, c) == (
                        if py - my < row || (py - my == row && px - mx < col) {
                            overlay_channel(
                                cell_for_pixel(mx as int, my as int, px, py),
                                c,
                                old(buf).byte_at(px, py, c),
                            )
                        } else {
                            old(buf).byte_at(px, py, c)
                        }),
                decreases CURSOR_COLS - col,
            {
                let cx: i64 = (mx as i64) + (col as i64);
                let ghost prev = *buf;
                if 0 <= cx && cx < (w as i64) {
                    let cell = cursor_cell_at(row, col);
                    if cell == 1 {
                        buf.put_pixel(cx as u32, cy as u32, (0, 0, 0, 255));
                    } else if cell == 2 {
                        buf.put_pixel(cx as u32, cy as u32, (255, 255, 255, 255));
                    }
                    proof {
                        assert forall|px: int, py: int, c: int|
                            0 <= px < w && 0 <= py < h && 0 <= c < 4 implies buf.byte_at(px, py, c)
                            == (if py - my < row || (py - my == row && px - mx < col + 1) {
                            overlay_channel(
                                cell_for_pixel(mx as int, my as int, px, py),
                                c,
                                old(buf).byte_at(px, py, c),
                            )
                        } else {
                            old(buf).byte_at(px, py, c)
                        }) by {
                            lemma_pixel_idx_bound(w as int, h as int, px, py, c);
                            lemma_pixel_idx_bound(w as int, h as int, px, py, 0);
                            if px == cx && py == cy {
                                assert(cell_for_pixel(mx as int, my as int, px, py) == cursor_cell(
                                    row as int,
                                    col as int,
                                ));
                            } else {
                                lemma_pixel_linear_injective(w as int, px, py, cx as int, cy as int);
                                assert(pixel_idx(w as int, px, py, c) < pixel_idx(
                                    w as int,
                                    cx as int,
                                    cy as int,
                                    0,
                                ) || pixel_idx(w as int, px, py, c) >= pixel_idx(
                                    w as int,
                                    cx as int,
                                    cy as int,
                                    0,
                                ) + 4) by {
                                    assert(
                                        (py * w + px) * 4 + c < (cy as int * w + cx as int) * 4 || (
                                        py * w + px) * 4 + c >= (cy as int * w + cx as int) * 4
                                            + 4) by (nonlinear_arith)
                                        requires
                                            py * w + px != cy as int * w + cx as int,
                                            0 <= c < 4,
                                    ;
                                }
                                assert(buf.byte_at(px, py, c) == prev.byte_at(px, py, c));
                            }
                        }
                    }
                }
                col = col + 1;
            }
        }
        row = row + 1;
    }
}

} // verus!
