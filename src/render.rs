use vstd::prelude::*;
use crate::graphics::{Color, Tile, preset_color, preset_spec, PRESET_COUNT};
use crate::util::{DaileConfig, glyph_idx_to_char, glyph_of};

verus! {

/// One glyph of the palette panel, at `(x, y)` on the panel's surface, and
/// whether it is the brush's glyph.
#[derive(Clone, Copy, Debug, PartialEq, Eq, Structural)]
pub struct PaletteCell {
    pub x: u32,
    pub y: u32,
    pub glyph: char,
    pub selected: bool,
}

/// The palette cell of glyph column `x` and glyph row `y`: inside the frame,
/// so one step right and down, holding glyph `font_horizontal * y + x`.
pub open spec fn palette_cell_spec(fh: int, x: int, y: int, brush: Tile) -> PaletteCell {
    PaletteCell {
        x: (x + 1) as u32,
        y: (y + 1) as u32,
        glyph: glyph_of(fh * y + x),
        selected: glyph_of(fh * y + x) == brush.glyph,
    }
}

/// The palette's glyphs row by row: the glyph of column `x` and row `y`
/// stands at `font_horizontal * y + x`.
pub fn palette_cells(cfg: &DaileConfig, brush: Tile) -> (r: Vec<PaletteCell>)
    requires
        cfg.valid(),
    ensures
        r@.len() == cfg.glyph_count_spec(),
        forall|x: int, y: int| 0 <= x < cfg.font_horizontal && 0 <= y < cfg.font_vertical ==>
            #[trigger] r@[cfg.font_horizontal * y + x] == palette_cell_spec(cfg.font_horizontal as int, x, y, brush),
{
    let fh = cfg.font_horizontal;
    let fv = cfg.font_vertical;
    let count = cfg.glyph_count();
    let mut out: Vec<PaletteCell> = Vec::new();
    let mut y: u32 = 0;
    while y < fv
        invariant
            fh == cfg.font_horizontal,
            fv == cfg.font_vertical,
            count == cfg.glyph_count_spec(),
            cfg.valid(),
            y <= fv,
            out@.len() == fh * y,
            forall|xx: int, yy: int| 0 <= xx < fh && 0 <= yy < y ==>
                #[trigger] out@[fh * yy + xx] == palette_cell_spec(fh as int, xx, yy, brush),
        decreases fv - y,
    {
        let mut x: u32 = 0;
        while x < fh
            invariant
                fh == cfg.font_horizontal,
                fv == cfg.font_vertical,
                count == cfg.glyph_count_spec(),
                cfg.valid(),
                y < fv,
                x <= fh,
                out@.len() == fh * y + x,
                forall|xx: int, yy: int| 0 <= xx < fh && 0 <= yy < y ==>
                    #[trigger] out@[fh * yy + xx] == palette_cell_spec(fh as int, xx, yy, brush),
                forall|xx: int| 0 <= xx < x ==>
                    #[trigger] out@[fh * y + xx] == palette_cell_spec(fh as int, xx, y as int, brush),
            decreases fh - x,
        {
            proof {
                assert(fh * y + x < fh * fv) by (nonlinear_arith)
                    requires x < fh, y < fv;
            }
            let idx = fh * y + x;
            let found = glyph_idx_to_char(idx, count);
            let ghost prev = out@;
            if let Some(glyph) = found {
                out.push(PaletteCell { x: x + 1, y: y + 1, glyph, selected: glyph == brush.glyph });
            }
            proof {
                assert forall|xx: int, yy: int| 0 <= xx < fh && 0 <= yy < y implies
                    #[trigger] out@[fh * yy + xx] == palette_cell_spec(fh as int, xx, yy, brush) by {
                    assert(fh * yy + xx < fh * y) by (nonlinear_arith)
                        requires 0 <= xx < fh, 0 <= yy < y;
                    assert(out@[fh * yy + xx] == prev[fh * yy + xx]);
                }
            }
            x = x + 1;
        }
        proof {
            assert(fh * y + fh == fh * (y + 1)) by (nonlinear_arith);
            assert forall|xx: int, yy: int| 0 <= xx < fh && 0 <= yy < y + 1 implies
                #[trigger] out@[fh * yy + xx] == palette_cell_spec(fh as int, xx, yy, brush) by {
                if yy < y {
                } else {
                    assert(out@[fh * y + xx] == palette_cell_spec(fh as int, xx, y as int, brush));
                }
            }
        }
        y = y + 1;
    }
    proof {
        assert(fh * fv == cfg.glyph_count_spec());
    }
    out
}

/// The swatch panel: preset `i` is painted as background at column `i + 1`
/// of row 1.
pub fn swatch_cells() -> (r: Vec<(u32, Color)>)
    ensures
        r@.len() == PRESET_COUNT,
        forall|i: int| 0 <= i < PRESET_COUNT ==> #[trigger] r@[i] == ((i + 1) as u32, preset_spec(i)),
{
    let mut out: Vec<(u32, Color)> = Vec::new();
    let mut i: usize = 0;
    while i < PRESET_COUNT
        invariant
            i <= PRESET_COUNT,
            out@.len() == i,
            forall|k: int| 0 <= k < i ==> #[trigger] out@[k] == ((k + 1) as u32, preset_spec(k)),
        decreases PRESET_COUNT - i,
    {
        if let Some(c) = preset_color(i) {
            out.push(((i + 1) as u32, c));
        }
        i = i + 1;
    }
    out
}

/// Where the palette panel is placed on the screen: right of the canvas
/// and its frame, with its last glyph row level with the canvas's last row.
pub fn palette_origin(cfg: &DaileConfig) -> (r: (i64, i64))
    ensures
        r.0 == cfg.canvas_width + 2,
        r.1 == cfg.canvas_height - cfg.font_vertical,
{
    (cfg.canvas_width as i64 + 2, cfg.canvas_height as i64 - cfg.font_vertical as i64)
}

/// The screen's size in cells: the framed canvas beside the framed palette.
pub fn screen_size(cfg: &DaileConfig) -> (r: (u64, u64))
    ensures
        r.0 == cfg.canvas_width + 2 + cfg.font_horizontal + 2,
        r.1 == cfg.canvas_height + 2,
{
    (cfg.canvas_width as u64 + 2 + cfg.font_horizontal as u64 + 2, cfg.canvas_height as u64 + 2)
}

/// Where the cursor's highlight goes: the cursor's own position, when it
/// lies on the canvas; elsewhere none, and the system cursor shows.
pub fn cursor_overlay(cfg: &DaileConfig, mx: i32, my: i32) -> (r: Option<(i32, i32)>)
    ensures
        r is Some <==> crate::daile::in_canvas(cfg, mx as int, my as int),
        r matches Some(p) ==> p == (mx, my),
{
    if 0 < mx && mx as i64 <= cfg.canvas_width as i64 && 0 < my && my as i64 <= cfg.canvas_height as i64 {
        Some((mx, my))
    } else {
        None
    }
}

} // verus!
