use vstd::prelude::*;
use vstd::arithmetic::div_mod::{lemma_add_mod_noop, lemma_mod_add_multiples_vanish, lemma_small_mod};
use crate::graphics::{
    Tile, TileMap, cells, has_dims, blank_tile, preset_spec, preset_color, white, black, white_spec,
    black_spec,
};
use crate::util::{DaileConfig, glyph_idx_to_char, glyph_of};

verus! {

/// `w` columns of `h` blank tiles.
pub open spec fn blank_cells(w: int, h: int) -> Seq<Seq<Tile>> {
    Seq::new(w as nat, |c: int| Seq::new(h as nat, |r: int| blank_tile()))
}

/// The cells with the tile at `(col, row)` replaced, or unchanged where that
/// position lies outside them.
pub open spec fn painted(c: Seq<Seq<Tile>>, col: int, row: int, t: Tile) -> Seq<Seq<Tile>> {
    if 0 <= col < c.len() && 0 <= row < c[col].len() {
        c.update(col, c[col].update(row, t))
    } else {
        c
    }
}

/// The next palette index after `g` among `n` glyphs, forward or backward,
/// wrapping at both ends.
pub open spec fn cycled_index(g: int, n: int, forward: bool) -> int {
    if forward {
        (g + 1) % n
    } else {
        (g + n - 1) % n
    }
}

/// `cycled_index` applied `k` times.
pub open spec fn cycled_times(g: int, n: int, forward: bool, k: nat) -> int
    decreases k,
{
    if k == 0 {
        g
    } else {
        cycled_index(cycled_times(g, n, forward, (k - 1) as nat), n, forward)
    }
}

/// The map being edited and the brush that paints it.
pub struct Workspace {
    pub map: TileMap,
    pub current_tile: Tile,
}

impl Workspace {
    /// A blank map of `width` columns and `height` rows, with a brush that
    /// holds glyph 1, white on black.
    pub fn new(width: usize, height: usize) -> (r: Workspace)
        ensures
            cells(&r.map) == blank_cells(width as int, height as int),
            r.current_tile.glyph as u32 == 1,
            r.current_tile.foreground_color == white_spec(),
            r.current_tile.background_color == black_spec(),
    {
        let mut map: TileMap = Vec::new();
        let mut i: usize = 0;
        while i < width
            invariant
                i <= width,
                map@.len() == i,
                forall|k: int| 0 <= k < i ==> #[trigger] map@[k]@ == Seq::new(height as nat, |r: int| blank_tile()),
            decreases width - i,
        {
            let mut column: Vec<Tile> = Vec::new();
            let mut j: usize = 0;
            while j < height
                invariant
                    j <= height,
                    column@ == Seq::new(j as nat, |r: int| blank_tile()),
                decreases height - j,
            {
                column.push(Tile::blank());
                j = j + 1;
                assert(column@ =~= Seq::new(j as nat, |r: int| blank_tile()));
            }
            map.push(column);
            i = i + 1;
        }
        assert(cells(&map) =~= blank_cells(width as int, height as int));
        Workspace { map, current_tile: Tile::new(1u8 as char, white(), black()) }
    }

    /// Puts `tile` at `(col, row)`; does nothing outside the map.
    pub fn paint(&mut self, col: usize, row: usize, tile: Tile)
        ensures
            cells(&final(self).map) == painted(cells(&old(self).map), col as int, row as int, tile),
            final(self).current_tile == old(self).current_tile,
    {
        if col < self.map.len() && row < self.map[col].len() {
            let mut column = self.map.remove(col);
            column.set(row, tile);
            self.map.insert(col, column);
            assert(cells(&self.map) =~= painted(
                cells(&old(self).map),
                col as int,
                row as int,
                tile,
            ));
        } else {
            assert(cells(&self.map) =~= painted(
                cells(&old(self).map),
                col as int,
                row as int,
                tile,
            ));
        }
    }

    /// Resets the cell at `(col, row)` to the blank tile; does nothing outside the map.
    pub fn erase(&mut self, col: usize, row: usize)
        ensures
            cells(&final(self).map) == painted(cells(&old(self).map), col as int, row as int, blank_tile()),
            final(self).current_tile == old(self).current_tile,
    {
        self.paint(col, row, Tile::blank());
    }

    pub fn set_brush_glyph(&mut self, glyph: char)
        ensures
            final(self).map == old(self).map,
            final(self).current_tile == (Tile { glyph, ..old(self).current_tile }),
    {
        self.current_tile.set_glyph(glyph);
    }

    pub fn set_brush_fg(&mut self, c: crate::graphics::Color)
        ensures
            final(self).map == old(self).map,
            final(self).current_tile == (Tile { foreground_color: c, ..old(self).current_tile }),
    {
        self.current_tile.set_color_fg(c);
    }

    pub fn set_brush_bg(&mut self, c: crate::graphics::Color)
        ensures
            final(self).map == old(self).map,
            final(self).current_tile == (Tile { background_color: c, ..old(self).current_tile }),
    {
        self.current_tile.set_color_bkg(c);
    }

    /// Moves the brush glyph one step forward or backward among the
    /// `glyph_count` palette glyphs, wrapping at both ends.
    pub fn cycle_brush_glyph(&mut self, forward: bool, glyph_count: u32)
        requires
            1 <= glyph_count <= 256,
        ensures
            final(self).map == old(self).map,
            final(self).current_tile == (Tile {
                glyph: glyph_of(cycled_index(old(self).current_tile.glyph as int, glyph_count as int, forward)),
                ..old(self).current_tile
            }),
            final(self).current_tile.glyph as int == cycled_index(
                old(self).current_tile.glyph as int,
                glyph_count as int,
                forward,
            ),
    {
        let g = self.current_tile.glyph as u32;
        let next: u32 = if forward {
            (g + 1) % glyph_count
        } else {
            (g + glyph_count - 1) % glyph_count
        };
        let c = (next as u8) as char;
        self.current_tile.set_glyph(c);
    }
}

/// Painting or erasing a cell never changes a map's dimensions: a map of
/// `w` columns of `h` tiles stays so.
pub proof fn lemma_painted_keeps_dims(c: Seq<Seq<Tile>>, w: int, h: int, col: int, row: int, t: Tile)
    requires
        has_dims(c, w, h),
    ensures
        has_dims(painted(c, col, row, t), w, h),
{
    let p = painted(c, col, row, t);
    assert forall|i: int| 0 <= i < w implies #[trigger] p[i].len() == h by {
        assert(c[i].len() == h);
    }
}

/// Where the cursor stands: on a canvas cell, a palette glyph, a color swatch,
/// or none of them.
#[derive(Clone, Copy, Debug, PartialEq, Eq, Structural)]
pub enum Region {
    Canvas { col: u32, row: u32 },
    Palette { index: u32 },
    Swatch { index: u32 },
    Outside,
}

/// The canvas covers columns `1..=canvas_width` and rows `1..=canvas_height`.
pub open spec fn in_canvas(cfg: &DaileConfig, mx: int, my: int) -> bool {
    0 < mx <= cfg.canvas_width && 0 < my <= cfg.canvas_height
}

/// The palette's glyphs stand right of the canvas, their last row level with
/// the canvas's last row.
pub open spec fn in_palette(cfg: &DaileConfig, mx: int, my: int) -> bool {
    &&& cfg.canvas_width + 2 < mx < cfg.canvas_width + cfg.font_horizontal + 3
    &&& cfg.canvas_height - cfg.font_vertical < my <= cfg.canvas_height
}

/// The ten swatches stand in row 1, right of the canvas.
pub open spec fn in_swatch(cfg: &DaileConfig, mx: int, my: int) -> bool {
    cfg.canvas_width + 2 < mx < cfg.canvas_width + 13 && my == 1
}

/// The region of the cursor at `(mx, my)`; where panels overlap, the canvas
/// comes first, then the palette.
pub open spec fn region_spec(cfg: &DaileConfig, mx: int, my: int) -> Region {
    if in_canvas(cfg, mx, my) {
        Region::Canvas { col: (mx - 1) as u32, row: (my - 1) as u32 }
    } else if in_palette(cfg, mx, my) {
        let col = mx - cfg.canvas_width - 3;
        let row = my - (cfg.canvas_height - cfg.font_vertical) - 1;
        Region::Palette { index: (cfg.font_horizontal * row + col) as u32 }
    } else if in_swatch(cfg, mx, my) {
        Region::Swatch { index: (mx - cfg.canvas_width - 3) as u32 }
    } else {
        Region::Outside
    }
}

/// Classifies the cursor at `(mx, my)`.
pub fn classify(cfg: &DaileConfig, mx: i32, my: i32) -> (r: Region)
    requires
        cfg.valid(),
    ensures
        r == region_spec(cfg, mx as int, my as int),
        r matches Region::Palette { index } ==> index < cfg.glyph_count_spec(),
        r matches Region::Swatch { index } ==> index < 10,
{
    let cw = cfg.canvas_width as i64;
    let ch = cfg.canvas_height as i64;
    let fh = cfg.font_horizontal as i64;
    let fv = cfg.font_vertical as i64;
    let x = mx as i64;
    let y = my as i64;
    if 0 < x && x <= cw && 0 < y && y <= ch {
        Region::Canvas { col: (x - 1) as u32, row: (y - 1) as u32 }
    } else if cw + 2 < x && x < cw + fh + 3 && ch - fv < y && y <= ch {
        let col = x - cw - 3;
        let row = y - (ch - fv) - 1;
        proof {
            assert(0 <= fh * row + col < fh * fv) by (nonlinear_arith)
                requires 0 <= col < fh, 0 <= row < fv;
        }
        Region::Palette { index: (fh * row + col) as u32 }
    } else if cw + 2 < x && x < cw + 13 && y == 1 {
        Region::Swatch { index: (x - cw - 3) as u32 }
    } else {
        Region::Outside
    }
}

/// Where the panels of a configuration whose canvas is taller than its
/// palette do not overlap, every cursor position falls in exactly one
/// region: the panel it lies in, or outside all of them.
pub proof fn lemma_regions_partition(cfg: &DaileConfig, mx: int, my: int)
    requires
        cfg.canvas_height > cfg.font_vertical,
    ensures
        !(in_canvas(cfg, mx, my) && in_palette(cfg, mx, my)),
        !(in_canvas(cfg, mx, my) && in_swatch(cfg, mx, my)),
        !(in_palette(cfg, mx, my) && in_swatch(cfg, mx, my)),
        region_spec(cfg, mx, my) is Canvas <==> in_canvas(cfg, mx, my),
        region_spec(cfg, mx, my) is Palette <==> in_palette(cfg, mx, my),
        region_spec(cfg, mx, my) is Swatch <==> in_swatch(cfg, mx, my),
        region_spec(cfg, mx, my) is Outside <==> !(in_canvas(cfg, mx, my) || in_palette(cfg, mx, my)
            || in_swatch(cfg, mx, my)),
{
}

/// Cycling a palette glyph as many times as there are glyphs, in either
/// direction, gives back the glyph it started from.
pub proof fn lemma_cycle_rotation(g: int, n: int, forward: bool)
    requires
        1 <= n,
        0 <= g < n,
    ensures
        cycled_times(g, n, forward, n as nat) == g,
{
    lemma_cycled_times(g, n, forward, n as nat);
    if forward {
        lemma_mod_add_multiples_vanish(g, n);
        lemma_small_mod(g as nat, n as nat);
    } else {
        assert(g - n + n == g);
        lemma_mod_add_multiples_vanish(g - n, n);
        lemma_small_mod(g as nat, n as nat);
    }
}

proof fn lemma_cycled_times(g: int, n: int, forward: bool, k: nat)
    requires
        1 <= n,
        0 <= g < n,
    ensures
        cycled_times(g, n, forward, k) == if forward { (g + k) % n } else { (g - k) % n },
    decreases k,
{
    if k == 0 {
        lemma_small_mod(g as nat, n as nat);
    } else {
        lemma_cycled_times(g, n, forward, (k - 1) as nat);
        if forward {
            lemma_add_mod_noop(g + k - 1, 1, n);
            if n == 1 {
                assert((g + k) % n == 0);
                assert(((g + k - 1) % n + 1) % n == 0);
            } else {
                lemma_small_mod(1, n as nat);
            }
        } else {
            lemma_add_mod_noop(g - (k - 1), n - 1, n);
            lemma_small_mod((n - 1) as nat, n as nat);
            lemma_mod_add_multiples_vanish(g - k, n);
        }
    }
}

/// One mouse button's worth of editing: the cells and brush after the held
/// button acts on the region under the cursor.
pub open spec fn after_buttons(cfg: &DaileConfig, m: MouseState, c: Seq<Seq<Tile>>, brush: Tile) -> (Seq<Seq<Tile>>, Tile) {
    let reg = region_spec(cfg, m.cx as int, m.cy as int);
    if m.lbutton {
        match reg {
            Region::Canvas { col, row } => (painted(c, col as int, row as int, brush), brush),
            Region::Palette { index } => (c, Tile { glyph: glyph_of(index as int), ..brush }),
            Region::Swatch { index } => (c, Tile { foreground_color: preset_spec(index as int), ..brush }),
            Region::Outside => (c, brush),
        }
    } else if m.rbutton {
        match reg {
            Region::Canvas { col, row } => (painted(c, col as int, row as int, blank_tile()), brush),
            Region::Swatch { index } => (c, Tile { background_color: preset_spec(index as int), ..brush }),
            _ => (c, brush),
        }
    } else {
        (c, brush)
    }
}

/// The brush after the wheel: down steps the glyph back, up steps it on.
pub open spec fn after_wheel(cfg: &DaileConfig, m: MouseState, brush: Tile) -> Tile {
    if m.wheel_down {
        Tile { glyph: glyph_of(cycled_index(brush.glyph as int, cfg.glyph_count_spec(), false)), ..brush }
    } else if m.wheel_up {
        Tile { glyph: glyph_of(cycled_index(brush.glyph as int, cfg.glyph_count_spec(), true)), ..brush }
    } else {
        brush
    }
}

/// The mouse as the last event left it.
#[derive(Clone, Copy, Debug, PartialEq, Eq, Structural)]
pub struct MouseState {
    pub cx: i32,
    pub cy: i32,
    pub lbutton: bool,
    pub rbutton: bool,
    pub wheel_up: bool,
    pub wheel_down: bool,
}

/// The key pressed in this tick, as far as the editor tells keys apart.
#[derive(Clone, Copy, Debug, PartialEq, Eq, Structural)]
pub enum KeyPress {
    Nothing,
    AltEnter,
    Escape,
    F5,
    Other,
}

/// What the host loop does after a tick.
#[derive(Clone, Copy, Debug, PartialEq, Eq, Structural)]
pub enum Action {
    Continue,
    ToggleFullscreen,
    Save,
    Exit,
}

pub open spec fn key_action(key: KeyPress) -> Action {
    match key {
        KeyPress::AltEnter => Action::ToggleFullscreen,
        KeyPress::Escape => Action::Exit,
        KeyPress::F5 => Action::Save,
        _ => Action::Continue,
    }
}

/// One tick of input: Escape ends the editor at once; otherwise the mouse
/// buttons edit the map or the brush, one wheel step cycles the brush glyph
/// and is consumed, and the key decides what the host does next.
pub fn handle_keys(cfg: &DaileConfig, key: KeyPress, mouse: &mut MouseState, workspace: &mut Workspace) -> (r: Action)
    requires
        cfg.valid(),
    ensures
        r == key_action(key),
        key == KeyPress::Escape ==> *final(mouse) == *old(mouse) && *final(workspace) == *old(workspace),
        key != KeyPress::Escape ==> {
            let (c, brush) = after_buttons(cfg, *old(mouse), cells(&old(workspace).map), old(workspace).current_tile);
            &&& cells(&final(workspace).map) == c
            &&& final(workspace).current_tile == after_wheel(cfg, *old(mouse), brush)
            &&& *final(mouse) == (MouseState {
                wheel_down: false,
                wheel_up: old(mouse).wheel_up && old(mouse).wheel_down,
                ..*old(mouse)
            })
        },
{
    let action = match key {
        KeyPress::AltEnter => Action::ToggleFullscreen,
        KeyPress::Escape => {
            return Action::Exit;
        },
        KeyPress::F5 => Action::Save,
        _ => Action::Continue,
    };
    let region = classify(cfg, mouse.cx, mouse.cy);
    if mouse.lbutton {
        match region {
            Region::Canvas { col, row } => {
                let brush = workspace.current_tile;
                workspace.paint(col as usize, row as usize, brush);
            },
            Region::Palette { index } => {
                if let Some(c) = glyph_idx_to_char(index, cfg.glyph_count()) {
                    workspace.set_brush_glyph(c);
                }
            },
            Region::Swatch { index } => {
                if let Some(c) = preset_color(index as usize) {
                    workspace.set_brush_fg(c);
                }
            },
            Region::Outside => {},
        }
    } else if mouse.rbutton {
        match region {
            Region::Canvas { col, row } => {
                workspace.erase(col as usize, row as usize);
            },
            Region::Swatch { index } => {
                if let Some(c) = preset_color(index as usize) {
                    workspace.set_brush_bg(c);
                }
            },
            _ => {},
        }
    }
    let n = cfg.glyph_count();
    if mouse.wheel_down {
        workspace.cycle_brush_glyph(false, n);
        mouse.wheel_down = false;
    } else if mouse.wheel_up {
        workspace.cycle_brush_glyph(true, n);
        mouse.wheel_up = false;
    }
    action
}

} // verus!
