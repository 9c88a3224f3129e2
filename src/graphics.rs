use vstd::prelude::*;

verus! {

/// An RGB color with one byte per channel.
#[derive(Clone, Copy, Debug, PartialEq, Eq, Structural)]
pub struct Color {
    pub r: u8,
    pub g: u8,
    pub b: u8,
}

/// The ten quick-select colors, in their fixed order: black, white, red,
/// green, blue, orange, yellow, purple, silver, gold.
pub open spec fn preset_spec(i: int) -> Color {
    if i == 0 { Color { r: 0, g: 0, b: 0 } }
    else if i == 1 { Color { r: 255, g: 255, b: 255 } }
    else if i == 2 { Color { r: 255, g: 0, b: 0 } }
    else if i == 3 { Color { r: 0, g: 255, b: 0 } }
    else if i == 4 { Color { r: 0, g: 0, b: 255 } }
    else if i == 5 { Color { r: 255, g: 127, b: 0 } }
    else if i == 6 { Color { r: 255, g: 255, b: 0 } }
    else if i == 7 { Color { r: 191, g: 0, b: 255 } }
    else if i == 8 { Color { r: 203, g: 203, b: 203 } }
    else { Color { r: 229, g: 191, b: 0 } }
}

pub const PRESET_COUNT: usize = 10;

pub open spec fn black_spec() -> Color {
    preset_spec(0)
}

pub open spec fn white_spec() -> Color {
    preset_spec(1)
}

/// The preset color at `index`, or `None` past the last one.
pub fn preset_color(index: usize) -> (r: Option<Color>)
    ensures
        r is Some <==> index < PRESET_COUNT,
        r matches Some(c) ==> c == preset_spec(index as int),
{
    match index {
        0 => Some(Color { r: 0, g: 0, b: 0 }),
        1 => Some(Color { r: 255, g: 255, b: 255 }),
        2 => Some(Color { r: 255, g: 0, b: 0 }),
        3 => Some(Color { r: 0, g: 255, b: 0 }),
        4 => Some(Color { r: 0, g: 0, b: 255 }),
        5 => Some(Color { r: 255, g: 127, b: 0 }),
        6 => Some(Color { r: 255, g: 255, b: 0 }),
        7 => Some(Color { r: 191, g: 0, b: 255 }),
        8 => Some(Color { r: 203, g: 203, b: 203 }),
        9 => Some(Color { r: 229, g: 191, b: 0 }),
        _ => None,
    }
}

pub fn black() -> (r: Color)
    ensures
        r == black_spec(),
{
    Color { r: 0, g: 0, b: 0 }
}

pub fn white() -> (r: Color)
    ensures
        r == white_spec(),
{
    Color { r: 255, g: 255, b: 255 }
}

/// The grey that marks the cell under the cursor.
pub fn lighter_grey() -> (r: Color)
    ensures
        r == (Color { r: 191, g: 191, b: 191 }),
{
    Color { r: 191, g: 191, b: 191 }
}

pub type Glyph = char;

/// One map cell: a glyph drawn in a foreground color over a background color.
#[derive(Clone, Copy, Debug, PartialEq, Eq, Structural)]
pub struct Tile {
    pub glyph: Glyph,
    pub foreground_color: Color,
    pub background_color: Color,
}

/// The empty cell: a space, white on black.
pub open spec fn blank_tile() -> Tile {
    Tile { glyph: ' ', foreground_color: white_spec(), background_color: black_spec() }
}

impl Tile {
    pub fn new(glyph: Glyph, foreground_color: Color, background_color: Color) -> (r: Self)
        ensures
            r.glyph == glyph,
            r.foreground_color == foreground_color,
            r.background_color == background_color,
    {
        Tile { glyph, foreground_color, background_color }
    }

    /// The blank tile as a value.
    pub fn blank() -> (r: Self)
        ensures
            r == blank_tile(),
    {
        Tile { glyph: ' ', foreground_color: white(), background_color: black() }
    }

    pub fn set_glyph(&mut self, glyph: Glyph)
        ensures
            *final(self) == (Tile { glyph, ..*old(self) }),
    {
        self.glyph = glyph;
    }

    pub fn glyph(&self) -> (r: Glyph)
        ensures
            r == self.glyph,
    {
        self.glyph
    }

    pub fn set_color_bkg(&mut self, c: Color)
        ensures
            *final(self) == (Tile { background_color: c, ..*old(self) }),
    {
        self.background_color = c;
    }

    pub fn set_color_fg(&mut self, c: Color)
        ensures
            *final(self) == (Tile { foreground_color: c, ..*old(self) }),
    {
        self.foreground_color = c;
    }

    pub fn set_color(&mut self, fg: Color, bg: Color)
        ensures
            *final(self) == (Tile { foreground_color: fg, background_color: bg, ..*old(self) }),
    {
        self.foreground_color = fg;
        self.background_color = bg;
    }

    pub fn set_glyph_color(&mut self, g: Glyph, fg: Color, bg: Color)
        ensures
            *final(self) == (Tile { glyph: g, foreground_color: fg, background_color: bg }),
    {
        self.glyph = g;
        self.foreground_color = fg;
        self.background_color = bg;
    }
}

/// A map, stored column by column: `map[col][row]`.
pub type TileMap = Vec<Vec<Tile>>;

/// The cells of a map as a sequence of columns.
pub open spec fn cells(m: &TileMap) -> Seq<Seq<Tile>> {
    m@.map_values(|c: Vec<Tile>| c@)
}

/// Every column of `c` holds `h` tiles and there are `w` columns.
pub open spec fn has_dims(c: Seq<Seq<Tile>>, w: int, h: int) -> bool {
    &&& c.len() == w
    &&& forall|i: int| 0 <= i < w ==> #[trigger] c[i].len() == h
}

} // verus!
