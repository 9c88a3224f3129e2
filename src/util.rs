use vstd::prelude::*;

verus! {

/// The glyph whose code is `i` (for `i` in the glyph table).
pub open spec fn glyph_of(i: int) -> char {
    (i as u8) as char
}

/// The glyph of a code in the glyph table has that code.
pub broadcast proof fn lemma_glyph_of_code(i: int)
    requires
        0 <= i < 256,
    ensures
        #[trigger] glyph_of(i) as u32 == i,
{
}

/// The glyphs of a font sheet are the code points below this bound.
pub const GLYPH_TABLE_SIZE: u32 = 256;

/// The glyph of a font sheet at a palette index, or `None` where the index lies
/// outside `[0, glyph_count)` or beyond the glyph table.
pub fn glyph_idx_to_char(idx: u32, glyph_count: u32) -> (r: Option<char>)
    ensures
        r is Some <==> (idx < glyph_count && idx < GLYPH_TABLE_SIZE),
        r matches Some(c) ==> c as u32 == idx && c == glyph_of(idx as int),
{
    if idx < glyph_count && idx < GLYPH_TABLE_SIZE {
        Some((idx as u8) as char)
    } else {
        None
    }
}

/// The editor's configuration: canvas size in cells, the font sheet's grid
/// of glyphs, and where the font sheet is found.
#[derive(Clone, Debug)]
pub struct DaileConfig {
    pub canvas_width: u32,
    pub canvas_height: u32,
    pub font_horizontal: u32,
    pub font_vertical: u32,
    pub font_path: String,
}

impl DaileConfig {
    /// The number of glyphs in the palette.
    pub open spec fn glyph_count_spec(&self) -> int {
        self.font_horizontal * self.font_vertical
    }

    /// A font grid that is not empty and fits the glyph table.
    pub open spec fn valid(&self) -> bool {
        &&& self.font_horizontal >= 1
        &&& self.font_vertical >= 1
        &&& self.glyph_count_spec() <= GLYPH_TABLE_SIZE
    }

    /// Whether the font grid is one the editor can show (see `valid`).
    pub fn is_valid(&self) -> (r: bool)
        ensures
            r == self.valid(),
    {
        let fh = self.font_horizontal as u64;
        let fv = self.font_vertical as u64;
        proof {
            assert(fh * fv <= 0xffff_ffff * 0xffff_ffff) by (nonlinear_arith)
                requires fh <= 0xffff_ffff, fv <= 0xffff_ffff;
        }
        fh >= 1 && fv >= 1 && fh * fv <= GLYPH_TABLE_SIZE as u64
    }

    pub fn glyph_count(&self) -> (r: u32)
        requires
            self.valid(),
        ensures
            r == self.glyph_count_spec(),
            1 <= r <= GLYPH_TABLE_SIZE,
    {
        proof {
            let fh = self.font_horizontal as int;
            let fv = self.font_vertical as int;
            assert(1 <= fh * fv) by (nonlinear_arith)
                requires fh >= 1, fv >= 1;
        }
        proof {
            let fh = self.font_horizontal as int;
            let fv = self.font_vertical as int;
            assert(1 <= fh * fv) by (nonlinear_arith)
                requires fh >= 1, fv >= 1;
        }
        self.font_horizontal * self.font_vertical
    }
}

} // verus!
