use vstd::prelude::*;
use crate::graphics::{Color, Tile, TileMap, cells};
use crate::util::glyph_of;

verus! {

/// Why a byte buffer is not an encoded map.
#[derive(Clone, Copy, Debug, PartialEq, Eq, Structural)]
pub enum FormatError {
    /// Fewer than the sixteen bytes of the header.
    MissingHeader,
    /// The tile data is not seven bytes for each cell that the header declares.
    SizeMismatch,
}

pub const HEADER_LEN: usize = 16;
pub const TILE_LEN: usize = 7;

/// The eight big-endian bytes of `n`.
pub open spec fn be_bytes(n: u64) -> Seq<u8> {
    seq![
        (n >> 56) as u8, (n >> 48) as u8, (n >> 40) as u8, (n >> 32) as u8,
        (n >> 24) as u8, (n >> 16) as u8, (n >> 8) as u8, n as u8,
    ]
}

/// The big-endian integer in the eight bytes of `b` from `i` on.
pub open spec fn be_value(b: Seq<u8>, i: int) -> u64 {
    (b[i] as u64) << 56 | (b[i + 1] as u64) << 48 | (b[i + 2] as u64) << 40 | (b[i + 3] as u64) << 32
        | (b[i + 4] as u64) << 24 | (b[i + 5] as u64) << 16 | (b[i + 6] as u64) << 8 | (b[i + 7] as u64)
}

/// The low byte of a glyph's code.
pub open spec fn glyph_byte(g: char) -> u8 {
    (g as u32) as u8
}

/// The seven bytes of one tile: glyph, then foreground and background RGB.
pub open spec fn tile_bytes(t: Tile) -> Seq<u8> {
    seq![
        glyph_byte(t.glyph),
        t.foreground_color.r, t.foreground_color.g, t.foreground_color.b,
        t.background_color.r, t.background_color.g, t.background_color.b,
    ]
}

/// The bytes of a column of tiles, top to bottom.
pub open spec fn tiles_bytes(s: Seq<Tile>) -> Seq<u8>
    decreases s.len(),
{
    if s.len() == 0 {
        Seq::empty()
    } else {
        tiles_bytes(s.drop_last()) + tile_bytes(s.last())
    }
}

/// The bytes of all columns, left to right.
pub open spec fn columns_bytes(c: Seq<Seq<Tile>>) -> Seq<u8>
    decreases c.len(),
{
    if c.len() == 0 {
        Seq::empty()
    } else {
        columns_bytes(c.drop_last()) + tiles_bytes(c.last())
    }
}

/// The height of a map: the length of its first column, or zero without columns.
pub open spec fn height_of(c: Seq<Seq<Tile>>) -> int {
    if c.len() == 0 { 0 } else { c[0].len() as int }
}

/// The encoding of a map: height, width, then each column's tiles.
pub open spec fn encoding(c: Seq<Seq<Tile>>) -> Seq<u8> {
    be_bytes(height_of(c) as u64) + be_bytes(c.len() as u64) + columns_bytes(c)
}

/// The height that a buffer's header declares.
pub open spec fn header_height(b: Seq<u8>) -> int {
    be_value(b, 0) as int
}

/// The width that a buffer's header declares.
pub open spec fn header_width(b: Seq<u8>) -> int {
    be_value(b, 8) as int
}

/// A header followed by exactly seven bytes per declared cell.
pub open spec fn well_sized(b: Seq<u8>) -> bool {
    b.len() >= HEADER_LEN && b.len() - HEADER_LEN == TILE_LEN * (header_width(b) * header_height(b))
}

/// The tile whose seven bytes start at `i`.
pub open spec fn tile_at(b: Seq<u8>, i: int) -> Tile {
    Tile {
        glyph: glyph_of(b[i] as int),
        foreground_color: Color { r: b[i + 1], g: b[i + 2], b: b[i + 3] },
        background_color: Color { r: b[i + 4], g: b[i + 5], b: b[i + 6] },
    }
}

/// The cells that a well-sized buffer holds.
pub open spec fn decoded_cells(b: Seq<u8>) -> Seq<Seq<Tile>> {
    let w = header_width(b);
    let h = header_height(b);
    Seq::new(w as nat, |c: int| Seq::new(h as nat, |r: int| tile_at(b, HEADER_LEN + TILE_LEN * (c * h + r))))
}

fn push_u64(out: &mut Vec<u8>, n: u64)
    ensures
        final(out)@ == old(out)@ + be_bytes(n),
{
    out.push((n >> 56) as u8);
    out.push((n >> 48) as u8);
    out.push((n >> 40) as u8);
    out.push((n >> 32) as u8);
    out.push((n >> 24) as u8);
    out.push((n >> 16) as u8);
    out.push((n >> 8) as u8);
    out.push(n as u8);
    assert(final(out)@ =~= old(out)@ + be_bytes(n));
}

fn read_u64(b: &[u8], i: usize) -> (r: u64)
    requires
        i + 8 <= b@.len(),
    ensures
        r == be_value(b@, i as int),
{
    (b[i] as u64) << 56 | (b[i + 1] as u64) << 48 | (b[i + 2] as u64) << 40 | (b[i + 3] as u64) << 32
        | (b[i + 4] as u64) << 24 | (b[i + 5] as u64) << 16 | (b[i + 6] as u64) << 8 | (b[i + 7] as u64)
}

/// The bytes of a map: a header of height and width, then for each column,
/// for each row of it, the tile's seven bytes.
pub fn encode(map: &TileMap) -> (r: Vec<u8>)
    ensures
        r@ == encoding(cells(map)),
{
    let ghost c = cells(map);
    let width = map.len();
    let height: usize = if width == 0 { 0 } else { map[0].len() };
    let mut out: Vec<u8> = Vec::new();
    push_u64(&mut out, height as u64);
    push_u64(&mut out, width as u64);
    let ghost header = out@;
    let mut i: usize = 0;
    while i < width
        invariant
            i <= width,
            width == map@.len(),
            c == cells(map),
            out@ == header + columns_bytes(c.take(i as int)),
        decreases width - i,
    {
        let column = &map[i];
        let ghost before = out@;
        let mut j: usize = 0;
        while j < column.len()
            invariant
                j <= column@.len(),
                column@ == c[i as int],
                out@ == before + tiles_bytes(column@.take(j as int)),
            decreases column@.len() - j,
        {
            let t = column[j];
            out.push((t.glyph as u32) as u8);
            out.push(t.foreground_color.r);
            out.push(t.foreground_color.g);
            out.push(t.foreground_color.b);
            out.push(t.background_color.r);
            out.push(t.background_color.g);
            out.push(t.background_color.b);
            j = j + 1;
            assert(column@.take(j as int).drop_last() =~= column@.take(j - 1));
            assert(out@ =~= before + tiles_bytes(column@.take(j as int)));
        }
        assert(column@.take(j as int) =~= column@);
        i = i + 1;
        assert(c.take(i as int).drop_last() =~= c.take(i - 1));
        assert(out@ =~= header + columns_bytes(c.take(i as int)));
    }
    assert(c.take(width as int) =~= c);
    out
}

/// Whether the `rem` bytes after a header hold exactly seven bytes for each
/// of `w * h` cells.
fn sizes_agree(rem: usize, w: u64, h: u64) -> (r: bool)
    ensures
        r == (rem as int == TILE_LEN * (w * h)),
{
    proof {
        assert((w as int) * (h as int) <= 0xffff_ffff_ffff_ffff_ffff_ffff_ffff_ffff) by (nonlinear_arith)
            requires w <= 0xffff_ffff_ffff_ffff, h <= 0xffff_ffff_ffff_ffff;
    }
    let cellcount: u128 = (w as u128) * (h as u128);
    let r = rem % 7 == 0 && cellcount == (rem / 7) as u128;
    proof {
        let wh = (w as int) * (h as int);
        if rem as int == 7 * wh {
            assert(rem % 7 == 0 && rem / 7 == wh) by (nonlinear_arith)
                requires rem as int == 7 * wh;
        }
        if r {
            assert(rem as int == 7 * (rem as int / 7) + rem as int % 7) by (nonlinear_arith);
        }
    }
    r
}

/// Reads a map back from its bytes. The header must be followed by exactly
/// seven bytes for each cell it declares; a buffer that holds less or more
/// is refused, never partly read.
pub fn decode(bytes: &[u8]) -> (r: Result<TileMap, FormatError>)
    ensures
        r == Err::<TileMap, FormatError>(FormatError::MissingHeader) <==> bytes@.len() < HEADER_LEN,
        r == Err::<TileMap, FormatError>(FormatError::SizeMismatch) <==> bytes@.len() >= HEADER_LEN
            && !well_sized(bytes@),
        r is Ok <==> well_sized(bytes@),
        r matches Ok(m) ==> cells(&m) == decoded_cells(bytes@),
{
    if bytes.len() < HEADER_LEN {
        return Err(FormatError::MissingHeader);
    }
    let h = read_u64(bytes, 0);
    let w = read_u64(bytes, 8);
    if !sizes_agree(bytes.len() - HEADER_LEN, w, h) {
        return Err(FormatError::SizeMismatch);
    }
    let ghost b = bytes@;
    let ghost target = decoded_cells(b);
    let mut map: TileMap = Vec::new();
    let mut pos: usize = HEADER_LEN;
    let mut c: u64 = 0;
    while c < w
        invariant
            c <= w,
            b == bytes@,
            h == header_height(b),
            w == header_width(b),
            well_sized(b),
            target == decoded_cells(b),
            pos as int == HEADER_LEN + TILE_LEN * (c * h),
            map@.len() == c,
            forall|k: int| 0 <= k < c ==> #[trigger] map@[k]@ == target[k],
        decreases w - c,
    {
        let mut column: Vec<Tile> = Vec::new();
        let mut r: u64 = 0;
        while r < h
            invariant
                c < w,
                r <= h,
                b == bytes@,
                h == header_height(b),
                w == header_width(b),
                well_sized(b),
                target == decoded_cells(b),
                pos as int == HEADER_LEN + TILE_LEN * (c * h + r),
                column@ == target[c as int].take(r as int),
            decreases h - r,
        {
            proof {
                assert(c * h + r + 1 <= w * h) by (nonlinear_arith)
                    requires c < w, r < h;
            }
            let t = Tile {
                glyph: (bytes[pos] as u8) as char,
                foreground_color: Color { r: bytes[pos + 1], g: bytes[pos + 2], b: bytes[pos + 3] },
                background_color: Color { r: bytes[pos + 4], g: bytes[pos + 5], b: bytes[pos + 6] },
            };
            column.push(t);
            pos = pos + TILE_LEN;
            r = r + 1;
            assert(column@ =~= target[c as int].take(r as int));
        }
        assert(column@ =~= target[c as int]);
        map.push(column);
        c = c + 1;
        proof {
            assert((c - 1) * h + h == c * h) by (nonlinear_arith);
        }
    }
    assert(cells(&map) =~= target);
    Ok(map)
}

proof fn lemma_be_round_trip(n: u64)
    ensures
        be_value(be_bytes(n), 0) == n,
{
    let b = be_bytes(n);
    assert(b[0] == (n >> 56) as u8 && b[1] == (n >> 48) as u8 && b[2] == (n >> 40) as u8
        && b[3] == (n >> 32) as u8 && b[4] == (n >> 24) as u8 && b[5] == (n >> 16) as u8
        && b[6] == (n >> 8) as u8 && b[7] == n as u8);
    assert(((n >> 56) as u8 as u64) << 56 | ((n >> 48) as u8 as u64) << 48 | ((n >> 40) as u8 as u64) << 40
        | ((n >> 32) as u8 as u64) << 32 | ((n >> 24) as u8 as u64) << 24 | ((n >> 16) as u8 as u64) << 16
        | ((n >> 8) as u8 as u64) << 8 | (n as u8 as u64) == n) by (bit_vector);
}

proof fn lemma_glyph_round_trip(g: char)
    requires
        (g as u32) < 256,
    ensures
        glyph_of(glyph_byte(g) as int) == g,
{
}

proof fn lemma_tiles_bytes(s: Seq<Tile>)
    ensures
        tiles_bytes(s).len() == TILE_LEN * s.len(),
        forall|j: int, k: int| 0 <= j < s.len() && 0 <= k < TILE_LEN ==>
            #[trigger] tiles_bytes(s)[TILE_LEN * j + k] == #[trigger] tile_bytes(s[j])[k],
    decreases s.len(),
{
    if s.len() > 0 {
        let p = s.drop_last();
        lemma_tiles_bytes(p);
        assert forall|j: int, k: int| 0 <= j < s.len() && 0 <= k < TILE_LEN implies
            #[trigger] tiles_bytes(s)[TILE_LEN * j + k] == #[trigger] tile_bytes(s[j])[k] by {
            if j < s.len() - 1 {
                assert(p[j] == s[j]);
            }
        }
    }
}

proof fn lemma_columns_bytes(c: Seq<Seq<Tile>>, h: int)
    requires
        0 <= h,
        forall|i: int| 0 <= i < c.len() ==> #[trigger] c[i].len() == h,
    ensures
        columns_bytes(c).len() == TILE_LEN * (c.len() * h),
        forall|i: int, j: int, k: int| 0 <= i < c.len() && 0 <= j < h && 0 <= k < TILE_LEN ==>
            #[trigger] columns_bytes(c)[TILE_LEN * (i * h + j) + k] == #[trigger] tile_bytes(c[i][j])[k],
    decreases c.len(),
{
    if c.len() > 0 {
        let p = c.drop_last();
        let n = c.len() - 1;
        lemma_columns_bytes(p, h);
        lemma_tiles_bytes(c.last());
        assert(n * h + h == c.len() * h) by (nonlinear_arith)
            requires n == c.len() - 1;
        assert forall|i: int, j: int, k: int| 0 <= i < c.len() && 0 <= j < h && 0 <= k < TILE_LEN implies
            #[trigger] columns_bytes(c)[TILE_LEN * (i * h + j) + k] == #[trigger] tile_bytes(c[i][j])[k] by {
            if i < n {
                assert(i * h + j < n * h) by (nonlinear_arith)
                    requires 0 <= i < n, 0 <= j < h;
                assert(p[i] == c[i]);
            } else {
                assert(TILE_LEN * (i * h + j) + k - TILE_LEN * (n * h) == TILE_LEN * j + k);
            }
        }
    }
}

/// Decoding the encoding of a rectangular map whose glyphs lie in the glyph
/// table gives back every cell of the map: same width, same height, same
/// tiles.
pub proof fn lemma_decode_encode(c: Seq<Seq<Tile>>)
    requires
        c.len() <= u64::MAX,
        height_of(c) <= u64::MAX,
        forall|i: int| 0 <= i < c.len() ==> #[trigger] c[i].len() == height_of(c),
        forall|i: int, j: int| 0 <= i < c.len() && 0 <= j < c[i].len() ==> (#[trigger] c[i][j].glyph as u32) < 256,
    ensures
        well_sized(encoding(c)),
        header_width(encoding(c)) == c.len(),
        c.len() > 0 ==> header_height(encoding(c)) == c[0].len(),
        decoded_cells(encoding(c)) == c,
{
    let h = height_of(c);
    let w = c.len() as int;
    let e = encoding(c);
    let hb = be_bytes(h as u64);
    let wb = be_bytes(w as u64);
    lemma_be_round_trip(h as u64);
    lemma_be_round_trip(w as u64);
    lemma_columns_bytes(c, h);
    assert(be_value(e, 0) == be_value(hb, 0));
    assert(be_value(e, 8) == be_value(wb, 0));
    assert(header_height(e) == h);
    assert(header_width(e) == w);
    let d = decoded_cells(e);
    assert forall|i: int| 0 <= i < w implies #[trigger] d[i] == c[i] by {
        assert forall|j: int| 0 <= j < h implies #[trigger] d[i][j] == c[i][j] by {
            let p = TILE_LEN * (i * h + j);
            assert(0 <= i * h + j < w * h) by (nonlinear_arith)
                requires 0 <= i < w, 0 <= j < h;
            lemma_glyph_round_trip(c[i][j].glyph);
            assert(e[HEADER_LEN + p] == columns_bytes(c)[TILE_LEN * (i * h + j) + 0]);
            assert(e[HEADER_LEN + p + 1] == columns_bytes(c)[TILE_LEN * (i * h + j) + 1]);
            assert(e[HEADER_LEN + p + 2] == columns_bytes(c)[TILE_LEN * (i * h + j) + 2]);
            assert(e[HEADER_LEN + p + 3] == columns_bytes(c)[TILE_LEN * (i * h + j) + 3]);
            assert(e[HEADER_LEN + p + 4] == columns_bytes(c)[TILE_LEN * (i * h + j) + 4]);
            assert(e[HEADER_LEN + p + 5] == columns_bytes(c)[TILE_LEN * (i * h + j) + 5]);
            assert(e[HEADER_LEN + p + 6] == columns_bytes(c)[TILE_LEN * (i * h + j) + 6]);
            let t = c[i][j];
            assert(tile_bytes(t)[0] == glyph_byte(t.glyph));
            assert(d[i][j] == tile_at(e, HEADER_LEN + p));
            assert(tile_at(e, HEADER_LEN + p) == t);
        }
        assert(d[i] =~= c[i]);
    }
    assert(d =~= c);
}

/// A buffer shorter than its header, or shorter than the cells its header
/// declares, is never well sized, so `decode` refuses it.
pub proof fn lemma_short_buffer_refused(b: Seq<u8>)
    requires
        b.len() < HEADER_LEN || b.len() - HEADER_LEN < TILE_LEN * (header_width(b) * header_height(b)),
    ensures
        !well_sized(b),
{
}

} // verus!
