use daile::graphics::{black, white, Color, Tile};
use daile::render::{cursor_overlay, palette_cells, palette_origin, screen_size, swatch_cells, PaletteCell};
use daile::util::DaileConfig;

fn config(fh: u32, fv: u32) -> DaileConfig {
    DaileConfig {
        canvas_width: 40,
        canvas_height: 20,
        font_horizontal: fh,
        font_vertical: fv,
        font_path: String::new(),
    }
}

#[test]
fn palette_cells_follow_configured_grid() {
    let cfg = config(8, 4);
    let cells = palette_cells(&cfg, Tile::new(9u8 as char, white(), black()));
    assert_eq!(cells.len(), 32);
    assert_eq!(cells[0], PaletteCell { x: 1, y: 1, glyph: 0u8 as char, selected: false });
    assert_eq!(cells[9], PaletteCell { x: 2, y: 2, glyph: 9u8 as char, selected: true });
    assert_eq!(cells[31], PaletteCell { x: 8, y: 4, glyph: 31u8 as char, selected: false });
    assert_eq!(cells.iter().filter(|c| c.selected).count(), 1);
}

#[test]
fn palette_of_full_font_sheet() {
    let cfg = config(16, 16);
    let cells = palette_cells(&cfg, Tile::new('A', white(), black()));
    assert_eq!(cells.len(), 256);
    assert_eq!(cells[65], PaletteCell { x: 2, y: 5, glyph: 'A', selected: true });
}

#[test]
fn swatches_in_fixed_order() {
    let s = swatch_cells();
    assert_eq!(s.len(), 10);
    assert_eq!(s[0], (1, Color { r: 0, g: 0, b: 0 }));
    assert_eq!(s[5], (6, Color { r: 255, g: 127, b: 0 }));
    assert_eq!(s[9], (10, Color { r: 229, g: 191, b: 0 }));
}

#[test]
fn panel_placement() {
    let cfg = config(16, 16);
    assert_eq!(palette_origin(&cfg), (42, 4));
    assert_eq!(screen_size(&cfg), (60, 22));
}

#[test]
fn cursor_overlay_only_on_canvas() {
    let cfg = config(16, 16);
    assert_eq!(cursor_overlay(&cfg, 1, 1), Some((1, 1)));
    assert_eq!(cursor_overlay(&cfg, 40, 20), Some((40, 20)));
    assert_eq!(cursor_overlay(&cfg, 0, 5), None);
    assert_eq!(cursor_overlay(&cfg, 41, 5), None);
    assert_eq!(cursor_overlay(&cfg, 5, 21), None);
}
