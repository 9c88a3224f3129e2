use daile::codec::{decode, encode, FormatError};
use daile::daile::{classify, handle_keys, Action, KeyPress, MouseState, Region, Workspace};
use daile::graphics::{black, preset_color, white, Color, Tile};
use daile::ui::FrameBorder;
use daile::util::{glyph_idx_to_char, DaileConfig};

fn config() -> DaileConfig {
    DaileConfig {
        canvas_width: 40,
        canvas_height: 20,
        font_horizontal: 16,
        font_vertical: 16,
        font_path: String::from("font.png"),
    }
}

fn mouse_at(cx: i32, cy: i32) -> MouseState {
    MouseState { cx, cy, lbutton: false, rbutton: false, wheel_up: false, wheel_down: false }
}

#[test]
fn new_workspace_is_blank() {
    let ws = Workspace::new(3, 2);
    assert_eq!(ws.map.len(), 3);
    for column in ws.map.iter() {
        assert_eq!(column.len(), 2);
        for t in column.iter() {
            assert_eq!(*t, Tile::new(' ', white(), black()));
        }
    }
    assert_eq!(ws.current_tile.glyph() as u32, 1);
}

#[test]
fn left_click_paints_brush() {
    let cfg = config();
    let mut ws = Workspace::new(40, 20);
    ws.set_brush_glyph('A');
    let mut m = mouse_at(1, 1);
    m.lbutton = true;
    let act = handle_keys(&cfg, KeyPress::Nothing, &mut m, &mut ws);
    assert_eq!(act, Action::Continue);
    assert_eq!(ws.map[0][0], Tile::new('A', white(), black()));
    assert_eq!(ws.map[1][0], Tile::new(' ', white(), black()));
}

#[test]
fn right_click_erases_cell() {
    let cfg = config();
    let mut ws = Workspace::new(40, 20);
    ws.paint(0, 0, Tile::new('#', Color { r: 1, g: 2, b: 3 }, white()));
    let mut m = mouse_at(1, 1);
    m.rbutton = true;
    handle_keys(&cfg, KeyPress::Nothing, &mut m, &mut ws);
    assert_eq!(ws.map[0][0], Tile::new(' ', white(), black()));
}

#[test]
fn wheel_down_from_zero_wraps_to_last_glyph() {
    let cfg = config();
    let mut ws = Workspace::new(40, 20);
    ws.set_brush_glyph(0u8 as char);
    let mut m = mouse_at(0, 0);
    m.wheel_down = true;
    handle_keys(&cfg, KeyPress::Nothing, &mut m, &mut ws);
    assert_eq!(ws.current_tile.glyph() as u32, 16 * 16 - 1);
    assert!(!m.wheel_down);
}

#[test]
fn wheel_up_from_last_glyph_wraps_to_zero() {
    let cfg = config();
    let mut ws = Workspace::new(4, 4);
    ws.set_brush_glyph(255u8 as char);
    let mut m = mouse_at(0, 0);
    m.wheel_up = true;
    handle_keys(&cfg, KeyPress::Nothing, &mut m, &mut ws);
    assert_eq!(ws.current_tile.glyph() as u32, 0);
    assert!(!m.wheel_up);
}

#[test]
fn cycling_full_palette_returns_to_start() {
    let mut ws = Workspace::new(1, 1);
    ws.set_brush_glyph('A');
    for _ in 0..256 {
        ws.cycle_brush_glyph(true, 256);
    }
    assert_eq!(ws.current_tile.glyph(), 'A');
    for _ in 0..256 {
        ws.cycle_brush_glyph(false, 256);
    }
    assert_eq!(ws.current_tile.glyph(), 'A');
}

#[test]
fn save_then_load_one_by_one_map() {
    let ws = Workspace::new(1, 1);
    let bytes = encode(&ws.map);
    assert_eq!(
        bytes,
        vec![0, 0, 0, 0, 0, 0, 0, 1, 0, 0, 0, 0, 0, 0, 0, 1, 32, 255, 255, 255, 0, 0, 0]
    );
    let map = decode(&bytes).unwrap();
    assert_eq!(map.len(), 1);
    assert_eq!(map[0].len(), 1);
    assert_eq!(map[0][0], Tile::new(' ', white(), black()));
}

#[test]
fn round_trip_keeps_every_cell() {
    let mut ws = Workspace::new(3, 2);
    ws.paint(0, 1, Tile::new('x', Color { r: 10, g: 20, b: 30 }, Color { r: 40, g: 50, b: 60 }));
    ws.paint(2, 0, Tile::new('~', Color { r: 255, g: 0, b: 7 }, white()));
    let bytes = encode(&ws.map);
    assert_eq!(bytes.len(), 16 + 7 * 6);
    assert_eq!(&bytes[0..8], &[0, 0, 0, 0, 0, 0, 0, 2]);
    assert_eq!(&bytes[8..16], &[0, 0, 0, 0, 0, 0, 0, 3]);
    assert_eq!(&bytes[23..30], &[b'x', 10, 20, 30, 40, 50, 60]);
    let map = decode(&bytes).unwrap();
    assert_eq!(map, ws.map);
}

#[test]
fn decode_refuses_short_header() {
    assert_eq!(decode(&[0, 0, 0]), Err(FormatError::MissingHeader));
    assert_eq!(decode(&[]), Err(FormatError::MissingHeader));
}

#[test]
fn decode_refuses_truncated_tiles() {
    let ws = Workspace::new(2, 2);
    let mut bytes = encode(&ws.map);
    bytes.pop();
    assert_eq!(decode(&bytes), Err(FormatError::SizeMismatch));
}

#[test]
fn decode_refuses_trailing_bytes() {
    let ws = Workspace::new(2, 2);
    let mut bytes = encode(&ws.map);
    bytes.push(0);
    assert_eq!(decode(&bytes), Err(FormatError::SizeMismatch));
}

#[test]
fn decode_refuses_huge_header() {
    let mut bytes = vec![0xff; 16];
    bytes.extend_from_slice(&[32, 0, 0, 0, 0, 0, 0]);
    assert_eq!(decode(&bytes), Err(FormatError::SizeMismatch));
}

#[test]
fn classify_regions_of_fixed_layout() {
    let cfg = config();
    assert_eq!(classify(&cfg, 1, 1), Region::Canvas { col: 0, row: 0 });
    assert_eq!(classify(&cfg, 40, 20), Region::Canvas { col: 39, row: 19 });
    assert_eq!(classify(&cfg, 0, 1), Region::Outside);
    assert_eq!(classify(&cfg, 41, 1), Region::Outside);
    assert_eq!(classify(&cfg, 43, 5), Region::Palette { index: 0 });
    assert_eq!(classify(&cfg, 58, 20), Region::Palette { index: 255 });
    assert_eq!(classify(&cfg, 44, 6), Region::Palette { index: 17 });
    assert_eq!(classify(&cfg, 43, 1), Region::Swatch { index: 0 });
    assert_eq!(classify(&cfg, 52, 1), Region::Swatch { index: 9 });
    assert_eq!(classify(&cfg, 53, 1), Region::Outside);
    assert_eq!(classify(&cfg, -3, -3), Region::Outside);
    assert_eq!(classify(&cfg, 43, 4), Region::Outside);
}

#[test]
fn palette_click_uses_configured_row_width() {
    let mut cfg = config();
    cfg.font_horizontal = 8;
    cfg.font_vertical = 8;
    let mut ws = Workspace::new(40, 20);
    let mut m = mouse_at(44, 14);
    m.lbutton = true;
    handle_keys(&cfg, KeyPress::Nothing, &mut m, &mut ws);
    assert_eq!(ws.current_tile.glyph() as u32, 8 + 1);
}

#[test]
fn swatch_clicks_set_brush_colors() {
    let cfg = config();
    let mut ws = Workspace::new(40, 20);
    let mut m = mouse_at(45, 1);
    m.lbutton = true;
    handle_keys(&cfg, KeyPress::Nothing, &mut m, &mut ws);
    assert_eq!(ws.current_tile.foreground_color, Color { r: 255, g: 0, b: 0 });
    let mut m = mouse_at(52, 1);
    m.rbutton = true;
    handle_keys(&cfg, KeyPress::Nothing, &mut m, &mut ws);
    assert_eq!(ws.current_tile.background_color, Color { r: 229, g: 191, b: 0 });
}

#[test]
fn keys_decide_the_action() {
    let cfg = config();
    let mut ws = Workspace::new(40, 20);
    let mut m = mouse_at(1, 1);
    m.lbutton = true;
    assert_eq!(handle_keys(&cfg, KeyPress::Escape, &mut m, &mut ws), Action::Exit);
    assert_eq!(ws.map[0][0].glyph() as u32, ' ' as u32);
    assert_eq!(handle_keys(&cfg, KeyPress::F5, &mut m, &mut ws), Action::Save);
    assert_eq!(handle_keys(&cfg, KeyPress::AltEnter, &mut m, &mut ws), Action::ToggleFullscreen);
    assert_eq!(handle_keys(&cfg, KeyPress::Other, &mut m, &mut ws), Action::Continue);
}

#[test]
fn paint_outside_map_does_nothing() {
    let mut ws = Workspace::new(2, 2);
    let before = ws.map.clone();
    ws.paint(5, 0, Tile::new('Q', white(), white()));
    ws.erase(0, 9);
    assert_eq!(ws.map, before);
}

#[test]
fn glyph_lookup_is_bounds_checked() {
    assert_eq!(glyph_idx_to_char(65, 256), Some('A'));
    assert_eq!(glyph_idx_to_char(256, 256), None);
    assert_eq!(glyph_idx_to_char(20, 16), None);
    assert_eq!(glyph_idx_to_char(300, 1000), None);
}

#[test]
fn presets_in_fixed_order() {
    assert_eq!(preset_color(0), Some(black()));
    assert_eq!(preset_color(1), Some(white()));
    assert_eq!(preset_color(7), Some(Color { r: 191, g: 0, b: 255 }));
    assert_eq!(preset_color(10), None);
}

#[test]
fn config_validity() {
    let mut cfg = config();
    assert!(cfg.is_valid());
    assert_eq!(cfg.glyph_count(), 256);
    cfg.font_horizontal = 17;
    assert!(!cfg.is_valid());
    cfg.font_horizontal = 0;
    assert!(!cfg.is_valid());
}

#[test]
fn frame_border_needs_three_tiles() {
    let corners = ['a', 'b', 'c', 'd'];
    assert!(FrameBorder::new(0, 0, 2, 5, corners, None).is_err());
    assert!(FrameBorder::new(0, 0, 5, 2, corners, None).is_err());
    let f = FrameBorder::new(1, 2, 3, 4, corners, Some(String::from("Canvas"))).unwrap();
    assert_eq!((f.top(), f.left(), f.width(), f.height()), (1, 2, 3, 4));
    assert_eq!(f.corners(), corners);
    assert_eq!(f.title(), &Some(String::from("Canvas")));
}

#[test]
fn tile_setters() {
    let mut t = Tile::new('a', white(), black());
    t.set_glyph('b');
    t.set_color_fg(black());
    t.set_color_bkg(white());
    assert_eq!(t, Tile::new('b', black(), white()));
    t.set_color(white(), white());
    assert_eq!(t, Tile::new('b', white(), white()));
    t.set_glyph_color('c', black(), black());
    assert_eq!(t, Tile::new('c', black(), black()));
    assert_eq!(Tile::blank(), Tile::new(' ', white(), black()));
}
