use rom_header::error::RomError;
use rom_header::layout::{layout, Layout};

#[test]
fn empty_graphics_region_has_one_row() {
    let l = layout(0, 8192, 16, 800, 8, 8).unwrap();
    assert_eq!(l.tile_count, 0);
    assert_eq!(l.row_count, 1);
    assert_eq!(l.canvas_height, 8);
}

#[test]
fn sixteen_pages_of_eight_kilobytes() {
    let l = layout(16, 8192, 16, 800, 8, 8).unwrap();
    assert_eq!(l, Layout { tile_count: 8192, tiles_per_row: 100, row_count: 82, canvas_height: 656 });
}

#[test]
fn exact_multiple_still_gets_padding_row() {
    let l = layout(1, 1600, 16, 800, 8, 8).unwrap();
    assert_eq!(l.tile_count, 100);
    assert_eq!(l.tiles_per_row, 100);
    assert_eq!(l.row_count, 2);
    assert_eq!(l.canvas_height, 16);
}

#[test]
fn partial_tile_is_dropped() {
    let l = layout(3, 10, 16, 800, 8, 8).unwrap();
    assert_eq!(l.tile_count, 1);
}

#[test]
fn megabyte_graphics_page_with_large_tiles() {
    let l = layout(1, 8 * 1024 * 1024, 0x10000, 800, 8, 8).unwrap();
    assert_eq!(l, Layout { tile_count: 128, tiles_per_row: 100, row_count: 2, canvas_height: 16 });
}

#[test]
fn narrow_canvas_is_invalid_configuration() {
    let r = layout(16, 8192, 16, 4, 8, 8);
    assert_eq!(r, Err(RomError::InvalidConfiguration { canvas_width: 4, tile_pixel_width: 8 }));
}

#[test]
fn canvas_exactly_one_tile_wide() {
    let l = layout(1, 64, 16, 8, 8, 4).unwrap();
    assert_eq!(l, Layout { tile_count: 4, tiles_per_row: 1, row_count: 5, canvas_height: 20 });
}
