use vstd::prelude::*;
use crate::error::RomError;

verus! {

/// Arrangement of the graphics region's tiles into rows on a canvas.
#[derive(Clone, Copy, Debug, PartialEq, Eq, Structural)]
pub struct Layout {
    pub tile_count: u64,
    pub tiles_per_row: u64,
    pub row_count: u64,
    pub canvas_height: u64,
}

/// Whole tiles held by `graphics_page_count` pages; a partial tile is dropped.
pub open spec fn tile_count_of(graphics_page_count: int, page_size: int, tile_byte_size: int) -> int {
    (graphics_page_count * page_size) / tile_byte_size
}

/// Tiles that fit side by side in one row of the canvas.
pub open spec fn tiles_per_row_of(canvas_width: int, tile_pixel_width: int) -> int {
    canvas_width / tile_pixel_width
}

/// Rows for `tile_count` tiles: always one more than the full rows, even
/// when the last row is exactly full or there are no tiles at all.
pub open spec fn row_count_of(tile_count: int, tiles_per_row: int) -> int {
    tile_count / tiles_per_row + 1
}

/// The layout of the graphics region, when at least one tile fits in a row.
pub open spec fn layout_of(
    graphics_page_count: int,
    page_size: int,
    tile_byte_size: int,
    canvas_width: int,
    tile_pixel_width: int,
    tile_pixel_height: int,
) -> Layout {
    let tiles = tile_count_of(graphics_page_count, page_size, tile_byte_size);
    let per_row = tiles_per_row_of(canvas_width, tile_pixel_width);
    let rows = row_count_of(tiles, per_row);
    Layout {
        tile_count: tiles as u64,
        tiles_per_row: per_row as u64,
        row_count: rows as u64,
        canvas_height: (rows * tile_pixel_height) as u64,
    }
}

/// Computes how the tiles of a graphics region of `graphics_page_count`
/// pages are laid out on a canvas `canvas_width` pixels wide.
///
/// Fails with `InvalidConfiguration` when not even one tile fits in a row.
pub fn layout(
    graphics_page_count: u64,
    page_size: u64,
    tile_byte_size: u64,
    canvas_width: u64,
    tile_pixel_width: u64,
    tile_pixel_height: u64,
) -> (r: Result<Layout, RomError>)
    requires
        page_size > 0,
        tile_byte_size > 0,
        canvas_width > 0,
        tile_pixel_width > 0,
        tile_pixel_height > 0,
        graphics_page_count * page_size <= u64::MAX,
        tiles_per_row_of(canvas_width as int, tile_pixel_width as int) >= 1 ==> row_count_of(
            tile_count_of(graphics_page_count as int, page_size as int, tile_byte_size as int),
            tiles_per_row_of(canvas_width as int, tile_pixel_width as int),
        ) * tile_pixel_height <= u64::MAX,
    ensures
        r is Err <==> tiles_per_row_of(canvas_width as int, tile_pixel_width as int) < 1,
        r matches Err(e) ==> e == (RomError::InvalidConfiguration { canvas_width, tile_pixel_width }),
        r matches Ok(l) ==> l == layout_of(
            graphics_page_count as int,
            page_size as int,
            tile_byte_size as int,
            canvas_width as int,
            tile_pixel_width as int,
            tile_pixel_height as int,
        ),
{
    let tiles_per_row = canvas_width / tile_pixel_width;
    if tiles_per_row < 1 {
        return Err(RomError::InvalidConfiguration { canvas_width, tile_pixel_width });
    }
    let graphics_byte_size = graphics_page_count * page_size;
    let tile_count = graphics_byte_size / tile_byte_size;
    assert(tile_count / tiles_per_row <= tile_count) by (nonlinear_arith)
        requires
            tiles_per_row >= 1,
            tile_count >= 0,
    ;
    assert(tile_count / tiles_per_row + 1 <= (tile_count / tiles_per_row + 1) * tile_pixel_height) by (nonlinear_arith)
        requires
            tile_pixel_height >= 1,
            tile_count / tiles_per_row >= 0,
    ;
    let row_count = tile_count / tiles_per_row + 1;
    let canvas_height = row_count * tile_pixel_height;
    Ok(Layout { tile_count, tiles_per_row, row_count, canvas_height })
}

/// An empty graphics region has no tiles and still gets one row.
pub proof fn lemma_empty_graphics_one_row(
    page_size: int,
    tile_byte_size: int,
    canvas_width: int,
    tile_pixel_width: int,
    tile_pixel_height: int,
)
    requires
        page_size > 0,
        tile_byte_size > 0,
        canvas_width > 0,
        tile_pixel_width > 0,
        tile_pixel_height > 0,
        tiles_per_row_of(canvas_width, tile_pixel_width) >= 1,
    ensures
        layout_of(0, page_size, tile_byte_size, canvas_width, tile_pixel_width, tile_pixel_height).tile_count == 0,
        layout_of(0, page_size, tile_byte_size, canvas_width, tile_pixel_width, tile_pixel_height).row_count == 1,
{
    let per_row = tiles_per_row_of(canvas_width, tile_pixel_width);
    assert(0 * page_size == 0);
    assert(0int / tile_byte_size == 0);
    assert(0int / per_row == 0);
}

} // verus!
