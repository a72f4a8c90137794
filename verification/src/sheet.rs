//! Tile-sheet indexing: mapping a linear tile id to a pixel source rectangle
//! inside a tileset texture, given the sheet's packing geometry.

use vstd::prelude::*;
use vstd::arithmetic::div_mod::{
    lemma_fundamental_div_mod, lemma_mod_bound, lemma_multiply_divide_lt,
};
use vstd::arithmetic::mul::lemma_mul_inequality;
use crate::geometry::PixelRect;

verus! {

/// How tiles are packed into a sheet texture: the tile cell size, the margin
/// around the sheet's edge, and the spacing between adjacent cells, in pixels.
#[derive(Clone, Copy, PartialEq, Eq, Structural, Debug)]
pub struct TilesetGeometry {
    pub tile_width: u32,
    pub tile_height: u32,
    pub margin: u32,
    pub spacing: u32,
}

/// Number of tile columns the sheet texture holds:
/// `floor((texture_width - margin + spacing) / (tile_width + spacing))`.
pub open spec fn spec_tiles_per_row(g: TilesetGeometry, texture_width: u32) -> int
    recommends
        g.tile_width + g.spacing > 0,
        g.margin <= texture_width,
{
    (texture_width - g.margin + g.spacing) / (g.tile_width + g.spacing)
}

/// Number of tile rows the sheet texture holds, by the same packing formula
/// applied vertically:
/// `floor((texture_height - margin + spacing) / (tile_height + spacing))`.
pub open spec fn spec_rows(g: TilesetGeometry, texture_height: u32) -> int
    recommends
        g.tile_height + g.spacing > 0,
        g.margin <= texture_height,
{
    (texture_height - g.margin + g.spacing) / (g.tile_height + g.spacing)
}

/// Geometry that the column-count formula holds well-defined, positive
/// answers for: the prerequisite for resolving any tile id against a sheet.
pub open spec fn geometry_fits_width(g: TilesetGeometry, texture_width: u32) -> bool {
    &&& g.tile_width + g.spacing > 0
    &&& g.margin <= texture_width
    &&& 1 <= spec_tiles_per_row(g, texture_width) <= u32::MAX
}

/// A geometry the whole sheet texture can be resolved against: well-defined,
/// positive column count, and a well-defined row count that stays
/// representable.
pub open spec fn sheet_ok(g: TilesetGeometry, texture_width: u32, texture_height: u32) -> bool {
    &&& geometry_fits_width(g, texture_width)
    &&& g.tile_height + g.spacing > 0
    &&& g.margin <= texture_height
    &&& spec_rows(g, texture_height) <= u32::MAX
}

/// Why a tileset geometry is rejected at load time.
#[derive(Clone, Copy, PartialEq, Eq, Structural, Debug)]
pub enum GeometryError {
    /// `tile_width + spacing` or `tile_height + spacing` is zero: a packing
    /// formula's divisor.
    ZeroStride,
    /// The margin exceeds the texture's width or height: a packing
    /// formula's numerator would be negative.
    MarginExceedsTexture,
    /// The column formula yields zero columns: no tile id can resolve.
    NoColumns,
    /// The column formula yields a count that does not fit in `u32`.
    TooManyColumns,
    /// The row formula yields a count that does not fit in `u32`.
    TooManyRows,
}

/// Checks a tileset geometry against a sheet texture's width, failing fast on
/// any configuration under which tile resolution would be undefined.
/// On success returns the column count.
pub fn validate_geometry(g: &TilesetGeometry, texture_width: u32) -> (r: Result<
    u32,
    GeometryError,
>)
    ensures
        match r {
            Ok(cols) => geometry_fits_width(*g, texture_width) && cols == spec_tiles_per_row(
                *g,
                texture_width,
            ),
            Err(GeometryError::ZeroStride) => g.tile_width + g.spacing == 0,
            Err(GeometryError::MarginExceedsTexture) => g.tile_width + g.spacing > 0 && g.margin
                > texture_width,
            Err(GeometryError::NoColumns) => g.tile_width + g.spacing > 0 && g.margin
                <= texture_width && spec_tiles_per_row(*g, texture_width) == 0,
            Err(GeometryError::TooManyColumns) => g.tile_width + g.spacing > 0 && g.margin
                <= texture_width && spec_tiles_per_row(*g, texture_width) > u32::MAX,
            Err(GeometryError::TooManyRows) => false,
        },
{
    let stride: u64 = g.tile_width as u64 + g.spacing as u64;
    if stride == 0 {
        return Err(GeometryError::ZeroStride);
    }
    if g.margin > texture_width {
        return Err(GeometryError::MarginExceedsTexture);
    }
    let cols: u64 = (texture_width as u64 - g.margin as u64 + g.spacing as u64) / stride;
    if cols == 0 {
        Err(GeometryError::NoColumns)
    } else if cols > u32::MAX as u64 {
        Err(GeometryError::TooManyColumns)
    } else {
        Ok(cols as u32)
    }
}

/// Checks a tileset geometry against both sheet texture dimensions, failing
/// fast on any configuration under which tile resolution would be undefined:
/// success establishes exactly `sheet_ok`.
pub fn validate_sheet(g: &TilesetGeometry, texture_width: u32, texture_height: u32) -> (r: Result<
    (),
    GeometryError,
>)
    ensures
        r is Ok <==> sheet_ok(*g, texture_width, texture_height),
        match r {
            Ok(_) => true,
            Err(GeometryError::ZeroStride) => g.tile_width + g.spacing == 0 || g.tile_height
                + g.spacing == 0,
            Err(GeometryError::MarginExceedsTexture) => g.margin > texture_width || g.margin
                > texture_height,
            Err(GeometryError::NoColumns) => spec_tiles_per_row(*g, texture_width) == 0,
            Err(GeometryError::TooManyColumns) => spec_tiles_per_row(*g, texture_width)
                > u32::MAX,
            Err(GeometryError::TooManyRows) => spec_rows(*g, texture_height) > u32::MAX,
        },
{
    match validate_geometry(g, texture_width) {
        Ok(_) => {
            let stride: u64 = g.tile_height as u64 + g.spacing as u64;
            if stride == 0 {
                return Err(GeometryError::ZeroStride);
            }
            if g.margin > texture_height {
                return Err(GeometryError::MarginExceedsTexture);
            }
            let rows: u64 = (texture_height as u64 - g.margin as u64 + g.spacing as u64) / stride;
            if rows > u32::MAX as u64 {
                Err(GeometryError::TooManyRows)
            } else {
                Ok(())
            }
        },
        Err(e) => Err(e),
    }
}

/// Computes the sheet's column count. Callers establish the preconditions
/// through `validate_geometry` at load time.
pub fn tiles_per_row(g: &TilesetGeometry, texture_width: u32) -> (cols: u32)
    requires
        geometry_fits_width(*g, texture_width),
    ensures
        cols == spec_tiles_per_row(*g, texture_width),
{
    let stride: u64 = g.tile_width as u64 + g.spacing as u64;
    let cols: u64 = (texture_width as u64 - g.margin as u64 + g.spacing as u64) / stride;
    cols as u32
}

/// Computes the sheet's row count from the true texture height, by the
/// vertical analogue of the column formula.
pub fn rows_in_sheet(g: &TilesetGeometry, texture_height: u32) -> (rows: u32)
    requires
        g.tile_height + g.spacing > 0,
        g.margin <= texture_height,
        spec_rows(*g, texture_height) <= u32::MAX,
    ensures
        rows == spec_rows(*g, texture_height),
{
    let stride: u64 = g.tile_height as u64 + g.spacing as u64;
    let rows: u64 = (texture_height as u64 - g.margin as u64 + g.spacing as u64) / stride;
    rows as u32
}

/// Maps a linear tile id to its source rectangle in the sheet:
/// column `tile_id % tiles_per_row`, row `tile_id / tiles_per_row`, each
/// scaled by the tile cell size. No check against the texture's bottom edge
/// is made here; `resolve_checked` adds it.
pub fn resolve(tile_id: u32, g: &TilesetGeometry, texture_width: u32) -> (r: PixelRect)
    requires
        geometry_fits_width(*g, texture_width),
        (tile_id as int % spec_tiles_per_row(*g, texture_width)) * g.tile_width <= u32::MAX,
        (tile_id as int / spec_tiles_per_row(*g, texture_width)) * g.tile_height <= u32::MAX,
    ensures
        r.x == (tile_id as int % spec_tiles_per_row(*g, texture_width)) * g.tile_width,
        r.y == (tile_id as int / spec_tiles_per_row(*g, texture_width)) * g.tile_height,
        r.w == g.tile_width,
        r.h == g.tile_height,
{
    let cols: u32 = tiles_per_row(g, texture_width);
    let col: u64 = tile_id as u64 % cols as u64;
    let row: u64 = tile_id as u64 / cols as u64;
    let x: u64 = col * g.tile_width as u64;
    let y: u64 = row * g.tile_height as u64;
    PixelRect { x: x as u32, y: y as u32, w: g.tile_width, h: g.tile_height }
}

/// Law: every tile id below `tiles_per_row * rows` — with the row count
/// taken from the true texture height — resolves to a rectangle that lies
/// fully inside the texture.
pub proof fn lemma_resolve_in_bounds(
    tile_id: u32,
    g: TilesetGeometry,
    texture_width: u32,
    texture_height: u32,
)
    requires
        geometry_fits_width(g, texture_width),
        g.tile_height + g.spacing > 0,
        g.margin <= texture_height,
        tile_id < spec_tiles_per_row(g, texture_width) * spec_rows(g, texture_height),
    ensures
        (tile_id as int % spec_tiles_per_row(g, texture_width)) * g.tile_width + g.tile_width
            <= texture_width,
        (tile_id as int / spec_tiles_per_row(g, texture_width)) * g.tile_height + g.tile_height
            <= texture_height,
{
    let cols = spec_tiles_per_row(g, texture_width);
    let rows = spec_rows(g, texture_height);
    let tw = g.tile_width as int;
    let th = g.tile_height as int;
    let m = g.margin as int;
    let s = g.spacing as int;
    let sx = tw + s;
    let sy = th + s;

    // The column count times the horizontal stride never exceeds the
    // formula's numerator.
    lemma_fundamental_div_mod(texture_width - m + s, sx);
    lemma_mod_bound(texture_width - m + s, sx);
    assert(cols * sx <= texture_width - m + s);

    let col = tile_id as int % cols;
    lemma_mod_bound(tile_id as int, cols);
    assert(col + 1 <= cols);
    lemma_mul_inequality(col + 1, cols, tw);
    assert((col + 1) * tw == col * tw + tw) by (nonlinear_arith);
    assert(cols * (tw + s) == cols * tw + cols * s) by (nonlinear_arith);
    assert(cols * s >= s) by (nonlinear_arith)
        requires
            cols >= 1,
            s >= 0,
    ;
    assert(col * tw + tw <= texture_width - m);

    // The row index stays below the row count taken from the true height.
    assert(rows >= 1) by (nonlinear_arith)
        requires
            cols * rows > tile_id as int,
            tile_id as int >= 0,
            cols >= 1,
    ;
    lemma_multiply_divide_lt(tile_id as int, cols, rows);
    let row = tile_id as int / cols;
    assert(row + 1 <= rows);

    lemma_fundamental_div_mod(texture_height - m + s, sy);
    lemma_mod_bound(texture_height - m + s, sy);
    assert(rows * sy <= texture_height - m + s);
    lemma_mul_inequality(row + 1, rows, th);
    assert((row + 1) * th == row * th + th) by (nonlinear_arith);
    assert(rows * (th + s) == rows * th + rows * s) by (nonlinear_arith);
    assert(rows * s >= s) by (nonlinear_arith)
        requires
            rows >= 1,
            s >= 0,
    ;
    assert(row * th + th <= texture_height - m);
}

/// Resolves a tile id with an explicit range check against the sheet's true
/// height: `Some` exactly when the id lies in `[0, tiles_per_row * rows)`,
/// and then the rectangle lies fully inside the texture.
pub fn resolve_checked(
    tile_id: u32,
    g: &TilesetGeometry,
    texture_width: u32,
    texture_height: u32,
) -> (r: Option<PixelRect>)
    requires
        sheet_ok(*g, texture_width, texture_height),
    ensures
        r is Some <==> tile_id < spec_tiles_per_row(*g, texture_width) * spec_rows(
            *g,
            texture_height,
        ),
        r matches Some(rect) ==> {
            &&& rect.x == (tile_id as int % spec_tiles_per_row(*g, texture_width)) * g.tile_width
            &&& rect.y == (tile_id as int / spec_tiles_per_row(*g, texture_width)) * g.tile_height
            &&& rect.w == g.tile_width
            &&& rect.h == g.tile_height
            &&& rect.x + rect.w <= texture_width
            &&& rect.y + rect.h <= texture_height
        },
{
    let cols: u32 = tiles_per_row(g, texture_width);
    let rows: u32 = rows_in_sheet(g, texture_height);
    proof {
        assert(cols as int * rows as int <= u32::MAX as int * u32::MAX as int)
            by (nonlinear_arith)
            requires
                cols as int <= u32::MAX as int,
                rows as int <= u32::MAX as int,
                cols as int >= 0,
                rows as int >= 0,
        ;
    }
    if (tile_id as u64) < cols as u64 * rows as u64 {
        proof {
            lemma_resolve_in_bounds(tile_id, *g, texture_width, texture_height);
        }
        Some(resolve(tile_id, g, texture_width))
    } else {
        None
    }
}

} // verus!
