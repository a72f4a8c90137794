use tilescene::sheet::{
    resolve, resolve_checked, tiles_per_row, validate_geometry, validate_sheet, GeometryError,
    TilesetGeometry,
};

fn plain_16px() -> TilesetGeometry {
    TilesetGeometry { tile_width: 16, tile_height: 16, margin: 0, spacing: 0 }
}

fn spaced_16px() -> TilesetGeometry {
    TilesetGeometry { tile_width: 16, tile_height: 16, margin: 1, spacing: 1 }
}

#[test]
fn tiles_per_row_plain_128_wide_is_8() {
    let g = plain_16px();
    assert_eq!(validate_geometry(&g, 128), Ok(8));
    assert_eq!(tiles_per_row(&g, 128), 8);
}

#[test]
fn tiles_per_row_with_margin_and_spacing() {
    // (128 - 1 + 1) / (16 + 1) = 128 / 17 = 7
    let g = spaced_16px();
    assert_eq!(validate_geometry(&g, 128), Ok(7));
    assert_eq!(tiles_per_row(&g, 128), 7);
}

#[test]
fn resolve_wraps_to_second_row() {
    let g = plain_16px();
    // 8 columns: id 9 is column 1 of row 1.
    let r = resolve(9, &g, 128);
    assert_eq!((r.x, r.y, r.w, r.h), (16, 16, 16, 16));
}

#[test]
fn resolve_first_and_last_of_first_row() {
    let g = plain_16px();
    let first = resolve(0, &g, 128);
    assert_eq!((first.x, first.y), (0, 0));
    let last = resolve(7, &g, 128);
    assert_eq!((last.x, last.y), (112, 0));
    let wrapped = resolve(8, &g, 128);
    assert_eq!((wrapped.x, wrapped.y), (0, 16));
}

#[test]
fn resolve_ignores_margin_and_spacing_in_the_offset() {
    // 7 columns: id 8 is column 1 of row 1; the offset formula scales by the
    // bare tile size only.
    let g = spaced_16px();
    let r = resolve(8, &g, 128);
    assert_eq!((r.x, r.y, r.w, r.h), (16, 16, 16, 16));
}

#[test]
fn resolve_checked_accepts_ids_inside_the_sheet() {
    let g = plain_16px();
    assert_eq!(validate_sheet(&g, 128, 128), Ok(()));
    // 8 columns x 8 rows = 64 tiles.
    let r = resolve_checked(63, &g, 128, 128).expect("last id resolves");
    assert_eq!((r.x, r.y), (112, 112));
    assert!(r.x + r.w <= 128);
    assert!(r.y + r.h <= 128);
}

#[test]
fn resolve_checked_rejects_ids_past_the_bottom_edge() {
    let g = plain_16px();
    assert_eq!(resolve_checked(64, &g, 128, 128), None);
    assert_eq!(resolve_checked(u32::MAX, &g, 128, 128), None);
}

#[test]
fn zero_stride_geometry_is_rejected() {
    let g = TilesetGeometry { tile_width: 0, tile_height: 16, margin: 0, spacing: 0 };
    assert_eq!(validate_geometry(&g, 128), Err(GeometryError::ZeroStride));
}

#[test]
fn vertical_zero_stride_is_rejected() {
    let g = TilesetGeometry { tile_width: 16, tile_height: 0, margin: 0, spacing: 0 };
    assert_eq!(validate_sheet(&g, 128, 128), Err(GeometryError::ZeroStride));
}

#[test]
fn oversized_margin_is_rejected() {
    let g = TilesetGeometry { tile_width: 16, tile_height: 16, margin: 200, spacing: 0 };
    assert_eq!(validate_geometry(&g, 128), Err(GeometryError::MarginExceedsTexture));
}

#[test]
fn margin_over_height_alone_is_rejected() {
    let g = TilesetGeometry { tile_width: 16, tile_height: 16, margin: 100, spacing: 0 };
    assert_eq!(validate_sheet(&g, 128, 64), Err(GeometryError::MarginExceedsTexture));
}

#[test]
fn sheet_narrower_than_one_tile_yields_no_columns() {
    let g = plain_16px();
    assert_eq!(validate_geometry(&g, 8), Err(GeometryError::NoColumns));
}

#[test]
fn column_count_overflow_is_rejected() {
    let g = TilesetGeometry { tile_width: 0, tile_height: 16, margin: 0, spacing: 1 };
    assert_eq!(validate_geometry(&g, u32::MAX), Err(GeometryError::TooManyColumns));
}

#[test]
fn row_count_overflow_is_rejected() {
    let g = TilesetGeometry { tile_width: 16, tile_height: 0, margin: 0, spacing: 1 };
    assert_eq!(validate_sheet(&g, 128, u32::MAX), Err(GeometryError::TooManyRows));
}
