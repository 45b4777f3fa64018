use down2earth::grid::{grid_height, grid_width, mosaic_dimensions, supports_zoom, tile_count,
    TileCoordinate, MAX_ZOOM, TILE_SIZE};

#[test]
fn zoom_zero_grid_is_two_by_one() {
    assert_eq!(grid_width(0), 2);
    assert_eq!(grid_height(0), 1);
    assert_eq!(tile_count(0), 2);
    assert_eq!(mosaic_dimensions(0), (512, 256));
}

#[test]
fn grid_doubles_with_each_zoom_level() {
    let mut columns: u32 = 2;
    let mut rows: u32 = 1;
    for zoom in 0..=MAX_ZOOM {
        assert_eq!(grid_width(zoom), columns);
        assert_eq!(grid_height(zoom), rows);
        assert_eq!(tile_count(zoom), 1u64 << (2 * zoom + 1));
        assert_eq!(mosaic_dimensions(zoom), (columns * TILE_SIZE, rows * TILE_SIZE));
        if zoom < MAX_ZOOM {
            columns *= 2;
            rows *= 2;
        }
    }
}

#[test]
fn zoom_two_has_thirty_two_tiles() {
    assert_eq!(grid_width(2), 8);
    assert_eq!(grid_height(2), 4);
    assert_eq!(tile_count(2), 32);
    assert_eq!(mosaic_dimensions(2), (2048, 1024));
}

#[test]
fn largest_zoom_still_has_u32_pixel_coordinates() {
    assert_eq!(mosaic_dimensions(MAX_ZOOM), (2_147_483_648, 1_073_741_824));
    assert_eq!(tile_count(MAX_ZOOM), 35_184_372_088_832);
}

#[test]
fn small_zoom_levels_are_supported() {
    for zoom in 0..=6 {
        assert!(supports_zoom(zoom));
    }
}

#[test]
fn zoom_beyond_the_maximum_is_not_supported() {
    assert!(!supports_zoom(MAX_ZOOM + 1));
    assert!(!supports_zoom(u32::MAX));
}

#[test]
fn tiles_are_visited_column_by_column() {
    let mut visited = vec![];
    let mut at = Some(TileCoordinate::first());
    while let Some(here) = at {
        visited.push((here.x, here.y));
        at = here.successor(1);
    }
    assert_eq!(visited, vec![(0, 0), (0, 1), (1, 0), (1, 1), (2, 0), (2, 1), (3, 0), (3, 1)]);
}

#[test]
fn visiting_order_at_zoom_zero() {
    let first = TileCoordinate::first();
    assert_eq!(first, TileCoordinate { x: 0, y: 0 });
    let second = first.successor(0);
    assert_eq!(second, Some(TileCoordinate { x: 1, y: 0 }));
    assert_eq!(second.unwrap().successor(0), None);
}

#[test]
fn every_tile_is_visited_once_at_zoom_two() {
    let mut count: u64 = 0;
    let mut at = Some(TileCoordinate::first());
    let mut seen = vec![false; 32];
    while let Some(here) = at {
        let slot = (here.x * 4 + here.y) as usize;
        assert!(!seen[slot]);
        seen[slot] = true;
        count += 1;
        at = here.successor(2);
    }
    assert_eq!(count, tile_count(2));
}

#[test]
fn pixel_offset_is_coordinate_times_tile_size() {
    assert_eq!(TileCoordinate { x: 0, y: 0 }.pixel_offset(0), (0, 0));
    assert_eq!(TileCoordinate { x: 1, y: 0 }.pixel_offset(0), (256, 0));
    assert_eq!(TileCoordinate { x: 7, y: 3 }.pixel_offset(2), (1792, 768));
}
