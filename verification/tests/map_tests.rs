use tarnished::map::MapLayer;

#[test]
fn point_to_index() {
    let map = MapLayer::new("foobar", (16, 16), 25, vec![0; 25 * 16]);
    assert_eq!(Some(0), map.point_to_index((0, 0)));
    assert_eq!(Some(1), map.point_to_index((1 * 16, 0)));
    assert_eq!(Some(2), map.point_to_index((2 * 16, 0)));
    assert_eq!(Some(25), map.point_to_index((0, 1 * 16)));
    assert_eq!(Some(50), map.point_to_index((0, 2 * 16)));
    assert_eq!(Some(0), map.point_to_index((0, 0)));
}

#[test]
fn width_works() {
    let map = MapLayer::new("foobar", (16, 16), 25, vec![0; 25 * 16]);
    assert_eq!(map.width(), 25);
}

#[test]
fn height_works() {
    let map = MapLayer::new("foobar", (16, 16), 25, vec![0; 25 * 16]);
    assert_eq!(map.height(), 16);
}

#[test]
fn get_px_returns_none_on_overflow() {
    let map = MapLayer::new("foobar", (16, 16), 25, vec![0; 25 * 16]);

    // Passing a very large value as y is likely to overflow when trying
    // to compute the index!
    assert_eq!(None, map._get_px((1, i32::MAX)));
}

#[test]
fn set_px_returns_err_on_overflow() {
    let mut map = MapLayer::new("foobar", (16, 16), 25, vec![0; 25 * 16]);
    assert_eq!(Err(()), map.set_px((1, i32::MAX), 0));
}

#[test]
fn set_px_then_get_px_round_trips() {
    let mut map = MapLayer::new("foobar", (16, 16), 25, vec![0; 25 * 16]);
    assert_eq!(Ok(()), map.set_px((33, 17), 9));
    assert_eq!(Some(9), map._get_px((33, 17)));
    assert_eq!(Some(0), map._get_px((0, 0)));
}

#[test]
fn negative_points_just_left_of_origin_land_in_column_zero() {
    // Truncating division sends -5 / 16 to 0, so a point barely off the
    // left edge still hits the first column.
    let map = MapLayer::new("foobar", (16, 16), 25, vec![0; 25 * 16]);
    assert_eq!(Some(0), map.point_to_index((-5, 0)));
    assert_eq!(None, map.point_to_index((-16, 0)));
}

#[test]
fn render_lays_tiles_in_a_grid() {
    let map = MapLayer::new("cotp", (16, 16), 2, vec![9, 8, 7]);
    let tiles = map.render();
    assert_eq!(tiles.len(), 3);
    assert_eq!(tiles[0].tileset, "cotp");
    assert_eq!(tiles[0].tile, 9);
    assert_eq!((tiles[0].x, tiles[0].y), (0, 0));
    assert_eq!(tiles[1].tile, 8);
    assert_eq!((tiles[1].x, tiles[1].y), (16, 0));
    assert_eq!(tiles[2].tile, 7);
    assert_eq!((tiles[2].x, tiles[2].y), (0, 16));
    assert_eq!((tiles[2].width, tiles[2].height), (16, 16));
}
