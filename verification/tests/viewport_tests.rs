use tilescene::viewport::compose;

#[test]
fn wide_window_pillarboxes_the_scene() {
    // zoom = min(1600/800, 600/600) = 1.0: the scene keeps its size,
    // centered with 400-pixel bars left and right and no vertical bars.
    let v = compose(800, 600, 1600, 600);
    assert_eq!((v.dest_width, v.dest_height), (800, 600));
    assert_eq!((v.dest_x, v.dest_y), (400, 0));
}

#[test]
fn tall_window_letterboxes_the_scene() {
    // zoom = min(800/800, 1200/600) = 1.0: 300-pixel bars above and below.
    let v = compose(800, 600, 800, 1200);
    assert_eq!((v.dest_width, v.dest_height), (800, 600));
    assert_eq!((v.dest_x, v.dest_y), (0, 300));
}

#[test]
fn matching_aspect_fills_the_window() {
    let v = compose(400, 300, 800, 600);
    assert_eq!((v.dest_width, v.dest_height), (800, 600));
    assert_eq!((v.dest_x, v.dest_y), (0, 0));
}

#[test]
fn smaller_window_scales_the_scene_down() {
    // zoom = min(400/800, 600/600) = 0.5, bounded by width.
    let v = compose(800, 600, 400, 600);
    assert_eq!((v.dest_width, v.dest_height), (400, 300));
    assert_eq!((v.dest_x, v.dest_y), (0, 150));
}

#[test]
fn odd_leftover_pixels_floor_toward_the_origin() {
    let v = compose(100, 100, 201, 200);
    assert_eq!((v.dest_width, v.dest_height), (200, 200));
    assert_eq!((v.dest_x, v.dest_y), (0, 0));
}

#[test]
fn destination_never_leaves_the_window() {
    for (sw, sh, ww, wh) in [
        (800u32, 600u32, 1u32, 1u32),
        (800, 600, 3000, 7),
        (1, 1, 999, 1000),
        (123, 457, 1024, 768),
    ] {
        let v = compose(sw, sh, ww, wh);
        assert!(v.dest_x + v.dest_width <= ww);
        assert!(v.dest_y + v.dest_height <= wh);
    }
}
