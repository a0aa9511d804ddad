use tetrotime::color::Rgb;
use tetrotime::surface::{
    canvas_cell_is_free, canvas_clear, canvas_fill_rect, canvas_height, canvas_new,
    canvas_pixel_at, canvas_width,
};

#[test]
fn new_canvas_reports_its_size_and_background() {
    let c = canvas_new(7, 5, Rgb::new(1, 2, 3));
    assert_eq!(canvas_width(&c), 7);
    assert_eq!(canvas_height(&c), 5);
    assert_eq!(canvas_pixel_at(&c, 0, 0), Some((1, 2, 3, 255)));
    assert_eq!(canvas_pixel_at(&c, 6, 4), Some((1, 2, 3, 255)));
    assert_eq!(canvas_pixel_at(&c, 7, 0), None);
    assert_eq!(canvas_pixel_at(&c, 0, 5), None);
    assert_eq!(canvas_pixel_at(&c, -1, 0), None);
}

#[test]
fn fill_rect_paints_the_clipped_region() {
    let mut c = canvas_new(8, 8, Rgb::black());
    canvas_fill_rect(&mut c, 2, 3, 3, 2, Rgb::new(10, 20, 30));
    for y in 0..8i64 {
        for x in 0..8i64 {
            let expected = if (2..5).contains(&x) && (3..5).contains(&y) {
                (10, 20, 30, 255)
            } else {
                (0, 0, 0, 255)
            };
            assert_eq!(canvas_pixel_at(&c, x, y), Some(expected), "cell ({x}, {y})");
        }
    }
}

#[test]
fn fill_rect_stops_short_of_the_far_edges() {
    // The backend's clipping cuts a rectangle one cell short of the right
    // and bottom canvas edges.
    let mut c = canvas_new(4, 4, Rgb::black());
    canvas_fill_rect(&mut c, 0, 0, 4, 4, Rgb::new(5, 5, 5));
    assert_eq!(canvas_pixel_at(&c, 2, 2), Some((5, 5, 5, 255)));
    assert_eq!(canvas_pixel_at(&c, 3, 1), Some((0, 0, 0, 255)));
    assert_eq!(canvas_pixel_at(&c, 1, 3), Some((0, 0, 0, 255)));
    assert_eq!(canvas_pixel_at(&c, 3, 3), Some((0, 0, 0, 255)));
}

#[test]
fn fill_rect_clips_negative_corners() {
    let mut c = canvas_new(6, 6, Rgb::black());
    canvas_fill_rect(&mut c, -1, -2, 3, 4, Rgb::new(9, 9, 9));
    assert_eq!(canvas_pixel_at(&c, 0, 0), Some((9, 9, 9, 255)));
    assert_eq!(canvas_pixel_at(&c, 1, 1), Some((9, 9, 9, 255)));
    assert_eq!(canvas_pixel_at(&c, 2, 0), Some((0, 0, 0, 255)));
    assert_eq!(canvas_pixel_at(&c, 0, 2), Some((0, 0, 0, 255)));
}

#[test]
fn fill_rect_entirely_outside_changes_nothing() {
    let mut c = canvas_new(5, 5, Rgb::new(1, 1, 1));
    canvas_fill_rect(&mut c, 5, 0, 2, 2, Rgb::new(7, 7, 7));
    canvas_fill_rect(&mut c, 0, -2, 2, 2, Rgb::new(7, 7, 7));
    for y in 0..5i64 {
        for x in 0..5i64 {
            assert_eq!(canvas_pixel_at(&c, x, y), Some((1, 1, 1, 255)));
        }
    }
}

#[test]
fn cell_is_free_on_background_occupied_on_paint() {
    let mut c = canvas_new(6, 6, Rgb::black());
    assert!(canvas_cell_is_free(&c, 2, 2, Rgb::black()));
    canvas_fill_rect(&mut c, 2, 2, 1, 1, Rgb::new(200, 0, 0));
    assert!(!canvas_cell_is_free(&c, 2, 2, Rgb::black()));
    canvas_fill_rect(&mut c, 2, 2, 1, 1, Rgb::black());
    assert!(canvas_cell_is_free(&c, 2, 2, Rgb::black()));
}

#[test]
fn cells_outside_the_canvas_count_as_free() {
    let c = canvas_new(6, 6, Rgb::new(50, 50, 50));
    assert!(canvas_cell_is_free(&c, -1, 0, Rgb::black()));
    assert!(canvas_cell_is_free(&c, 0, -1, Rgb::black()));
    assert!(canvas_cell_is_free(&c, 6, 0, Rgb::black()));
    assert!(canvas_cell_is_free(&c, 0, 6, Rgb::black()));
    assert!(!canvas_cell_is_free(&c, 0, 0, Rgb::black()));
}

#[test]
fn clear_repaints_all_but_the_far_edges() {
    let mut c = canvas_new(4, 4, Rgb::new(8, 8, 8));
    canvas_clear(&mut c, Rgb::black());
    assert_eq!(canvas_pixel_at(&c, 0, 0), Some((0, 0, 0, 255)));
    assert_eq!(canvas_pixel_at(&c, 2, 2), Some((0, 0, 0, 255)));
    assert_eq!(canvas_pixel_at(&c, 3, 0), Some((8, 8, 8, 255)));
    assert_eq!(canvas_pixel_at(&c, 0, 3), Some((8, 8, 8, 255)));
}
