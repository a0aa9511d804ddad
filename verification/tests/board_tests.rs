use tetrotime::board::{would_tetromino_collide_with_canvas, Board, FallState, Tetromino};
use tetrotime::color::Rgb;
use tetrotime::geometry::{Rotation, Shape};
use tetrotime::surface::{canvas_fill_rect, canvas_new, canvas_pixel_at};

#[test]
fn o_piece_descends_then_holds_at_the_target_row() {
    // Canvas 20 cells tall; the default target row is 20.
    let canvas = canvas_new(10, 20, Rgb::black());
    let mut board = Board::new();
    board.add_tetromino(0, 0, Rgb::new(1, 2, 3), Shape::O, Rotation::NoRotation);

    board.update(&canvas);
    assert_eq!(board.piece_count(), 1);
    assert_eq!(board.piece_at(0).y, 1);
    assert!(matches!(board.piece_at(0).fall, FallState::In));

    for _ in 0..19 {
        board.update(&canvas);
    }
    assert_eq!(board.piece_at(0).y, 20);
    assert!(matches!(board.piece_at(0).fall, FallState::Hold));

    for _ in 0..7 {
        board.update(&canvas);
    }
    assert_eq!(board.piece_at(0).y, 20);
    assert_eq!(board.piece_at(0).x, 0);
    assert!(matches!(board.piece_at(0).fall, FallState::Hold));
}

#[test]
fn sideways_i_collides_exactly_when_the_cell_below_is_occupied() {
    let mut canvas = canvas_new(10, 10, Rgb::black());
    let piece = Tetromino {
        shape: Shape::I,
        rotation: Rotation::Degrees90,
        x: 3,
        y: 5,
        color: Rgb::new(1, 1, 1),
        fall: FallState::In,
    };
    assert!(!would_tetromino_collide_with_canvas(&piece, &canvas));

    canvas_fill_rect(&mut canvas, 3, 5, 1, 1, Rgb::new(100, 100, 100));
    assert!(would_tetromino_collide_with_canvas(&piece, &canvas));

    canvas_fill_rect(&mut canvas, 3, 5, 1, 1, Rgb::black());
    assert!(!would_tetromino_collide_with_canvas(&piece, &canvas));
}

#[test]
fn probes_below_the_bottom_edge_do_not_collide() {
    let canvas = canvas_new(10, 10, Rgb::black());
    let piece = Tetromino {
        shape: Shape::I,
        rotation: Rotation::Degrees90,
        x: 3,
        y: 10,
        color: Rgb::new(1, 1, 1),
        fall: FallState::Out,
    };
    assert!(!would_tetromino_collide_with_canvas(&piece, &canvas));
}

#[test]
fn blocked_piece_keeps_its_row_and_never_rises() {
    let mut canvas = canvas_new(10, 12, Rgb::black());
    // Occupy the whole row below the piece's landing path.
    canvas_fill_rect(&mut canvas, 0, 6, 9, 1, Rgb::new(77, 77, 77));
    let mut board = Board::new();
    board.add_tetromino(2, 3, Rgb::new(1, 2, 3), Shape::O, Rotation::NoRotation);

    let mut last_y = 3;
    for _ in 0..10 {
        board.update(&canvas);
        let y = board.piece_at(0).y;
        assert!(y >= last_y, "descent must be monotone");
        last_y = y;
    }
    // The probe row 6 is occupied, so the piece parks with its anchor at 6
    // (its bottom row at 5) and stays in the entering phase: it never
    // reached the target row.
    assert_eq!(board.piece_at(0).y, 6);
    assert!(matches!(board.piece_at(0).fall, FallState::In));
}

#[test]
fn fall_out_flips_every_piece_and_empties_the_board() {
    let canvas = canvas_new(10, 20, Rgb::black());
    let mut board = Board::new();
    board.add_tetromino(0, 0, Rgb::new(1, 2, 3), Shape::O, Rotation::NoRotation);
    board.add_tetromino(4, 0, Rgb::new(4, 5, 6), Shape::I, Rotation::Degrees90);

    for _ in 0..20 {
        board.update(&canvas);
    }
    assert!(matches!(board.piece_at(0).fall, FallState::Hold));
    assert!(matches!(board.piece_at(1).fall, FallState::Hold));

    board.initiate_fall_out();
    assert!(matches!(board.piece_at(0).fall, FallState::Out));
    assert!(matches!(board.piece_at(1).fall, FallState::Out));

    // From row 20, a piece exceeds the removal limit (height 20 plus margin
    // 4) on its fifth unobstructed tick.
    for tick in 1..=4 {
        board.update(&canvas);
        assert_eq!(board.piece_count(), 2, "still falling after tick {tick}");
        assert_eq!(board.piece_at(0).y, 20 + tick);
    }
    board.update(&canvas);
    assert_eq!(board.piece_count(), 0);
}

#[test]
fn render_paints_the_piece_footprint_with_its_color() {
    let mut canvas = canvas_new(8, 8, Rgb::black());
    let mut board = Board::new();
    board.add_tetromino(2, 3, Rgb::new(9, 8, 7), Shape::O, Rotation::NoRotation);
    board.render(&mut canvas);
    for y in 0..8i64 {
        for x in 0..8i64 {
            let expected = if (2..4).contains(&x) && (1..3).contains(&y) {
                (9, 8, 7, 255)
            } else {
                (0, 0, 0, 255)
            };
            assert_eq!(canvas_pixel_at(&canvas, x, y), Some(expected), "cell ({x}, {y})");
        }
    }
}

#[test]
fn render_paints_later_pieces_over_earlier_ones() {
    let mut canvas = canvas_new(8, 8, Rgb::black());
    let mut board = Board::new();
    board.add_tetromino(2, 3, Rgb::new(10, 0, 0), Shape::O, Rotation::NoRotation);
    board.add_tetromino(3, 3, Rgb::new(0, 10, 0), Shape::O, Rotation::NoRotation);
    board.render(&mut canvas);
    assert_eq!(canvas_pixel_at(&canvas, 2, 2), Some((10, 0, 0, 255)));
    assert_eq!(canvas_pixel_at(&canvas, 3, 2), Some((0, 10, 0, 255)));
    assert_eq!(canvas_pixel_at(&canvas, 4, 2), Some((0, 10, 0, 255)));
}

#[test]
fn update_on_an_empty_board_does_nothing() {
    let canvas = canvas_new(10, 10, Rgb::black());
    let mut board = Board::new();
    board.update(&canvas);
    assert_eq!(board.piece_count(), 0);
}

#[test]
fn pieces_stack_on_a_previously_rendered_piece() {
    // Collision is tested against the previously rendered frame: a piece
    // resting at the target row blocks the next piece's descent.
    let mut canvas = canvas_new(10, 20, Rgb::black());
    let mut board = Board::with_virtual_y_stop(18);
    board.add_tetromino(2, 0, Rgb::new(5, 5, 5), Shape::O, Rotation::NoRotation);
    for _ in 0..18 {
        board.update(&canvas);
    }
    assert_eq!(board.piece_at(0).y, 18);
    assert!(matches!(board.piece_at(0).fall, FallState::Hold));
    board.render(&mut canvas);

    board.add_tetromino(2, 0, Rgb::new(6, 6, 6), Shape::O, Rotation::NoRotation);
    for _ in 0..20 {
        board.update(&canvas);
    }
    // The first piece fills rows 16 and 17 at columns 2 and 3; the second
    // piece's probes hit row 16, so it parks with its anchor at row 16 and
    // its bottom row resting directly on the first piece.
    assert_eq!(board.piece_at(1).y, 16);
    assert!(matches!(board.piece_at(1).fall, FallState::In));
}
