use tetrotime::board::FallState;
use tetrotime::color::Rgb;
use tetrotime::digitboard::DigitBoard;
use tetrotime::digits::{digit_animation_exec, Digit};
use tetrotime::geometry::{Rotation, Shape};
use tetrotime::surface::canvas_new;

#[test]
fn fresh_digit_board_is_idle() {
    let d = DigitBoard::new(0, Digit::Zero);
    assert_eq!(d.piece_count(), 0);
    assert_eq!(d.cursor_value(), 0);
    assert_eq!(d.ticks_value(), 0);
    assert_eq!(d.script_len(), digit_animation_exec(Digit::Zero).len());
}

#[test]
fn first_piece_spawns_on_the_fifth_tick() {
    let canvas = canvas_new(10, 30, Rgb::black());
    let mut d = DigitBoard::new(0, Digit::Zero);
    for tick in 1..=4 {
        d.update(&canvas);
        assert_eq!(d.piece_count(), 0, "no spawn expected on tick {tick}");
    }
    d.update(&canvas);
    assert_eq!(d.piece_count(), 1);
    assert_eq!(d.cursor_value(), 1);
}

#[test]
fn spawns_follow_the_catalog_order_one_per_interval() {
    let canvas = canvas_new(12, 40, Rgb::black());
    let mut d = DigitBoard::new(0, Digit::Zero);
    let script = digit_animation_exec(Digit::Zero);

    let mut seen = 0usize;
    for _ in 0..40 {
        let before = d.piece_count();
        d.update(&canvas);
        let after = d.piece_count();
        assert!(after == before || after == before + 1, "at most one spawn per tick");
        if after == before + 1 {
            seen += 1;
        }
    }
    // Six descriptors, first on tick 5, then one every four ticks: all six
    // have spawned by tick 25, and no further pieces appear.
    assert_eq!(seen, script.len());
    assert_eq!(d.piece_count(), script.len());
    for (i, descriptor) in script.iter().enumerate() {
        let piece = d.piece_at(i);
        assert_eq!(piece.shape, descriptor.shape, "piece {i} out of catalog order");
        assert_eq!(piece.rotation, descriptor.rotation);
        assert_eq!(piece.x, descriptor.dx);
    }
}

#[test]
fn spawn_ticks_are_four_apart() {
    let canvas = canvas_new(12, 40, Rgb::black());
    let mut d = DigitBoard::new(0, Digit::Zero);
    let mut spawn_ticks: Vec<usize> = Vec::new();
    for tick in 1..=30 {
        let before = d.piece_count();
        d.update(&canvas);
        if d.piece_count() > before {
            spawn_ticks.push(tick);
        }
    }
    assert_eq!(spawn_ticks, vec![5, 9, 13, 17, 21, 25]);
}

#[test]
fn set_digit_retires_the_old_glyph_and_restarts_the_script() {
    let canvas = canvas_new(10, 30, Rgb::black());
    let mut d = DigitBoard::new(0, Digit::Zero);
    for _ in 0..6 {
        d.update(&canvas);
    }
    assert_eq!(d.piece_count(), 1);
    assert!(matches!(d.piece_at(0).fall, FallState::In));

    d.set_digit(Digit::One);
    assert_eq!(d.cursor_value(), 0);
    assert_eq!(d.ticks_value(), 0);
    assert_eq!(d.piece_count(), 1);
    assert!(matches!(d.piece_at(0).fall, FallState::Out));
    assert_eq!(d.script_len(), digit_animation_exec(Digit::One).len());

    // The spawn delay starts over: nothing spawns for four ticks, the first
    // piece of the new digit appears on the fifth.
    for tick in 1..=4 {
        d.update(&canvas);
        assert_eq!(d.piece_count(), 1, "no spawn expected on tick {tick}");
    }
    d.update(&canvas);
    assert_eq!(d.piece_count(), 2);
    let spawned = d.piece_at(1);
    assert_eq!(spawned.shape, Shape::I);
    assert!(matches!(spawned.rotation, Rotation::Degrees90));
    assert_eq!(spawned.x, 4);
    // Spawned at the top, then stepped once within the same tick.
    assert_eq!(spawned.y, 1);
}

#[test]
fn injected_color_reaches_the_spawned_piece() {
    let canvas = canvas_new(10, 30, Rgb::black());
    let mut d = DigitBoard::new(2, Digit::One);
    for _ in 0..4 {
        d.update_with_color(&canvas, Rgb::new(1, 1, 1));
    }
    d.update_with_color(&canvas, Rgb::new(123, 45, 67));
    assert_eq!(d.piece_count(), 1);
    assert_eq!(d.piece_at(0).color, Rgb::new(123, 45, 67));
    // The offset shifts the descriptor's column.
    assert_eq!(d.piece_at(0).x, 2 + 4);
}

#[test]
fn exhausted_script_spawns_nothing_more() {
    let canvas = canvas_new(10, 40, Rgb::black());
    let mut d = DigitBoard::new(0, Digit::One);
    for _ in 0..40 {
        d.update(&canvas);
    }
    let script_len = digit_animation_exec(Digit::One).len();
    assert_eq!(d.piece_count(), script_len);
    assert_eq!(d.cursor_value(), script_len);
    for _ in 0..10 {
        d.update(&canvas);
    }
    assert_eq!(d.piece_count(), script_len);
}
