use tetrotime::digits::Digit;
use tetrotime::layout::{digit_x_positions, separator_x_positions, virtual_stop_row};
use tetrotime::timefmt::{duration_to_digits, time_string_to_digits};

fn values(digits: &[Digit]) -> Vec<u8> {
    digits.iter().map(|d| d.value()).collect()
}

#[test]
fn time_string_becomes_one_digit_per_character() {
    let digits = time_string_to_digits("123456");
    assert_eq!(values(&digits), vec![1, 2, 3, 4, 5, 6]);
}

#[test]
fn time_string_of_zeros() {
    let digits = time_string_to_digits("000000");
    assert_eq!(values(&digits), vec![0, 0, 0, 0, 0, 0]);
}

#[test]
fn empty_time_string_gives_no_digits() {
    assert_eq!(time_string_to_digits("").len(), 0);
}

#[test]
fn zero_duration_shows_all_zeros() {
    assert_eq!(values(&duration_to_digits(0)), vec![0, 0, 0, 0, 0, 0]);
}

#[test]
fn negative_duration_shows_all_zeros() {
    assert_eq!(values(&duration_to_digits(-5)), vec![0, 0, 0, 0, 0, 0]);
}

#[test]
fn one_hour_one_minute_one_second() {
    assert_eq!(values(&duration_to_digits(3661)), vec![0, 1, 0, 1, 0, 1]);
}

#[test]
fn just_under_a_hundred_hours() {
    // 99:59:59
    assert_eq!(values(&duration_to_digits(359999)), vec![9, 9, 5, 9, 5, 9]);
}

#[test]
fn hours_grow_past_two_places() {
    // 100:00:00 takes seven digits: the hour field widens past two places.
    assert_eq!(values(&duration_to_digits(360000)), vec![1, 0, 0, 0, 0, 0, 0]);
}

#[test]
fn digits_are_centered_on_a_wide_display() {
    let xs = digit_x_positions(80);
    assert_eq!(xs, vec![17, 25, 37, 45, 57, 65]);
    assert_eq!(separator_x_positions(80), vec![33, 53]);
}

#[test]
fn narrow_display_layout_goes_negative() {
    let xs = digit_x_positions(10);
    assert_eq!(xs[0], -18);
}

#[test]
fn stop_row_centers_the_glyph_block_vertically() {
    assert_eq!(virtual_stop_row(30), 20);
    assert_eq!(virtual_stop_row(20), 15);
}
