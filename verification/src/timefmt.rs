//! Turning time values into digit sequences for the display.
//!
//! The clock's surrounding loop samples a time source and hands this crate a
//! digit string (hours, minutes, seconds, two characters each) or an elapsed
//! number of seconds; here those become `Digit` values, one per display
//! position.

use vstd::prelude::*;
use crate::digits::Digit;

verus! {

/// The decimal digits of `n`, left-padded with zeros to at least `width`
/// places.
pub open spec fn dec_digit_seq(n: int, width: int) -> Seq<int>
    decreases n + width when n >= 0 && width >= 1
{
    if n <= 9 && width <= 1 {
        seq![n]
    } else {
        dec_digit_seq(n / 10, if width <= 1 { 1 } else { width - 1 }).push(n % 10)
    }
}

/// The value of a digit, for mapping digit sequences to their numerals.
pub open spec fn digit_value(d: Digit) -> int {
    d.value_spec()
}

/// Appends the decimal digits of `n`, left-padded with zeros to at least
/// `width` places.
fn push_decimal(out: &mut Vec<Digit>, n: u64, width: u64)
    requires
        width >= 1,
    ensures
        final(out)@.map_values(|d: Digit| digit_value(d)) == old(out)@.map_values(
            |d: Digit| digit_value(d),
        ) + dec_digit_seq(n as int, width as int),
    decreases n + width,
{
    if n <= 9 && width <= 1 {
        out.push(Digit::from_value(n as u8));
        proof {
            assert(final(out)@.map_values(|d: Digit| digit_value(d)) =~= old(out)@.map_values(
                |d: Digit| digit_value(d),
            ) + dec_digit_seq(n as int, width as int));
        }
    } else {
        let rest: u64 = n % 10;
        push_decimal(out, n / 10, if width <= 1 { 1 } else { width - 1 });
        let ghost mid = out@;
        out.push(Digit::from_value(rest as u8));
        proof {
            assert(final(out)@.map_values(|d: Digit| digit_value(d)) =~= mid.map_values(
                |d: Digit| digit_value(d),
            ).push(n as int % 10));
            assert(final(out)@.map_values(|d: Digit| digit_value(d)) =~= old(out)@.map_values(
                |d: Digit| digit_value(d),
            ) + dec_digit_seq(n as int, width as int));
        }
    }
}

/// The digits a countdown or stopwatch shows after `total_seconds` seconds:
/// hours, minutes and seconds, each at least two places, hours growing
/// wider beyond ninety-nine. A negative remaining time shows as all zeros.
pub fn duration_to_digits(total_seconds: i64) -> (digits: Vec<Digit>)
    ensures
        total_seconds < 0 ==> digits@.map_values(|d: Digit| digit_value(d)) == dec_digit_seq(0, 2)
            + dec_digit_seq(0, 2) + dec_digit_seq(0, 2),
        total_seconds >= 0 ==> digits@.map_values(|d: Digit| digit_value(d)) == dec_digit_seq(
            total_seconds as int / 3600,
            2,
        ) + dec_digit_seq((total_seconds as int / 60) % 60, 2) + dec_digit_seq(
            total_seconds as int % 60,
            2,
        ),
{
    let mut digits: Vec<Digit> = Vec::new();
    if total_seconds < 0 {
        push_decimal(&mut digits, 0, 2);
        push_decimal(&mut digits, 0, 2);
        push_decimal(&mut digits, 0, 2);
    } else {
        let ts = total_seconds as u64;
        push_decimal(&mut digits, ts / 3600, 2);
        push_decimal(&mut digits, (ts / 60) % 60, 2);
        push_decimal(&mut digits, ts % 60, 2);
    }
    digits
}

/// Reads a string of decimal digit characters — a time string such as
/// hours, minutes and seconds run together — into one `Digit` per
/// character.
pub fn time_string_to_digits(time_string: &str) -> (digits: Vec<Digit>)
    requires
        forall|i: int| 0 <= i < time_string@.len() ==> 48 <= #[trigger] time_string@[i] as u32 <= 57,
    ensures
        digits@.len() == time_string@.len(),
        forall|i: int|
            0 <= i < time_string@.len() ==> digit_value(#[trigger] digits@[i]) == time_string@[i] as u32
                - 48,
{
    let n = time_string.unicode_len();
    let mut digits: Vec<Digit> = Vec::new();
    let mut i: usize = 0;
    while i < n
        invariant
            n == time_string@.len(),
            forall|j: int| 0 <= j < time_string@.len() ==> 48 <= #[trigger] time_string@[j] as u32 <= 57,
            0 <= i <= n,
            digits@.len() == i,
            forall|j: int|
                0 <= j < i ==> digit_value(#[trigger] digits@[j]) == time_string@[j] as u32 - 48,
        decreases n - i,
    {
        let c = time_string.get_char(i);
        let v: u32 = c as u32;
        digits.push(Digit::from_value((v - 48) as u8));
        i = i + 1;
    }
    digits
}

} // verus!
