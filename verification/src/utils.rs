//! Small text helpers shared by the analysis: string comparison, decimal
//! rendering of numbers, and the `[file:line:col] message` location format.

use vstd::prelude::*;

verus! {

/// True iff the two strings hold the same characters.
pub fn text_eq(a: &str, b: &str) -> (r: bool)
    ensures
        r == (a@ == b@),
{
    let sa: String = a.to_owned();
    let sb: String = b.to_owned();
    sa == sb
}

/// The decimal digit `d` (0 to 9) as a one-character string.
pub open spec fn spec_digit(d: int) -> Seq<char> {
    if d == 0 {
        "0"@
    } else if d == 1 {
        "1"@
    } else if d == 2 {
        "2"@
    } else if d == 3 {
        "3"@
    } else if d == 4 {
        "4"@
    } else if d == 5 {
        "5"@
    } else if d == 6 {
        "6"@
    } else if d == 7 {
        "7"@
    } else if d == 8 {
        "8"@
    } else {
        "9"@
    }
}

/// The usual decimal rendering of the non-negative number `n`, most
/// significant digit first and without leading zeros (`0` renders as "0").
pub open spec fn spec_decimal(n: int) -> Seq<char>
    decreases n,
{
    if n < 10 {
        spec_digit(n)
    } else {
        spec_decimal(n / 10) + spec_digit(n % 10)
    }
}

fn digit_str(d: usize) -> (r: &'static str)
    requires
        d < 10,
    ensures
        r@ == spec_digit(d as int),
{
    match d {
        0 => "0",
        1 => "1",
        2 => "2",
        3 => "3",
        4 => "4",
        5 => "5",
        6 => "6",
        7 => "7",
        8 => "8",
        _ => "9",
    }
}

/// Renders `n` in decimal.
pub fn usize_to_decimal(n: usize) -> (r: String)
    ensures
        r@ == spec_decimal(n as int),
    decreases n,
{
    if n < 10 {
        String::from_str(digit_str(n))
    } else {
        let mut r = usize_to_decimal(n / 10);
        r.append(digit_str(n % 10));
        r
    }
}

/// The location-prefixed form of a message: `[file:line:col] message`.
pub open spec fn spec_location_message(
    file: Seq<char>,
    line: int,
    column: int,
    message: Seq<char>,
) -> Seq<char> {
    "["@ + file + ":"@ + spec_decimal(line) + ":"@ + spec_decimal(column) + "] "@ + message
}

/// Formats a message with its source location, as shown to a person reading
/// plain-text output.
pub fn format_location_message(file: &str, line: usize, column: usize, message: &str) -> (r: String)
    ensures
        r@ == spec_location_message(file@, line as int, column as int, message@),
{
    let mut r = String::from_str("[");
    r.append(file);
    r.append(":");
    let line_text = usize_to_decimal(line);
    r.append(line_text.as_str());
    r.append(":");
    let column_text = usize_to_decimal(column);
    r.append(column_text.as_str());
    r.append("] ");
    r.append(message);
    r
}

} // verus!
