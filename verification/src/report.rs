//! The text of the reports on the counters of the mediator, of its cache and
//! of its transaction buffer.
use vstd::prelude::*;

verus! {

/// The character of a decimal digit.
pub open spec fn digit_char(digit: nat) -> char {
    if digit == 0 {
        '0'
    } else if digit == 1 {
        '1'
    } else if digit == 2 {
        '2'
    } else if digit == 3 {
        '3'
    } else if digit == 4 {
        '4'
    } else if digit == 5 {
        '5'
    } else if digit == 6 {
        '6'
    } else if digit == 7 {
        '7'
    } else if digit == 8 {
        '8'
    } else {
        '9'
    }
}

/// The decimal digits of a number, without leading zeros.
pub open spec fn decimal(n: nat) -> Seq<char>
    decreases n,
{
    if n < 10 {
        seq![digit_char(n)]
    } else {
        decimal(n / 10).push(digit_char(n % 10))
    }
}

/// A line of a report: a label, a number, and what follows the number.
pub open spec fn entry(label: Seq<char>, value: u64, end: Seq<char>) -> Seq<char> {
    label + decimal(value as nat) + end
}

/// What stands before the first counter of the report on the store.
pub const COUNTS_HEAD: &'static str =
    "\n===================================================\n============ Database operation counts ============\n===================================================\n    SET ";

/// What stands before the first time of the report on the store.
pub const TIMING_HEAD: &'static str =
    "===================================================\n============ Database operation timing ============\n===================================================\n    TIME READ ";

/// The text of a decimal digit.
fn digit_text(digit: u64) -> (text: &'static str)
    requires
        digit < 10,
    ensures
        text@ == seq![digit_char(digit as nat)],
{
    proof {
        reveal_strlit("0");
        reveal_strlit("1");
        reveal_strlit("2");
        reveal_strlit("3");
        reveal_strlit("4");
        reveal_strlit("5");
        reveal_strlit("6");
        reveal_strlit("7");
        reveal_strlit("8");
        reveal_strlit("9");
    }
    let text = if digit == 0 {
        "0"
    } else if digit == 1 {
        "1"
    } else if digit == 2 {
        "2"
    } else if digit == 3 {
        "3"
    } else if digit == 4 {
        "4"
    } else if digit == 5 {
        "5"
    } else if digit == 6 {
        "6"
    } else if digit == 7 {
        "7"
    } else if digit == 8 {
        "8"
    } else {
        "9"
    };
    text
}

/// Writes the decimal digits of a number at the end of a text.
pub fn push_decimal(text: &mut String, n: u64)
    ensures
        final(text)@ == old(text)@ + decimal(n as nat),
    decreases n,
{
    if n < 10 {
        text.append(digit_text(n));
    } else {
        push_decimal(text, n / 10);
        text.append(digit_text(n % 10));
    }
}

/// Writes a line of a report at the end of a text.
pub fn push_entry(text: &mut String, label: &str, value: u64, end: &str)
    ensures
        final(text)@ == old(text)@ + entry(label@, value, end@),
{
    text.append(label);
    push_decimal(text, value);
    text.append(end);
}

} // verus!
