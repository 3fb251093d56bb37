//! Numbered greeting lines: a sequence number, a full stop, the greeting word
//! and the text that is greeted.

use vstd::prelude::*;

verus! {

/// The word that every greeting starts with, with the blank that follows it.
pub const GREETING: &'static str = "Hello ";

/// What stands between the sequence number and the greeting.
pub const AFTER_NUMBER: &'static str = ". ";

/// The character of one decimal digit.
pub open spec fn digit(d: nat) -> char
    recommends
        d < 10,
{
    if d == 0 {
        '0'
    } else if d == 1 {
        '1'
    } else if d == 2 {
        '2'
    } else if d == 3 {
        '3'
    } else if d == 4 {
        '4'
    } else if d == 5 {
        '5'
    } else if d == 6 {
        '6'
    } else if d == 7 {
        '7'
    } else if d == 8 {
        '8'
    } else {
        '9'
    }
}

/// A number in decimal notation, without leading zeros.
pub open spec fn decimal(n: nat) -> Seq<char>
    decreases n,
{
    if n < 10 {
        seq![digit(n)]
    } else {
        decimal(n / 10).push(digit(n % 10))
    }
}

/// A greeting line: the number, a full stop and a blank, the greeting, the text.
pub open spec fn numbered(number: nat, text: Seq<char>) -> Seq<char> {
    decimal(number) + AFTER_NUMBER@ + GREETING@ + text
}

fn digit_text(d: u32) -> (text: &'static str)
    requires
        d < 10,
    ensures
        text@ == seq![digit(d as nat)],
{
    proof {
        reveal_strlit("0");
        reveal_strlit("1");
        reveal_strlit("2");
        reveal_strlit("3");
        reveal_strlit("4");
        reveal_strlit("5");
        reveal_strlit("6");
        reveal_strlit("7");
        reveal_strlit("8");
        reveal_strlit("9");
    }
    let text = match d {
        0 => "0",
        1 => "1",
        2 => "2",
        3 => "3",
        4 => "4",
        5 => "5",
        6 => "6",
        7 => "7",
        8 => "8",
        _ => "9",
    };
    assert(text@ =~= seq![digit(d as nat)]);
    text
}

/// Writes a number in decimal notation.
pub fn decimal_text(n: u32) -> (text: String)
    ensures
        text@ == decimal(n as nat),
    decreases n,
{
    if n < 10 {
        digit_text(n).to_string()
    } else {
        let text = decimal_text(n / 10).concat(digit_text(n % 10));
        assert(text@ =~= decimal(n as nat));
        text
    }
}

/// Builds the greeting line with the given sequence number for the given text.
pub fn greeting_line(number: u32, text: &str) -> (line: String)
    ensures
        line@ == numbered(number as nat, text@),
{
    decimal_text(number).concat(AFTER_NUMBER).concat(GREETING).concat(text)
}

} // verus!
