//! The ANSI escape sequences the renderer writes, obtained from termion and
//! pinned down exactly: a cleared screen tail and relative cursor movement.

use vstd::prelude::*;

verus! {

/// The decimal digit character for `n < 10`.
pub open spec fn digit_char(n: nat) -> char {
    if n == 0 {
        '0'
    } else if n == 1 {
        '1'
    } else if n == 2 {
        '2'
    } else if n == 3 {
        '3'
    } else if n == 4 {
        '4'
    } else if n == 5 {
        '5'
    } else if n == 6 {
        '6'
    } else if n == 7 {
        '7'
    } else if n == 8 {
        '8'
    } else {
        '9'
    }
}

/// The decimal digits of `n`, most significant first, without leading zeros,
/// as the standard formatter writes an unsigned integer.
pub open spec fn dec_digits(n: nat) -> Seq<char>
    decreases n,
{
    if n < 10 {
        seq![digit_char(n)]
    } else {
        dec_digits(n / 10).push(digit_char(n % 10))
    }
}

/// ESC `[` `J`: clear from the cursor to the end of the screen.
pub open spec fn clear_after_model() -> Seq<char> {
    "\u{1b}[J"@
}

/// ESC `[` n `A`: move the cursor up `n` lines.
pub open spec fn cursor_up_model(n: u16) -> Seq<char> {
    "\u{1b}["@ + dec_digits(n as nat) + "A"@
}

/// ESC `[` n `C`: move the cursor right `n` columns.
pub open spec fn cursor_right_model(n: u16) -> Seq<char> {
    "\u{1b}["@ + dec_digits(n as nat) + "C"@
}

/// Relies on `termion::clear::AfterCursor`: its text is the CSI sequence
/// ESC `[` `J`.
#[verifier::external_body]
pub fn term_clear_after() -> (r: String)
    ensures
        r@ == clear_after_model(),
{
    termion::clear::AfterCursor.to_string()
}

/// Relies on `termion::cursor::Up`: its text is ESC `[`, the count in
/// decimal, then `A`.
#[verifier::external_body]
pub fn term_cursor_up(n: u16) -> (r: String)
    ensures
        r@ == cursor_up_model(n),
{
    termion::cursor::Up(n).to_string()
}

/// Relies on `termion::cursor::Right`: its text is ESC `[`, the count in
/// decimal, then `C`.
#[verifier::external_body]
pub fn term_cursor_right(n: u16) -> (r: String)
    ensures
        r@ == cursor_right_model(n),
{
    termion::cursor::Right(n).to_string()
}

} // verus!
