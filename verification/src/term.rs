//! Terminal control sequences, as termion writes them.

use vstd::prelude::*;
use vstd::string::*;

verus! {

/// The colours that the tuner's marker and label are drawn in.
#[derive(Clone, Copy, Debug, PartialEq, Eq, Structural)]
pub enum Tint {
    Green,
    Yellow,
    Red,
}

/// The sequence that erases the line the cursor is on.
pub open spec fn clear_line_code() -> Seq<char> {
    "\x1b[2K"@
}

/// The sequence that sets the foreground to the terminal's default colour.
pub open spec fn reset_code() -> Seq<char> {
    "\x1b[39m"@
}

/// The sequence that sets the foreground to `tint`.
pub open spec fn tint_code(tint: Tint) -> Seq<char> {
    match tint {
        Tint::Green => "\x1b[38;5;2m"@,
        Tint::Yellow => "\x1b[38;5;3m"@,
        Tint::Red => "\x1b[38;5;1m"@,
    }
}

/// Formats `termion::clear::CurrentLine`. Trusted: termion writes the control
/// sequence introducer followed by `2K`.
#[verifier::external_body]
pub(crate) fn clear_line() -> (code: String)
    ensures
        code@ == clear_line_code(),
{
    format!("{}", termion::clear::CurrentLine)
}

/// Formats `termion::color::Fg(termion::color::Reset)`. Trusted: termion
/// writes the control sequence introducer followed by `39m`.
#[verifier::external_body]
pub(crate) fn fg_reset() -> (code: String)
    ensures
        code@ == reset_code(),
{
    format!("{}", termion::color::Fg(termion::color::Reset))
}

/// Formats `termion::color::Fg(termion::color::Green)`. Trusted: termion
/// writes the introducer, `38;5;`, the palette number 2 and `m`.
#[verifier::external_body]
pub(crate) fn fg_green() -> (code: String)
    ensures
        code@ == tint_code(Tint::Green),
{
    format!("{}", termion::color::Fg(termion::color::Green))
}

/// Formats `termion::color::Fg(termion::color::Yellow)`. Trusted: termion
/// writes the introducer, `38;5;`, the palette number 3 and `m`.
#[verifier::external_body]
pub(crate) fn fg_yellow() -> (code: String)
    ensures
        code@ == tint_code(Tint::Yellow),
{
    format!("{}", termion::color::Fg(termion::color::Yellow))
}

/// Formats `termion::color::Fg(termion::color::Red)`. Trusted: termion
/// writes the introducer, `38;5;`, the palette number 1 and `m`.
#[verifier::external_body]
pub(crate) fn fg_red() -> (code: String)
    ensures
        code@ == tint_code(Tint::Red),
{
    format!("{}", termion::color::Fg(termion::color::Red))
}

/// The sequence that switches the foreground to `tint`.
pub fn fg_tint(tint: Tint) -> (code: String)
    ensures
        code@ == tint_code(tint),
{
    match tint {
        Tint::Green => fg_green(),
        Tint::Yellow => fg_yellow(),
        Tint::Red => fg_red(),
    }
}

/// What begins every frame: a carriage return and the sequence that erases
/// the line, so that the frame overwrites the last one.
pub open spec fn line_start() -> Seq<char> {
    "\r"@ + clear_line_code()
}

/// The text that begins every frame.
pub fn line_start_text() -> (out: String)
    ensures
        out@ == line_start(),
{
    let mut out = String::from_str("\r");
    let clear = clear_line();
    out.append(clear.as_str());
    out
}

} // verus!
