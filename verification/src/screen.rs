//! The control sequences that the selector sends to the terminal.

use vstd::prelude::*;
use vstd::string::StringExecFns;

verus! {

/// The sequence that erases the line from the cursor to its end.
pub open spec fn clear_line_end_seq() -> Seq<char> {
    "\x1B[K"@
}

/// The sequence that erases the whole screen.
pub open spec fn clear_all_seq() -> Seq<char> {
    "\x1B[2J"@
}

/// The sequence that puts the cursor into the top left corner.
pub open spec fn cursor_home_seq() -> Seq<char> {
    "\x1B[1;1H"@
}

/// What termion's `clear::UntilNewline` displays as: the escape character,
/// an opening square bracket and the letter `K`.
#[verifier::external_body]
pub(crate) fn clear_line_end() -> (s: String)
    ensures
        s@ == clear_line_end_seq(),
{
    format!("{}", termion::clear::UntilNewline)
}

/// What termion's `clear::All` displays as: the escape character, an
/// opening square bracket, the digit 2 and the letter `J`.
#[verifier::external_body]
pub(crate) fn clear_all() -> (s: String)
    ensures
        s@ == clear_all_seq(),
{
    format!("{}", termion::clear::All)
}

/// What termion's `cursor::Goto` displays as for its default, the first
/// column of the first row: the escape character, an opening square
/// bracket, `1;1` and the letter `H`.
#[verifier::external_body]
pub(crate) fn cursor_home() -> (s: String)
    ensures
        s@ == cursor_home_seq(),
{
    format!("{}", termion::cursor::Goto::default())
}

/// What is written once, before the first frame.
pub open spec fn opening_seq() -> Seq<char> {
    clear_all_seq()
}

/// What is written before the terminal is given up to a checkout.
pub open spec fn handover_seq() -> Seq<char> {
    clear_all_seq() + cursor_home_seq()
}

/// The text that opens the screen: it is erased once, and never again
/// between frames, so that the picture does not flicker.
pub fn opening_text() -> (text: String)
    ensures
        text@ == opening_seq(),
{
    clear_all()
}

/// The text that leaves the screen to a checkout: it is erased, and the
/// cursor goes to the top left corner.
pub fn handover_text() -> (text: String)
    ensures
        text@ == handover_seq(),
{
    let mut text = clear_all();
    let home = cursor_home();
    text.append(home.as_str());
    text
}

} // verus!
