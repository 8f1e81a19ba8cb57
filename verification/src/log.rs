//! Terminal styling for the messages around a run.
//!
//! The styling itself comes from the `colorful` crate; each function
//! states exactly which escape sequence that crate wraps around the
//! text.

use colorful::Color;
use colorful::Colorful;
use vstd::prelude::*;

verus! {

/// Text wrapped in the bold style: the escape opening bold, the text,
/// and the reset.
pub open spec fn bold_text(s: Seq<char>) -> Seq<char> {
    "\u{1b}[1m"@ + s + "\u{1b}[0m"@
}

/// Text wrapped in one of the simple foreground colors (given by its
/// palette code) together with the bold style.
pub open spec fn colored_bold_text(code: Seq<char>, s: Seq<char>) -> Seq<char> {
    "\u{1b}[38;5;"@ + code + ";1m"@ + s + "\u{1b}[0m"@
}

/// Relies on `colorful`'s `bold` on a string slice: with no color set,
/// its display form is the bold escape, the text, and the reset.
#[verifier::external_body]
pub fn bold(input: &str) -> (r: String)
    ensures
        r@ == bold_text(input@),
{
    input.bold().to_string()
}

/// Relies on `colorful`'s `color(Color::Yellow).bold()`: the simple
/// yellow foreground (palette code 3) joined with the bold style,
/// around the text, closed by the reset.
#[verifier::external_body]
pub fn yellow(input: &str) -> (r: String)
    ensures
        r@ == colored_bold_text("3"@, input@),
{
    input.color(Color::Yellow).bold().to_string()
}

/// Relies on `colorful`'s `color(Color::Cyan).bold()`: palette code 6.
#[verifier::external_body]
pub fn cyan(input: &str) -> (r: String)
    ensures
        r@ == colored_bold_text("6"@, input@),
{
    input.color(Color::Cyan).bold().to_string()
}

/// Relies on `colorful`'s `color(Color::Blue).bold()`: palette code 4.
#[verifier::external_body]
pub fn blue(input: &str) -> (r: String)
    ensures
        r@ == colored_bold_text("4"@, input@),
{
    input.color(Color::Blue).bold().to_string()
}

/// Relies on `colorful`'s `color(Color::Red).bold()`: palette code 1.
#[verifier::external_body]
pub fn red(input: &str) -> (r: String)
    ensures
        r@ == colored_bold_text("1"@, input@),
{
    input.color(Color::Red).bold().to_string()
}

} // verus!
