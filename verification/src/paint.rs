//! Terminal styling, done by the `colored` crate.
//!
//! A `ColoredString` is opaque here: the library only builds one and hands it
//! on. What one holds gets names (`text_of`, `is_bold`, `hue_of`), and so
//! does what each builder returns, which is a function of its argument
//! alone. How a bold text in one of the editor's colours finally looks is
//! one of two things, the text as it is or the text inside escape sequences;
//! the environment and the terminal say which.
use colored::ColoredString;
use colored::Colorize;
use vstd::prelude::*;

verus! {

/// `colored::ColoredString`, declared so that it can stand in signatures.
/// Proofs see nothing of what is inside one.
#[verifier::external_type_specification]
#[verifier::external_body]
pub struct ExColoredString(colored::ColoredString);

/// The foreground colours that the editor paints with.
pub enum Hue {
    Green,
    Blue,
    Red,
}

/// The text that `styled` holds, without any styling.
pub uninterp spec fn text_of(styled: ColoredString) -> Seq<char>;

/// Whether the style of `styled` includes bold.
pub uninterp spec fn is_bold(styled: ColoredString) -> bool;

/// The foreground colour of `styled`, if it has one and that one is green,
/// blue or red.
pub uninterp spec fn hue_of(styled: ColoredString) -> Option<Hue>;

/// What formatting writes, where colouring is switched on, for the text
/// `text` in bold and in the foreground colour `hue`, with nothing else set:
/// the escape sequence for bold and that colour, the text, and the sequence
/// that resets the terminal.
pub uninterp spec fn styled_of(text: Seq<char>, hue: Hue) -> Seq<char>;

/// What `Colorize::bold` returns for the text `text`.
pub uninterp spec fn bold_of(text: Seq<char>) -> ColoredString;

/// What `Colorize::green` returns for the styled string `styled`.
pub uninterp spec fn green_of(styled: ColoredString) -> ColoredString;

/// What `Colorize::blue` returns for the styled string `styled`.
pub uninterp spec fn blue_of(styled: ColoredString) -> ColoredString;

/// What `Colorize::red` returns for the styled string `styled`.
pub uninterp spec fn red_of(styled: ColoredString) -> ColoredString;

/// Calls `Colorize::bold` on a string slice. The crate copies the text into a
/// fresh `ColoredString` without colours and adds the bold style; the result
/// depends on the text alone.
#[verifier::external_body]
pub(crate) fn bold(message: &str) -> (styled: ColoredString)
    ensures
        styled == bold_of(message@),
        text_of(styled) == message@,
        is_bold(styled),
        hue_of(styled) is None,
{
    message.bold()
}

/// Calls `Colorize::green` on a `ColoredString`. The crate sets the foreground
/// colour to green and keeps the rest; the result depends on the argument
/// alone.
#[verifier::external_body]
pub(crate) fn green(styled: ColoredString) -> (painted: ColoredString)
    ensures
        painted == green_of(styled),
        text_of(painted) == text_of(styled),
        is_bold(painted) == is_bold(styled),
        hue_of(painted) == Some(Hue::Green),
{
    styled.green()
}

/// Calls `Colorize::blue` on a `ColoredString`. The crate sets the foreground
/// colour to blue and keeps the rest; the result depends on the argument
/// alone.
#[verifier::external_body]
pub(crate) fn blue(styled: ColoredString) -> (painted: ColoredString)
    ensures
        painted == blue_of(styled),
        text_of(painted) == text_of(styled),
        is_bold(painted) == is_bold(styled),
        hue_of(painted) == Some(Hue::Blue),
{
    styled.blue()
}

/// Calls `Colorize::red` on a `ColoredString`. The crate sets the foreground
/// colour to red and keeps the rest; the result depends on the argument
/// alone.
#[verifier::external_body]
pub(crate) fn red(styled: ColoredString) -> (painted: ColoredString)
    ensures
        painted == red_of(styled),
        text_of(painted) == text_of(styled),
        is_bold(painted) == is_bold(styled),
        hue_of(painted) == Some(Hue::Red),
{
    styled.red()
}

/// Formats a `ColoredString` through its `Display` impl, for a string that
/// is a bold text in green, blue or red and nothing more: only of those is
/// the coloured form the same on every terminal. Where colouring is switched
/// off the crate writes the text as it is; where it is on, the text inside
/// escape sequences. The environment, the terminal and the crate's own
/// switch say which, so the contract claims only that the result is one of
/// the two. It takes the switch to stay as it is while the call runs.
#[verifier::external_body]
pub(crate) fn shown(painted: &ColoredString) -> (text: String)
    requires
        exists|plain: Seq<char>|
            *painted == green_of(bold_of(plain)) || *painted == blue_of(bold_of(plain))
                || *painted == red_of(bold_of(plain)),
    ensures
        text@ == text_of(*painted) || (hue_of(*painted) matches Some(hue) && text@ == styled_of(
            text_of(*painted),
            hue,
        )),
{
    format!("{}", painted)
}

} // verus!
