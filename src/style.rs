//! Highlighting of report cells. A report is styled either not at all, or
//! with ANSI terminal attributes through the `colored` crate. Whether
//! `colored` emits attributes at all is decided by the terminal and the
//! environment at run time, so for terminal styling the contracts state what
//! holds of every outcome.

use colored::Colorize;
use vstd::prelude::*;

verus! {

/// How a report is highlighted.
#[derive(Clone, Copy, Debug, PartialEq, Eq, Structural)]
pub enum Styling {
    /// No highlighting at all: every cell is its bare text.
    Plain,
    /// ANSI attributes, as far as the terminal and the environment allow.
    Terminal,
}

/// The emphasis a cell asks for.
#[derive(Clone, Copy, Debug, PartialEq, Eq, Structural)]
pub enum Hue {
    /// No emphasis.
    Neutral,
    /// A line that stands only, or differently, on the left: green.
    Added,
    /// A line that stands only, or differently, on the right: red.
    Removed,
    /// Column titles: bold.
    Strong,
}

/// The ANSI sequence that clears all attributes.
pub open spec fn reset_code() -> Seq<char> {
    seq!['\u{1b}', '[', '0', 'm']
}

/// The ANSI sequence that sets the attributes named by `code`.
pub open spec fn sgr(code: Seq<char>) -> Seq<char> {
    seq!['\u{1b}', '['] + code + seq!['m']
}

/// The attribute code of each emphasis.
pub open spec fn hue_code(h: Hue) -> Seq<char> {
    match h {
        Hue::Neutral => seq![],
        Hue::Added => seq!['3', '2'],
        Hue::Removed => seq!['3', '1'],
        Hue::Strong => seq!['1'],
    }
}

/// Whether `t` holds the reset sequence somewhere.
pub open spec fn holds_reset(t: Seq<char>) -> bool {
    exists|i: int| 0 <= i && i + 4 <= t.len() && #[trigger] t.subrange(i, i + 4) == reset_code()
}

/// `r` is a possible terminal rendering of `t` with the attributes `code`:
/// either `t` unchanged (attributes switched off), or `t` between the
/// attribute sequence and the reset sequence. A reset sequence inside `t` is
/// followed by the attributes again, so there only the frame is stated.
pub open spec fn painted(r: Seq<char>, t: Seq<char>, code: Seq<char>) -> bool {
    ||| r == t
    ||| !holds_reset(t) && r == sgr(code) + t + reset_code()
    ||| holds_reset(t) && r.len() >= sgr(code).len() + reset_code().len()
        && r.subrange(0, sgr(code).len() as int) == sgr(code)
        && r.subrange(r.len() - 4, r.len() as int) == reset_code()
}

/// `r` is a rendering of the cell text `t` with emphasis `h` under `s`.
pub open spec fn styled(r: Seq<char>, t: Seq<char>, h: Hue, s: Styling) -> bool {
    if s == Styling::Plain || h == Hue::Neutral {
        r == t
    } else {
        painted(r, t, hue_code(h))
    }
}

/// Relies on colored's `Colorize::green` for `&str` and the `Display` of
/// `ColoredString`: the text as it is, or framed by green and reset.
#[verifier::external_body]
fn colored_green(t: &str) -> (r: String)
    ensures
        painted(r@, t@, hue_code(Hue::Added)),
{
    t.green().to_string()
}

/// Relies on colored's `Colorize::red` for `&str` and the `Display` of
/// `ColoredString`: the text as it is, or framed by red and reset.
#[verifier::external_body]
fn colored_red(t: &str) -> (r: String)
    ensures
        painted(r@, t@, hue_code(Hue::Removed)),
{
    t.red().to_string()
}

/// Relies on colored's `Colorize::bold` for `&str` and the `Display` of
/// `ColoredString`: the text as it is, or framed by bold and reset.
#[verifier::external_body]
fn colored_bold(t: &str) -> (r: String)
    ensures
        painted(r@, t@, hue_code(Hue::Strong)),
{
    t.bold().to_string()
}

/// Renders the cell text `t` with emphasis `h` under `styling`.
pub fn paint(t: &str, h: Hue, styling: Styling) -> (r: String)
    ensures
        styled(r@, t@, h, styling),
{
    match (styling, h) {
        (Styling::Plain, _) => String::from_str(t),
        (_, Hue::Neutral) => String::from_str(t),
        (_, Hue::Added) => colored_green(t),
        (_, Hue::Removed) => colored_red(t),
        (_, Hue::Strong) => colored_bold(t),
    }
}

} // verus!
