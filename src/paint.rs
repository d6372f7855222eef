use colored::Colorize;
use vstd::prelude::*;

verus! {

/// The terminal escape sequence that selects the graphic rendition `code`.
pub open spec fn select_graphic(code: Seq<char>) -> Seq<char> {
    seq!['\x1b', '['] + code + seq!['m']
}

/// The terminal escape sequence that resets all graphic renditions.
pub open spec fn reset_code() -> Seq<char> {
    seq!['\x1b', '[', '0', 'm']
}

/// `r` is `s` as a terminal shows it in rendition `code`: either `s` itself
/// (colouring is off) or `s` between the selecting and resetting sequences.
/// Only where `s` holds escape sequences of its own may its middle differ.
pub open spec fn styled(r: Seq<char>, s: Seq<char>, code: Seq<char>) -> bool {
    r == s || exists|m: Seq<char>|
        #![trigger select_graphic(code) + m]
        r == select_graphic(code) + m + reset_code() && (!s.contains('\x1b') ==> m == s)
}

pub open spec fn red_code() -> Seq<char> {
    seq!['3', '1']
}

pub open spec fn green_code() -> Seq<char> {
    seq!['3', '2']
}

pub open spec fn yellow_code() -> Seq<char> {
    seq!['3', '3']
}

pub open spec fn cyan_underline_code() -> Seq<char> {
    seq!['4', ';', '3', '6']
}

/// Relies on colored's `Colorize::red` and the `Display` of `ColoredString`:
/// the text as is when colouring is off, else between `ESC[31m` and `ESC[0m`.
#[verifier::external_body]
pub(crate) fn paint_red(s: &str) -> (r: String)
    ensures
        styled(r@, s@, red_code()),
{
    s.red().to_string()
}

/// Relies on colored's `Colorize::green` and the `Display` of `ColoredString`:
/// the text as is when colouring is off, else between `ESC[32m` and `ESC[0m`.
#[verifier::external_body]
pub(crate) fn paint_green(s: &str) -> (r: String)
    ensures
        styled(r@, s@, green_code()),
{
    s.green().to_string()
}

/// Relies on colored's `Colorize::yellow` and the `Display` of `ColoredString`:
/// the text as is when colouring is off, else between `ESC[33m` and `ESC[0m`.
#[verifier::external_body]
pub(crate) fn paint_yellow(s: &str) -> (r: String)
    ensures
        styled(r@, s@, yellow_code()),
{
    s.yellow().to_string()
}

/// Relies on colored's `Colorize::cyan`, then `ColoredString::underline`, and
/// the `Display` of `ColoredString`: the text as is when colouring is off,
/// else between `ESC[4;36m` and `ESC[0m`.
#[verifier::external_body]
pub(crate) fn paint_link(s: &str) -> (r: String)
    ensures
        styled(r@, s@, cyan_underline_code()),
{
    s.cyan().underline().to_string()
}

} // verus!
