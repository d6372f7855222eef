use crate::diagnostic::DiagnosticError;
use crate::digits::{decimal, decimal_digits};
use crate::metadata::DiagnosticMetadata;
use crate::paint::{
    cyan_underline_code, green_code, paint_green, paint_link, paint_red, paint_yellow, red_code,
    styled, yellow_code,
};
use vstd::prelude::*;

verus! {

/// A blank line: two line breaks.
pub open spec fn blank_line() -> Seq<char> {
    seq!['\n', '\n']
}

/// The word that introduces help text.
pub open spec fn help_word() -> Seq<char> {
    seq!['h', 'e', 'l', 'p']
}

/// `" @ "`, which introduces a location.
pub open spec fn at_sign() -> Seq<char> {
    seq![' ', '@', ' ']
}

/// `" - line: "`, which introduces a row.
pub open spec fn line_word() -> Seq<char> {
    seq![' ', '-', ' ', 'l', 'i', 'n', 'e', ':', ' ']
}

/// `", col: "`, which introduces a column.
pub open spec fn col_word() -> Seq<char> {
    seq![',', ' ', 'c', 'o', 'l', ':', ' ']
}

/// `": "`, between the help word and the help text.
pub open spec fn colon() -> Seq<char> {
    seq![':', ' ']
}

/// The plain rendering, given the label as shown, the context suffix as
/// shown, the underlying error's detail, and, where there is help, the help
/// word as shown and the help text.
pub open spec fn plain_layout(
    label: Seq<char>,
    suffix: Seq<char>,
    detail: Seq<char>,
    help: Option<(Seq<char>, Seq<char>)>,
) -> Seq<char> {
    label + suffix + blank_line() + detail + match help {
        None => Seq::<char>::empty(),
        Some((word, text)) => blank_line() + word + colon() + text,
    }
}

/// The location suffix, given the location as shown.
pub open spec fn location_layout(place: Seq<char>) -> Seq<char> {
    at_sign() + place
}

/// The parse-position suffix, given row and column as shown, and the
/// location suffix (empty where there is no path).
pub open spec fn position_layout(row: Seq<char>, col: Seq<char>, location: Seq<char>) -> Seq<char> {
    line_word() + row + col_word() + col + location
}

/// `s` is the location suffix for the place `place`.
pub open spec fn location_shown(place: Seq<char>, s: Seq<char>) -> bool {
    exists|p: Seq<char>| #[trigger] location_layout(p) == s && styled(p, place, cyan_underline_code())
}

/// `s` is the location suffix for an optional path: empty where there is none.
pub open spec fn opt_location_shown(path: Option<String>, s: Seq<char>) -> bool {
    match path {
        None => s == Seq::<char>::empty(),
        Some(p) => location_shown(p@, s),
    }
}

/// `s` is the suffix that follows the label for the context `meta`.
pub open spec fn suffix_shown(meta: Option<DiagnosticMetadata>, s: Seq<char>) -> bool {
    match meta {
        None => s == Seq::<char>::empty(),
        Some(DiagnosticMetadata::Net { url }) => location_shown(url@, s),
        Some(DiagnosticMetadata::Fs { path }) => location_shown(path@, s),
        Some(DiagnosticMetadata::Parse { row, col, path, .. }) => exists|a: Seq<char>, b: Seq<char>, c: Seq<char>|
            #[trigger] position_layout(a, b, c) == s
                && styled(a, decimal_digits(row as nat), green_code())
                && styled(b, decimal_digits(col as nat), green_code())
                && opt_location_shown(path, c),
    }
}

/// The help word as shown beside the help text, where there is help.
pub open spec fn help_pair(help: Option<String>, word: Seq<char>) -> Option<(Seq<char>, Seq<char>)> {
    match help {
        None => None,
        Some(h) => Some((word, h@)),
    }
}

/// `r` is the plain rendering of `d` over the detail text `detail`.
pub open spec fn plain_shown<E>(d: &DiagnosticError<E>, detail: Seq<char>, r: Seq<char>) -> bool {
    exists|label: Seq<char>, suffix: Seq<char>, word: Seq<char>|
        #[trigger] plain_layout(label, suffix, detail, help_pair(d.help, word)) == r
            && styled(label, d.label@, red_code())
            && suffix_shown(d.meta, suffix)
            && styled(word, help_word(), yellow_code())
}

/// `r` is the rendering of `d` in the chosen mode, over the underlying
/// error's detail text: in alternate mode that text and nothing else.
pub open spec fn rendered<E>(d: &DiagnosticError<E>, alternate: bool, detail: Seq<char>, r: Seq<char>) -> bool {
    if alternate {
        r == detail
    } else {
        plain_shown(d, detail, r)
    }
}

/// Lays out the plain rendering from pieces already shown.
pub fn layout_plain(label: &str, suffix: &str, detail: &str, help: Option<(&str, &str)>) -> (r: String)
    ensures
        r@ == plain_layout(
            label@,
            suffix@,
            detail@,
            match help {
                None => None,
                Some((w, t)) => Some((w@, t@)),
            },
        ),
{
    proof {
        reveal_strlit("\n\n");
        reveal_strlit(": ");
    }
    let mut r = String::from_str(label);
    r.append(suffix);
    r.append("\n\n");
    r.append(detail);
    match help {
        None => {},
        Some((word, text)) => {
            r.append("\n\n");
            r.append(word);
            r.append(": ");
            r.append(text);
        },
    }
    r
}

/// The location suffix for `place`, shown as a link.
fn location_suffix(place: &str) -> (r: String)
    ensures
        location_shown(place@, r@),
{
    proof {
        reveal_strlit(" @ ");
    }
    let shown = paint_link(place);
    let mut r = String::from_str(" @ ");
    r.append(shown.as_str());
    assert(location_layout(shown@) == r@);
    r
}

/// The parse-position suffix for `row`, `col` and an optional `path`.
fn position_suffix(row: usize, col: usize, path: &Option<String>) -> (r: String)
    ensures
        exists|a: Seq<char>, b: Seq<char>, c: Seq<char>|
            #[trigger] position_layout(a, b, c) == r@
                && styled(a, decimal_digits(row as nat), green_code())
                && styled(b, decimal_digits(col as nat), green_code())
                && opt_location_shown(*path, c),
{
    proof {
        reveal_strlit(" - line: ");
        reveal_strlit(", col: ");
    }
    let row_text = decimal(row);
    let a = paint_green(row_text.as_str());
    let col_text = decimal(col);
    let b = paint_green(col_text.as_str());
    let c = match path {
        None => String::new(),
        Some(p) => location_suffix(p.as_str()),
    };
    let mut r = String::from_str(" - line: ");
    r.append(a.as_str());
    r.append(", col: ");
    r.append(b.as_str());
    r.append(c.as_str());
    assert(position_layout(a@, b@, c@) == r@);
    r
}

/// The suffix that follows the label for the context `meta`: empty where
/// there is none.
pub fn meta_suffix(meta: &Option<DiagnosticMetadata>) -> (r: String)
    ensures
        suffix_shown(*meta, r@),
{
    match meta {
        None => String::new(),
        Some(DiagnosticMetadata::Net { url }) => location_suffix(url.as_str()),
        Some(DiagnosticMetadata::Fs { path }) => location_suffix(path.as_str()),
        Some(DiagnosticMetadata::Parse { row, col, path, .. }) => position_suffix(*row, *col, path),
    }
}

impl<E> DiagnosticError<E> {
    /// Renders this diagnostic over `detail`, the underlying error's own
    /// detailed rendering. Alternate mode gives `detail` unchanged. Plain mode
    /// gives the label, its context suffix on the same line, a blank line,
    /// `detail`, and, where there is help, a blank line and `help: <text>`.
    pub fn render_with_detail(&self, alternate: bool, detail: &str) -> (r: String)
        ensures
            rendered(self, alternate, detail@, r@),
    {
        if alternate {
            return String::from_str(detail);
        }
        proof {
            reveal_strlit("help");
        }
        let label = paint_red(self.label.as_str());
        let suffix = meta_suffix(&self.meta);
        let word = paint_yellow("help");
        let r = match &self.help {
            None => layout_plain(label.as_str(), suffix.as_str(), detail, None),
            Some(h) => layout_plain(label.as_str(), suffix.as_str(), detail, Some((word.as_str(), h.as_str()))),
        };
        assert("help"@ == help_word());
        assert(styled(word@, help_word(), yellow_code()));
        assert(styled(label@, self.label@, red_code()));
        assert(suffix_shown(self.meta, suffix@));
        assert(plain_layout(label@, suffix@, detail@, help_pair(self.help, word@)) == r@);
        r
    }
}

} // verus!
