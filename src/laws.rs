use crate::diagnostic::{annotates, labels, Diagnostic, DiagnosticError, IntoDiagnostic};
use crate::digits::decimal_digits;
use crate::paint::{green_code, red_code, reset_code, select_graphic, styled, yellow_code};
use crate::render::{
    blank_line, col_word, help_pair, help_word, line_word, opt_location_shown, plain_layout, position_layout,
    rendered, suffix_shown,
};
use vstd::prelude::*;

verus! {

/// The fallback conversion keeps a success as it is, and turns an error into
/// a wrapper that holds that very error under the given label, with no help
/// and no context.
pub proof fn fallback_keeps_error<T, E>(res: Result<T, E>, label: Seq<char>, r: Result<T, DiagnosticError<E>>)
    requires
        res.spec_into_diagnostic(label, r),
    ensures
        res is Ok ==> r == Ok::<T, DiagnosticError<E>>(res->Ok_0),
        res is Err ==> r is Err && labels(r->Err_0, res->Err_0, label),
{
}

/// Alternate-mode rendering of a wrapper is the underlying error's own
/// detail, unchanged: label, help and context play no part.
pub proof fn alternate_mode_is_detail<E>(d: &DiagnosticError<E>, detail: Seq<char>, r: Seq<char>)
    requires
        rendered(d, true, detail, r),
    ensures
        r == detail,
{
}

/// Wrapping a value that annotates itself and then rendering the wrapper in
/// alternate mode gives the detail of the original value: the wrapper holds
/// that value itself, and the rendering adds nothing to its detail.
pub proof fn round_trip_keeps_detail<E: Diagnostic>(
    error: E,
    d: DiagnosticError<E>,
    detail: Seq<char>,
    r: Seq<char>,
)
    requires
        annotates(d, error),
        rendered(&d, true, detail, r),
    ensures
        d.error == error,
        r == detail,
{
}

/// Plain rendering of a wrapper with no context and no help is the label as
/// shown, a blank line, and the underlying error's detail: nothing else.
pub proof fn bare_layout<E>(d: &DiagnosticError<E>, detail: Seq<char>, r: Seq<char>)
    requires
        d.meta.is_none(),
        d.help.is_none(),
        rendered(d, false, detail, r),
    ensures
        exists|label: Seq<char>|
            styled(label, d.label@, red_code()) && r == #[trigger] (label + blank_line() + detail),
{
    let (label, suffix, word) = choose|label: Seq<char>, suffix: Seq<char>, word: Seq<char>|
        #[trigger] plain_layout(label, suffix, detail, help_pair(d.help, word)) == r
            && styled(label, d.label@, red_code())
            && suffix_shown(d.meta, suffix)
            && styled(word, help_word(), yellow_code());
    assert(suffix == Seq::<char>::empty());
    assert(label + suffix =~= label);
    assert(r =~= label + blank_line() + detail + Seq::<char>::empty());
    assert(r =~= label + blank_line() + detail);
}

/// Plain rendering of a wrapper with no context and no help holds no `@`
/// where neither the label nor the detail does (and the label holds no
/// escape sequence of its own, which the colouring would rewrite).
pub proof fn bare_layout_has_no_at<E>(d: &DiagnosticError<E>, detail: Seq<char>, r: Seq<char>)
    requires
        d.meta.is_none(),
        d.help.is_none(),
        !d.label@.contains('@'),
        !d.label@.contains('\x1b'),
        !detail.contains('@'),
        rendered(d, false, detail, r),
    ensures
        !r.contains('@'),
{
    bare_layout(d, detail, r);
    let label = choose|label: Seq<char>|
        styled(label, d.label@, red_code()) && r == #[trigger] (label + blank_line() + detail);
    if label != d.label@ {
        let m = choose|m: Seq<char>|
            #![trigger select_graphic(red_code()) + m]
            label == select_graphic(red_code()) + m + reset_code() && (!d.label@.contains('\x1b') ==> m == d.label@);
        assert(!label.contains('@')) by {
            assert forall|i: int| 0 <= i < label.len() implies label[i] != '@' by {
                if i < 2 + red_code().len() + 1 {
                    assert(label[i] == select_graphic(red_code())[i]);
                } else if i < 2 + red_code().len() + 1 + m.len() {
                    assert(label[i] == m[i - (2 + red_code().len() + 1)]);
                } else {
                    assert(label[i] == reset_code()[i - (2 + red_code().len() + 1 + m.len())]);
                }
            }
        }
    }
    assert forall|i: int| 0 <= i < r.len() implies r[i] != '@' by {
        if i < label.len() {
            assert(r[i] == label[i]);
        } else if i < label.len() + 2 {
            assert(r[i] == blank_line()[i - label.len()]);
        } else {
            assert(r[i] == detail[i - label.len() - 2]);
        }
    }
}


/// `w` occurs in `s` as a contiguous run of characters.
pub open spec fn has_run(s: Seq<char>, w: Seq<char>) -> bool {
    exists|i: int| 0 <= i && i + w.len() <= s.len() && #[trigger] s.subrange(i, i + w.len()) == w
}

/// Plain rendering of a wrapper with no help holds no help word where
/// neither the label nor the detail does (and the label holds no escape
/// sequence of its own, which the colouring would rewrite).
pub proof fn bare_layout_has_no_help<E>(d: &DiagnosticError<E>, detail: Seq<char>, r: Seq<char>)
    requires
        d.meta.is_none(),
        d.help.is_none(),
        !has_run(d.label@, help_word()),
        !d.label@.contains('\x1b'),
        !has_run(detail, help_word()),
        rendered(d, false, detail, r),
    ensures
        !has_run(r, help_word()),
{
    bare_layout(d, detail, r);
    let shown = choose|label: Seq<char>|
        styled(label, d.label@, red_code()) && r == #[trigger] (label + blank_line() + detail);
    let l = d.label@;
    // where the label's characters start within `shown`
    let off: int = if shown == l { 0 } else { 5 };
    if shown != l {
        let m = choose|m: Seq<char>|
            #![trigger select_graphic(red_code()) + m]
            shown == select_graphic(red_code()) + m + reset_code() && (!l.contains('\x1b') ==> m == l);
        assert(shown =~= select_graphic(red_code()) + l + reset_code());
    }
    let lab_end = off + l.len();
    // where the detail starts within `r`: after the label as shown and a blank line
    let det = shown.len() + 2;
    // every letter of the help word in `r` lies in the label or in the detail
    assert forall|j: int| 0 <= j < r.len() && (r[j] == 'h' || r[j] == 'e' || r[j] == 'l' || r[j] == 'p') implies
        (off <= j < lab_end && r[j] == l[j - off]) || (det <= j && r[j] == detail[j - det]) by {
        if j < shown.len() {
            assert(r[j] == shown[j]);
            if shown != l {
                if j < 5 {
                    assert(shown[j] == select_graphic(red_code())[j]);
                } else if j < lab_end {
                    assert(shown[j] == l[j - 5]);
                } else {
                    assert(shown[j] == reset_code()[j - lab_end]);
                }
            }
        } else if j < det {
            assert(r[j] == blank_line()[j - shown.len()]);
        } else {
            assert(r[j] == detail[j - det]);
        }
    }
    if has_run(r, help_word()) {
        let i = choose|i: int| 0 <= i && i + help_word().len() <= r.len()
            && #[trigger] r.subrange(i, i + help_word().len()) == help_word();
        assert(r[i] == 'h' && r[i + 1] == 'e' && r[i + 2] == 'l' && r[i + 3] == 'p') by {
            assert(r.subrange(i, i + 4)[0] == r[i]);
            assert(r.subrange(i, i + 4)[1] == r[i + 1]);
            assert(r.subrange(i, i + 4)[2] == r[i + 2]);
            assert(r.subrange(i, i + 4)[3] == r[i + 3]);
        }
        if i < lab_end {
            assert(off <= i + 3 < lab_end);
            assert(l.subrange(i - off, i - off + 4) =~= help_word());
        } else {
            assert(det <= i);
            assert(detail.subrange(i - det, i - det + 4) =~= help_word());
        }
    }
}


/// With a parse position and no path, the label is followed on its line by
/// ` - line: <row>, col: <col>` and nothing more: no location suffix.
pub proof fn position_without_path<E>(d: &DiagnosticError<E>, detail: Seq<char>, r: Seq<char>)
    requires
        d.meta is Some,
        d.meta->Some_0 is Parse,
        d.meta->Some_0->Parse_path is None,
        rendered(d, false, detail, r),
    ensures
        exists|label: Seq<char>, row: Seq<char>, col: Seq<char>, word: Seq<char>|
            #[trigger] plain_layout(label, line_word() + row + col_word() + col, detail, help_pair(d.help, word)) == r
                && styled(label, d.label@, red_code())
                && styled(row, decimal_digits(d.meta->Some_0->Parse_row as nat), green_code())
                && styled(col, decimal_digits(d.meta->Some_0->Parse_col as nat), green_code()),
{
    let (label, suffix, word) = choose|label: Seq<char>, suffix: Seq<char>, word: Seq<char>|
        #[trigger] plain_layout(label, suffix, detail, help_pair(d.help, word)) == r
            && styled(label, d.label@, red_code())
            && suffix_shown(d.meta, suffix)
            && styled(word, help_word(), yellow_code());
    let (a, b, c) = choose|a: Seq<char>, b: Seq<char>, c: Seq<char>|
        #[trigger] position_layout(a, b, c) == suffix
            && styled(a, decimal_digits(d.meta->Some_0->Parse_row as nat), green_code())
            && styled(b, decimal_digits(d.meta->Some_0->Parse_col as nat), green_code())
            && opt_location_shown(d.meta->Some_0->Parse_path, c);
    assert(suffix =~= line_word() + a + col_word() + b);
    assert(plain_layout(label, line_word() + a + col_word() + b, detail, help_pair(d.help, word)) == r);
}

} // verus!
