//! Diagnostic wrappers for errors: a label, optional help text and optional
//! context (a URL, a path, a location in parsed input) attached to an owned
//! underlying error, and the two renderings of the result.

mod diagnostic;
mod digits;
mod laws;
mod metadata;
mod paint;
mod render;

pub use diagnostic::{annotates, labels, opt_text, Diagnostic, DiagnosticError, IntoDiagnostic};
pub use digits::{decimal, decimal_digits, digit_char};
pub use laws::{
    alternate_mode_is_detail, bare_layout, bare_layout_has_no_at, bare_layout_has_no_help, has_run, position_without_path, fallback_keeps_error, round_trip_keeps_detail,
};
pub use metadata::DiagnosticMetadata;
pub use paint::{
    cyan_underline_code, green_code, red_code, reset_code, select_graphic, styled, yellow_code,
};
pub use render::{
    at_sign, blank_line, col_word, colon, help_pair, help_word, layout_plain, line_word, location_layout,
    location_shown, meta_suffix, opt_location_shown, plain_layout, plain_shown, position_layout,
    rendered, suffix_shown,
};
