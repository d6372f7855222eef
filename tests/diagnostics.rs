use thisdiagnostic::{decimal, layout_plain, meta_suffix, Diagnostic, DiagnosticError, DiagnosticMetadata, IntoDiagnostic};

#[derive(Debug, PartialEq)]
struct Missing {
    name: String,
}

impl std::fmt::Display for Missing {
    fn fmt(&self, f: &mut std::fmt::Formatter<'_>) -> std::fmt::Result {
        f.write_str(&format!("{} is missing", self.name))
    }
}

impl std::error::Error for Missing {}

impl Diagnostic for Missing {
    fn label(&self) -> String {
        "config::missing".into()
    }

    fn help(&self) -> Option<String> {
        Some("create it first".into())
    }

    fn meta(&self) -> Option<DiagnosticMetadata> {
        Some(DiagnosticMetadata::Fs { path: format!("/etc/{}", self.name) })
    }
}

#[derive(Debug, PartialEq)]
struct Plain;

impl std::fmt::Display for Plain {
    fn fmt(&self, f: &mut std::fmt::Formatter<'_>) -> std::fmt::Result {
        f.write_str("plain failure")
    }
}

fn colours_on() {
    colored::control::set_override(true);
}

fn no_colours() {
    colored::control::set_override(false);
}

fn detail_of<E: std::fmt::Debug>(e: &E) -> String {
    format!("{:#?}", e)
}

#[test]
fn from_diagnostic_takes_reported_fields() {
    let e = Missing { name: "app.toml".into() };
    let d = DiagnosticError::from_diagnostic(Missing { name: "app.toml".into() });
    assert_eq!(d.label, e.label());
    assert_eq!(d.help, e.help());
    assert!(matches!(d.meta, Some(DiagnosticMetadata::Fs { ref path }) if path == "/etc/app.toml"));
    assert_eq!(d.error, e);
}

#[test]
fn from_conversion_matches_from_diagnostic() {
    let d: DiagnosticError<Missing> = Missing { name: "x".into() }.into();
    assert_eq!(d.label, "config::missing");
    assert_eq!(d.help.as_deref(), Some("create it first"));
    assert_eq!(d.error, Missing { name: "x".into() });
}

#[test]
fn fallback_labels_any_error() {
    let res: Result<u8, Plain> = Err(Plain);
    let d = res.into_diagnostic("io::plain").unwrap_err();
    assert_eq!(d.label, "io::plain");
    assert!(d.help.is_none());
    assert!(d.meta.is_none());
    assert_eq!(d.error, Plain);
}

#[test]
fn fallback_keeps_success() {
    let res: Result<u8, Plain> = Ok(4);
    assert_eq!(res.into_diagnostic("io::plain").ok(), Some(4));
}

#[test]
fn labelled_sets_no_help_or_meta() {
    let d = DiagnosticError::labelled(Plain, "x::y");
    assert_eq!(d.label, "x::y");
    assert!(d.help.is_none() && d.meta.is_none());
}

fn plain_bare_is_label_blank_detail() {
    no_colours();
    let d = DiagnosticError::labelled(Plain, "io::plain");
    let detail = detail_of(&d.error);
    let out = d.render_with_detail(false, &detail);
    assert_eq!(out, "io::plain\n\nPlain");
    assert!(!out.contains('@'));
    assert!(!out.contains("help"));
}

fn plain_parse_position_on_label_line() {
    no_colours();
    let mut d = DiagnosticError::labelled(Plain, "parse::bad");
    d.meta = Some(DiagnosticMetadata::Parse { input: "abc".into(), row: 3, col: 7, path: None });
    let out = d.render_with_detail(false, "Plain");
    let first = out.lines().next().unwrap();
    assert!(first.contains("line: 3, col: 7"));
    assert!(first.starts_with("parse::bad"));
    assert!(!out.contains(" @ "));
    assert_eq!(out, "parse::bad - line: 3, col: 7\n\nPlain");
}

fn plain_parse_position_with_path() {
    no_colours();
    let mut d = DiagnosticError::labelled(Plain, "parse::bad");
    d.meta = Some(DiagnosticMetadata::Parse { input: "".into(), row: 0, col: 120, path: Some("in.txt".into()) });
    let out = d.render_with_detail(false, "E");
    assert_eq!(out, "parse::bad - line: 0, col: 120 @ in.txt\n\nE");
}

fn plain_fs_path_on_label_line() {
    no_colours();
    let mut d = DiagnosticError::labelled(Plain, "fs::read");
    d.meta = Some(DiagnosticMetadata::Fs { path: "/tmp/x".into() });
    let out = d.render_with_detail(false, "Plain");
    assert!(out.lines().next().unwrap().contains(" @ /tmp/x"));
    assert_eq!(out, "fs::read @ /tmp/x\n\nPlain");
}

fn plain_net_url_and_help() {
    no_colours();
    let mut d = DiagnosticError::labelled(Plain, "net::get");
    d.meta = Some(DiagnosticMetadata::Net { url: "https://example.org".into() });
    d.help = Some("retry later".into());
    let out = d.render_with_detail(false, "timeout");
    assert_eq!(out, "net::get @ https://example.org\n\ntimeout\n\nhelp: retry later");
}

#[test]
fn alternate_is_underlying_detail() {
    let d = DiagnosticError::from_diagnostic(Missing { name: "a".into() });
    let alone = detail_of(&Missing { name: "a".into() });
    let out = d.render_with_detail(true, &detail_of(&d.error));
    assert_eq!(out, alone);
    assert!(!out.contains("config::missing"));
}

#[test]
fn round_trip_reproduces_original_detail() {
    let original = Missing { name: "b".into() };
    let expected = detail_of(&original);
    let d: DiagnosticError<Missing> = original.into();
    assert_eq!(d.render_with_detail(true, &detail_of(&d.error)), expected);
}

fn coloured_label_and_help_word() {
    colours_on();
    let mut d = DiagnosticError::labelled(Plain, "lbl");
    d.help = Some("h".into());
    let out = d.render_with_detail(false, "D");
    assert_eq!(out, "\x1b[31mlbl\x1b[0m\n\nD\n\n\x1b[33mhelp\x1b[0m: h");
}

fn coloured_link_and_numbers() {
    colours_on();
    let fs = Some(DiagnosticMetadata::Fs { path: "/p".into() });
    assert_eq!(meta_suffix(&fs), " @ \x1b[4;36m/p\x1b[0m");
    let pos = Some(DiagnosticMetadata::Parse { input: "".into(), row: 12, col: 5, path: None });
    assert_eq!(meta_suffix(&pos), " - line: \x1b[32m12\x1b[0m, col: \x1b[32m5\x1b[0m");
}

#[test]
fn no_meta_no_suffix() {
    assert_eq!(meta_suffix(&None), "");
}

#[test]
fn layout_plain_exact() {
    assert_eq!(layout_plain("L", " S", "D", None), "L S\n\nD");
    assert_eq!(layout_plain("L", "", "D", Some(("help", "t"))), "L\n\nD\n\nhelp: t");
}

#[test]
fn decimal_values() {
    assert_eq!(decimal(0), "0");
    assert_eq!(decimal(7), "7");
    assert_eq!(decimal(10), "10");
    assert_eq!(decimal(4093), "4093");
    assert_eq!(decimal(usize::MAX), usize::MAX.to_string());
}

// colored's override is global to the process, so every rendering that
// depends on it runs here, one after another.
#[test]
fn rendering_with_and_without_colour() {
    plain_bare_is_label_blank_detail();
    plain_parse_position_on_label_line();
    plain_parse_position_with_path();
    plain_fs_path_on_label_line();
    plain_net_url_and_help();
    coloured_label_and_help_word();
    coloured_link_and_numbers();
    no_colours();
}
