use thisdiagnostic::Diagnostic;

#[derive(Debug, Eq, PartialEq)]
pub struct Color {
    input: Option<String>,
    field: i32,
}

impl std::fmt::Display for Color {
    fn fmt(&self, f: &mut std::fmt::Formatter<'_>) -> std::fmt::Result {
        f.write_str("Colored struct.")
    }
}

impl std::error::Error for Color {}

impl Diagnostic for Color {
    fn label(&self) -> String {
        "color::struct".into()
    }

    fn help(&self) -> Option<String> {
        Some("Color.".into())
    }
}

#[test]
fn it_works() {
    let clr = Color {
        field: 1,
        input: Some("lol".into()),
    };
    assert_eq!("color::struct", clr.label());
    assert_eq!("Color.", clr.help().unwrap());
}

#[test]
fn meta_defaults_to_none() {
    let clr = Color {
        field: 2,
        input: None,
    };
    assert!(clr.meta().is_none());
    assert!(thisdiagnostic::DiagnosticError::from_diagnostic(clr).meta.is_none());
}
