use vstd::prelude::*;

verus! {

/// Context attached to a diagnostic: at most one of these per diagnostic.
///
/// Fields are stored verbatim; nothing is validated. Paths are held as the
/// text that is shown for them. `row` and `col` are reproduced as given, in
/// whatever numbering base the producer chose.
#[derive(Debug)]
pub enum DiagnosticMetadata {
    /// A network resource.
    Net { url: String },
    /// A filesystem path.
    Fs { path: String },
    /// A location in parsed input, with the input itself and, if known, the
    /// path it was read from.
    Parse { input: String, row: usize, col: usize, path: Option<String> },
}

} // verus!
