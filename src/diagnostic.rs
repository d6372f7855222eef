use crate::metadata::DiagnosticMetadata;
use vstd::prelude::*;

verus! {

/// The text of an optional string, as a sequence of characters.
pub open spec fn opt_text(s: Option<String>) -> Option<Seq<char>> {
    match s {
        Some(t) => Some(t@),
        None => None,
    }
}

/// A type that annotates itself for presentation: a label, optional help
/// text and optional context.
///
/// The queries are pure. An implementation states what `label` and `help`
/// return by defining `spec_label` and `spec_help`; until it does, nothing is
/// known of them, so no verified implementation can leave them out. `meta`
/// has a default that reports no context; what an overriding implementation
/// returns is known to callers through that implementation's own `ensures`.
pub trait Diagnostic: core::fmt::Debug + core::fmt::Display + Send + Sync + Sized + 'static {
    /// The label this value reports.
    open spec fn spec_label(&self) -> Seq<char> {
        arbitrary()
    }

    /// The help text this value reports, if any.
    open spec fn spec_help(&self) -> Option<Seq<char>> {
        arbitrary()
    }

    /// A short, stable name for the kind of failure, such as `module::failure`.
    fn label(&self) -> (r: String)
        ensures
            r@ == self.spec_label(),
    ;

    /// Guidance for the user, if there is any.
    fn help(&self) -> (r: Option<String>)
        ensures
            opt_text(r) == self.spec_help(),
    ;

    /// Context for the failure; none unless the type gives some.
    fn meta(&self) -> (r: Option<DiagnosticMetadata>)
        default_ensures
            r.is_none(),
    {
        None
    }
}

/// `d` is `error` wrapped under the label, help and context it reports.
pub open spec fn annotates<E: Diagnostic>(d: DiagnosticError<E>, error: E) -> bool {
    &&& d.error == error
    &&& d.label@ == error.spec_label()
    &&& opt_text(d.help) == error.spec_help()
    &&& call_ensures(E::meta, (&error,), d.meta)
}

/// `d` is `error` wrapped under `label`, with no help and no context.
pub open spec fn labels<E>(d: DiagnosticError<E>, error: E, label: Seq<char>) -> bool {
    &&& d.error == error
    &&& d.label@ == label
    &&& d.help.is_none()
    &&& d.meta.is_none()
}

/// An underlying error together with a label, optional help text and
/// optional context. The wrapper owns the error.
pub struct DiagnosticError<E> {
    pub error: E,
    pub label: String,
    pub help: Option<String>,
    pub meta: Option<DiagnosticMetadata>,
}

impl<E> DiagnosticError<E> {
    /// Attaches `label` to an arbitrary error, with no help and no context.
    pub fn labelled(error: E, label: &str) -> (r: Self)
        ensures
            labels(r, error, label@),
    {
        DiagnosticError { error, label: String::from_str(label), help: None, meta: None }
    }
}

impl<E: Diagnostic> DiagnosticError<E> {
    /// Wraps a value that annotates itself, taking its label, help and
    /// context as it reports them.
    pub fn from_diagnostic(error: E) -> (r: Self)
        ensures
            annotates(r, error),
    {
        let meta = error.meta();
        let label = error.label();
        let help = error.help();
        DiagnosticError { error, label, help, meta }
    }
}

/// The implicit form of `from_diagnostic`, for `?`.
impl<E: Diagnostic> From<E> for DiagnosticError<E> {
    fn from(error: E) -> (r: Self)
        ensures
            annotates(r, error),
    {
        Self::from_diagnostic(error)
    }
}

/// A wrapper's strings are not determined by their text alone, so no single
/// value can be named as the result; `from` states what it returns instead.
impl<E: Diagnostic> vstd::std_specs::convert::FromSpecImpl<E> for DiagnosticError<E> {
    open spec fn obeys_from_spec() -> bool {
        false
    }

    open spec fn from_spec(v: E) -> Self {
        arbitrary()
    }
}

/// Conversion of the error side of a result into a `DiagnosticError` with a
/// chosen label.
pub trait IntoDiagnostic<T, E>: Sized {
    /// `r` is what `self` becomes under the label `label`.
    spec fn spec_into_diagnostic(self, label: Seq<char>, r: Result<T, DiagnosticError<E>>) -> bool;

    /// Keeps a success as it is; wraps an error under `label`, with no help
    /// and no context.
    fn into_diagnostic(self, label: &str) -> (r: Result<T, DiagnosticError<E>>)
        ensures
            self.spec_into_diagnostic(label@, r),
    ;
}

impl<T, E> IntoDiagnostic<T, E> for Result<T, E> {
    open spec fn spec_into_diagnostic(self, label: Seq<char>, r: Result<T, DiagnosticError<E>>) -> bool {
        match self {
            Ok(v) => r == Ok::<T, DiagnosticError<E>>(v),
            Err(e) => match r {
                Ok(_) => false,
                Err(d) => labels(d, e, label),
            },
        }
    }

    fn into_diagnostic(self, label: &str) -> (r: Result<T, DiagnosticError<E>>) {
        match self {
            Ok(v) => Ok(v),
            Err(e) => Err(DiagnosticError::labelled(e, label)),
        }
    }
}

} // verus!
