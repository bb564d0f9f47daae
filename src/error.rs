//! The canonical error and the normalization of foreign errors into it.
use vstd::prelude::*;
use vstd::string::*;

verus! {

/// A foreign error as the framework sees it: its message, and the messages
/// of the chain of errors that caused it, nearest cause first.
#[derive(Debug, Clone, PartialEq, Eq)]
pub struct ErrorReport {
    pub message: String,
    pub causes: Vec<String>,
}

impl ErrorReport {
    /// A report with the given message and no cause.
    pub fn new(message: String) -> (r: ErrorReport)
        ensures
            r.message == message,
            r.causes@.len() == 0,
    {
        ErrorReport { message, causes: Vec::new() }
    }
}

/// The framework's canonical error.
#[derive(Debug, Clone, PartialEq, Eq)]
pub enum Error {
    /// An error raised by framework code itself.
    Custom { message: String },
    /// A foreign error that crossed into the framework from a stage.
    MiddlewareWrapped { source: ErrorReport },
}

/// What a stage's error is to the framework: foreign, or already canonical.
#[derive(Debug, Clone, PartialEq, Eq)]
pub enum Fault {
    Foreign(ErrorReport),
    Canonical(Error),
}

/// An error type that a stage may fail with.
pub trait IntoFault: Sized {
    /// How this error is classified.
    spec fn fault(&self) -> Fault;

    fn into_fault(self) -> (r: Fault)
        ensures
            r == self.fault(),
    ;
}

impl IntoFault for ErrorReport {
    open spec fn fault(&self) -> Fault {
        Fault::Foreign(*self)
    }

    fn into_fault(self) -> (r: Fault) {
        Fault::Foreign(self)
    }
}

impl IntoFault for Error {
    open spec fn fault(&self) -> Fault {
        Fault::Canonical(*self)
    }

    fn into_fault(self) -> (r: Fault) {
        Fault::Canonical(self)
    }
}

impl IntoFault for Fault {
    open spec fn fault(&self) -> Fault {
        *self
    }

    fn into_fault(self) -> (r: Fault) {
        self
    }
}

/// The canonical error that a fault normalizes to: a foreign error becomes the
/// cause of a `MiddlewareWrapped` error, a canonical one is left as it is.
pub open spec fn normalized(f: Fault) -> Error {
    match f {
        Fault::Foreign(report) => Error::MiddlewareWrapped { source: report },
        Fault::Canonical(e) => e,
    }
}

/// Converts a stage's error into the canonical error. An error that is already
/// canonical passes through unchanged, so errors are never wrapped twice.
pub fn map_err<E: IntoFault>(error: E) -> (r: Error)
    ensures
        r == normalized(error.fault()),
{
    match error.into_fault() {
        Fault::Foreign(report) => Error::MiddlewareWrapped { source: report },
        Fault::Canonical(e) => e,
    }
}

/// The text in front of a wrapped error's message.
pub open spec fn wrapped_prefix() -> Seq<char> {
    "error in middleware: "@
}

/// The display text of a canonical error.
pub open spec fn display(e: Error) -> Seq<char> {
    match e {
        Error::Custom { message } => message@,
        Error::MiddlewareWrapped { source } => wrapped_prefix() + source.message@,
    }
}

impl Error {
    /// The human-readable text of this error.
    pub fn to_string(&self) -> (r: String)
        ensures
            r@ == display(*self),
    {
        match self {
            Error::Custom { message } => message.clone(),
            Error::MiddlewareWrapped { source } => {
                proof {
                    reveal_strlit("error in middleware: ");
                }
                let text = String::from_str("error in middleware: ");
                text.concat(source.message.as_str())
            },
        }
    }

    /// The error that caused this one: the foreign error a wrapped error carries.
    pub fn source(&self) -> (r: Option<&ErrorReport>)
        ensures
            match *self {
                Error::MiddlewareWrapped { source } => r == Some(&source),
                Error::Custom { .. } => r is None,
            },
    {
        match self {
            Error::MiddlewareWrapped { source } => Some(source),
            Error::Custom { .. } => None,
        }
    }
}

/// The foreign error that a canonical error carries as its cause.
pub open spec fn source_of(e: Error) -> Option<ErrorReport> {
    match e {
        Error::MiddlewareWrapped { source } => Some(source),
        Error::Custom { .. } => None,
    }
}

/// Wrapping a foreign error keeps it whole: the canonical error's text ends
/// with the foreign message, and its cause is the foreign error itself.
pub proof fn lemma_error_round_trip(report: ErrorReport)
    ensures
        ({
            let e = normalized(report.fault());
            let text = display(e);
            &&& text.len() >= report.message@.len()
            &&& text.subrange(text.len() - report.message@.len(), text.len() as int)
                == report.message@
            &&& source_of(e) == Some(report)
        }),
{
    let e = normalized(report.fault());
    assert(display(e).subrange(wrapped_prefix().len() as int, display(e).len() as int)
        =~= report.message@);
}

/// Normalizing an error that was already normalized changes nothing, so a
/// foreign error is wrapped once however many adapters it crosses.
pub proof fn lemma_no_double_wrap<E: IntoFault>(error: E)
    ensures
        normalized(normalized(error.fault()).fault()) == normalized(error.fault()),
        normalized(error.fault()) is MiddlewareWrapped ==> error.fault() is Foreign
            || error.fault()->Canonical_0 is MiddlewareWrapped,
{
}

} // verus!
