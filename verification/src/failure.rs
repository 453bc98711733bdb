//! Failures: why a load failed, and what the host is told.

use vstd::prelude::*;

verus! {

/// What went wrong, as the engine classes it.
#[derive(Debug, Clone, Copy, PartialEq, Eq)]
pub enum Cause {
    /// An input or output operation failed.
    Io,
    /// A file could not be read.
    File,
    /// The text is no document.
    Parse,
    /// A document could not be included.
    Include,
    /// Includes are nested too deeply.
    TooManyIncludes,
    /// A text that was not read from a file asks for an include.
    IncludeNotAllowedFromStr,
    /// An include names an address, and fetching addresses is switched off.
    DisabledExternalUrl,
    /// A substitution names a key that the document does not hold.
    KeyNotFound,
    /// A value was asked for under a key that is not there.
    MissingKey,
    /// A value was asked for under a key of the wrong kind.
    InvalidKey,
    /// The text could not be read to its end.
    Deserialization,
}

/// Why no document could be loaded at all: the source could not be read, or
/// its text is no document.
#[derive(Debug, PartialEq, Eq)]
pub struct LoadError {
    /// What went wrong.
    pub cause: Cause,
    /// The engine's diagnostic text.
    pub message: String,
}

/// The one kind of failure that the host is told of. Whatever made the load
/// fail, the host receives this, with the diagnostic text as it was.
#[derive(Debug, PartialEq, Eq)]
pub struct ReportedFailure {
    /// The diagnostic text, as the load error carried it.
    pub message: String,
}

/// Whether a cause says that the text itself is at fault: it is no document,
/// or it stops being one before its end.
pub open spec fn is_syntax(cause: Cause) -> bool {
    cause is Parse || cause is Deserialization
}

/// Decides whether a cause says that the text itself is at fault.
pub fn is_syntax_error(cause: Cause) -> (b: bool)
    ensures
        b == is_syntax(cause),
{
    match cause {
        Cause::Parse => true,
        Cause::Deserialization => true,
        _ => false,
    }
}

/// What an error of the strict reading means for the load. A syntax error
/// ends it. Any other error is one node's trouble, which the resolving load
/// will put at its place in the document.
pub fn verdict(error: LoadError) -> (r: Option<LoadError>)
    ensures
        r == if is_syntax(error.cause) {
            Some(error)
        } else {
            None
        },
{
    if is_syntax_error(error.cause) {
        Some(error)
    } else {
        None
    }
}

/// Turns a load error into the failure that the host is told of. The text is
/// kept as it is, and the cause is no longer told apart.
pub fn to_reported(e: LoadError) -> (failure: ReportedFailure)
    ensures
        failure.message == e.message,
{
    ReportedFailure { message: e.message }
}

/// Passes a success through and reports a load error.
pub fn map_err<T>(value: Result<T, LoadError>) -> (r: Result<T, ReportedFailure>)
    ensures
        match value {
            Ok(t) => r == Ok::<T, ReportedFailure>(t),
            Err(e) => r matches Err(failure) && failure.message == e.message,
        },
{
    match value {
        Ok(t) => Ok(t),
        Err(e) => Err(to_reported(e)),
    }
}

} // verus!
