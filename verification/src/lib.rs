//! A bridge from resolved configuration documents to the dynamic values of a
//! host program.
//!
//! A text that can be handed to the grammar engine ([`text`]) is loaded by it
//! ([`loader`]), held as a [`value::Value`] tree, and converted by
//! [`bridge::convert`] to a [`native::NativeObject`]. A load that fails is
//! reported as one [`failure::ReportedFailure`]; a node that could not be
//! resolved inside a document that did load is an error object inside the
//! result.

use vstd::prelude::*;

pub mod keyed;
pub mod value;
pub mod native;
pub mod bridge;
pub mod failure;
pub mod text;
pub mod loader;
pub mod laws;

use crate::bridge::{convert, native_of};
use crate::failure::{to_reported, LoadError, ReportedFailure};
use crate::loader::{load_from_text, loading};
use crate::text::{is_loadable, loadable};
use crate::native::NativeObject;
use crate::value::Value;

verus! {

/// What the caller receives for the outcome of a load: the native image of
/// the document, or the one reported failure with the load error's text.
pub fn present(loaded: Result<Value, LoadError>) -> (r: Result<NativeObject, ReportedFailure>)
    ensures
        match loaded {
            Ok(value) => r matches Ok(native) && native@ == native_of(value@)
                && native@.well_formed(),
            Err(e) => r matches Err(failure) && failure.message == e.message,
        },
{
    match loaded {
        Ok(value) => Ok(convert(&value)),
        Err(e) => Err(to_reported(e)),
    }
}

/// Whether `r` is what parsing `text` gives: the native image of the document
/// that loading ends in, or the reported failure with the text of the error
/// that loading ends in.
pub open spec fn is_parsed(text: Seq<char>, r: Result<NativeObject, ReportedFailure>) -> bool {
    match loading(text) {
        Ok(document) => r matches Ok(native) && native@ == native_of(document)
            && native@.well_formed(),
        Err(found) => r matches Err(failure) && failure.message@ == found.1,
    }
}

/// Loads `input` as document text and converts the document.
///
/// A text with a syntax error is a reported failure with the text of that
/// error. Otherwise the result follows the engine's lenient reading: the
/// native image of the document, or the reported failure with the text of the
/// engine's error. The result is settled by the text alone.
pub fn parse_string(input: &str) -> (r: Result<NativeObject, ReportedFailure>)
    requires
        loadable(input@),
    ensures
        is_parsed(input@, r),
{
    present(load_from_text(input))
}

/// Parses `input` where it can be handed to the engine, and says so where it
/// cannot.
pub fn try_parse_string(input: &str) -> (r: Option<Result<NativeObject, ReportedFailure>>)
    ensures
        match r {
            Some(outcome) => loadable(input@) && is_parsed(input@, outcome),
            None => !loadable(input@),
        },
{
    if is_loadable(input) {
        Some(parse_string(input))
    } else {
        None
    }
}

} // verus!
