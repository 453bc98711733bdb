//! The loader: documents as the grammar engine resolves them.
//!
//! The engine is the `hocon` crate. Its values are opaque here; the loader
//! reads them one level at a time and rebuilds them as [`Value`] trees.
//!
//! A text is read twice. The strict reading tells whether the text can be
//! read to its end; the lenient reading resolves it and puts what could not
//! be resolved at its place in the document. Both are made with a new loader,
//! and the lenient one with substitution from the process environment
//! switched off, so that what comes back is settled by the text alone.
//!
//! The engine is handed [`loadable`] texts only: on others it may panic or not
//! come back.

use vstd::prelude::*;
use hocon::{Error, Hocon, HoconLoader};
use crate::failure::{is_syntax, verdict, Cause, LoadError};
use crate::text::loadable;
use crate::keyed::distinct_keys;
use crate::value::{Value, ValueModel};

verus! {

/// `hocon::Hocon`, a resolved document as the engine holds it.
#[verifier::external_type_specification]
#[verifier::external_body]
pub struct ExHocon(Hocon);

/// `hocon::Error`, the engine's error.
#[verifier::external_type_specification]
#[verifier::external_body]
pub struct ExError(Error);

/// `hocon::HoconLoader`, the engine's loader with the sources given to it.
#[verifier::external_type_specification]
#[verifier::external_body]
pub struct ExHoconLoader(HoconLoader);

/// The document that an engine value holds: its variants and payloads read
/// as a tree, a real number by its bits and an error by its display text.
pub uninterp spec fn document_of(h: Hocon) -> ValueModel;

/// The cause that an engine error names: which of its variants it is.
pub uninterp spec fn error_cause(e: Error) -> Cause;

/// The display text of an engine error.
pub uninterp spec fn error_text(e: Error) -> Seq<char>;

/// What the engine's strict reading of a text ends in: nothing where it reads
/// the text to its end, else the cause and the text of the error it stops on.
pub uninterp spec fn strict_reading(text: Seq<char>) -> Option<(Cause, Seq<char>)>;

/// What the engine's lenient reading of a text, with the environment
/// switched off, ends in: the document that it resolves the text to, or the
/// cause and the text of the error it fails with.
pub uninterp spec fn lenient_reading(text: Seq<char>) -> Result<ValueModel, (Cause, Seq<char>)>;

/// The syntax error of a text, by cause and text, where its strict reading
/// ends in one.
pub open spec fn syntax_fault(text: Seq<char>) -> Option<(Cause, Seq<char>)> {
    match strict_reading(text) {
        Some(found) => if is_syntax(found.0) {
            Some(found)
        } else {
            None
        },
        None => None,
    }
}

/// What loading a text ends in: its syntax error where it has one, else what
/// its lenient reading ends in.
pub open spec fn loading(text: Seq<char>) -> Result<ValueModel, (Cause, Seq<char>)> {
    match syntax_fault(text) {
        Some(found) => Err(found),
        None => lenient_reading(text),
    }
}

/// One level of an engine value: its variant and payload, with the values
/// nested in it still as the engine holds them.
enum Node<'a> {
    Real(u64),
    Integer(i64),
    Text(&'a String),
    Boolean(bool),
    Array(&'a Vec<Hocon>),
    Hash(Vec<(&'a String, &'a Hocon)>),
    Null,
    BadValue(&'a Error),
}

impl<'a> Node<'a> {
    /// The document that this level stands for, given what the nested values
    /// hold.
    spec fn model(self) -> ValueModel {
        match self {
            Node::Real(bits) => ValueModel::Real(bits),
            Node::Integer(n) => ValueModel::Integer(n),
            Node::Text(s) => ValueModel::Text(s@),
            Node::Boolean(b) => ValueModel::Boolean(b),
            Node::Array(items) => ValueModel::Array(
                Seq::new(items.len() as nat, |i: int| document_of(items[i])),
            ),
            Node::Hash(entries) => ValueModel::Hash(
                Seq::new(
                    entries.len() as nat,
                    |i: int| (entries[i].0@, document_of(*entries[i].1)),
                ),
            ),
            Node::Null => ValueModel::Null,
            Node::BadValue(e) => ValueModel::BadValue(error_text(*e)),
        }
    }
}

/// Opens one level of an engine value by matching on `hocon::Hocon`.
///
/// Trusted: the result has the variant of `h` and its payload, one for one. A
/// real number is given by its `to_bits`, and the entries of a hash in the
/// order of `LinkedHashMap::iter`, which lists every key once. The contract
/// says that this level, read with what the nested values hold and with an
/// error by its display text, is what `h` holds, and that a hash holds no key
/// twice.
#[verifier::external_body]
fn open<'a>(h: &'a Hocon) -> (node: Node<'a>)
    ensures
        node.model() == document_of(*h),
        node matches Node::Hash(_) ==> distinct_keys(node.model()->Hash_0),
{
    match h {
        Hocon::Real(x) => Node::Real(x.to_bits()),
        Hocon::Integer(n) => Node::Integer(*n),
        Hocon::String(s) => Node::Text(s),
        Hocon::Boolean(b) => Node::Boolean(*b),
        Hocon::Array(items) => Node::Array(items),
        Hocon::Hash(entries) => Node::Hash(entries.iter().collect()),
        Hocon::Null => Node::Null,
        Hocon::BadValue(e) => Node::BadValue(e),
    }
}

/// Rebuilds an engine value as a document of this library.
pub fn lift(h: &Hocon) -> (value: Value)
    ensures
        value@ == document_of(*h),
        value@.well_formed(),
    decreases document_of(*h),
{
    let node = open(h);
    match node {
        Node::Real(bits) => Value::Real(bits),
        Node::Integer(n) => Value::Integer(n),
        Node::Text(s) => Value::String(s.clone()),
        Node::Boolean(b) => Value::Boolean(b),
        Node::Array(items) => {
            let ghost held = document_of(*h)->Array_0;
            let mut out: Vec<Value> = Vec::new();
            let mut i: usize = 0;
            while i < items.len()
                invariant
                    i <= items.len(),
                    out.len() == i,
                    document_of(*h) == ValueModel::Array(held),
                    held.len() == items.len(),
                    forall|j: int| 0 <= j < items.len() ==> held[j] == document_of(#[trigger] items[j]),
                    forall|j: int| 0 <= j < i ==> (#[trigger] out[j])@ == held[j],
                    forall|j: int| 0 <= j < i ==> (#[trigger] out[j])@.well_formed(),
                decreases items.len() - i,
            {
                proof {
                    assert(decreases_to!(document_of(*h) => document_of(*h)->Array_0));
                    assert(decreases_to!(held => held[i as int]));
                }
                let item = lift(&items[i]);
                out.push(item);
                i += 1;
            }
            let value = Value::Array(out);
            assert(value@->Array_0 =~= held);
            value
        },
        Node::Hash(entries) => {
            let ghost held = document_of(*h)->Hash_0;
            let mut out: Vec<(String, Value)> = Vec::new();
            let mut i: usize = 0;
            while i < entries.len()
                invariant
                    i <= entries.len(),
                    out.len() == i,
                    document_of(*h) == ValueModel::Hash(held),
                    held.len() == entries.len(),
                    forall|j: int|
                        0 <= j < entries.len() ==> held[j] == ((#[trigger] entries[j]).0@, document_of(
                            *entries[j].1,
                        )),
                    forall|j: int|
                        0 <= j < i ==> ((#[trigger] out[j]).0@, out[j].1@) == held[j],
                    forall|j: int| 0 <= j < i ==> (#[trigger] out[j]).1@.well_formed(),
                decreases entries.len() - i,
            {
                proof {
                    assert(decreases_to!(document_of(*h) => document_of(*h)->Hash_0));
                    assert(decreases_to!(held => held[i as int]));
                    assert(decreases_to!(held[i as int] => held[i as int].1));
                }
                let key = entries[i].0.clone();
                let item = lift(entries[i].1);
                out.push((key, item));
                i += 1;
            }
            let value = Value::Hash(out);
            assert(value@->Hash_0 =~= held);
            value
        },
        Node::Null => Value::Null,
        Node::BadValue(e) => Value::BadValue(text_of(e)),
    }
}

/// Tells the variants of `hocon::Error` apart, one for one.
///
/// Trusted: the result is the cause of the same name as the variant of `e`.
#[verifier::external_body]
fn cause_of(e: &Error) -> (cause: Cause)
    ensures
        cause == error_cause(*e),
{
    match e {
        Error::Io { .. } => Cause::Io,
        Error::File { .. } => Cause::File,
        Error::Parse => Cause::Parse,
        Error::Include { .. } => Cause::Include,
        Error::TooManyIncludes => Cause::TooManyIncludes,
        Error::IncludeNotAllowedFromStr => Cause::IncludeNotAllowedFromStr,
        Error::DisabledExternalUrl => Cause::DisabledExternalUrl,
        Error::KeyNotFound { .. } => Cause::KeyNotFound,
        Error::MissingKey => Cause::MissingKey,
        Error::InvalidKey => Cause::InvalidKey,
        Error::Deserialization { .. } => Cause::Deserialization,
    }
}

/// The display text of an engine error, by the `Display` of `hocon::Error`.
///
/// Trusted: the text is made from the error's variant and fields alone.
#[verifier::external_body]
fn text_of(e: &Error) -> (text: String)
    ensures
        text@ == error_text(*e),
{
    e.to_string()
}

/// Reads `input` with a new loader in strict mode, by `HoconLoader::new`,
/// `HoconLoader::strict` and `HoconLoader::load_str`, and keeps the error.
///
/// Trusted: whether the strict reading stops on an error, and on which, is
/// settled by the text alone. A new loader has no file to include from, and
/// nothing else is read before a document is resolved. On a loadable text
/// the reading returns.
#[verifier::external_body]
fn read_strictly(input: &str) -> (r: Option<Error>)
    requires
        loadable(input@),
    ensures
        match r {
            Some(e) => strict_reading(input@) == Some((error_cause(e), error_text(e))),
            None => strict_reading(input@) is None,
        },
{
    HoconLoader::new().strict().load_str(input).err()
}

/// Reads and resolves `input` with a new loader that does not look into the
/// process environment, by `HoconLoader::new`, `HoconLoader::no_system`,
/// `HoconLoader::load_str` and `HoconLoader::hocon`.
///
/// Trusted: the outcome is settled by the text alone. A new loader has no
/// file to include from, and with the environment switched off a substitution
/// is filled from the document or not at all. On a loadable text the reading
/// returns.
#[verifier::external_body]
fn read_leniently(input: &str) -> (r: Result<Hocon, Error>)
    requires
        loadable(input@),
    ensures
        match r {
            Ok(h) => lenient_reading(input@) == Ok::<ValueModel, (Cause, Seq<char>)>(
                document_of(h),
            ),
            Err(e) => lenient_reading(input@) == Err::<ValueModel, (Cause, Seq<char>)>(
                (error_cause(e), error_text(e)),
            ),
        },
{
    HoconLoader::new().no_system().load_str(input).and_then(HoconLoader::hocon)
}

/// The load error for an engine error: its cause and its display text.
pub fn load_error(e: &Error) -> (error: LoadError)
    ensures
        error.cause == error_cause(*e),
        error.message@ == error_text(*e),
{
    LoadError { cause: cause_of(e), message: text_of(e) }
}

/// What the engine handed back, in this library's types: a document rebuilt,
/// an error by its cause and text.
pub fn receive(loaded: Result<Hocon, Error>) -> (r: Result<Value, LoadError>)
    ensures
        match loaded {
            Ok(h) => r matches Ok(value) && value@ == document_of(h) && value@.well_formed(),
            Err(e) => r matches Err(error) && error.cause == error_cause(e) && error.message@
                == error_text(e),
        },
{
    match loaded {
        Ok(h) => Ok(lift(&h)),
        Err(e) => Err(load_error(&e)),
    }
}

/// Reads `input` strictly, to its end, and gives its syntax error if it has
/// one.
///
/// The engine's lenient reading stops at the first place it cannot read and
/// keeps what it has; only its strict reading tells that something was left.
/// An error of the strict reading that is no syntax error is one node's
/// trouble and is passed over here.
pub fn syntax_error(input: &str) -> (r: Option<LoadError>)
    requires
        loadable(input@),
    ensures
        match r {
            Some(error) => syntax_fault(input@) == Some((error.cause, error.message@)),
            None => syntax_fault(input@) is None,
        },
{
    match read_strictly(input) {
        None => None,
        Some(e) => verdict(load_error(&e)),
    }
}

/// Loads `input` as document text. A text with a syntax error is a load
/// error, with the cause and text of that error. Otherwise the result is what
/// the engine's lenient reading ends in: the document, rebuilt as a
/// [`Value`], or the load error with the cause and text of the engine's
/// error. A document that comes back holds no key twice in any of its hashes.
pub fn load_from_text(input: &str) -> (r: Result<Value, LoadError>)
    requires
        loadable(input@),
    ensures
        match loading(input@) {
            Ok(document) => r matches Ok(value) && value@ == document && document.well_formed(),
            Err(found) => r matches Err(error) && error.cause == found.0 && error.message@
                == found.1,
        },
{
    match syntax_error(input) {
        Some(error) => Err(error),
        None => receive(read_leniently(input)),
    }
}

} // verus!
