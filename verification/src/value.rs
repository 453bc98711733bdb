//! The value model: what a configuration document is once the grammar engine
//! has resolved it.
//!
//! [`Value`] is the executable tree; [`ValueModel`] is the mathematical tree
//! that contracts speak of. A real number is held as the 64 bits of its
//! IEEE 754 encoding, so the tree has exact equality.

use vstd::prelude::*;
use crate::keyed::{distinct_keys, Key};

verus! {

/// A configuration document as a mathematical tree.
pub enum ValueModel {
    /// A real number, as the bits of its IEEE 754 double encoding.
    Real(u64),
    /// A 64-bit signed integer.
    Integer(i64),
    /// A text scalar.
    Text(Seq<char>),
    /// A truth value.
    Boolean(bool),
    /// An ordered sequence of documents.
    Array(Seq<ValueModel>),
    /// Keyed documents, in the order the engine lists them.
    Hash(Seq<(Key, ValueModel)>),
    /// The absence of a value.
    Null,
    /// A node that could not be resolved, with the engine's description of
    /// what went wrong. The rest of the document stands.
    BadValue(Seq<char>),
}

impl ValueModel {
    /// Whether no hash in this document, at any depth, holds a key twice.
    pub open spec fn well_formed(self) -> bool
        decreases self,
    {
        match self {
            ValueModel::Array(items) => forall|i: int|
                0 <= i < items.len() ==> (#[trigger] items[i]).well_formed(),
            ValueModel::Hash(entries) => {
                &&& distinct_keys(entries)
                &&& forall|i: int|
                    0 <= i < entries.len() ==> (#[trigger] entries[i]).1.well_formed()
            },
            _ => true,
        }
    }
}

/// A configuration document.
#[derive(Debug, PartialEq)]
pub enum Value {
    /// A real number, as the bits of its IEEE 754 double encoding.
    Real(u64),
    /// A 64-bit signed integer.
    Integer(i64),
    /// A text scalar.
    String(String),
    /// A truth value.
    Boolean(bool),
    /// An ordered sequence of documents.
    Array(Vec<Value>),
    /// Keyed documents, in the order the engine lists them.
    Hash(Vec<(String, Value)>),
    /// The absence of a value.
    Null,
    /// A node that could not be resolved, with the engine's description of
    /// what went wrong. The rest of the document stands.
    BadValue(String),
}

/// The mathematical tree that an executable document stands for.
pub open spec fn value_model(value: Value) -> ValueModel
    decreases value,
{
    match value {
        Value::Real(bits) => ValueModel::Real(bits),
        Value::Integer(n) => ValueModel::Integer(n),
        Value::String(s) => ValueModel::Text(s@),
        Value::Boolean(b) => ValueModel::Boolean(b),
        Value::Array(items) => ValueModel::Array(items_model(items@)),
        Value::Hash(entries) => ValueModel::Hash(entries_model(entries@)),
        Value::Null => ValueModel::Null,
        Value::BadValue(message) => ValueModel::BadValue(message@),
    }
}

/// The items of an array, each by its view.
pub open spec fn items_model(items: Seq<Value>) -> Seq<ValueModel>
    decreases items,
{
    Seq::new(
        items.len(),
        |i: int|
            if 0 <= i < items.len() {
                value_model(items[i])
            } else {
                ValueModel::Null
            },
    )
}

/// The entries of a hash, each key and each value by its view.
pub open spec fn entries_model(entries: Seq<(String, Value)>) -> Seq<(Key, ValueModel)>
    decreases entries,
{
    Seq::new(
        entries.len(),
        |i: int|
            if 0 <= i < entries.len() {
                (entries[i].0@, value_model(entries[i].1))
            } else {
                (Seq::empty(), ValueModel::Null)
            },
    )
}

impl View for Value {
    type V = ValueModel;

    open spec fn view(&self) -> ValueModel {
        value_model(*self)
    }
}

} // verus!
