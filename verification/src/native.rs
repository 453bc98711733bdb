//! The native side: the dynamic values that a host program receives.
//!
//! [`NativeObject`] is the executable value; [`NativeModel`] is the
//! mathematical value that contracts speak of. A mapping keeps its entries in
//! the order in which its keys first arrived and holds no key twice.

use vstd::prelude::*;
use crate::keyed::{distinct_keys, is_key_index, lemma_key_index, put, Key};

verus! {

/// A dynamic value of the host, as a mathematical tree.
pub enum NativeModel {
    /// A floating-point number, as the bits of its IEEE 754 double encoding.
    Float(u64),
    /// An integer.
    Integer(int),
    /// A text.
    Text(Seq<char>),
    /// A truth value.
    Boolean(bool),
    /// An ordered sequence.
    List(Seq<NativeModel>),
    /// A mapping from text keys to values.
    Mapping(Seq<(Key, NativeModel)>),
    /// The host's null value.
    Null,
    /// An error object that carries a message. It is a value like any other:
    /// nothing is raised.
    Error(Seq<char>),
}

impl NativeModel {
    /// Whether no mapping in this value, at any depth, holds a key twice.
    pub open spec fn well_formed(self) -> bool
        decreases self,
    {
        match self {
            NativeModel::List(items) => forall|i: int|
                0 <= i < items.len() ==> (#[trigger] items[i]).well_formed(),
            NativeModel::Mapping(entries) => {
                &&& distinct_keys(entries)
                &&& forall|i: int|
                    0 <= i < entries.len() ==> (#[trigger] entries[i]).1.well_formed()
            },
            _ => true,
        }
    }
}

/// A dynamic value of the host.
#[derive(Debug, PartialEq)]
pub enum NativeObject {
    /// A floating-point number, as the bits of its IEEE 754 double encoding.
    Float(u64),
    /// An integer.
    Integer(i64),
    /// A text.
    Text(String),
    /// A truth value.
    Boolean(bool),
    /// An ordered sequence.
    List(Vec<NativeObject>),
    /// A mapping from text keys to values, in the order in which the keys
    /// first arrived.
    Mapping(Vec<(String, NativeObject)>),
    /// The host's null value.
    Null,
    /// An error object that carries a message. It is a value like any other:
    /// nothing is raised.
    Error(String),
}

/// The mathematical value that an executable value stands for.
pub open spec fn native_model(object: NativeObject) -> NativeModel
    decreases object,
{
    match object {
        NativeObject::Float(bits) => NativeModel::Float(bits),
        NativeObject::Integer(n) => NativeModel::Integer(n as int),
        NativeObject::Text(s) => NativeModel::Text(s@),
        NativeObject::Boolean(b) => NativeModel::Boolean(b),
        NativeObject::List(items) => NativeModel::List(items_view(items@)),
        NativeObject::Mapping(entries) => NativeModel::Mapping(entries_view(entries@)),
        NativeObject::Null => NativeModel::Null,
        NativeObject::Error(message) => NativeModel::Error(message@),
    }
}

/// The items of a list, each by its view.
pub open spec fn items_view(items: Seq<NativeObject>) -> Seq<NativeModel>
    decreases items,
{
    Seq::new(
        items.len(),
        |i: int|
            if 0 <= i < items.len() {
                native_model(items[i])
            } else {
                NativeModel::Null
            },
    )
}

/// The entries of a mapping, each key and each value by its view.
pub open spec fn entries_view(entries: Seq<(String, NativeObject)>) -> Seq<(Key, NativeModel)>
    decreases entries,
{
    Seq::new(
        entries.len(),
        |i: int|
            if 0 <= i < entries.len() {
                (entries[i].0@, native_model(entries[i].1))
            } else {
                (Seq::empty(), NativeModel::Null)
            },
    )
}

impl View for NativeObject {
    type V = NativeModel;

    open spec fn view(&self) -> NativeModel {
        native_model(*self)
    }
}

/// Writes `value` under `key`. An entry that holds `key` keeps its place and
/// takes the new value; otherwise a new entry goes last.
pub fn set_item(entries: &mut Vec<(String, NativeObject)>, key: String, value: NativeObject)
    ensures
        entries_view(final(entries)@) == put(entries_view(old(entries)@), key@, value@),
{
    let ghost before = entries_view(entries@);
    let mut i: usize = 0;
    while i < entries.len()
        invariant
            i <= entries.len(),
            entries_view(entries@) == before,
            before == entries_view(old(entries)@),
            entries@.len() == before.len(),
            forall|j: int| 0 <= j < i ==> (#[trigger] before[j]).0 != key@,
        decreases entries.len() - i,
    {
        if entries[i].0 == key {
            proof {
                assert(before[i as int].0 == key@);
                assert(is_key_index(before, key@, i as int));
                lemma_key_index(before, key@);
            }
            entries.set(i, (key, value));
            assert(entries_view(entries@) =~= before.update(i as int, (key@, value@)));
            return ;
        }
        assert(before[i as int].0 != key@);
        i += 1;
    }
    proof {
        assert(is_key_index(before, key@, i as int));
        lemma_key_index(before, key@);
    }
    entries.push((key, value));
    assert(entries_view(entries@) =~= before.push((key@, value@)));
}

} // verus!
