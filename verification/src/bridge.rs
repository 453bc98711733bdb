//! The bridge: from a configuration document to the host's dynamic value.
//!
//! The bridge is total. Every document has exactly one native image, and a
//! node that could not be resolved becomes an error object at its place: data
//! like its siblings, so that one bad leaf never costs the caller the rest of
//! the document.

use vstd::prelude::*;
use crate::keyed::{assemble, Key};
use crate::laws::law_image_is_well_formed;
use crate::native::{entries_view, items_view, set_item, NativeModel, NativeObject};
use crate::value::{entries_model, items_model, Value, ValueModel};

verus! {

/// The native image of a document.
///
/// Scalars keep their kind and their exact value, an array becomes a list of
/// the images of its items in the same order, a hash becomes the mapping that
/// results from writing the images of its entries first to last, null becomes
/// the host's null, and an unresolved node becomes an error object with the
/// same message.
pub open spec fn native_of(value: ValueModel) -> NativeModel
    decreases value,
{
    match value {
        ValueModel::Real(bits) => NativeModel::Float(bits),
        ValueModel::Integer(n) => NativeModel::Integer(n as int),
        ValueModel::Text(s) => NativeModel::Text(s),
        ValueModel::Boolean(b) => NativeModel::Boolean(b),
        ValueModel::Array(items) => NativeModel::List(native_items(items)),
        ValueModel::Hash(entries) => NativeModel::Mapping(assemble(native_entries(entries))),
        ValueModel::Null => NativeModel::Null,
        ValueModel::BadValue(message) => NativeModel::Error(message),
    }
}

/// The images of the items of an array, in order.
pub open spec fn native_items(items: Seq<ValueModel>) -> Seq<NativeModel>
    decreases items,
{
    Seq::new(
        items.len(),
        |i: int|
            if 0 <= i < items.len() {
                native_of(items[i])
            } else {
                NativeModel::Null
            },
    )
}

/// The entries of a hash with each value replaced by its image, in order.
pub open spec fn native_entries(entries: Seq<(Key, ValueModel)>) -> Seq<(Key, NativeModel)>
    decreases entries,
{
    Seq::new(
        entries.len(),
        |i: int|
            if 0 <= i < entries.len() {
                (entries[i].0, native_of(entries[i].1))
            } else {
                (Seq::empty(), NativeModel::Null)
            },
    )
}

/// Converts a document to the host's dynamic value. Every document is
/// converted: there is no input on which this fails.
pub fn convert(value: &Value) -> (native: NativeObject)
    ensures
        native@ == native_of(value@),
        native@.well_formed(),
    decreases value,
{
    proof {
        law_image_is_well_formed(value@);
    }
    match value {
        Value::Real(bits) => NativeObject::Float(*bits),
        Value::Integer(n) => NativeObject::Integer(*n),
        Value::String(s) => NativeObject::Text(s.clone()),
        Value::Boolean(b) => NativeObject::Boolean(*b),
        Value::Array(items) => {
            let mut out: Vec<NativeObject> = Vec::new();
            let mut i: usize = 0;
            while i < items.len()
                invariant
                    i <= items.len(),
                    out.len() == i,
                    *value == Value::Array(*items),
                    forall|j: int| 0 <= j < i ==> (#[trigger] out[j])@ == native_of(items[j]@),
                decreases items.len() - i,
            {
                proof {
                    // The item is below the items, which are below the array.
                    assert(decreases_to!(*value => value->Array_0));
                    assert(decreases_to!(*items => items[i as int]));
                }
                let item = convert(&items[i]);
                out.push(item);
                i += 1;
            }
            assert(items_view(out@) =~= native_items(items_model(items@)));
            NativeObject::List(out)
        },
        Value::Hash(entries) => {
            let mut out: Vec<(String, NativeObject)> = Vec::new();
            let ghost images = native_entries(entries_model(entries@));
            let mut i: usize = 0;
            while i < entries.len()
                invariant
                    i <= entries.len(),
                    *value == Value::Hash(*entries),
                    images == native_entries(entries_model(entries@)),
                    entries_view(out@) == assemble(images.take(i as int)),
                decreases entries.len() - i,
            {
                let key = entries[i].0.clone();
                proof {
                    // The value is below its entry, which is below the hash.
                    assert(decreases_to!(*value => value->Hash_0));
                    assert(decreases_to!(*entries => entries[i as int]));
                }
                let item = convert(&entries[i].1);
                proof {
                    assert(images.take(i + 1).drop_last() =~= images.take(i as int));
                    assert(images.take(i + 1).last() == (key@, item@));
                }
                set_item(&mut out, key, item);
                i += 1;
            }
            assert(images.take(i as int) =~= images);
            NativeObject::Mapping(out)
        },
        Value::Null => NativeObject::Null,
        Value::BadValue(message) => NativeObject::Error(message.clone()),
    }
}

} // verus!
