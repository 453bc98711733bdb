//! What holds of the bridge for every document.

use vstd::prelude::*;
use crate::bridge::{native_entries, native_items, native_of};
use crate::keyed::{
    assemble, distinct_keys, has_key, is_last_write, key_index, lemma_assemble_distinct,
    lemma_assemble_distinct_keys, lemma_assemble_has_key, lemma_assemble_lookup, lemma_key_index,
    lookup, Key,
};
use crate::native::NativeModel;
use crate::value::ValueModel;

verus! {

/// Every document has an image, and no mapping in it, at any depth, holds a
/// key twice. This holds whatever the document holds, unresolved nodes at any
/// depth and hashes with repeated keys included.
pub proof fn law_image_is_well_formed(document: ValueModel)
    ensures
        native_of(document).well_formed(),
    decreases document,
{
    match document {
        ValueModel::Array(items) => {
            let images = native_items(items);
            assert forall|i: int| 0 <= i < images.len() implies (#[trigger] images[i]).well_formed() by {
                law_image_is_well_formed(items[i]);
            }
        },
        ValueModel::Hash(entries) => {
            let images = native_entries(entries);
            assert forall|i: int| 0 <= i < images.len() implies (#[trigger] images[i]).1.well_formed() by {
                law_image_is_well_formed(entries[i].1);
            }
            lemma_assemble_values(images);
            lemma_assemble_distinct_keys(images);
        },
        _ => {},
    }
}

/// Every value of an assembled mapping is one of the values written.
proof fn lemma_assemble_values(entries: Seq<(Key, NativeModel)>)
    requires
        forall|i: int| 0 <= i < entries.len() ==> (#[trigger] entries[i]).1.well_formed(),
    ensures
        forall|i: int|
            0 <= i < assemble(entries).len() ==> (#[trigger] assemble(entries)[i]).1.well_formed(),
    decreases entries.len(),
{
    if entries.len() > 0 {
        let front = entries.drop_last();
        assert forall|i: int| 0 <= i < front.len() implies (#[trigger] front[i]).1.well_formed() by {
            assert(entries[i].1.well_formed());
        }
        lemma_assemble_values(front);
        let last = entries[entries.len() - 1];
        assert(last.1.well_formed());
        let before = assemble(front);
        let after = assemble(entries);
        lemma_key_index(before, last.0);
        let k = key_index(before, last.0);
        assert forall|i: int| 0 <= i < after.len() implies (#[trigger] after[i]).1.well_formed() by {
            if i != k {
                assert(after[i] == before[i]);
            }
        }
    }
}

/// The image of an array is a list of the same length, and its item at each
/// place is the image of the array's item at that place.
pub proof fn law_array_keeps_length_and_order(items: Seq<ValueModel>)
    ensures
        native_of(ValueModel::Array(items)) matches NativeModel::List(images) && {
            &&& images.len() == items.len()
            &&& forall|i: int| 0 <= i < items.len() ==> images[i] == native_of(#[trigger] items[i])
        },
{
}

/// The image of a hash is a mapping with exactly the keys of the hash.
pub proof fn law_mapping_keeps_key_set(entries: Seq<(Key, ValueModel)>, key: Key)
    ensures
        native_of(ValueModel::Hash(entries)) matches NativeModel::Mapping(images) && (has_key(
            images,
            key,
        ) <==> has_key(entries, key)),
{
    let images = native_entries(entries);
    lemma_assemble_has_key(images, key);
    if has_key(images, key) {
        let i = choose|i: int| 0 <= i < images.len() && (#[trigger] images[i]).0 == key;
        assert(entries[i].0 == key);
    }
    if has_key(entries, key) {
        let i = choose|i: int| 0 <= i < entries.len() && (#[trigger] entries[i]).0 == key;
        assert(images[i].0 == key);
    }
}

/// Where a hash holds a key more than once, the last write wins: the mapping
/// holds under each key the image of the value that stands last under it.
pub proof fn law_last_write_wins(entries: Seq<(Key, ValueModel)>, i: int)
    requires
        0 <= i < entries.len(),
        is_last_write(entries, i),
    ensures
        native_of(ValueModel::Hash(entries)) matches NativeModel::Mapping(images) && lookup(
            images,
            entries[i].0,
        ) == Some(native_of(entries[i].1)),
{
    let images = native_entries(entries);
    assert forall|j: int| i < j < images.len() implies (#[trigger] images[j]).0 != images[i].0 by {
        assert(entries[j].0 != entries[i].0);
    }
    lemma_assemble_lookup(images, i);
}

/// A hash that holds no key twice is converted entry by entry: the mapping
/// has the same keys in the same order, and under each key the image of that
/// entry's value. So what one entry holds, an unresolved node for one, has
/// no bearing on the image of any other entry.
pub proof fn law_entries_convert_independently(entries: Seq<(Key, ValueModel)>)
    requires
        distinct_keys(entries),
    ensures
        native_of(ValueModel::Hash(entries)) matches NativeModel::Mapping(images) && {
            &&& images.len() == entries.len()
            &&& forall|i: int|
                0 <= i < entries.len() ==> images[i] == ((#[trigger] entries[i]).0, native_of(
                    entries[i].1,
                ))
        },
{
    let images = native_entries(entries);
    assert forall|i: int, j: int| 0 <= i < j < images.len() implies (#[trigger] images[i]).0 != (
    #[trigger] images[j]).0 by {
        assert(entries[i].0 != entries[j].0);
    }
    lemma_assemble_distinct(images);
}

/// Scalars keep their kind and their exact value. An integer becomes the
/// integer of the same value, a real number the floating-point number of the
/// same bits, a text the same text, a truth value the same truth value. The
/// image is an integer only for an integer and a floating-point number only
/// for a real number: neither is ever turned into the other.
pub proof fn law_scalars_are_kept(document: ValueModel)
    ensures
        document matches ValueModel::Integer(n) ==> native_of(document) == NativeModel::Integer(
            n as int,
        ),
        document matches ValueModel::Real(bits) ==> native_of(document) == NativeModel::Float(bits),
        document matches ValueModel::Text(s) ==> native_of(document) == NativeModel::Text(s),
        document matches ValueModel::Boolean(b) ==> native_of(document) == NativeModel::Boolean(b),
        native_of(document) is Integer <==> document is Integer,
        native_of(document) is Float <==> document is Real,
        native_of(document) is Text <==> document is Text,
        native_of(document) is Boolean <==> document is Boolean,
{
}

/// Null becomes the host's null, and nothing else does. This is so at the
/// root and at every place inside an array or a hash, since items and entries
/// are converted by the same rule.
pub proof fn law_null_is_null(document: ValueModel)
    ensures
        native_of(document) is Null <==> document is Null,
{
}

/// An unresolved node becomes an error object with the same message, and
/// nothing else becomes an error object.
pub proof fn law_unresolved_node_is_an_error_object(document: ValueModel)
    ensures
        document matches ValueModel::BadValue(message) ==> native_of(document)
            == NativeModel::Error(message),
        native_of(document) is Error <==> document is BadValue,
{
}

/// The document that a native value is the image of.
pub open spec fn source_of(native: NativeModel) -> ValueModel
    decreases native,
{
    match native {
        NativeModel::Float(bits) => ValueModel::Real(bits),
        NativeModel::Integer(n) => ValueModel::Integer(n as i64),
        NativeModel::Text(s) => ValueModel::Text(s),
        NativeModel::Boolean(b) => ValueModel::Boolean(b),
        NativeModel::List(items) => ValueModel::Array(source_items(items)),
        NativeModel::Mapping(entries) => ValueModel::Hash(source_entries(entries)),
        NativeModel::Null => ValueModel::Null,
        NativeModel::Error(message) => ValueModel::BadValue(message),
    }
}

/// The documents that the items of a list are the images of, in order.
pub open spec fn source_items(items: Seq<NativeModel>) -> Seq<ValueModel>
    decreases items,
{
    Seq::new(
        items.len(),
        |i: int|
            if 0 <= i < items.len() {
                source_of(items[i])
            } else {
                ValueModel::Null
            },
    )
}

/// The entries of a mapping with each value replaced by the document that it
/// is the image of, in order.
pub open spec fn source_entries(entries: Seq<(Key, NativeModel)>) -> Seq<(Key, ValueModel)>
    decreases entries,
{
    Seq::new(
        entries.len(),
        |i: int|
            if 0 <= i < entries.len() {
                (entries[i].0, source_of(entries[i].1))
            } else {
                (Seq::empty(), ValueModel::Null)
            },
    )
}

/// Nothing is lost on the way: a document that holds no key twice can be read
/// back from its image, whole. Every scalar, every item and entry at its
/// place, and every unresolved node with its message is there.
pub proof fn law_nothing_is_lost(document: ValueModel)
    requires
        document.well_formed(),
    ensures
        source_of(native_of(document)) == document,
    decreases document,
{
    match document {
        ValueModel::Array(items) => {
            let back = source_items(native_items(items));
            assert forall|i: int| 0 <= i < items.len() implies back[i] == items[i] by {
                law_nothing_is_lost(items[i]);
            }
            assert(back =~= items);
        },
        ValueModel::Hash(entries) => {
            law_entries_convert_independently(entries);
            let images = native_entries(entries);
            assert(assemble(images) =~= images);
            let back = source_entries(images);
            assert forall|i: int| 0 <= i < entries.len() implies back[i] == entries[i] by {
                law_nothing_is_lost(entries[i].1);
            }
            assert(back =~= entries);
        },
        _ => {},
    }
}

} // verus!

