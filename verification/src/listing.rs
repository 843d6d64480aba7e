//! What a caller observes of a directory, and what a scan makes of it.

use vstd::prelude::*;
use crate::entry::{is_reserved_name, read_entry_spec, record_of, Metadata, Record};

verus! {

/// What the caller found when it looked at the path and opened its listing.
#[derive(Debug, PartialEq, Eq)]
pub enum Opening {
    /// The path does not exist or does not designate a directory.
    NotDirectory,
    /// The path is a directory, but its listing could not be opened.
    Failed { message: String },
    /// The listing is open.
    Opened,
}

/// An `Opening` as plain mathematical values.
pub enum OpeningView {
    NotDirectory,
    Failed { message: Seq<char> },
    Opened,
}

impl View for Opening {
    type V = OpeningView;

    open spec fn view(&self) -> OpeningView {
        match self {
            Opening::NotDirectory => OpeningView::NotDirectory,
            Opening::Failed { message } => OpeningView::Failed { message: message@ },
            Opening::Opened => OpeningView::Opened,
        }
    }
}

/// One answer of an open listing: an entry with its metadata, or the failure
/// to read the entry or its metadata.
#[derive(Debug, PartialEq, Eq)]
pub enum Item {
    Entry { name: String, metadata: Metadata },
    Failed { message: String },
}

/// An `Item` as plain mathematical values.
pub enum ItemView {
    Entry { name: Seq<char>, metadata: Metadata },
    Failed { message: Seq<char> },
}

impl View for Item {
    type V = ItemView;

    open spec fn view(&self) -> ItemView {
        match self {
            Item::Entry { name, metadata } => ItemView::Entry { name: name@, metadata: *metadata },
            Item::Failed { message } => ItemView::Failed { message: message@ },
        }
    }
}

impl DeepView for Item {
    type V = ItemView;

    open spec fn deep_view(&self) -> ItemView {
        self@
    }
}

impl Clone for Item {
    fn clone(&self) -> (copy: Self)
        ensures
            copy@ == self@,
    {
        match self {
            Item::Entry { name, metadata } => Item::Entry {
                name: name.clone(),
                metadata: *metadata,
            },
            Item::Failed { message } => Item::Failed { message: message.clone() },
        }
    }
}

/// The record that an item contributes to a scan, if any: a failure and an
/// entry with a reserved name contribute none.
pub open spec fn record_of_item(item: ItemView) -> Option<Record> {
    match item {
        ItemView::Entry { name, metadata } => read_entry_spec(name, metadata),
        ItemView::Failed { .. } => None,
    }
}

/// `record_of_item` as a function value.
pub open spec fn to_record() -> spec_fn(ItemView) -> Option<Record> {
    |item: ItemView| record_of_item(item)
}

/// The records of the visible entries among `items`, in the order of the
/// listing.
pub open spec fn visible_records(items: Seq<ItemView>) -> Seq<Record> {
    items.filter_map(to_record())
}

/// The number of items that come before the first failure: the length of the
/// listing where nothing fails.
pub open spec fn leading_entries(items: Seq<ItemView>) -> nat
    decreases items.len(),
{
    if items.len() == 0 || items.first() is Failed {
        0
    } else {
        1 + leading_entries(items.drop_first())
    }
}

/// True when `record` is what some entry among `items` gives: an entry whose
/// name is not reserved, with the attributes derived from its metadata.
pub open spec fn derived_from(record: Record, items: Seq<ItemView>) -> bool {
    exists|j: int|
        0 <= j < items.len() && (#[trigger] items[j] matches ItemView::Entry { name, metadata }
            && !is_reserved_name(name) && record == record_of(name, metadata))
}

/// A single item contributes its record, if it has one.
pub proof fn lemma_visible_records_single(item: ItemView)
    ensures
        visible_records(seq![item]) == match record_of_item(item) {
            Some(record) => seq![record],
            None => Seq::empty(),
        },
{
    Seq::lemma_filter_map_singleton(item, to_record());
}

/// The records of two stretches of a listing, one after the other, are the
/// records of the first followed by those of the second.
pub proof fn lemma_visible_records_concat(front: Seq<ItemView>, back: Seq<ItemView>)
    ensures
        visible_records(front + back) == visible_records(front) + visible_records(back),
    decreases back.len(),
{
    if back.len() == 0 {
        assert(front + back =~= front);
    } else {
        lemma_visible_records_concat(front, back.drop_last());
        assert((front + back).drop_last() =~= front + back.drop_last());
        assert((front + back).last() == back.last());
    }
}

/// What `leading_entries` counts: every item before that position is an entry,
/// and the item at that position, if there is one, is a failure.
pub proof fn lemma_leading_entries(items: Seq<ItemView>)
    ensures
        leading_entries(items) <= items.len(),
        forall|j: int| 0 <= j < leading_entries(items) ==> items[j] is Entry,
        leading_entries(items) < items.len() ==> items[leading_entries(items) as int] is Failed,
    decreases items.len(),
{
    if items.len() == 0 || items.first() is Failed {
    } else {
        let rest = items.drop_first();
        lemma_leading_entries(rest);
        assert forall|j: int| 0 <= j < leading_entries(items) implies items[j] is Entry by {
            if j > 0 {
                assert(items[j] == rest[j - 1]);
            }
        }
        if leading_entries(items) < items.len() {
            assert(items[leading_entries(items) as int] == rest[leading_entries(rest) as int]);
        }
    }
}

/// Every visible record is well formed and derived from an entry of the
/// listing.
pub proof fn lemma_visible_records_sound(items: Seq<ItemView>)
    ensures
        forall|i: int|
            0 <= i < visible_records(items).len() ==> {
                &&& (#[trigger] visible_records(items)[i]).well_formed()
                &&& derived_from(visible_records(items)[i], items)
            },
{
    let records = visible_records(items);
    assert forall|i: int| 0 <= i < records.len() implies {
        &&& (#[trigger] records[i]).well_formed()
        &&& derived_from(records[i], items)
    } by {
        let record = records[i];
        assert(records.contains(record));
        items.lemma_filter_map_contains(to_record(), record);
        let item = choose|item: ItemView| #[trigger]
            items.contains(item) && to_record()(item) == Some(record);
        let j = choose|j: int| 0 <= j < items.len() && items[j] == item;
        assert(items[j] is Entry);
    }
}

} // verus!
