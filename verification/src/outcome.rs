//! The result of a scan, stated over the whole of what a caller can observe,
//! and what follows from that statement.

use vstd::prelude::*;
use crate::entry::{is_reserved_name, record_of, DirEntry, Record};
use crate::error::{ScanError, ScanErrorView};
use crate::listing::{
    derived_from, leading_entries, lemma_leading_entries, lemma_visible_records_concat,
    lemma_visible_records_sound, visible_records, ItemView, OpeningView,
};

verus! {

/// The result of a scan of `path`, given what the caller observed, with a cap
/// on the number of records or without one.
///
/// A path that is no directory is not found, and a listing that does not open
/// is a failure. Of an open listing only the items before the first failure
/// count. Where their visible records fill the cap, the scan stops there and
/// returns the first `limit` of them. Else the first failure fails the whole
/// scan, and a listing without failure gives all its visible records.
pub open spec fn scan_outcome(
    path: Seq<char>,
    opening: OpeningView,
    items: Seq<ItemView>,
    limit: Option<nat>,
) -> Result<Seq<Record>, ScanErrorView> {
    match opening {
        OpeningView::NotDirectory => Err(ScanErrorView::NotFound { path }),
        OpeningView::Failed { message } => Err(ScanErrorView::IOFailure { message }),
        OpeningView::Opened => {
            let clean = leading_entries(items);
            let found = visible_records(items.take(clean as int));
            if limit is Some && found.len() >= limit->0 {
                Ok(found.take(limit->0 as int))
            } else if clean < items.len() {
                Err(ScanErrorView::IOFailure { message: items[clean as int]->message })
            } else {
                Ok(found)
            }
        },
    }
}

/// The result of a scan as plain mathematical values.
pub open spec fn result_view(result: Result<Vec<DirEntry>, ScanError>) -> Result<
    Seq<Record>,
    ScanErrorView,
> {
    match result {
        Ok(records) => Ok(records.deep_view()),
        Err(error) => Err(error@),
    }
}

/// A scan never reports a reserved name, marks a record hidden exactly when
/// its name begins with a dot, and derives every record from an entry of the
/// listing and its metadata.
pub proof fn lemma_outcome_records_sound(
    path: Seq<char>,
    opening: OpeningView,
    items: Seq<ItemView>,
    limit: Option<nat>,
)
    ensures
        scan_outcome(path, opening, items, limit) matches Ok(records) ==> forall|i: int|
            0 <= i < records.len() ==> {
                &&& (#[trigger] records[i]).well_formed()
                &&& derived_from(records[i], items)
            },
{
    if let Ok(records) = scan_outcome(path, opening, items, limit) {
        let clean = items.take(leading_entries(items) as int);
        lemma_leading_entries(items);
        lemma_visible_records_sound(clean);
        let found = visible_records(clean);
        assert forall|i: int| 0 <= i < records.len() implies {
            &&& (#[trigger] records[i]).well_formed()
            &&& derived_from(records[i], items)
        } by {
            assert(records[i] == found[i]);
            assert(derived_from(found[i], clean));
            let j = choose|j: int|
                0 <= j < clean.len() && (#[trigger] clean[j] matches ItemView::Entry {
                    name,
                    metadata,
                } && !is_reserved_name(name) && found[i] == record_of(name, metadata));
            assert(clean[j] == items[j]);
        }
    }
}

/// A capped scan never returns more records than its cap allows, and a cap of
/// zero over an open listing gives no record and no error.
pub proof fn lemma_cap_bounds_outcome(
    path: Seq<char>,
    opening: OpeningView,
    items: Seq<ItemView>,
    cap: nat,
)
    ensures
        scan_outcome(path, opening, items, Some(cap)) matches Ok(records) ==> records.len() <= cap,
        opening is Opened && cap == 0 ==> scan_outcome(path, opening, items, Some(cap)) == Ok::<
            Seq<Record>,
            ScanErrorView,
        >(Seq::empty()),
{
    if opening is Opened && cap == 0 {
        let found = visible_records(items.take(leading_entries(items) as int));
        assert(found.take(0) =~= Seq::<Record>::empty());
    }
}

/// A capped scan whose cap is at least the number of visible entries returns
/// what the full scan returns, unless the listing fails at a point where the
/// cap is already full: there the capped scan has stopped and succeeds, and
/// the full scan fails.
pub proof fn lemma_wide_cap_is_full_scan(
    path: Seq<char>,
    opening: OpeningView,
    items: Seq<ItemView>,
    cap: nat,
)
    requires
        visible_records(items).len() <= cap,
        !(leading_entries(items) < items.len() && visible_records(
            items.take(leading_entries(items) as int),
        ).len() >= cap),
    ensures
        scan_outcome(path, opening, items, Some(cap)) == scan_outcome(path, opening, items, None),
{
    if opening is Opened {
        lemma_leading_entries(items);
        if leading_entries(items) == items.len() {
            assert(items.take(items.len() as int) =~= items);
            let found = visible_records(items);
            assert(found.take(found.len() as int) =~= found);
        }
    }
}

/// Where the full scan succeeds, a capped scan returns its first `cap`
/// records, or all of them where there are fewer.
pub proof fn lemma_capped_scan_is_prefix(
    path: Seq<char>,
    opening: OpeningView,
    items: Seq<ItemView>,
    cap: nat,
)
    ensures
        scan_outcome(path, opening, items, None) matches Ok(all) ==> scan_outcome(
            path,
            opening,
            items,
            Some(cap),
        ) == Ok::<Seq<Record>, ScanErrorView>(
            if cap < all.len() {
                all.take(cap as int)
            } else {
                all
            },
        ),
{
    if let Ok(all) = scan_outcome(path, opening, items, None) {
        assert(all.take(all.len() as int) =~= all);
    }
}

/// A path that is no directory is not found, whatever else was observed and
/// with or without a cap.
pub proof fn lemma_not_directory_is_not_found(
    path: Seq<char>,
    items: Seq<ItemView>,
    limit: Option<nat>,
)
    ensures
        scan_outcome(path, OpeningView::NotDirectory, items, limit) == Err::<
            Seq<Record>,
            ScanErrorView,
        >(ScanErrorView::NotFound { path }),
{
}

/// What a listing holds beyond the point where the cap is full has no effect
/// on a capped scan: neither further entries nor failures.
pub proof fn lemma_full_cap_hides_the_rest(
    path: Seq<char>,
    read: Seq<ItemView>,
    unread: Seq<ItemView>,
    cap: nat,
)
    requires
        forall|j: int| 0 <= j < read.len() ==> read[j] is Entry,
        visible_records(read).len() >= cap,
    ensures
        scan_outcome(path, OpeningView::Opened, read + unread, Some(cap)) == Ok::<
            Seq<Record>,
            ScanErrorView,
        >(visible_records(read).take(cap as int)),
{
    let items = read + unread;
    let clean = leading_entries(items) as int;
    lemma_leading_entries(items);
    if clean < read.len() {
        assert(items[clean] == read[clean]);
    }
    let beyond = unread.take(clean - read.len());
    assert(items.take(clean) =~= read + beyond);
    lemma_visible_records_concat(read, beyond);
    assert((visible_records(read) + visible_records(beyond)).take(cap as int)
        =~= visible_records(read).take(cap as int));
}

} // verus!
