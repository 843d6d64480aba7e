//! The two scans of a directory, over what the caller observed of it.

use vstd::prelude::*;
use vstd::string::StringExecFns;
use crate::entry::{DirEntry, Record};
use crate::error::{ScanError, ScanErrorView};
use crate::listing::{derived_from, Item, Opening};
use crate::outcome::{
    lemma_cap_bounds_outcome, lemma_outcome_records_sound, result_view, scan_outcome,
};
use crate::scanner::{lemma_open_reaches_outcome, run, Scanner};

verus! {

/// Lists every visible entry of the directory at `path`, in the order of the
/// listing. `opening` says what the caller found at the path, and `items` what
/// the listing yields, an item for each entry or failure.
///
/// The scan fails as a whole or gives every record: a path that is no
/// directory is not found, and a listing that does not open or that fails at
/// some item is a failure.
pub fn scan_directory(path: &str, opening: Opening, items: &[Item]) -> (result: Result<
    Vec<DirEntry>,
    ScanError,
>)
    ensures
        result_view(result) == scan_outcome(path@, opening@, items.deep_view(), None),
        opening@ is NotDirectory ==> result_view(result) == Err::<Seq<Record>, ScanErrorView>(
            ScanErrorView::NotFound { path: path@ },
        ),
        result_view(result) matches Ok(records) ==> forall|i: int|
            0 <= i < records.len() ==> {
                &&& (#[trigger] records[i]).well_formed()
                &&& derived_from(records[i], items.deep_view())
            },
{
    proof {
        lemma_open_reaches_outcome(path@, opening@, items.deep_view(), None);
        lemma_outcome_records_sound(path@, opening@, items.deep_view(), None);
    }
    run(Scanner::open(path, opening), items)
}

/// Lists the visible entries of the directory at `path` as `scan_directory`
/// does, but stops as soon as it has `max_entries` records: nothing that the
/// listing holds beyond that point is looked at, so that a failure there does
/// not fail the scan. Names that are left out do not count towards
/// `max_entries`.
pub fn scan_directory_fast(
    path: &str,
    opening: Opening,
    items: &[Item],
    max_entries: usize,
) -> (result: Result<Vec<DirEntry>, ScanError>)
    ensures
        result_view(result) == scan_outcome(
            path@,
            opening@,
            items.deep_view(),
            Some(max_entries as nat),
        ),
        opening@ is NotDirectory ==> result_view(result) == Err::<Seq<Record>, ScanErrorView>(
            ScanErrorView::NotFound { path: path@ },
        ),
        opening@ is Opened && max_entries == 0 ==> result_view(result) == Ok::<
            Seq<Record>,
            ScanErrorView,
        >(Seq::empty()),
        result matches Ok(records) ==> records.len() <= max_entries,
        result_view(result) matches Ok(records) ==> forall|i: int|
            0 <= i < records.len() ==> {
                &&& (#[trigger] records[i]).well_formed()
                &&& derived_from(records[i], items.deep_view())
            },
{
    proof {
        let cap = Some(max_entries as nat);
        lemma_open_reaches_outcome(path@, opening@, items.deep_view(), cap);
        lemma_outcome_records_sound(path@, opening@, items.deep_view(), cap);
        lemma_cap_bounds_outcome(path@, opening@, items.deep_view(), max_entries as nat);
    }
    run(Scanner::open_bounded(path, opening, max_entries), items)
}

/// The version of this component.
pub fn get_version() -> (version: String)
    ensures
        version@ == "1.0.0-magnus"@,
{
    String::from_str("1.0.0-magnus")
}

} // verus!
