//! A scan as a machine that the caller drives: the caller reads the file
//! system and reports what it saw, the scanner says whether to read on or to
//! stop, and with what result.
//!
//! The caller looks at the path, tries to open its listing and begins with
//! `Scanner::open` or `Scanner::open_bounded`. For as long as the step is
//! `Step::Read`, it reads one more item from the listing and hands it to
//! `Scanner::feed`, with `None` once the listing is exhausted. `Step::Done`
//! carries the result; after it nothing more is read.

use vstd::prelude::*;
use crate::entry::{read_entry, read_entry_spec, DirEntry, Record};
use crate::error::{ScanError, ScanErrorView};
use crate::listing::{
    leading_entries, lemma_leading_entries, lemma_visible_records_concat,
    lemma_visible_records_single, visible_records, Item, ItemView, Opening, OpeningView,
};
use crate::outcome::{result_view, scan_outcome};

verus! {

/// The most room that a capped scan sets aside before it has read anything.
pub const CAPACITY_CEILING: usize = 100;

/// A scan that waits for the next item of the listing.
#[derive(Debug)]
pub struct Scanner {
    limit: Option<usize>,
    records: Vec<DirEntry>,
}

/// The state of a waiting scan as plain mathematical values.
pub struct ScannerView {
    /// The cap on the number of records, if there is one.
    pub limit: Option<nat>,
    /// The records accepted so far.
    pub records: Seq<Record>,
}

impl ScannerView {
    /// A scan waits for an item only while its cap is not reached.
    pub open spec fn well_formed(self) -> bool {
        self.limit matches Some(cap) ==> self.records.len() < cap
    }
}

impl View for Scanner {
    type V = ScannerView;

    closed spec fn view(&self) -> ScannerView {
        ScannerView {
            limit: match self.limit {
                Some(cap) => Some(cap as nat),
                None => None,
            },
            records: self.records.deep_view(),
        }
    }
}

/// What the caller does next.
#[derive(Debug)]
pub enum Step {
    /// Read the next item of the listing and feed it to the scanner.
    Read(Scanner),
    /// Stop reading: the scan has ended with this result.
    Done(Result<Vec<DirEntry>, ScanError>),
}

/// A `Step` as plain mathematical values.
pub enum StepView {
    Read(ScannerView),
    Done(Result<Seq<Record>, ScanErrorView>),
}

impl StepView {
    /// A step that asks for an item holds a well-formed state.
    pub open spec fn well_formed(self) -> bool {
        self matches StepView::Read(state) ==> state.well_formed()
    }
}

impl View for Step {
    type V = StepView;

    open spec fn view(&self) -> StepView {
        match self {
            Step::Read(scanner) => StepView::Read(scanner@),
            Step::Done(result) => StepView::Done(result_view(*result)),
        }
    }
}

/// The first step of a scan, from what the caller found at the path: a path
/// that is no directory is not found, a listing that did not open is a
/// failure, and over an open listing the scan asks for the first item unless
/// its cap is zero.
pub open spec fn open_step(path: Seq<char>, opening: OpeningView, limit: Option<nat>) -> StepView {
    match opening {
        OpeningView::NotDirectory => StepView::Done(Err(ScanErrorView::NotFound { path })),
        OpeningView::Failed { message } => StepView::Done(
            Err(ScanErrorView::IOFailure { message }),
        ),
        OpeningView::Opened => if limit == Some(0nat) {
            StepView::Done(Ok(Seq::empty()))
        } else {
            StepView::Read(ScannerView { limit, records: Seq::empty() })
        },
    }
}

/// The step that follows when a waiting scan is fed what the listing gave:
/// `None` where the listing is exhausted. The end of the listing ends the scan
/// with the records so far, a failure fails it, an entry with a reserved name
/// changes nothing, and any other entry adds its record, which ends the scan
/// where it fills the cap.
pub open spec fn feed_step(state: ScannerView, next: Option<ItemView>) -> StepView {
    match next {
        None => StepView::Done(Ok(state.records)),
        Some(ItemView::Failed { message }) => StepView::Done(
            Err(ScanErrorView::IOFailure { message }),
        ),
        Some(ItemView::Entry { name, metadata }) => match read_entry_spec(name, metadata) {
            None => StepView::Read(state),
            Some(record) => {
                let records = state.records.push(record);
                if state.limit == Some(records.len()) {
                    StepView::Done(Ok(records))
                } else {
                    StepView::Read(ScannerView { limit: state.limit, records })
                }
            },
        },
    }
}

/// The result that a scan reaches from `step` while the listing still holds
/// `items`: the result of a scan that is done, and for a waiting scan what the
/// records so far and the items before the first failure come to.
pub open spec fn outcome_from(step: StepView, items: Seq<ItemView>) -> Result<
    Seq<Record>,
    ScanErrorView,
> {
    match step {
        StepView::Done(result) => result,
        StepView::Read(state) => {
            let clean = leading_entries(items);
            let found = state.records + visible_records(items.take(clean as int));
            if state.limit is Some && found.len() >= state.limit->0 {
                Ok(found.take(state.limit->0 as int))
            } else if clean < items.len() {
                Err(ScanErrorView::IOFailure { message: items[clean as int]->message })
            } else {
                Ok(found)
            }
        },
    }
}

/// A scan that is opened and then driven over a listing ends with the outcome
/// that the listing has.
pub proof fn lemma_open_reaches_outcome(
    path: Seq<char>,
    opening: OpeningView,
    items: Seq<ItemView>,
    limit: Option<nat>,
)
    ensures
        outcome_from(open_step(path, opening, limit), items) == scan_outcome(
            path,
            opening,
            items,
            limit,
        ),
{
    if opening is Opened {
        let found = visible_records(items.take(leading_entries(items) as int));
        assert(Seq::<Record>::empty() + found =~= found);
        assert(found.take(0) =~= Seq::<Record>::empty());
    }
}

/// Feeding a waiting scan the next item of the listing, or the end of the
/// listing, does not change the result that the scan will reach.
pub proof fn lemma_feed_keeps_outcome(state: ScannerView, items: Seq<ItemView>)
    requires
        state.well_formed(),
    ensures
        feed_step(state, next_of(items)).well_formed(),
        outcome_from(StepView::Read(state), items) == outcome_from(
            feed_step(state, next_of(items)),
            rest_of(items),
        ),
{
    if items.len() == 0 {
        assert(items.take(0) =~= items);
        assert(state.records + visible_records(items) =~= state.records);
    } else {
        let first = items.first();
        let rest = items.drop_first();
        match first {
            ItemView::Failed { message } => {
                assert(items.take(0) =~= Seq::<ItemView>::empty());
                assert(state.records + visible_records(items.take(0)) =~= state.records);
            },
            ItemView::Entry { name, metadata } => {
                let clean = leading_entries(rest) as int;
                lemma_leading_entries(rest);
                assert(items.take(1 + clean) =~= seq![first] + rest.take(clean));
                lemma_visible_records_concat(seq![first], rest.take(clean));
                lemma_visible_records_single(first);
                let tail = visible_records(rest.take(clean));
                if clean < rest.len() {
                    assert(items[1 + clean] == rest[clean]);
                }
                match read_entry_spec(name, metadata) {
                    None => {
                        assert(Seq::<Record>::empty() + tail =~= tail);
                    },
                    Some(record) => {
                        let records = state.records.push(record);
                        assert(state.records + (seq![record] + tail) =~= records + tail);
                        if state.limit == Some(records.len()) {
                            assert((records + tail).take(records.len() as int) =~= records);
                        }
                    },
                }
            },
        }
    }
}

/// What a caller feeds next: the first of the items that the listing still
/// holds, or `None` where it holds none.
pub open spec fn next_of(items: Seq<ItemView>) -> Option<ItemView> {
    if items.len() == 0 {
        None
    } else {
        Some(items.first())
    }
}

/// What the listing holds after its next item was read.
pub open spec fn rest_of(items: Seq<ItemView>) -> Seq<ItemView> {
    if items.len() == 0 {
        items
    } else {
        items.drop_first()
    }
}

impl Scanner {
    /// Every scanner is well formed.
    #[verifier::type_invariant]
    pub open spec fn valid(&self) -> bool {
        self@.well_formed()
    }

    /// Begins a scan without a cap.
    pub fn open(path: &str, opening: Opening) -> (step: Step)
        ensures
            step@ == open_step(path@, opening@, None),
            step@.well_formed(),
    {
        match opening {
            Opening::NotDirectory => Step::Done(Err(ScanError::NotFound { path: path.to_owned() })),
            Opening::Failed { message } => Step::Done(Err(ScanError::IOFailure { message })),
            Opening::Opened => {
                let records: Vec<DirEntry> = Vec::new();
                assert(records.deep_view() =~= Seq::empty());
                Step::Read(Scanner { limit: None, records })
            },
        }
    }

    /// Begins a scan that returns at most `max_entries` records.
    pub fn open_bounded(path: &str, opening: Opening, max_entries: usize) -> (step: Step)
        ensures
            step@ == open_step(path@, opening@, Some(max_entries as nat)),
            step@.well_formed(),
    {
        match opening {
            Opening::NotDirectory => Step::Done(Err(ScanError::NotFound { path: path.to_owned() })),
            Opening::Failed { message } => Step::Done(Err(ScanError::IOFailure { message })),
            Opening::Opened => {
                let room: usize = if max_entries < CAPACITY_CEILING {
                    max_entries
                } else {
                    CAPACITY_CEILING
                };
                let records: Vec<DirEntry> = Vec::with_capacity(room);
                assert(records.deep_view() =~= Seq::empty());
                if max_entries == 0 {
                    Step::Done(Ok(records))
                } else {
                    Step::Read(Scanner { limit: Some(max_entries), records })
                }
            },
        }
    }

    /// Takes what the listing gave, `None` where it is exhausted, and says
    /// what to do next.
    pub fn feed(self, next: Option<Item>) -> (step: Step)
        ensures
            step@ == feed_step(self@, next.deep_view()),
            step@.well_formed(),
    {
        proof {
            use_type_invariant(&self);
        }
        let Scanner { limit, mut records } = self;
        match next {
            None => Step::Done(Ok(records)),
            Some(Item::Failed { message }) => Step::Done(Err(ScanError::IOFailure { message })),
            Some(Item::Entry { name, metadata }) => match read_entry(name, &metadata) {
                None => Step::Read(Scanner { limit, records }),
                Some(record) => {
                    let ghost before = records.deep_view();
                    records.push(record);
                    assert(records.deep_view() =~= before.push(record@));
                    let full = match limit {
                        Some(cap) => records.len() == cap,
                        None => false,
                    };
                    if full {
                        Step::Done(Ok(records))
                    } else {
                        Step::Read(Scanner { limit, records })
                    }
                },
            },
        }
    }
}

/// Drives a scan to its end over a listing that is held in memory, feeding it
/// item after item for as long as it asks for one.
pub fn run(first: Step, items: &[Item]) -> (result: Result<Vec<DirEntry>, ScanError>)
    ensures
        result_view(result) == outcome_from(first@, items.deep_view()),
{
    let ghost start = first@;
    let ghost listing = items.deep_view();
    let mut step = first;
    let mut read: usize = 0;
    assert(listing.skip(0) =~= listing);
    loop
        invariant
            read <= items.len(),
            start == first@,
            listing == items.deep_view(),
            outcome_from(step@, listing.skip(read as int)) == outcome_from(start, listing),
        decreases items.len() - read, (if step is Read { 1nat } else { 0nat }),
    {
        match step {
            Step::Done(result) => {
                return result;
            },
            Step::Read(scanner) => {
                proof {
                    use_type_invariant(&scanner);
                    lemma_feed_keeps_outcome(scanner@, listing.skip(read as int));
                }
                if read < items.len() {
                    assert(listing.skip(read as int).first() == items[read as int]@);
                    assert(listing.skip(read as int).drop_first() =~= listing.skip(read + 1));
                    step = scanner.feed(Some(items[read].clone()));
                    read = read + 1;
                } else {
                    step = scanner.feed(None);
                }
            },
        }
    }
}

} // verus!
