//! The decisions of the select and download requests, as a state machine.
//!
//! The program that drives it performs each action (runs the SQL, asks
//! whether the result is empty, reads record batches, reads the file path
//! column, fetches the listed files) and hands the outcome back as an event.
//! A select runs: frame, probe, records. A download runs: frame, probe,
//! paths, then one file content per listed path, in the order listed.

use vstd::prelude::*;

use crate::data_store::aws::{
    batches_view, rows_of_batches, rows_view, select_by_id_sql, select_sql, ColumnBatch,
    ColumnBatchView, Table, TableRow,
};
use crate::data_store::error::{DataStoreError, StoreFailure};
use crate::utils::text::{opt_str_view, opt_string_view};

verus! {

/// Where a request stands.
pub enum Stage {
    /// The SQL was handed to the engine; its data frame is awaited.
    AwaitingFrame { download: bool },
    /// Whether the frame holds any row is awaited.
    AwaitingProbe { download: bool },
    /// The record batches of the frame are awaited.
    AwaitingRecords,
    /// The file path column of the frame is awaited.
    AwaitingPaths,
    /// The contents of `paths` are awaited in order; `data` holds those
    /// already received.
    AwaitingFiles { paths: Vec<String>, data: Vec<Vec<u8>> },
    /// The request has been answered.
    Finished,
}

/// The outcome of the last action; an `Err` carries the failure's text.
pub enum Event {
    FrameReady(Result<(), String>),
    Probed(Result<bool, String>),
    RecordsRead(Result<Vec<ColumnBatch>, String>),
    PathsRead(Result<Vec<Option<String>>, String>),
    FileRead(Result<Vec<u8>, String>),
}

/// What the driver does next.
pub enum Action {
    /// Ask whether the frame holds any row.
    CheckEmpty,
    /// Read the record batches of the frame.
    ReadRecords,
    /// Read the file path column of the frame.
    ReadPaths,
    /// Fetch the contents of these paths, and hand them back in this order.
    FetchFiles(Vec<String>),
    /// Hand back the next file content.
    AwaitNextFile,
    /// Answer with these rows.
    ReplyRecords(Vec<Table>),
    /// Answer with these file contents.
    ReplyFiles(Vec<Vec<u8>>),
    /// Answer with this failure.
    Fail(DataStoreError),
}

/// The model of a `Stage`.
pub enum StageView {
    AwaitingFrame { download: bool },
    AwaitingProbe { download: bool },
    AwaitingRecords,
    AwaitingPaths,
    AwaitingFiles { paths: Seq<Seq<char>>, data: Seq<Seq<u8>> },
    Finished,
}

/// The model of an `Event`.
pub enum EventView {
    FrameReady(Result<(), Seq<char>>),
    Probed(Result<bool, Seq<char>>),
    RecordsRead(Result<Seq<ColumnBatchView>, Seq<char>>),
    PathsRead(Result<Seq<Option<Seq<char>>>, Seq<char>>),
    FileRead(Result<Seq<u8>, Seq<char>>),
}

/// The model of an `Action`.
pub enum ActionView {
    CheckEmpty,
    ReadRecords,
    ReadPaths,
    FetchFiles(Seq<Seq<char>>),
    AwaitNextFile,
    ReplyRecords(Seq<TableRow>),
    ReplyFiles(Seq<Seq<u8>>),
    Fail(StoreFailure),
}

/// The model of a sequence of strings.
pub open spec fn strings_view(v: Seq<String>) -> Seq<Seq<char>> {
    v.map_values(|s: String| s@)
}

/// The model of a sequence of byte buffers.
pub open spec fn buffers_view(v: Seq<Vec<u8>>) -> Seq<Seq<u8>> {
    v.map_values(|b: Vec<u8>| b@)
}

/// The model of a column of optional strings.
pub open spec fn opt_strings_view(v: Seq<Option<String>>) -> Seq<Option<Seq<char>>> {
    v.map_values(|o: Option<String>| opt_string_view(o))
}

impl View for Stage {
    type V = StageView;

    open spec fn view(&self) -> StageView {
        match self {
            Stage::AwaitingFrame { download } => StageView::AwaitingFrame { download: *download },
            Stage::AwaitingProbe { download } => StageView::AwaitingProbe { download: *download },
            Stage::AwaitingRecords => StageView::AwaitingRecords,
            Stage::AwaitingPaths => StageView::AwaitingPaths,
            Stage::AwaitingFiles { paths, data } => StageView::AwaitingFiles {
                paths: strings_view(paths@),
                data: buffers_view(data@),
            },
            Stage::Finished => StageView::Finished,
        }
    }
}

/// The model of an outcome that carries a failure text.
pub open spec fn outcome_view<T, V>(r: Result<T, String>, f: spec_fn(T) -> V) -> Result<V, Seq<char>> {
    match r {
        Ok(t) => Ok(f(t)),
        Err(m) => Err(m@),
    }
}

impl View for Event {
    type V = EventView;

    open spec fn view(&self) -> EventView {
        match self {
            Event::FrameReady(r) => EventView::FrameReady(
                match r {
                    Ok(_) => Ok(()),
                    Err(m) => Err(m@),
                },
            ),
            Event::Probed(r) => EventView::Probed(outcome_view(*r, |b: bool| b)),
            Event::RecordsRead(r) => EventView::RecordsRead(
                outcome_view(*r, |v: Vec<ColumnBatch>| batches_view(v@)),
            ),
            Event::PathsRead(r) => EventView::PathsRead(
                outcome_view(*r, |v: Vec<Option<String>>| opt_strings_view(v@)),
            ),
            Event::FileRead(r) => EventView::FileRead(outcome_view(*r, |v: Vec<u8>| v@)),
        }
    }
}

impl View for Action {
    type V = ActionView;

    open spec fn view(&self) -> ActionView {
        match self {
            Action::CheckEmpty => ActionView::CheckEmpty,
            Action::ReadRecords => ActionView::ReadRecords,
            Action::ReadPaths => ActionView::ReadPaths,
            Action::FetchFiles(p) => ActionView::FetchFiles(strings_view(p@)),
            Action::AwaitNextFile => ActionView::AwaitNextFile,
            Action::ReplyRecords(t) => ActionView::ReplyRecords(rows_view(t@)),
            Action::ReplyFiles(d) => ActionView::ReplyFiles(buffers_view(d@)),
            Action::Fail(e) => ActionView::Fail(e@),
        }
    }
}

/// Every entry of a path column is present.
pub open spec fn all_present(v: Seq<Option<Seq<char>>>) -> bool {
    forall|i: int| 0 <= i < v.len() ==> (#[trigger] v[i]) is Some
}

/// The paths of a column whose entries are all present.
pub open spec fn present_paths(v: Seq<Option<Seq<char>>>) -> Seq<Seq<char>> {
    v.map_values(|o: Option<Seq<char>>| o.unwrap())
}

/// The events a stage waits for. A null in the path column is no event a
/// download can go on from.
pub open spec fn accepts(s: StageView, e: EventView) -> bool {
    match (s, e) {
        (StageView::AwaitingFrame { .. }, EventView::FrameReady(_)) => true,
        (StageView::AwaitingProbe { .. }, EventView::Probed(_)) => true,
        (StageView::AwaitingRecords, EventView::RecordsRead(_)) => true,
        (StageView::AwaitingPaths, EventView::PathsRead(r)) => match r {
            Ok(v) => all_present(v),
            Err(_) => true,
        },
        (StageView::AwaitingFiles { paths, data }, EventView::FileRead(_)) => data.len() < paths.len(),
        _ => false,
    }
}

/// The next stage and action after event `e` in stage `s` (for the events
/// that `s` accepts). Every failure ends the request as unexpected, with the
/// failure's text; an empty frame ends it as an empty result.
pub open spec fn next(s: StageView, e: EventView) -> (StageView, ActionView) {
    match (s, e) {
        (StageView::AwaitingFrame { download }, EventView::FrameReady(r)) => match r {
            Ok(_) => (StageView::AwaitingProbe { download }, ActionView::CheckEmpty),
            Err(m) => (StageView::Finished, ActionView::Fail(StoreFailure::Unexpected(m))),
        },
        (StageView::AwaitingProbe { download }, EventView::Probed(r)) => match r {
            Ok(true) => (StageView::Finished, ActionView::Fail(StoreFailure::QueryResultIsEmpty)),
            Ok(false) => if download {
                (StageView::AwaitingPaths, ActionView::ReadPaths)
            } else {
                (StageView::AwaitingRecords, ActionView::ReadRecords)
            },
            Err(m) => (StageView::Finished, ActionView::Fail(StoreFailure::Unexpected(m))),
        },
        (StageView::AwaitingRecords, EventView::RecordsRead(r)) => match r {
            Ok(bs) => (StageView::Finished, ActionView::ReplyRecords(rows_of_batches(bs))),
            Err(m) => (StageView::Finished, ActionView::Fail(StoreFailure::Unexpected(m))),
        },
        (StageView::AwaitingPaths, EventView::PathsRead(r)) => match r {
            Ok(v) => if v.len() == 0 {
                (StageView::Finished, ActionView::ReplyFiles(Seq::empty()))
            } else {
                (
                    StageView::AwaitingFiles { paths: present_paths(v), data: Seq::empty() },
                    ActionView::FetchFiles(present_paths(v)),
                )
            },
            Err(m) => (StageView::Finished, ActionView::Fail(StoreFailure::Unexpected(m))),
        },
        (StageView::AwaitingFiles { paths, data }, EventView::FileRead(r)) => match r {
            Ok(d) => if data.len() + 1 == paths.len() {
                (StageView::Finished, ActionView::ReplyFiles(data.push(d)))
            } else {
                (StageView::AwaitingFiles { paths, data: data.push(d) }, ActionView::AwaitNextFile)
            },
            Err(m) => (StageView::Finished, ActionView::Fail(StoreFailure::Unexpected(m))),
        },
        _ => (s, ActionView::AwaitNextFile),
    }
}

/// The paths of a column whose entries are all present.
fn take_paths(column: Vec<Option<String>>) -> (paths: Vec<String>)
    requires
        all_present(opt_strings_view(column@)),
    ensures
        strings_view(paths@) == present_paths(opt_strings_view(column@)),
{
    let mut paths: Vec<String> = Vec::new();
    let mut i: usize = 0;
    while i < column.len()
        invariant
            i <= column@.len(),
            all_present(opt_strings_view(column@)),
            strings_view(paths@) =~= present_paths(opt_strings_view(column@)).take(i as int),
        decreases column@.len() - i,
    {
        assert(opt_strings_view(column@)[i as int] is Some);
        match &column[i] {
            Some(p) => {
                let ghost prev = paths@;
                paths.push(p.clone());
                assert(strings_view(paths@) =~= strings_view(prev).push(p@));
            },
            None => {},
        }
        i = i + 1;
        assert(present_paths(opt_strings_view(column@)).take(i as int) =~= present_paths(
            opt_strings_view(column@),
        ).take(i - 1).push(opt_strings_view(column@)[i - 1].unwrap()));
    }
    assert(present_paths(opt_strings_view(column@)).take(i as int) =~= present_paths(
        opt_strings_view(column@),
    ));
    paths
}

impl Stage {
    /// Starts a select with an optional condition: the SQL to run, and the
    /// stage that awaits its frame.
    pub fn start_select(condition: Option<&str>) -> (res: (Stage, String))
        ensures
            res.0@ == (StageView::AwaitingFrame { download: false }),
            res.1@ == select_sql(opt_str_view(condition)),
    {
        (Stage::AwaitingFrame { download: false }, Table::read_sql(condition))
    }

    /// Starts a select of the rows whose file name is `id`.
    pub fn start_select_by_id(id: &str) -> (res: (Stage, String))
        ensures
            res.0@ == (StageView::AwaitingFrame { download: false }),
            res.1@ == select_by_id_sql(id@),
    {
        (Stage::AwaitingFrame { download: false }, Table::read_by_id_sql(id))
    }

    /// Starts a download of the files listed by the rows that an optional
    /// condition selects.
    pub fn start_download(condition: Option<&str>) -> (res: (Stage, String))
        ensures
            res.0@ == (StageView::AwaitingFrame { download: true }),
            res.1@ == select_sql(opt_str_view(condition)),
    {
        (Stage::AwaitingFrame { download: true }, Table::read_sql(condition))
    }

    fn after_frame(download: bool, event: Event) -> (res: (Stage, Action))
        requires
            accepts(StageView::AwaitingFrame { download }, event@),
        ensures
            res.0@ == next(StageView::AwaitingFrame { download }, event@).0,
            res.1@ == next(StageView::AwaitingFrame { download }, event@).1,
    {
        match event {
            Event::FrameReady(Ok(_)) => (Stage::AwaitingProbe { download }, Action::CheckEmpty),
            Event::FrameReady(Err(m)) => (
                Stage::Finished,
                Action::Fail(DataStoreError::UnexpectedError(m)),
            ),
            _ => (Stage::Finished, Action::AwaitNextFile),
        }
    }

    fn after_probe(download: bool, event: Event) -> (res: (Stage, Action))
        requires
            accepts(StageView::AwaitingProbe { download }, event@),
        ensures
            res.0@ == next(StageView::AwaitingProbe { download }, event@).0,
            res.1@ == next(StageView::AwaitingProbe { download }, event@).1,
    {
        match event {
            Event::Probed(Ok(true)) => (Stage::Finished, Action::Fail(DataStoreError::QueryResultIsEmpty)),
            Event::Probed(Ok(false)) => if download {
                (Stage::AwaitingPaths, Action::ReadPaths)
            } else {
                (Stage::AwaitingRecords, Action::ReadRecords)
            },
            Event::Probed(Err(m)) => (
                Stage::Finished,
                Action::Fail(DataStoreError::UnexpectedError(m)),
            ),
            _ => (Stage::Finished, Action::AwaitNextFile),
        }
    }

    fn after_records(event: Event) -> (res: (Stage, Action))
        requires
            accepts(StageView::AwaitingRecords, event@),
        ensures
            res.0@ == next(StageView::AwaitingRecords, event@).0,
            res.1@ == next(StageView::AwaitingRecords, event@).1,
    {
        match event {
            Event::RecordsRead(Ok(batches)) => (
                Stage::Finished,
                Action::ReplyRecords(Table::records_from_batches(&batches)),
            ),
            Event::RecordsRead(Err(m)) => (
                Stage::Finished,
                Action::Fail(DataStoreError::UnexpectedError(m)),
            ),
            _ => (Stage::Finished, Action::AwaitNextFile),
        }
    }

    fn after_paths(event: Event) -> (res: (Stage, Action))
        requires
            accepts(StageView::AwaitingPaths, event@),
        ensures
            res.0@ == next(StageView::AwaitingPaths, event@).0,
            res.1@ == next(StageView::AwaitingPaths, event@).1,
    {
        match event {
            Event::PathsRead(Ok(column)) => {
                if column.len() == 0 {
                    let none: Vec<Vec<u8>> = Vec::new();
                    assert(buffers_view(none@) =~= Seq::<Seq<u8>>::empty());
                    (Stage::Finished, Action::ReplyFiles(none))
                } else {
                    let paths = take_paths(column);
                    let listed = paths.clone();
                    let none: Vec<Vec<u8>> = Vec::new();
                    assert(buffers_view(none@) =~= Seq::<Seq<u8>>::empty());
                    (Stage::AwaitingFiles { paths, data: none }, Action::FetchFiles(listed))
                }
            },
            Event::PathsRead(Err(m)) => (
                Stage::Finished,
                Action::Fail(DataStoreError::UnexpectedError(m)),
            ),
            _ => (Stage::Finished, Action::AwaitNextFile),
        }
    }

    fn after_file(paths: Vec<String>, data: Vec<Vec<u8>>, event: Event) -> (res: (Stage, Action))
        requires
            accepts(
                StageView::AwaitingFiles { paths: strings_view(paths@), data: buffers_view(data@) },
                event@,
            ),
        ensures
            res.0@ == next(
                StageView::AwaitingFiles { paths: strings_view(paths@), data: buffers_view(data@) },
                event@,
            ).0,
            res.1@ == next(
                StageView::AwaitingFiles { paths: strings_view(paths@), data: buffers_view(data@) },
                event@,
            ).1,
    {
        match event {
            Event::FileRead(Ok(d)) => {
                let mut data = data;
                let ghost prev = data@;
                data.push(d);
                assert(buffers_view(data@) =~= buffers_view(prev).push(d@));
                if data.len() == paths.len() {
                    (Stage::Finished, Action::ReplyFiles(data))
                } else {
                    (Stage::AwaitingFiles { paths, data }, Action::AwaitNextFile)
                }
            },
            Event::FileRead(Err(m)) => (
                Stage::Finished,
                Action::Fail(DataStoreError::UnexpectedError(m)),
            ),
            _ => (Stage::Finished, Action::AwaitNextFile),
        }
    }

    /// Takes the outcome of the last action and decides what comes next.
    pub fn step(self, event: Event) -> (res: (Stage, Action))
        requires
            accepts(self@, event@),
        ensures
            res.0@ == next(self@, event@).0,
            res.1@ == next(self@, event@).1,
    {
        match self {
            Stage::AwaitingFrame { download } => Self::after_frame(download, event),
            Stage::AwaitingProbe { download } => Self::after_probe(download, event),
            Stage::AwaitingRecords => Self::after_records(event),
            Stage::AwaitingPaths => Self::after_paths(event),
            Stage::AwaitingFiles { paths, data } => Self::after_file(paths, data, event),
            Stage::Finished => (Stage::Finished, Action::AwaitNextFile),
        }
    }
}

/// The failure text an event carries, if it reports a failure.
pub open spec fn failure_of(e: EventView) -> Option<Seq<char>> {
    match e {
        EventView::FrameReady(Err(m)) => Some(m),
        EventView::Probed(Err(m)) => Some(m),
        EventView::RecordsRead(Err(m)) => Some(m),
        EventView::PathsRead(Err(m)) => Some(m),
        EventView::FileRead(Err(m)) => Some(m),
        _ => None,
    }
}

/// The phase of a stage: it only goes down as a request advances.
pub open spec fn phase(s: StageView) -> nat {
    match s {
        StageView::AwaitingFrame { .. } => 4,
        StageView::AwaitingProbe { .. } => 3,
        StageView::AwaitingPaths => 2,
        StageView::AwaitingRecords => 1,
        StageView::AwaitingFiles { .. } => 1,
        StageView::Finished => 0,
    }
}

/// The file contents a stage still waits for.
pub open spec fn files_left(s: StageView) -> int {
    match s {
        StageView::AwaitingFiles { paths, data } => paths.len() - data.len(),
        _ => 0,
    }
}

/// Hands the contents `ds` to a stage one after the other; `None` when one
/// of them is not accepted. The result is the last stage and action.
pub open spec fn feed_files(s: StageView, ds: Seq<Seq<u8>>) -> Option<(StageView, ActionView)>
    decreases ds.len(),
{
    if ds.len() == 0 {
        Some((s, ActionView::AwaitNextFile))
    } else if !accepts(s, EventView::FileRead(Ok(ds[0]))) {
        None
    } else if ds.len() == 1 {
        Some(next(s, EventView::FileRead(Ok(ds[0]))))
    } else {
        feed_files(next(s, EventView::FileRead(Ok(ds[0]))).0, ds.drop_first())
    }
}

/// A failure reported at any stage ends the request at once as an
/// unexpected failure that carries the reported text.
pub proof fn lemma_failure_ends_request(s: StageView, e: EventView)
    requires
        accepts(s, e),
        failure_of(e) is Some,
    ensures
        next(s, e) == (StageView::Finished, ActionView::Fail(StoreFailure::Unexpected(failure_of(e)->0))),
{
}

/// A request ends as an empty result exactly when the emptiness probe says
/// that the frame holds no row.
pub proof fn lemma_empty_result_only_from_probe(s: StageView, e: EventView)
    requires
        accepts(s, e),
    ensures
        (next(s, e).1 == ActionView::Fail(StoreFailure::QueryResultIsEmpty)) <==> (
        s is AwaitingProbe && e == EventView::Probed(Ok(true))),
{
}

/// Every accepted event moves a request on: its phase drops, or, while the
/// files come in, fewer files are left; and a finished request accepts
/// nothing. So every request is answered after finitely many events.
pub proof fn lemma_request_progresses(s: StageView, e: EventView)
    requires
        accepts(s, e),
    ensures
        phase(next(s, e).0) < phase(s) || (phase(next(s, e).0) == phase(s) && 0 <= files_left(
            next(s, e).0,
        ) < files_left(s)),
        !accepts(StageView::Finished, e),
{
}

/// A select whose frame is ready and not empty answers the rows of the
/// record batches it reads, batch after batch.
pub proof fn lemma_select_answers_rows(bs: Seq<ColumnBatchView>)
    ensures
        ({
            let s1 = next(StageView::AwaitingFrame { download: false }, EventView::FrameReady(Ok(())));
            let s2 = next(s1.0, EventView::Probed(Ok(false)));
            let s3 = next(s2.0, EventView::RecordsRead(Ok(bs)));
            &&& s1.1 == ActionView::CheckEmpty
            &&& s2.1 == ActionView::ReadRecords
            &&& s3 == (StageView::Finished, ActionView::ReplyRecords(rows_of_batches(bs)))
        }),
{
}

proof fn lemma_feed_files(paths: Seq<Seq<char>>, data: Seq<Seq<u8>>, ds: Seq<Seq<u8>>)
    requires
        ds.len() >= 1,
        data.len() + ds.len() == paths.len(),
    ensures
        feed_files(StageView::AwaitingFiles { paths, data }, ds) == Some(
            (StageView::Finished, ActionView::ReplyFiles(data + ds)),
        ),
    decreases ds.len(),
{
    let s = StageView::AwaitingFiles { paths, data };
    assert(accepts(s, EventView::FileRead(Ok(ds[0]))));
    if ds.len() == 1 {
        assert(data.push(ds[0]) =~= data + ds);
    } else {
        let data2 = data.push(ds[0]);
        assert(next(s, EventView::FileRead(Ok(ds[0]))).0 == StageView::AwaitingFiles {
            paths,
            data: data2,
        });
        lemma_feed_files(paths, data2, ds.drop_first());
        assert(data2 + ds.drop_first() =~= data + ds);
    }
}

/// A download fetches the paths of the column it reads, in order, and
/// answers the file contents in the order of the paths, one per path.
pub proof fn lemma_download_keeps_path_order(column: Seq<Option<Seq<char>>>, ds: Seq<Seq<u8>>)
    requires
        all_present(column),
        column.len() >= 1,
        ds.len() == column.len(),
    ensures
        ({
            let s = next(StageView::AwaitingPaths, EventView::PathsRead(Ok(column)));
            &&& s.1 == ActionView::FetchFiles(present_paths(column))
            &&& feed_files(s.0, ds) == Some((StageView::Finished, ActionView::ReplyFiles(ds)))
        }),
{
    let paths = present_paths(column);
    lemma_feed_files(paths, Seq::empty(), ds);
    assert(Seq::<Seq<u8>>::empty() + ds =~= ds);
}

/// The paths of a column are its entries, unchanged and in order.
pub proof fn lemma_paths_are_column_entries(column: Seq<Option<Seq<char>>>)
    requires
        all_present(column),
    ensures
        present_paths(column).len() == column.len(),
        forall|i: int| 0 <= i < column.len() ==> column[i] == Some(#[trigger] present_paths(column)[i]),
{
    assert forall|i: int| 0 <= i < column.len() implies column[i] == Some(
        #[trigger] present_paths(column)[i],
    ) by {
        assert(column[i] is Some);
    }
}

/// A download fetches exactly the entries of the path column it reads:
/// as many paths as entries, each unchanged, in the column's order.
pub proof fn lemma_download_fetches_listed_paths(column: Seq<Option<Seq<char>>>)
    requires
        all_present(column),
        column.len() >= 1,
    ensures
        match next(StageView::AwaitingPaths, EventView::PathsRead(Ok(column))).1 {
            ActionView::FetchFiles(ps) => ps.len() == column.len() && forall|i: int|
                0 <= i < column.len() ==> column[i] == Some(#[trigger] ps[i]),
            _ => false,
        },
{
    lemma_paths_are_column_entries(column);
}

} // verus!
