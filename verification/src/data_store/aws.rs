//! The table of files: its rows, the SQL that selects them, how record
//! batches become rows, and the decisions of the select and download flows.

use vstd::prelude::*;

use crate::data_store::error::{DataStoreError, StoreFailure};
use crate::utils::constants::TABLE_NAME;
use crate::utils::text::{contains_seq, occurs_at, opt_string_view, str_contains};

verus! {

/// One row of the table of files.
pub struct Table {
    pub file_id: Option<String>,
    pub file_name: Option<String>,
    pub file_type: Option<String>,
    pub file_size: Option<i32>,
    pub file_path: Option<String>,
    pub file_url: Option<String>,
}

/// The mathematical model of a row.
pub struct TableRow {
    pub file_id: Option<Seq<char>>,
    pub file_name: Option<Seq<char>>,
    pub file_type: Option<Seq<char>>,
    pub file_size: Option<i32>,
    pub file_path: Option<Seq<char>>,
    pub file_url: Option<Seq<char>>,
}

impl View for Table {
    type V = TableRow;

    open spec fn view(&self) -> TableRow {
        TableRow {
            file_id: opt_string_view(self.file_id),
            file_name: opt_string_view(self.file_name),
            file_type: opt_string_view(self.file_type),
            file_size: self.file_size,
            file_path: opt_string_view(self.file_path),
            file_url: opt_string_view(self.file_url),
        }
    }
}

/// The string columns of one record batch that rows are made of: the file
/// id, name, type, path and url columns, each one entry per row (`None`
/// where the cell is null).
pub struct ColumnBatch {
    pub file_ids: Vec<Option<String>>,
    pub file_names: Vec<Option<String>>,
    pub file_types: Vec<Option<String>>,
    pub file_paths: Vec<Option<String>>,
    pub file_urls: Vec<Option<String>>,
}

/// The mathematical model of a `ColumnBatch`.
pub struct ColumnBatchView {
    pub file_ids: Seq<Option<Seq<char>>>,
    pub file_names: Seq<Option<Seq<char>>>,
    pub file_types: Seq<Option<Seq<char>>>,
    pub file_paths: Seq<Option<Seq<char>>>,
    pub file_urls: Seq<Option<Seq<char>>>,
}

/// The model of a column of optional strings.
pub open spec fn column_view(c: Seq<Option<String>>) -> Seq<Option<Seq<char>>> {
    c.map_values(|o: Option<String>| opt_string_view(o))
}

impl View for ColumnBatch {
    type V = ColumnBatchView;

    open spec fn view(&self) -> ColumnBatchView {
        ColumnBatchView {
            file_ids: column_view(self.file_ids@),
            file_names: column_view(self.file_names@),
            file_types: column_view(self.file_types@),
            file_paths: column_view(self.file_paths@),
            file_urls: column_view(self.file_urls@),
        }
    }
}

/// The smaller of two lengths.
pub open spec fn min_len(a: nat, b: nat) -> nat {
    if a <= b {
        a
    } else {
        b
    }
}

/// The number of rows a batch yields: the columns are walked together and
/// the walk stops at the end of the shortest one.
pub open spec fn batch_row_count(b: ColumnBatchView) -> nat {
    min_len(
        min_len(min_len(b.file_ids.len(), b.file_names.len()), min_len(b.file_types.len(), b.file_paths.len())),
        b.file_urls.len(),
    )
}

/// The `i`-th row of a batch; the file size is never read from the batch.
pub open spec fn batch_row(b: ColumnBatchView, i: int) -> TableRow {
    TableRow {
        file_id: b.file_ids[i],
        file_name: b.file_names[i],
        file_type: b.file_types[i],
        file_size: None,
        file_path: b.file_paths[i],
        file_url: b.file_urls[i],
    }
}

/// The rows of a batch, in order.
pub open spec fn batch_rows(b: ColumnBatchView) -> Seq<TableRow> {
    Seq::new(batch_row_count(b), |i: int| batch_row(b, i))
}

/// The rows of a sequence of batches: those of each batch, batch after batch.
pub open spec fn rows_of_batches(bs: Seq<ColumnBatchView>) -> Seq<TableRow>
    decreases bs.len(),
{
    if bs.len() == 0 {
        Seq::empty()
    } else {
        rows_of_batches(bs.drop_last()) + batch_rows(bs.last())
    }
}

/// The model of a sequence of rows.
pub open spec fn rows_view(ts: Seq<Table>) -> Seq<TableRow> {
    ts.map_values(|t: Table| t@)
}

/// The model of a sequence of batches.
pub open spec fn batches_view(bs: Seq<ColumnBatch>) -> Seq<ColumnBatchView> {
    bs.map_values(|b: ColumnBatch| b@)
}

/// The rows a batch yields are no more than any of its columns holds, and
/// exactly as many as one of them (the shortest) holds; row `i` carries
/// entry `i` of each column, in order, and no file size.
pub proof fn lemma_batch_rows_follow_columns(b: ColumnBatchView)
    ensures
        batch_rows(b).len() <= b.file_ids.len(),
        batch_rows(b).len() <= b.file_names.len(),
        batch_rows(b).len() <= b.file_types.len(),
        batch_rows(b).len() <= b.file_paths.len(),
        batch_rows(b).len() <= b.file_urls.len(),
        batch_rows(b).len() == b.file_ids.len() || batch_rows(b).len() == b.file_names.len()
            || batch_rows(b).len() == b.file_types.len() || batch_rows(b).len() == b.file_paths.len()
            || batch_rows(b).len() == b.file_urls.len(),
        forall|i: int|
            0 <= i < batch_rows(b).len() ==> #[trigger] batch_rows(b)[i] == (TableRow {
                file_id: b.file_ids[i],
                file_name: b.file_names[i],
                file_type: b.file_types[i],
                file_size: None,
                file_path: b.file_paths[i],
                file_url: b.file_urls[i],
            }),
{
}

/// Every batch has its five columns of one length.
pub open spec fn columns_aligned(bs: Seq<ColumnBatchView>) -> bool {
    forall|k: int|
        0 <= k < bs.len() ==> {
            &&& (#[trigger] bs[k]).file_names.len() == bs[k].file_ids.len()
            &&& bs[k].file_types.len() == bs[k].file_ids.len()
            &&& bs[k].file_paths.len() == bs[k].file_ids.len()
            &&& bs[k].file_urls.len() == bs[k].file_ids.len()
        }
}

/// The number of entries in the id columns of the batches, together.
pub open spec fn total_entries(bs: Seq<ColumnBatchView>) -> nat
    decreases bs.len(),
{
    if bs.len() == 0 {
        0
    } else {
        total_entries(bs.drop_last()) + bs.last().file_ids.len()
    }
}

/// Batches whose columns line up yield one row per entry: as many rows as
/// all their id columns hold together.
pub proof fn lemma_aligned_batches_yield_every_entry(bs: Seq<ColumnBatchView>)
    requires
        columns_aligned(bs),
    ensures
        rows_of_batches(bs).len() == total_entries(bs),
    decreases bs.len(),
{
    if bs.len() > 0 {
        let init = bs.drop_last();
        assert(columns_aligned(init)) by {
            assert forall|k: int| 0 <= k < init.len() implies {
                &&& (#[trigger] init[k]).file_names.len() == init[k].file_ids.len()
                &&& init[k].file_types.len() == init[k].file_ids.len()
                &&& init[k].file_paths.len() == init[k].file_ids.len()
                &&& init[k].file_urls.len() == init[k].file_ids.len()
            } by {
                assert(init[k] == bs[k]);
            }
        }
        lemma_aligned_batches_yield_every_entry(init);
        let last = bs.last();
        assert(bs[bs.len() - 1] == last);
        lemma_batch_rows_follow_columns(last);
    }
}

/// The rows of batches laid end to end are those of the first ones followed
/// by those of the rest: no batch's rows are lost, reordered or mixed.
pub proof fn lemma_rows_of_concatenated_batches(a: Seq<ColumnBatchView>, b: Seq<ColumnBatchView>)
    ensures
        rows_of_batches(a + b) == rows_of_batches(a) + rows_of_batches(b),
    decreases b.len(),
{
    if b.len() == 0 {
        assert(a + b =~= a);
        assert(rows_of_batches(a) + rows_of_batches(b) =~= rows_of_batches(a));
    } else {
        assert((a + b).drop_last() =~= a + b.drop_last());
        assert((a + b).last() == b.last());
        lemma_rows_of_concatenated_batches(a, b.drop_last());
        assert(rows_of_batches(a + b) =~= rows_of_batches(a) + rows_of_batches(b));
    }
}

/// The SQL that selects rows for an optional condition: the whole condition
/// follows `where`, and unless it already says `limit` at most ten rows are
/// asked for; with no condition, the first ten rows.
pub open spec fn select_sql(condition: Option<Seq<char>>) -> Seq<char> {
    match condition {
        Some(q) => if contains_seq(q, "limit"@) {
            "select * from "@ + TABLE_NAME@ + " where "@ + q
        } else {
            "select * from "@ + TABLE_NAME@ + " where "@ + q + " limit 10"@
        },
        None => "select * from "@ + TABLE_NAME@ + " limit 10"@,
    }
}

/// The SQL that selects the rows whose file name is `id`.
pub open spec fn select_by_id_sql(id: Seq<char>) -> Seq<char> {
    "select * from "@ + TABLE_NAME@ + " where file_name = '"@ + id + "'"@
}

proof fn lemma_occurs_in_concat(a: Seq<char>, b: Seq<char>, c: Seq<char>, needle: Seq<char>, k: int)
    requires
        occurs_at(b, needle, k),
    ensures
        occurs_at(a + b + c, needle, a.len() + k),
{
    assert((a + b + c).subrange(a.len() + k, a.len() + k + needle.len()) =~= b.subrange(
        k,
        k + needle.len(),
    ));
}

/// Every SQL a selection sends is bounded by a `limit`: the caller's own,
/// or the default of ten rows.
pub proof fn lemma_select_sql_always_limited(condition: Option<Seq<char>>)
    ensures
        contains_seq(select_sql(condition), "limit"@),
{
    reveal_strlit("limit");
    reveal_strlit(" limit 10");
    let tail = " limit 10"@;
    assert(occurs_at(tail, "limit"@, 1)) by {
        assert(tail.subrange(1, 6) =~= "limit"@);
    }
    let head = "select * from "@ + TABLE_NAME@;
    match condition {
        None => {
            lemma_occurs_in_concat(head, tail, Seq::empty(), "limit"@, 1);
            assert(head + tail + Seq::<char>::empty() =~= select_sql(condition));
        },
        Some(q) => {
            let prefix = head + " where "@;
            if contains_seq(q, "limit"@) {
                let k = choose|k: int| occurs_at(q, "limit"@, k);
                lemma_occurs_in_concat(prefix, q, Seq::empty(), "limit"@, k);
                assert(prefix + q + Seq::<char>::empty() =~= select_sql(condition));
            } else {
                lemma_occurs_in_concat(prefix + q, tail, Seq::empty(), "limit"@, 1);
                assert(prefix + q + tail + Seq::<char>::empty() =~= select_sql(condition));
            }
        },
    }
}

/// The SQL of a selection by id compares the `file_name` column with the id
/// as given: the fixed text `select * from t where file_name = '`, then the
/// id verbatim, then a closing quote.
pub proof fn lemma_by_id_sql_compares_file_name(id: Seq<char>)
    ensures
        ({
            let sql = select_by_id_sql(id);
            let head = "select * from t where file_name = '"@;
            &&& sql.len() == head.len() + id.len() + 1
            &&& sql.subrange(0, head.len() as int) == head
            &&& sql.subrange(head.len() as int, head.len() + id.len() as int) == id
            &&& sql[sql.len() - 1] == '\''
        }),
{
    reveal_strlit("select * from ");
    reveal_strlit("t");
    reveal_strlit(" where file_name = '");
    reveal_strlit("'");
    reveal_strlit("select * from t where file_name = '");
    let head = "select * from t where file_name = '"@;
    let sql = select_by_id_sql(id);
    assert("select * from "@ + TABLE_NAME@ + " where file_name = '"@ =~= head);
    assert(sql =~= head + id + "'"@);
    assert(sql.subrange(0, head.len() as int) =~= head);
    assert(sql.subrange(head.len() as int, head.len() + id.len() as int) =~= id);
}

/// Different ids give different SQL.
pub proof fn lemma_by_id_sql_distinguishes_ids(a: Seq<char>, b: Seq<char>)
    requires
        select_by_id_sql(a) == select_by_id_sql(b),
    ensures
        a == b,
{
    lemma_by_id_sql_compares_file_name(a);
    lemma_by_id_sql_compares_file_name(b);
}

/// The table location is `s3://`, the bucket, `/`, and the key verbatim: it
/// ends with the whole key and begins with the store's URL.
pub proof fn lemma_table_location_keeps_key(bucket: Seq<char>, key: Seq<char>)
    ensures
        ({
            let loc = table_location_of(bucket, key);
            &&& loc.len() == 5 + bucket.len() + 1 + key.len()
            &&& loc.subrange(0, 5 + bucket.len() as int) == store_root(bucket)
            &&& loc.subrange(0, 5) == "s3://"@
            &&& loc[5 + bucket.len() as int] == '/'
            &&& loc.subrange(loc.len() - key.len(), loc.len() as int) == key
        }),
{
    reveal_strlit("s3://");
    reveal_strlit("/");
    let loc = table_location_of(bucket, key);
    assert(loc =~= "s3://"@ + bucket + "/"@ + key);
    assert(loc.subrange(0, 5 + bucket.len() as int) =~= store_root(bucket));
    assert(loc.subrange(0, 5) =~= "s3://"@);
    assert(loc.subrange(loc.len() - key.len(), loc.len() as int) =~= key);
}

fn clone_opt_string(o: &Option<String>) -> (r: Option<String>)
    ensures
        opt_string_view(r) == opt_string_view(*o),
{
    match o {
        Some(s) => Some(s.clone()),
        None => None,
    }
}

impl Table {
    /// The SQL sent for a selection with an optional condition.
    pub fn read_sql(condition: Option<&str>) -> (sql: String)
        ensures
            sql@ == select_sql(
                match condition {
                    Some(q) => Some(q@),
                    None => None,
                },
            ),
    {
        let mut sql = String::from_str("select * from ");
        sql.append(TABLE_NAME);
        match condition {
            Some(q) => {
                sql.append(" where ");
                sql.append(q);
                if !str_contains(q, "limit") {
                    sql.append(" limit 10");
                }
            },
            None => {
                sql.append(" limit 10");
            },
        }
        sql
    }

    /// The SQL sent for a selection by file name.
    pub fn read_by_id_sql(id: &str) -> (sql: String)
        ensures
            sql@ == select_by_id_sql(id@),
    {
        let mut sql = String::from_str("select * from ");
        sql.append(TABLE_NAME);
        sql.append(" where file_name = '");
        sql.append(id);
        sql.append("'");
        sql
    }

    /// Appends the rows of one batch to `out`.
    fn append_batch_rows(out: &mut Vec<Table>, batch: &ColumnBatch)
        ensures
            rows_view(final(out)@) == rows_view(old(out)@) + batch_rows(batch@),
    {
        let mut n = batch.file_ids.len();
        if batch.file_names.len() < n {
            n = batch.file_names.len();
        }
        if batch.file_types.len() < n {
            n = batch.file_types.len();
        }
        if batch.file_paths.len() < n {
            n = batch.file_paths.len();
        }
        if batch.file_urls.len() < n {
            n = batch.file_urls.len();
        }
        assert(n == batch_row_count(batch@));
        let ghost start = out@;
        let mut i: usize = 0;
        while i < n
            invariant
                n == batch_row_count(batch@),
                n <= batch.file_ids@.len(),
                n <= batch.file_names@.len(),
                n <= batch.file_types@.len(),
                n <= batch.file_paths@.len(),
                n <= batch.file_urls@.len(),
                i <= n,
                rows_view(out@) =~= rows_view(start) + batch_rows(batch@).take(i as int),
            decreases n - i,
        {
            let row = Table {
                file_id: clone_opt_string(&batch.file_ids[i]),
                file_name: clone_opt_string(&batch.file_names[i]),
                file_type: clone_opt_string(&batch.file_types[i]),
                file_size: None,
                file_path: clone_opt_string(&batch.file_paths[i]),
                file_url: clone_opt_string(&batch.file_urls[i]),
            };
            assert(row@ == batch_row(batch@, i as int));
            let ghost prev = out@;
            out.push(row);
            assert(rows_view(out@) =~= rows_view(prev).push(batch_row(batch@, i as int)));
            i = i + 1;
            assert(batch_rows(batch@).take(i as int) =~= batch_rows(batch@).take(i - 1).push(
                batch_row(batch@, i - 1),
            ));
            assert(rows_view(out@) =~= rows_view(start) + batch_rows(batch@).take(i as int));
        }
        assert(batch_rows(batch@).take(n as int) =~= batch_rows(batch@));
    }

    /// The rows of a sequence of record batches, batch after batch; within a
    /// batch the five string columns are walked together up to the end of
    /// the shortest, and no row carries a file size.
    pub fn records_from_batches(batches: &Vec<ColumnBatch>) -> (records: Vec<Table>)
        ensures
            rows_view(records@) == rows_of_batches(batches_view(batches@)),
    {
        let mut records: Vec<Table> = Vec::new();
        let mut k: usize = 0;
        while k < batches.len()
            invariant
                k <= batches@.len(),
                rows_view(records@) == rows_of_batches(batches_view(batches@).take(k as int)),
            decreases batches@.len() - k,
        {
            Self::append_batch_rows(&mut records, &batches[k]);
            k = k + 1;
            assert(batches_view(batches@).take(k as int).drop_last() =~= batches_view(
                batches@,
            ).take(k - 1));
            assert(batches_view(batches@).take(k as int).last() == batches@[k - 1]@);
        }
        assert(batches_view(batches@).take(k as int) =~= batches_view(batches@));
        records
    }
}

/// The URL under which the bucket's object store is registered.
pub open spec fn store_root(bucket: Seq<char>) -> Seq<char> {
    "s3://"@ + bucket
}

/// Where the table's parquet files lie: under `key` in the bucket.
pub open spec fn table_location_of(bucket: Seq<char>, key: Seq<char>) -> Seq<char> {
    "s3://"@ + bucket + "/"@ + key
}

#[verifier::external_type_specification]
#[verifier::external_body]
pub struct ExUrl(url::Url);

/// What `url::Url::parse` gives for `input`: the parsed URL, or the text
/// of the `ParseError` it refuses the input with.
pub uninterp spec fn url_parse(input: Seq<char>) -> Result<url::Url, Seq<char>>;

/// Parses an absolute URL with `url::Url::parse`, turning a refusal into the
/// text of its `ParseError`. Claimed: the outcome is `url_parse` of the
/// input (the parse depends on the input alone); what a parsed URL holds is
/// not stated.
#[verifier::external_body]
fn parse_url(input: &str) -> (r: Result<url::Url, String>)
    ensures
        match r {
            Ok(u) => url_parse(input@) == Ok::<url::Url, Seq<char>>(u),
            Err(m) => url_parse(input@) == Err::<url::Url, Seq<char>>(m@),
        },
{
    match url::Url::parse(input) {
        Ok(u) => Ok(u),
        Err(e) => Err(e.to_string()),
    }
}

/// What the store registration makes of the parse of its URL: the URL, or
/// an unexpected failure that carries the parser's text.
pub fn registration_url(parsed: Result<url::Url, String>) -> (r: Result<url::Url, DataStoreError>)
    ensures
        match (r, parsed) {
            (Ok(u), Ok(p)) => u == p,
            (Err(e), Err(m)) => e@ == StoreFailure::Unexpected(m@),
            _ => false,
        },
{
    match parsed {
        Ok(u) => Ok(u),
        Err(m) => Err(DataStoreError::UnexpectedError(m)),
    }
}

/// The URL of the bucket's object store: `s3://` and the bucket, parsed.
pub fn store_url(bucket: &str) -> (r: Result<url::Url, DataStoreError>)
    ensures
        match r {
            Ok(u) => url_parse(store_root(bucket@)) == Ok::<url::Url, Seq<char>>(u),
            Err(e) => match url_parse(store_root(bucket@)) {
                Err(m) => e@ == StoreFailure::Unexpected(m),
                Ok(_) => false,
            },
        },
{
    let mut root = String::from_str("s3://");
    root.append(bucket);
    let parsed = parse_url(root.as_str());
    registration_url(parsed)
}

/// A credential as the store builder takes it: the value, or the empty
/// string where the credentials hold none.
pub fn credential_or_empty(value: Option<String>) -> (s: String)
    ensures
        s@ == match value {
            Some(v) => v@,
            None => Seq::<char>::empty(),
        },
{
    match value {
        Some(v) => v,
        None => String::new(),
    }
}

/// Where the table's parquet files lie.
pub fn table_location(bucket: &str, key: &str) -> (location: String)
    ensures
        location@ == table_location_of(bucket@, key@),
{
    let mut location = String::from_str("s3://");
    location.append(bucket);
    location.append("/");
    location.append(key);
    location
}

} // verus!
