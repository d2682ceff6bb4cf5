//! Turning a manifest into download tasks.
use vstd::prelude::*;

use crate::manifest::{
    csv_table, field, field_or_empty, first_index_of, parse_table, resolve_column, texts,
    well_formed, ManifestError, Table,
};
use crate::batch::{completed_count, empty_slots, lemma_one_outcome_per_task, record_all};
use crate::fetch::FetchError;
use crate::task::{build_task, ArtifactKind, DownloadTask};

verus! {

/// The position of the first column called `name`.
pub open spec fn column_index(headers: Seq<Seq<char>>, name: Seq<char>) -> int {
    choose|i: int| first_index_of(headers, name, i)
}

/// `r` is what the manifest with these headers and rows gives for tasks of
/// `kind`: the key column is looked up first, then the file name column, and
/// a missing one fails the whole manifest; otherwise each row gives one task,
/// in row order, a field missing from a short row read as empty.
pub open spec fn is_plan(
    r: Result<Vec<DownloadTask>, ManifestError>,
    kind: ArtifactKind,
    base_url: Seq<char>,
    api_key: Seq<char>,
    key_column: Seq<char>,
    filename_column: Seq<char>,
    headers: Seq<Seq<char>>,
    rows: Seq<Seq<Seq<char>>>,
) -> bool {
    if !headers.contains(key_column) {
        r matches Err(ManifestError::MissingColumn(n)) && n@ == key_column
    } else if !headers.contains(filename_column) {
        r matches Err(ManifestError::MissingColumn(n)) && n@ == filename_column
    } else {
        r matches Ok(tasks) && tasks@.len() == rows.len() && forall|i: int|
            0 <= i < rows.len() ==> #[trigger] tasks@[i].is_task_of(
                kind,
                base_url,
                field_or_empty(rows[i], column_index(headers, key_column)),
                field_or_empty(rows[i], column_index(headers, filename_column)),
                api_key,
            )
    }
}

proof fn lemma_first_index_unique(headers: Seq<Seq<char>>, name: Seq<char>, i: int)
    requires
        first_index_of(headers, name, i),
    ensures
        column_index(headers, name) == i,
{
    let k = column_index(headers, name);
    assert(first_index_of(headers, name, k));
    if k < i {
        assert(headers[k] != name);
    } else if i < k {
        assert(headers[i] != name);
    }
}

/// Builds the tasks of `kind` for every row of the table. `key_column` names
/// the recording URL column for audio and the call id column for transcripts.
pub fn build_tasks(
    table: &Table,
    kind: ArtifactKind,
    base_url: &str,
    api_key: &str,
    key_column: &str,
    filename_column: &str,
) -> (r: Result<Vec<DownloadTask>, ManifestError>)
    ensures
        is_plan(
            r,
            kind,
            base_url@,
            api_key@,
            key_column@,
            filename_column@,
            table.headers_view(),
            table.rows_view(),
        ),
{
    let key_index = match resolve_column(&table.headers, key_column) {
        Ok(i) => i,
        Err(e) => return Err(e),
    };
    let name_index = match resolve_column(&table.headers, filename_column) {
        Ok(i) => i,
        Err(e) => {
            assert(texts(table.headers@)[key_index as int] == key_column@);
            return Err(e);
        },
    };
    proof {
        lemma_first_index_unique(table.headers_view(), key_column@, key_index as int);
        lemma_first_index_unique(table.headers_view(), filename_column@, name_index as int);
        assert(table.headers_view().contains(key_column@));
        assert(table.headers_view()[name_index as int] == filename_column@);
        assert(table.headers_view().contains(filename_column@));
    }
    let ghost rows = table.rows_view();
    let mut tasks: Vec<DownloadTask> = Vec::new();
    let mut i: usize = 0;
    while i < table.rows.len()
        invariant
            i <= table.rows.len(),
            rows == table.rows_view(),
            key_index as int == column_index(table.headers_view(), key_column@),
            name_index as int == column_index(table.headers_view(), filename_column@),
            tasks@.len() == i,
            forall|j: int|
                0 <= j < i ==> #[trigger] tasks@[j].is_task_of(
                    kind,
                    base_url@,
                    field_or_empty(rows[j], key_index as int),
                    field_or_empty(rows[j], name_index as int),
                    api_key@,
                ),
        decreases table.rows.len() - i,
    {
        let row = &table.rows[i];
        assert(rows[i as int] == texts(row@));
        let t = build_task(kind, base_url, field(row, key_index), field(row, name_index), api_key);
        tasks.push(t);
        i += 1;
    }
    Ok(tasks)
}

/// Reads a manifest and builds its tasks of `kind`.
pub fn tasks_from_csv(
    data: &[u8],
    kind: ArtifactKind,
    base_url: &str,
    api_key: &str,
    key_column: &str,
    filename_column: &str,
) -> (r: Result<Vec<DownloadTask>, ManifestError>)
    ensures
        match csv_table(data@) {
            None => r matches Err(ManifestError::Malformed),
            Some(t) => is_plan(
                r,
                kind,
                base_url@,
                api_key@,
                key_column@,
                filename_column@,
                t.0,
                well_formed(t.1),
            ),
        },
{
    match parse_table(data) {
        Ok(table) => build_tasks(&table, kind, base_url, api_key, key_column, filename_column),
        Err(e) => Err(e),
    }
}

/// The audio tasks of a manifest: one per row, fetching the row's recording
/// URL into `export/<file name>.mp3`.
pub fn audio_tasks_from_csv(
    data: &[u8],
    api_key: &str,
    url_column_name: &str,
    filename_column_name: &str,
) -> (r: Result<Vec<DownloadTask>, ManifestError>)
    ensures
        match csv_table(data@) {
            None => r matches Err(ManifestError::Malformed),
            Some(t) => is_plan(
                r,
                ArtifactKind::Audio,
                Seq::empty(),
                api_key@,
                url_column_name@,
                filename_column_name@,
                t.0,
                well_formed(t.1),
            ),
        },
{
    proof {
        reveal_strlit("");
        assert(""@ =~= Seq::<char>::empty());
    }
    tasks_from_csv(data, ArtifactKind::Audio, "", api_key, url_column_name, filename_column_name)
}

/// The transcript tasks of a manifest: one per row, fetching
/// `<base_url>/<call id>` into `export/transcripts/<file name>.json`.
pub fn transcript_tasks_from_csv(
    data: &[u8],
    api_key: &str,
    base_url: &str,
    call_id_column_name: &str,
    filename_column_name: &str,
) -> (r: Result<Vec<DownloadTask>, ManifestError>)
    ensures
        match csv_table(data@) {
            None => r matches Err(ManifestError::Malformed),
            Some(t) => is_plan(
                r,
                ArtifactKind::Transcript,
                base_url@,
                api_key@,
                call_id_column_name@,
                filename_column_name@,
                t.0,
                well_formed(t.1),
            ),
        },
{
    tasks_from_csv(
        data,
        ArtifactKind::Transcript,
        base_url,
        api_key,
        call_id_column_name,
        filename_column_name,
    )
}

/// No two tasks write to the same path.
pub open spec fn distinct_destinations(tasks: Seq<DownloadTask>) -> bool {
    forall|i: int, j: int|
        0 <= i < j < tasks.len() ==> #[trigger] tasks[i].destination@ != #[trigger] tasks[j].destination@
}

/// Whether every task has a destination of its own, so that tasks running at
/// the same time never write to one file.
pub fn has_distinct_destinations(tasks: &Vec<DownloadTask>) -> (r: bool)
    ensures
        r == distinct_destinations(tasks@),
{
    let mut j: usize = 1;
    while j < tasks.len()
        invariant
            1 <= j,
            forall|a: int, b: int|
                0 <= a < b < tasks.len() && b < j ==> #[trigger] tasks@[a].destination@
                    != #[trigger] tasks@[b].destination@,
        decreases tasks.len() - j,
    {
        let mut i: usize = 0;
        while i < j
            invariant
                j < tasks.len(),
                i <= j,
                forall|a: int, b: int|
                    0 <= a < b < tasks.len() && b < j ==> #[trigger] tasks@[a].destination@
                        != #[trigger] tasks@[b].destination@,
                forall|a: int| 0 <= a < i ==> #[trigger] tasks@[a].destination@ != tasks@[j as int].destination@,
            decreases j - i,
        {
            if tasks[i].destination == tasks[j].destination {
                return false;
            }
            i += 1;
        }
        j += 1;
    }
    true
}

/// A manifest whose tasks are built gives one outcome per well-formed row:
/// once every task has completed, in whatever order, the batch holds as many
/// outcomes as the manifest has rows.
pub proof fn lemma_one_outcome_per_row(
    r: Result<Vec<DownloadTask>, ManifestError>,
    kind: ArtifactKind,
    base_url: Seq<char>,
    api_key: Seq<char>,
    key_column: Seq<char>,
    filename_column: Seq<char>,
    headers: Seq<Seq<char>>,
    rows: Seq<Seq<Seq<char>>>,
    order: Seq<int>,
    results: Seq<Result<(), FetchError>>,
)
    requires
        is_plan(r, kind, base_url, api_key, key_column, filename_column, headers, rows),
        r is Ok,
        results.len() == rows.len(),
        forall|k: int| 0 <= k < order.len() ==> 0 <= #[trigger] order[k] < rows.len(),
        forall|j: int| 0 <= j < rows.len() ==> order.contains(j),
    ensures
        headers.contains(key_column) && headers.contains(filename_column),
        r->Ok_0@.len() == rows.len(),
        completed_count(record_all(empty_slots(rows.len()), order, results)) == rows.len(),
{
    lemma_one_outcome_per_task(rows.len(), order, results);
}

} // verus!
