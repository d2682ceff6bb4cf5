//! The manifest: a CSV table whose header row names the columns.
use vstd::prelude::*;

verus! {

/// Why a manifest cannot be used at all.
#[derive(Clone, Debug)]
pub enum ManifestError {
    /// The manifest file could not be opened.
    NotFound,
    /// The manifest could not be read as a table.
    Malformed,
    /// No column of the header row carries this name.
    MissingColumn(String),
}

/// The header row and the well-formed rows of a manifest, in file order.
#[derive(Clone, Debug)]
pub struct Table {
    pub headers: Vec<String>,
    pub rows: Vec<Vec<String>>,
}

/// The character sequences of a sequence of strings.
pub open spec fn texts(v: Seq<String>) -> Seq<Seq<char>> {
    v.map_values(|s: String| s@)
}

/// The rows that the CSV reader produced, a row that it could not read as `None`.
pub open spec fn read_rows(v: Seq<Option<Vec<String>>>) -> Seq<Option<Seq<Seq<char>>>> {
    v.map_values(|r: Option<Vec<String>>| match r {
        Some(fields) => Some(texts(fields@)),
        None => None,
    })
}

/// The rows that were read well, in order; the others are left out.
pub open spec fn well_formed(rows: Seq<Option<Seq<Seq<char>>>>) -> Seq<Seq<Seq<char>>>
    decreases rows.len(),
{
    if rows.len() == 0 {
        Seq::empty()
    } else {
        let rest = well_formed(rows.drop_last());
        match rows.last() {
            Some(r) => rest.push(r),
            None => rest,
        }
    }
}

/// What the CSV reader makes of the bytes: `None` where the header row cannot
/// be read, else the header row and each later record, `None` for one that
/// cannot be read.
pub uninterp spec fn csv_table(data: Seq<u8>) -> Option<(Seq<Seq<char>>, Seq<Option<Seq<Seq<char>>>>)>;

/// Relies on csv::ReaderBuilder::from_reader with its default settings, and
/// on Reader::headers and Reader::records: the first record is the header
/// row, each later one a record.
#[verifier::external_body]
fn read_csv(data: &[u8]) -> (r: Option<(Vec<String>, Vec<Option<Vec<String>>>)>)
    ensures
        match csv_table(data@) {
            None => r is None,
            Some(t) => r matches Some(v) && texts(v.0@) == t.0 && read_rows(v.1@) == t.1,
        },
{
    let mut rdr = csv::ReaderBuilder::new().from_reader(data);
    let headers = rdr.headers().ok()?.iter().map(|h| h.to_string()).collect();
    let rows = rdr.records().map(|r| r.ok().map(|r| r.iter().map(|f| f.to_string()).collect())).collect();
    Some((headers, rows))
}

impl Table {
    /// The column names, in order.
    pub open spec fn headers_view(&self) -> Seq<Seq<char>> {
        texts(self.headers@)
    }

    /// The fields of each row, in order.
    pub open spec fn rows_view(&self) -> Seq<Seq<Seq<char>>> {
        self.rows@.map_values(|r: Vec<String>| texts(r@))
    }
}

/// Reads a manifest from its bytes. Records that cannot be read are skipped;
/// the manifest is `Malformed` only where its header row cannot be read.
pub fn parse_table(data: &[u8]) -> (r: Result<Table, ManifestError>)
    ensures
        match csv_table(data@) {
            None => r matches Err(ManifestError::Malformed),
            Some(t) => r matches Ok(table) && table.headers_view() == t.0 && table.rows_view()
                == well_formed(t.1),
        },
{
    match read_csv(data) {
        None => Err(ManifestError::Malformed),
        Some((headers, read)) => {
            let mut rows: Vec<Vec<String>> = Vec::new();
            let mut i: usize = 0;
            while i < read.len()
                invariant
                    i <= read.len(),
                    rows@.map_values(|r: Vec<String>| texts(r@)) == well_formed(
                        read_rows(read@).subrange(0, i as int),
                    ),
                decreases read.len() - i,
            {
                let ghost before = read_rows(read@).subrange(0, i as int);
                assert(read_rows(read@).subrange(0, i + 1).drop_last() =~= before);
                match &read[i] {
                    Some(fields) => {
                        rows.push(fields.clone());
                        assert(rows@.map_values(|r: Vec<String>| texts(r@)) =~= well_formed(
                            before,
                        ).push(texts(fields@)));
                    },
                    None => {},
                }
                i += 1;
            }
            assert(read_rows(read@).subrange(0, read.len() as int) =~= read_rows(read@));
            Ok(Table { headers, rows })
        },
    }
}

/// The first index whose header is `name`.
pub open spec fn first_index_of(headers: Seq<Seq<char>>, name: Seq<char>, i: int) -> bool {
    &&& 0 <= i < headers.len()
    &&& headers[i] == name
    &&& forall|j: int| 0 <= j < i ==> headers[j] != name
}

/// Finds the position of the column called `name` in the header row.
pub fn resolve_column(headers: &Vec<String>, name: &str) -> (r: Result<usize, ManifestError>)
    ensures
        match r {
            Ok(i) => first_index_of(texts(headers@), name@, i as int),
            Err(e) => e matches ManifestError::MissingColumn(n) && n@ == name@ && !texts(
                headers@,
            ).contains(name@),
        },
{
    let wanted = String::from_str(name);
    let mut i: usize = 0;
    while i < headers.len()
        invariant
            i <= headers.len(),
            wanted@ == name@,
            forall|j: int| 0 <= j < i ==> texts(headers@)[j] != name@,
        decreases headers.len() - i,
    {
        if headers[i] == wanted {
            return Ok(i);
        }
        i += 1;
    }
    assert(!texts(headers@).contains(name@)) by {
        if texts(headers@).contains(name@) {
            let k = choose|k: int| 0 <= k < texts(headers@).len() && texts(headers@)[k] == name@;
            assert(texts(headers@)[k] != name@);
        }
    }
    Err(ManifestError::MissingColumn(wanted))
}

/// The field at `index`, or the empty string where the row is shorter.
pub open spec fn field_or_empty(row: Seq<Seq<char>>, index: int) -> Seq<char> {
    if 0 <= index < row.len() {
        row[index]
    } else {
        Seq::empty()
    }
}

/// The field of a row at `index`; a row too short for it gives the empty string.
pub fn field(row: &Vec<String>, index: usize) -> (r: &str)
    ensures
        r@ == field_or_empty(texts(row@), index as int),
{
    if index < row.len() {
        row[index].as_str()
    } else {
        proof {
            reveal_strlit("");
        }
        ""
    }
}

} // verus!
