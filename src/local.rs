//! Reading a local delimited file: delimiter detection, record parsing with
//! the csv crate, and normalisation of the parsed records.
use vstd::prelude::*;
use crate::normalize::{
    copy_row, hide_keys, kept_headers, normalized, process_headers, renamed, replace_header,
    visibility,
};
use crate::table::{empty_table, TableData, TableModel};

verus! {

/// A `;` comes before the first line break: the file is `;`-separated.
pub open spec fn first_line_has_semicolon(contents: Seq<u8>) -> bool {
    exists|i: int|
        0 <= i < contents.len() && #[trigger] contents[i] == 59u8 && forall|j: int|
            0 <= j < i ==> contents[j] != 10u8
}

/// The field delimiter of a file with these contents.
pub open spec fn delimiter_for(contents: Seq<u8>) -> u8 {
    if first_line_has_semicolon(contents) {
        59u8
    } else {
        44u8
    }
}

/// What the csv reader makes of `contents` split at `delimiter`, with
/// records of any length: the header record (none if it does not parse),
/// then each later record (none for one that does not parse).
pub uninterp spec fn csv_parse(contents: Seq<u8>, delimiter: u8) -> (
    Option<Seq<Seq<char>>>,
    Seq<Option<Seq<Seq<char>>>>,
);

/// Relies on the csv crate's `ReaderBuilder` with `flexible(true)`: `headers`
/// yields the first record and `records` each later one, or an error for a
/// record that does not parse.
#[verifier::external_body]
fn parse_records(contents: &[u8], delimiter: u8) -> (r: (
    Option<Vec<String>>,
    Vec<Option<Vec<String>>>,
))
    ensures
        r.deep_view() == csv_parse(contents@, delimiter),
{
    let mut reader = csv::ReaderBuilder::new().delimiter(delimiter).flexible(true).from_reader(
        contents,
    );
    let head = reader.headers().ok().map(|h| h.iter().map(String::from).collect());
    let records = reader.records().map(|r| r.ok().map(|x| x.iter().map(String::from).collect()));
    (head, records.collect())
}

/// The records that parsed, in order.
pub open spec fn parsed_rows(records: Seq<Option<Seq<Seq<char>>>>) -> Seq<Seq<Seq<char>>>
    decreases records.len(),
{
    if records.len() == 0 {
        Seq::empty()
    } else {
        let prev = parsed_rows(records.drop_last());
        match records.last() {
            Some(r) => prev.push(r),
            None => prev,
        }
    }
}

/// The table made from a parsed header record and the later records: empty
/// when the header did not parse, else the normalised header and the
/// records that parsed.
pub open spec fn records_table(
    head: Option<Seq<Seq<char>>>,
    records: Seq<Option<Seq<Seq<char>>>>,
) -> TableModel {
    match head {
        None => empty_table(),
        Some(h) => normalized(h, parsed_rows(records)),
    }
}

/// The table that a local file with these contents yields.
pub open spec fn local_table(contents: Seq<u8>) -> TableModel {
    let parsed = csv_parse(contents, delimiter_for(contents));
    records_table(parsed.0, parsed.1)
}

/// Reader of local delimited files.
pub struct CSVHandler {}

impl CSVHandler {
    pub fn new() -> (r: CSVHandler) {
        CSVHandler {  }
    }

    /// `;` when the first line holds a `;`, else `,`.
    pub fn detect_delimiter(contents: &[u8]) -> (r: u8)
        ensures
            r == delimiter_for(contents@),
    {
        let mut i: usize = 0;
        while i < contents.len()
            invariant
                i <= contents@.len(),
                forall|j: int| 0 <= j < i ==> contents@[j] != 10u8 && contents@[j] != 59u8,
            decreases contents.len() - i,
        {
            if contents[i] == 59u8 {
                assert(first_line_has_semicolon(contents@));
                return 59u8;
            }
            if contents[i] == 10u8 {
                assert forall|k: int| 0 <= k < contents@.len() && #[trigger] contents@[k] == 59u8 implies exists|j: int|
                    0 <= j < k && contents@[j] == 10u8 by {
                    assert(k > i);
                    assert(contents@[i as int] == 10u8);
                }
                return 44u8;
            }
            i += 1;
        }
        44u8
    }

    /// The table made from a parsed header record and the later records.
    pub fn table_from_records(
        head: Option<Vec<String>>,
        records: Vec<Option<Vec<String>>>,
    ) -> (r: TableData)
        ensures
            r@ == records_table(head.deep_view(), records.deep_view()),
    {
        match head {
            None => TableData::empty(),
            Some(h) => {
                let ghost rv = records.deep_view();
                let mut rows: Vec<Vec<String>> = Vec::new();
                let mut i: usize = 0;
                while i < records.len()
                    invariant
                        i <= records.len(),
                        rv == records.deep_view(),
                        rows.deep_view() == parsed_rows(rv.subrange(0, i as int)),
                    decreases records.len() - i,
                {
                    let ghost prev = rows.deep_view();
                    match &records[i] {
                        Some(rec) => {
                            let row = copy_row(rec);
                            rows.push(row);
                            assert(rows.deep_view() =~= prev.push(rec.deep_view()));
                        },
                        None => {},
                    }
                    assert(rv.subrange(0, i + 1).drop_last() =~= rv.subrange(0, i as int));
                    i += 1;
                }
                assert(rv.subrange(0, records.len() as int) =~= rv);
                assert(rows.deep_view().subrange(0, rows.len() as int) =~= rows.deep_view());
                crate::normalize::normalize(&h, &rows, 0)
            },
        }
    }

    /// The table in the contents of a local file: the delimiter is detected,
    /// the records parsed, the first record taken as the header row.
    pub fn read_contents(&self, contents: &[u8]) -> (r: TableData)
        ensures
            r@ == local_table(contents@),
    {
        let delimiter = Self::detect_delimiter(contents);
        let (head, records) = parse_records(contents, delimiter);
        Self::table_from_records(head, records)
    }

    /// The fixed set of lowercase header substrings that hide a column.
    pub fn get_columns_to_hide(headers: &[String]) -> (r: Vec<&'static str>)
        ensures
            r@.map_values(|k: &str| k@) == hide_keys(),
    {
        crate::normalize::get_columns_to_hide(headers)
    }

    /// Renames the visible headers and marks which columns are visible.
    pub fn process_headers(headers: Vec<String>, columns_to_hide: &[&str]) -> (r: (
        Vec<String>,
        Vec<bool>,
    ))
        ensures
            r.0.deep_view() == kept_headers(
                headers.deep_view(),
                columns_to_hide@.map_values(|k: &str| k@),
            ),
            r.1@ == visibility(headers.deep_view(), columns_to_hide@.map_values(|k: &str| k@)),
    {
        process_headers(headers, columns_to_hide)
    }

    /// The display name of a header.
    pub fn replace_header(header: &str) -> (r: String)
        ensures
            r@ == renamed(header@),
    {
        replace_header(header)
    }
}

} // verus!
