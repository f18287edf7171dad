//! The remote-spreadsheet side: locating the spreadsheet identifier in an
//! address, naming the fetched range, and turning the fetched cell values
//! into a table.
use vstd::prelude::*;
use vstd::string::*;
use crate::normalize::{normalized, renamed, replace_header};
use crate::table::{empty_table, SourceError, TableData, TableModel};
use crate::text::{find_char_from, lower_of, lowercase, next_of};

verus! {

/// A path segment equal to `d` starts at `p` and another segment follows it.
pub open spec fn d_segment_at(s: Seq<char>, p: int) -> bool {
    0 <= p && p + 1 < s.len() && (p == 0 || s[p - 1] == '/') && s[p] == 'd' && s[p + 1] == '/'
}

/// The first `p` from `from` on where `d_segment_at` holds, or the length.
pub open spec fn first_d_segment(s: Seq<char>, from: int) -> int
    decreases s.len() - from,
{
    if from >= s.len() {
        s.len() as int
    } else if d_segment_at(s, from) {
        from
    } else {
        first_d_segment(s, from + 1)
    }
}

/// The `/`-separated segment that follows the first segment equal to `d`.
pub open spec fn spreadsheet_id(url: Seq<char>) -> Option<Seq<char>> {
    let p = first_d_segment(url, 0);
    if p >= url.len() {
        None
    } else {
        Some(url.subrange(p + 2, next_of(url, '/', p + 2)))
    }
}

/// The cell range fetched for a sheet: all of columns A to Z, of `Sheet1`
/// when no sheet is named.
pub open spec fn sheet_range_for(sheet: Seq<char>) -> Seq<char> {
    (if sheet.len() == 0 {
        "Sheet1"@
    } else {
        sheet
    }) + "!A:Z"@
}

/// For each row, the lowercase form of its first cell, or none for an empty row.
pub open spec fn lowered_first_cells(values: Seq<Seq<Seq<char>>>) -> Seq<Option<Seq<char>>> {
    Seq::new(
        values.len(),
        |i: int|
            if values[i].len() > 0 {
                Some(lower_of(values[i][0]))
            } else {
                None
            },
    )
}

/// The first index from `from` on whose entry is `category`, or the length.
pub open spec fn first_category(firsts: Seq<Option<Seq<char>>>, from: int) -> int
    decreases firsts.len() - from,
{
    if from >= firsts.len() {
        firsts.len() as int
    } else if firsts[from] == Some("category"@) {
        from
    } else {
        first_category(firsts, from + 1)
    }
}

/// The header row among rows whose lowercase first cells are `firsts`: the
/// first that is `category`, or 0 when none is.
pub open spec fn category_row(firsts: Seq<Option<Seq<char>>>) -> int {
    let c = first_category(firsts, 0);
    if c < firsts.len() {
        c
    } else {
        0
    }
}

/// The header row: the first category row, or row 0 when there is none.
pub open spec fn header_row(values: Seq<Seq<Seq<char>>>) -> int {
    category_row(lowered_first_cells(values))
}

/// The table made from fetched cell values: empty when nothing was fetched,
/// else the header row and the rows after it, normalised.
pub open spec fn remote_table(values: Seq<Seq<Seq<char>>>) -> TableModel {
    if values.len() == 0 {
        empty_table()
    } else {
        let h = header_row(values);
        normalized(values[h], values.subrange(h + 1, values.len() as int))
    }
}

/// Client-side settings of the remote spreadsheet source.
pub struct CloudHandler {
    /// The service-account key file used to authenticate.
    pub credentials_path: String,
}

impl CloudHandler {
    pub fn new() -> (r: CloudHandler)
        ensures
            r.credentials_path@ == "credentials.json"@,
    {
        CloudHandler { credentials_path: String::from_str("credentials.json") }
    }

    /// The spreadsheet identifier in `url`: the path segment after the first
    /// segment `d`; `InvalidReference` when there is none.
    pub fn extract_spreadsheet_id<'a>(&self, url: &'a str) -> (r: Result<&'a str, SourceError>)
        ensures
            r matches Ok(id) ==> spreadsheet_id(url@) == Some(id@),
            r matches Err(e) ==> spreadsheet_id(url@) is None && e == SourceError::InvalidReference,
    {
        let n = url.unicode_len();
        let mut p: usize = 0;
        while p < n
            invariant
                p <= n,
                n == url@.len(),
                first_d_segment(url@, 0) == first_d_segment(url@, p as int),
            decreases n - p,
        {
            if p + 1 < n && (p == 0 || url.get_char(p - 1) == '/') && url.get_char(p) == 'd'
                && url.get_char(p + 1) == '/' {
                let end = find_char_from(url, n, '/', p + 2);
                return Ok(url.substring_char(p + 2, end));
            }
            p += 1;
        }
        Err(SourceError::InvalidReference)
    }

    /// The range to fetch: `<sheet>!A:Z`, with `Sheet1` for an empty name.
    pub fn sheet_range(&self, sheet_name: &str) -> (r: String)
        ensures
            r@ == sheet_range_for(sheet_name@),
    {
        let sheet = if sheet_name.is_empty() {
            "Sheet1"
        } else {
            sheet_name
        };
        String::from_str(sheet).concat("!A:Z")
    }

    /// Index of the header row, given the lowercase first cell of each row
    /// (none for an empty row): the first that is `category`, else 0.
    pub fn category_row_index(firsts: &Vec<Option<String>>) -> (r: usize)
        ensures
            r == category_row(firsts.deep_view()),
    {
        let ghost fv = firsts.deep_view();
        let category = String::from_str("category");
        let mut i: usize = 0;
        while i < firsts.len()
            invariant
                i <= firsts.len(),
                fv == firsts.deep_view(),
                category@ == "category"@,
                first_category(fv, 0) == first_category(fv, i as int),
            decreases firsts.len() - i,
        {
            if let Some(cell) = &firsts[i] {
                if *cell == category {
                    return i;
                }
            }
            i += 1;
        }
        0
    }

    /// Index of the header row among fetched rows: the first row whose first
    /// cell lowercases to `category`, else 0.
    pub fn header_row_index(values: &Vec<Vec<String>>) -> (r: usize)
        ensures
            r == header_row(values.deep_view()),
    {
        let ghost vv = values.deep_view();
        let mut firsts: Vec<Option<String>> = Vec::new();
        let mut i: usize = 0;
        while i < values.len()
            invariant
                i <= values.len(),
                vv == values.deep_view(),
                firsts.deep_view() == lowered_first_cells(vv.subrange(0, i as int)),
            decreases values.len() - i,
        {
            let ghost prev = firsts.deep_view();
            let cell = if values[i].len() > 0 {
                assert(vv[i as int][0] == values@[i as int]@[0]@);
                Some(lowercase(values[i][0].as_str()))
            } else {
                None
            };
            assert(cell.deep_view() == lowered_first_cells(vv.subrange(0, i + 1))[i as int]);
            firsts.push(cell);
            assert(firsts.deep_view() =~= prev.push(cell.deep_view()));
            assert(firsts.deep_view() =~= lowered_first_cells(vv.subrange(0, i + 1)));
            i += 1;
        }
        assert(vv.subrange(0, values.len() as int) =~= vv);
        Self::category_row_index(&firsts)
    }

    /// The table in fetched cell values: rows before the header row are
    /// discarded, the rest normalised.
    pub fn process_data(&self, values: &Vec<Vec<String>>) -> (r: TableData)
        ensures
            r@ == remote_table(values.deep_view()),
    {
        if values.len() == 0 {
            return TableData::empty();
        }
        let h = Self::header_row_index(values);
        crate::normalize::normalize(&values[h], values, h + 1)
    }

    /// The display name of a header.
    pub fn replace_header(header: &str) -> (r: String)
        ensures
            r@ == renamed(header@),
    {
        replace_header(header)
    }
}

} // verus!
