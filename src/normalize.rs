//! The rules shared by both sources: which columns are hidden, how headers
//! are renamed, and which rows are kept.
use vstd::prelude::*;
use vstd::string::*;
use crate::table::{TableData, TableModel};
use crate::text::{
    contains_str, find_char_from, has_substring, is_blank, blank, lower_of, lowercase, next_of,
};

verus! {

/// Header substrings (lowercase) that hide a column.
pub open spec fn hide_keys() -> Seq<Seq<char>> {
    seq![
        "sport_id"@,
        "team_members"@,
        "team_name"@,
        "info"@,
        "result_code"@,
        "position_pre"@,
    ]
}

/// Header substrings (lowercase) that rename a column, in priority order.
pub open spec fn rename_keys() -> Seq<Seq<char>> {
    seq!["category"@, "first_name"@, "last_name"@, "organization"@, "napat"@, "result"@, "posit."@]
}

/// The display name that each entry of `rename_keys` gives.
pub open spec fn rename_values() -> Seq<Seq<char>> {
    seq!["Series"@, "Name"@, "Surname"@, "Club"@, "X"@, "Result"@, "Rank"@]
}

/// The lowercase header `lower` holds one of `keys`.
pub open spec fn hidden_by(lower: Seq<char>, keys: Seq<Seq<char>>) -> bool {
    exists|k: int| 0 <= k < keys.len() && #[trigger] has_substring(lower, keys[k])
}

/// The header's column is hidden by the fixed hide set.
pub open spec fn hidden(header: Seq<char>) -> bool {
    hidden_by(lower_of(header), hide_keys())
}

/// Index of the first of `keys` from `from` on that `lower` holds, or `keys.len()`.
pub open spec fn first_match(lower: Seq<char>, keys: Seq<Seq<char>>, from: int) -> int
    decreases keys.len() - from,
{
    if from >= keys.len() {
        keys.len() as int
    } else if has_substring(lower, keys[from]) {
        from
    } else {
        first_match(lower, keys, from + 1)
    }
}

/// The text between the first `-` and the next `-` (or the end), if there is a `-`.
pub open spec fn dash_token(h: Seq<char>) -> Option<Seq<char>> {
    let a = next_of(h, '-', 0);
    if a >= h.len() {
        None
    } else {
        Some(h.subrange(a + 1, next_of(h, '-', a + 1)))
    }
}

/// The display name of header `h`, whose lowercase form is `lower`.
pub open spec fn renamed_with(h: Seq<char>, lower: Seq<char>) -> Seq<char> {
    let part = has_substring(lower, "part-"@);
    let psum = has_substring(lower, "psum-"@);
    let k = first_match(lower, rename_keys(), 0);
    if part && dash_token(h) is Some {
        "S"@ + dash_token(h)->0
    } else if !part && psum && dash_token(h) is Some {
        "P"@ + dash_token(h)->0
    } else if k < rename_keys().len() {
        rename_values()[k]
    } else {
        h
    }
}

/// The display name of header `h`.
pub open spec fn renamed(h: Seq<char>) -> Seq<char> {
    renamed_with(h, lower_of(h))
}

/// The display names of the headers not hidden by `keys`, in input order.
pub open spec fn kept_headers(hs: Seq<Seq<char>>, keys: Seq<Seq<char>>) -> Seq<Seq<char>>
    decreases hs.len(),
{
    if hs.len() == 0 {
        Seq::empty()
    } else {
        let prev = kept_headers(hs.drop_last(), keys);
        if hidden_by(lower_of(hs.last()), keys) {
            prev
        } else {
            prev.push(renamed(hs.last()))
        }
    }
}

/// For each header, whether its column stays visible under `keys`.
pub open spec fn visibility(hs: Seq<Seq<char>>, keys: Seq<Seq<char>>) -> Seq<bool> {
    Seq::new(hs.len(), |i: int| !hidden_by(lower_of(hs[i]), keys))
}

/// The cells of `row` at the positions that `mask` marks visible; positions
/// past the end of `mask` are dropped.
pub open spec fn project(mask: Seq<bool>, row: Seq<Seq<char>>) -> Seq<Seq<char>>
    decreases row.len(),
{
    if row.len() == 0 {
        Seq::empty()
    } else {
        let i = row.len() - 1;
        let prev = project(mask, row.drop_last());
        if i < mask.len() && mask[i] {
            prev.push(row[i])
        } else {
            prev
        }
    }
}

/// Every cell of the row trims to nothing.
pub open spec fn blank_row(row: Seq<Seq<char>>) -> bool {
    forall|i: int| 0 <= i < row.len() ==> blank(#[trigger] row[i])
}

/// The non-blank rows, each projected through `mask`, in input order.
pub open spec fn kept_rows(mask: Seq<bool>, rows: Seq<Seq<Seq<char>>>) -> Seq<Seq<Seq<char>>>
    decreases rows.len(),
{
    if rows.len() == 0 {
        Seq::empty()
    } else {
        let prev = kept_rows(mask, rows.drop_last());
        if blank_row(rows.last()) {
            prev
        } else {
            prev.push(project(mask, rows.last()))
        }
    }
}

/// The table that a raw header row and raw data rows normalise to.
pub open spec fn normalized(hs: Seq<Seq<char>>, rows: Seq<Seq<Seq<char>>>) -> TableModel {
    (kept_headers(hs, hide_keys()), kept_rows(visibility(hs, hide_keys()), rows))
}

/// Whether the lowercase header `lower` holds one of `keys`.
pub fn hidden_by_keys(lower: &str, keys: &[&str]) -> (r: bool)
    ensures
        r == hidden_by(lower@, keys@.map_values(|k: &str| k@)),
{
    let ghost ks = keys@.map_values(|k: &str| k@);
    let mut i: usize = 0;
    while i < keys.len()
        invariant
            ks == keys@.map_values(|k: &str| k@),
            forall|j: int| 0 <= j < i ==> !#[trigger] has_substring(lower@, ks[j]),
        decreases keys.len() - i,
    {
        if contains_str(lower, keys[i]) {
            assert(has_substring(lower@, ks[i as int]));
            return true;
        }
        i += 1;
    }
    false
}

/// The first `-`-delimited token after the first `-` of `h`, if any.
fn dash_token_of(h: &str) -> (r: Option<&str>)
    ensures
        r matches Some(t) ==> dash_token(h@) == Some(t@),
        r is None ==> dash_token(h@) is None,
{
    let n = h.unicode_len();
    let a = find_char_from(h, n, '-', 0);
    if a >= n {
        None
    } else {
        let b = find_char_from(h, n, '-', a + 1);
        Some(h.substring_char(a + 1, b))
    }
}

/// The display name that the rename table gives a lowercase header, if any.
fn rename_by_table(lower: &str) -> (r: Option<String>)
    ensures
        ({
            let k = first_match(lower@, rename_keys(), 0);
            &&& r is Some <==> k < rename_keys().len()
            &&& r matches Some(s) ==> s@ == rename_values()[k]
        }),
{
    let keys: Vec<&str> = vec![
        "category",
        "first_name",
        "last_name",
        "organization",
        "napat",
        "result",
        "posit.",
    ];
    let values: Vec<&str> = vec!["Series", "Name", "Surname", "Club", "X", "Result", "Rank"];
    assert(keys@.map_values(|k: &str| k@) =~= rename_keys());
    assert(values@.map_values(|k: &str| k@) =~= rename_values());
    let mut i: usize = 0;
    while i < keys.len()
        invariant
            keys@.map_values(|k: &str| k@) == rename_keys(),
            values@.map_values(|k: &str| k@) == rename_values(),
            i <= keys.len(),
            keys@.len() == values@.len(),
            first_match(lower@, rename_keys(), 0) == first_match(lower@, rename_keys(), i as int),
        decreases keys.len() - i,
    {
        assert(keys@.map_values(|k: &str| k@)[i as int] == keys@[i as int]@);
        if contains_str(lower, keys[i]) {
            assert(values@.map_values(|k: &str| k@)[i as int] == values@[i as int]@);
            return Some(String::from_str(values[i]));
        }
        i += 1;
    }
    None
}

/// The display name of header `h`, given its lowercase form `lower`.
pub fn rename_lowered(h: &str, lower: &str) -> (r: String)
    ensures
        r@ == renamed_with(h@, lower@),
{
    let part = contains_str(lower, "part-");
    let psum = contains_str(lower, "psum-");
    let tok = dash_token_of(h);
    if part {
        if let Some(t) = tok {
            return String::from_str("S").concat(t);
        }
    } else if psum {
        if let Some(t) = tok {
            return String::from_str("P").concat(t);
        }
    }
    match rename_by_table(lower) {
        Some(r) => r,
        None => String::from_str(h),
    }
}


/// The display name of header `h`.
pub fn replace_header(h: &str) -> (r: String)
    ensures
        r@ == renamed(h@),
{
    let lower = lowercase(h);
    rename_lowered(h, lower.as_str())
}

/// The fixed set of lowercase header substrings that hide a column.
pub fn get_columns_to_hide(_headers: &[String]) -> (r: Vec<&'static str>)
    ensures
        r@.map_values(|k: &str| k@) == hide_keys(),
{
    let r: Vec<&'static str> = vec![
        "sport_id",
        "team_members",
        "team_name",
        "info",
        "result_code",
        "position_pre",
    ];
    assert(r@.map_values(|k: &str| k@) =~= hide_keys());
    r
}

/// Renames the headers that `columns_to_hide` leaves visible, and marks
/// which columns are visible.
pub fn process_headers(headers: Vec<String>, columns_to_hide: &[&str]) -> (r: (
    Vec<String>,
    Vec<bool>,
))
    ensures
        r.0.deep_view() == kept_headers(
            headers.deep_view(),
            columns_to_hide@.map_values(|k: &str| k@),
        ),
        r.1@ == visibility(headers.deep_view(), columns_to_hide@.map_values(|k: &str| k@)),
{
    let ghost ks = columns_to_hide@.map_values(|k: &str| k@);
    let ghost hv = headers.deep_view();
    let mut out: Vec<String> = Vec::new();
    let mut vis: Vec<bool> = Vec::new();
    let mut i: usize = 0;
    while i < headers.len()
        invariant
            i <= headers.len(),
            hv == headers.deep_view(),
            ks == columns_to_hide@.map_values(|k: &str| k@),
            out.deep_view() == kept_headers(hv.subrange(0, i as int), ks),
            vis@ == visibility(hv.subrange(0, i as int), ks),
        decreases headers.len() - i,
    {
        let h: &String = &headers[i];
        let lower = lowercase(h.as_str());
        let hide = hidden_by_keys(lower.as_str(), columns_to_hide);
        let ghost prev_out = out.deep_view();
        vis.push(!hide);
        if !hide {
            let name = rename_lowered(h.as_str(), lower.as_str());
            out.push(name);
            assert(out.deep_view() =~= prev_out.push(name@));
        } else {
            assert(out.deep_view() =~= prev_out);
        }
        proof {
            assert(hv.subrange(0, i + 1).drop_last() =~= hv.subrange(0, i as int));
            assert(hv.subrange(0, i + 1).last() == hv[i as int]);
            assert(vis@ =~= visibility(hv.subrange(0, i + 1), ks));
        }
        i += 1;
    }
    assert(hv.subrange(0, headers.len() as int) =~= hv);
    (out, vis)
}

/// Whether every cell of the row trims to nothing.
pub fn is_blank_row(row: &Vec<String>) -> (r: bool)
    ensures
        r == blank_row(row.deep_view()),
{
    let mut i: usize = 0;
    while i < row.len()
        invariant
            i <= row.len(),
            forall|j: int| 0 <= j < i ==> blank(#[trigger] row.deep_view()[j]),
        decreases row.len() - i,
    {
        if !is_blank(row[i].as_str()) {
            assert(row.deep_view()[i as int] == row@[i as int]@);
            return false;
        }
        i += 1;
    }
    true
}

/// The cells of `row` whose columns `visible` marks visible.
pub fn filter_row(row: &Vec<String>, visible: &Vec<bool>) -> (r: Vec<String>)
    ensures
        r.deep_view() == project(visible@, row.deep_view()),
{
    let ghost rv = row.deep_view();
    let mut out: Vec<String> = Vec::new();
    let mut i: usize = 0;
    while i < row.len()
        invariant
            i <= row.len(),
            rv == row.deep_view(),
            out.deep_view() == project(visible@, rv.subrange(0, i as int)),
        decreases row.len() - i,
    {
        let ghost prev = out.deep_view();
        if i < visible.len() && visible[i] {
            let c = row[i].clone();
            out.push(c);
            assert(out.deep_view() =~= prev.push(rv[i as int]));
        }
        assert(rv.subrange(0, i + 1).drop_last() =~= rv.subrange(0, i as int));
        i += 1;
    }
    assert(rv.subrange(0, row.len() as int) =~= rv);
    out
}

/// A copy of a row of strings.
pub(crate) fn copy_row(row: &Vec<String>) -> (r: Vec<String>)
    ensures
        r.deep_view() == row.deep_view(),
{
    let mut out: Vec<String> = Vec::new();
    let mut i: usize = 0;
    while i < row.len()
        invariant
            i <= row.len(),
            out.deep_view() == row.deep_view().subrange(0, i as int),
        decreases row.len() - i,
    {
        let ghost prev = out.deep_view();
        let c = row[i].clone();
        out.push(c);
        assert(out.deep_view() =~= prev.push(c@));
        assert(out.deep_view() =~= row.deep_view().subrange(0, i + 1));
        i += 1;
    }
    assert(row.deep_view().subrange(0, row.len() as int) =~= row.deep_view());
    out
}

/// Normalises `headers` and the rows of `rows` from index `first` on: hidden
/// columns go, visible headers are renamed, blank rows are dropped.
pub fn normalize(headers: &Vec<String>, rows: &Vec<Vec<String>>, first: usize) -> (r: TableData)
    requires
        first <= rows.len(),
    ensures
        r@ == normalized(headers.deep_view(), rows.deep_view().subrange(first as int, rows.len() as int)),
{
    let hide = get_columns_to_hide(headers.as_slice());
    let (names, visible) = process_headers(copy_row(headers), hide.as_slice());
    let ghost rv = rows.deep_view();
    let mut out: Vec<Vec<String>> = Vec::new();
    let mut i: usize = first;
    while i < rows.len()
        invariant
            first <= i <= rows.len(),
            rv == rows.deep_view(),
            visible@ == visibility(headers.deep_view(), hide_keys()),
            out.deep_view() == kept_rows(visible@, rv.subrange(first as int, i as int)),
        decreases rows.len() - i,
    {
        let ghost prev = out.deep_view();
        if !is_blank_row(&rows[i]) {
            let kept = filter_row(&rows[i], &visible);
            out.push(kept);
            assert(out.deep_view() =~= prev.push(kept.deep_view()));
        } else {
            assert(out.deep_view() =~= prev);
        }
        assert(rv.subrange(first as int, i + 1).drop_last() =~= rv.subrange(first as int, i as int));
        i += 1;
    }
    TableData { headers: names, rows: out }
}

/// `first_match` from `from` finds `k` when `k` is the first key at or
/// after `from` that `lower` holds.
proof fn lemma_first_match(lower: Seq<char>, keys: Seq<Seq<char>>, from: int, k: int)
    requires
        0 <= from <= k < keys.len(),
        has_substring(lower, keys[k]),
        forall|j: int| from <= j < k ==> !#[trigger] has_substring(lower, keys[j]),
    ensures
        first_match(lower, keys, from) == k,
    decreases k - from,
{
    if from < k {
        lemma_first_match(lower, keys, from + 1, k);
    }
}

/// Rule precedence: when neither the `part-` nor the `psum-` rule applies, a
/// header that holds several keys of the rename table takes the display name
/// of the first of them in table order.
pub proof fn lemma_rename_precedence(h: Seq<char>, k: int)
    requires
        0 <= k < rename_keys().len(),
        has_substring(lower_of(h), rename_keys()[k]),
        forall|j: int| 0 <= j < k ==> !#[trigger] has_substring(lower_of(h), rename_keys()[j]),
        !(has_substring(lower_of(h), "part-"@) && dash_token(h) is Some),
        !(has_substring(lower_of(h), "psum-"@) && dash_token(h) is Some),
    ensures
        renamed(h) == rename_values()[k],
{
    lemma_first_match(lower_of(h), rename_keys(), 0, k);
}

/// A hidden header contributes nothing to the output headers: removing it
/// from the input leaves them unchanged.
pub proof fn lemma_hidden_header_excluded(hs: Seq<Seq<char>>, i: int)
    requires
        0 <= i < hs.len(),
        hidden(hs[i]),
    ensures
        kept_headers(hs, hide_keys()) == kept_headers(hs.remove(i), hide_keys()),
    decreases hs.len(),
{
    if i == hs.len() - 1 {
        assert(hs.remove(i) =~= hs.drop_last());
    } else {
        assert(hs.remove(i).drop_last() =~= hs.drop_last().remove(i));
        assert(hs.remove(i).last() == hs.last());
        lemma_hidden_header_excluded(hs.drop_last(), i);
    }
}

/// The data of a hidden column never reaches the output: changing a row's
/// cell in that column leaves the row's output unchanged.
pub proof fn lemma_hidden_cell_excluded(
    hs: Seq<Seq<char>>,
    row: Seq<Seq<char>>,
    i: int,
    cell: Seq<char>,
)
    requires
        0 <= i < hs.len(),
        i < row.len(),
        hidden(hs[i]),
    ensures
        project(visibility(hs, hide_keys()), row.update(i, cell)) == project(
            visibility(hs, hide_keys()),
            row,
        ),
    decreases row.len(),
{
    if i == row.len() - 1 {
        assert(row.update(i, cell).drop_last() =~= row.drop_last());
    } else {
        assert(row.update(i, cell).drop_last() =~= row.drop_last().update(i, cell));
        lemma_hidden_cell_excluded(hs, row.drop_last(), i, cell);
    }
}

/// A row whose cells all trim to nothing is dropped; any other row is kept,
/// projected to the visible columns, after the rows before it.
pub proof fn lemma_blank_rows_dropped(
    hs: Seq<Seq<char>>,
    rows: Seq<Seq<Seq<char>>>,
    row: Seq<Seq<char>>,
)
    ensures
        blank_row(row) ==> normalized(hs, rows.push(row)) == normalized(hs, rows),
        !blank_row(row) ==> normalized(hs, rows.push(row)).1 == normalized(hs, rows).1.push(
            project(visibility(hs, hide_keys()), row),
        ),
        normalized(hs, rows.push(row)).0 == normalized(hs, rows).0,
{
    assert(rows.push(row).drop_last() =~= rows);
}

/// Normalising the same raw header row and data rows twice gives the same
/// table.
pub proof fn lemma_normalize_repeatable(
    hs1: Seq<Seq<char>>,
    rows1: Seq<Seq<Seq<char>>>,
    hs2: Seq<Seq<char>>,
    rows2: Seq<Seq<Seq<char>>>,
)
    requires
        hs1 == hs2,
        rows1 == rows2,
    ensures
        normalized(hs1, rows1) == normalized(hs2, rows2),
{
}

} // verus!
