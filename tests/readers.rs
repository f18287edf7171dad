use score_viewer::cloud::CloudHandler;
use score_viewer::local::CSVHandler;
use score_viewer::table::{SourceError, TableData};

fn strings(v: &[&str]) -> Vec<String> {
    v.iter().map(|s| s.to_string()).collect()
}

#[test]
fn semicolon_in_first_line_selects_semicolon() {
    assert_eq!(CSVHandler::detect_delimiter(b"a;b\nc,d\n"), b';');
    assert_eq!(CSVHandler::detect_delimiter(b"a,b\nc;d\n"), b',');
    assert_eq!(CSVHandler::detect_delimiter(b"a,b"), b',');
    assert_eq!(CSVHandler::detect_delimiter(b""), b',');
    assert_eq!(CSVHandler::detect_delimiter(b"x;"), b';');
}

#[test]
fn local_file_with_semicolons() {
    let h = CSVHandler::new();
    let t = h.read_contents(b"category;result\nU12;9,5\n");
    assert_eq!(t.headers, strings(&["Series", "Result"]));
    assert_eq!(t.rows, vec![strings(&["U12", "9,5"])]);
}

#[test]
fn local_file_with_commas() {
    let h = CSVHandler::new();
    let t = h.read_contents(b"a,b\n1;2,3\n");
    assert_eq!(t.headers, strings(&["a", "b"]));
    assert_eq!(t.rows, vec![strings(&["1;2", "3"])]);
}

#[test]
fn end_to_end_local_example() {
    let h = CSVHandler::new();
    let t = h.read_contents(b"category,first_name,last_name,sport_id,result\nU10,Jane,Doe,5,12.3\n");
    assert_eq!(t.headers, strings(&["Series", "Name", "Surname", "Result"]));
    assert_eq!(t.rows, vec![strings(&["U10", "Jane", "Doe", "12.3"])]);
}

#[test]
fn local_ragged_rows_are_accepted() {
    let h = CSVHandler::new();
    let t = h.read_contents(b"a,b,c\n1\n1,2,3,4\n , \n");
    assert_eq!(t.rows, vec![strings(&["1"]), strings(&["1", "2", "3"])]);
}

#[test]
fn local_empty_file_gives_empty_table() {
    let h = CSVHandler::new();
    let t = h.read_contents(b"");
    assert!(t.headers.is_empty());
    assert!(t.rows.is_empty());
}

#[test]
fn records_without_header_give_empty_table() {
    let t = CSVHandler::table_from_records(None, vec![Some(strings(&["a"]))]);
    assert!(t.headers.is_empty() && t.rows.is_empty());
    let t = CSVHandler::table_from_records(
        Some(strings(&["a"])),
        vec![Some(strings(&["1"])), None, Some(strings(&["2"]))],
    );
    assert_eq!(t.rows, vec![strings(&["1"]), strings(&["2"])]);
}

#[test]
fn spreadsheet_id_follows_d_segment() {
    let c = CloudHandler::new();
    assert_eq!(c.credentials_path, "credentials.json");
    assert_eq!(
        c.extract_spreadsheet_id("https://docs.google.com/spreadsheets/d/ABC123/edit"),
        Ok("ABC123")
    );
    assert_eq!(c.extract_spreadsheet_id("d/x"), Ok("x"));
    assert_eq!(c.extract_spreadsheet_id("a/d/"), Ok(""));
    assert_eq!(c.extract_spreadsheet_id("a/dd/x/d/y/z"), Ok("y"));
}

#[test]
fn spreadsheet_id_missing() {
    let c = CloudHandler::new();
    assert_eq!(c.extract_spreadsheet_id("https://example.com/x/y"), Err(SourceError::InvalidReference));
    assert_eq!(c.extract_spreadsheet_id("a/b/d"), Err(SourceError::InvalidReference));
}

#[test]
fn sheet_range_defaults_to_sheet1() {
    let c = CloudHandler::new();
    assert_eq!(c.sheet_range(""), "Sheet1!A:Z");
    assert_eq!(c.sheet_range("Results"), "Results!A:Z");
}

#[test]
fn remote_category_row_becomes_header() {
    let values = vec![
        strings(&["Title"]),
        strings(&["Date", "x"]),
        strings(&[]),
        strings(&["Category", "first_name", "info"]),
        strings(&["U10", "Jane", "n/a"]),
    ];
    assert_eq!(CloudHandler::header_row_index(&values), 3);
    let t = CloudHandler::new().process_data(&values);
    assert_eq!(t.headers, strings(&["Series", "Name"]));
    assert_eq!(t.rows, vec![strings(&["U10", "Jane"])]);
}

#[test]
fn remote_without_category_row_uses_row_zero() {
    let values = vec![strings(&["a", "b"]), strings(&["categoryx", "2"])];
    assert_eq!(CloudHandler::header_row_index(&values), 0);
    let t = CloudHandler::new().process_data(&values);
    assert_eq!(t.headers, strings(&["a", "b"]));
    assert_eq!(t.rows, vec![strings(&["categoryx", "2"])]);
}

#[test]
fn remote_empty_values_give_empty_table() {
    let t: TableData = CloudHandler::new().process_data(&vec![]);
    assert!(t.headers.is_empty() && t.rows.is_empty());
    let e = TableData::empty();
    assert!(e.headers.is_empty() && e.rows.is_empty());
}

#[test]
fn category_row_from_lowercase_first_cells() {
    let firsts = vec![Some("x".to_string()), None, Some("category".to_string())];
    assert_eq!(CloudHandler::category_row_index(&firsts), 2);
    let firsts = vec![Some("Category".to_string()), None];
    assert_eq!(CloudHandler::category_row_index(&firsts), 0);
    assert_eq!(CloudHandler::category_row_index(&vec![]), 0);
}

#[test]
fn category_match_ignores_case_of_first_cell() {
    let values = vec![strings(&["x"]), strings(&["CATEGORY", "result"]), strings(&["A", "1"])];
    assert_eq!(CloudHandler::header_row_index(&values), 1);
}
