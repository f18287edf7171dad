use score_viewer::poller::{result_column_index, result_column_of_lowered, Action, Poller, UPDATE_INTERVAL_MS};
use score_viewer::table::{DataSource, SourceError, TableData};

fn strings(v: &[&str]) -> Vec<String> {
    v.iter().map(|s| s.to_string()).collect()
}

fn table(h: &[&str]) -> TableData {
    TableData { headers: strings(h), rows: vec![] }
}

#[test]
fn result_column_is_first_result_header() {
    assert_eq!(result_column_index(&strings(&["Series", "RESULT", "result"])), Some(1));
    assert_eq!(result_column_index(&strings(&["Results"])), None);
    assert_eq!(result_column_index(&vec![]), None);
}

#[test]
fn ticks_are_gated() {
    let mut p = Poller::new(1000);
    let a = p.select_cloud("https://h/d/ID".to_string(), String::new());
    assert!(matches!(a, Action::FetchCloud(ref u, ref s) if u == "https://h/d/ID" && s.is_empty()));
    assert!(matches!(p.tick(2000, None), Action::Idle));
    assert_eq!(p.last_check, 1000);
    assert!(matches!(p.tick(1000 + UPDATE_INTERVAL_MS, None), Action::FetchCloud(_, _)));
    assert_eq!(p.last_check, 6000);
    assert!(matches!(p.tick(7000, None), Action::Idle));
    assert!(matches!(p.tick(11000, None), Action::FetchCloud(_, _)));
}

#[test]
fn local_source_reads_only_when_newer() {
    let mut p = Poller::new(0);
    let a = p.select_local("scores.csv".to_string(), Some(50));
    assert!(matches!(a, Action::ReadLocal(ref f) if f == "scores.csv"));
    assert!(matches!(p.source, Some(DataSource::Local(_))));
    assert!(matches!(p.tick(5000, Some(50)), Action::Idle));
    assert!(matches!(p.tick(10000, Some(40)), Action::Idle));
    assert!(matches!(p.tick(15000, Some(60)), Action::ReadLocal(_)));
    assert_eq!(p.last_modified, Some(60));
    assert!(matches!(p.tick(20000, None), Action::Idle));
    assert_eq!(p.last_modified, Some(60));
}

#[test]
fn local_source_without_recorded_time_records_it() {
    let mut p = Poller::new(0);
    p.select_local("f.csv".to_string(), None);
    assert!(matches!(p.tick(5000, Some(9)), Action::Idle));
    assert_eq!(p.last_modified, Some(9));
    assert!(matches!(p.tick(10000, Some(10)), Action::ReadLocal(_)));
}

#[test]
fn empty_address_changes_nothing() {
    let mut p = Poller::new(0);
    assert!(matches!(p.select_cloud(String::new(), "S".to_string()), Action::Idle));
    assert!(p.source.is_none());
}

#[test]
fn no_source_never_asks() {
    let mut p = Poller::new(0);
    assert!(matches!(p.tick(5000, Some(1)), Action::Idle));
    assert_eq!(p.last_check, 5000);
}

#[test]
fn overlapping_fetches_last_completion_wins() {
    let mut p = Poller::new(0);
    p.select_cloud("u/d/x".to_string(), String::new());
    // fetch A is triggered, then fetch B
    assert!(matches!(p.tick(5000, None), Action::FetchCloud(_, _)));
    assert!(matches!(p.tick(10000, None), Action::FetchCloud(_, _)));
    let a = table(&["from A"]);
    let b = table(&["from B", "Result"]);
    // A completes first, B last: B is what the consumer sees
    p.complete_fetch(Ok(a.clone()));
    p.complete_fetch(Ok(b.clone()));
    assert_eq!(p.last_data.as_ref().unwrap().headers, b.headers);
    assert_eq!(p.result_column, Some(1));
    // completed in the other order, A (the earlier trigger) is what stays
    p.complete_fetch(Ok(b));
    p.complete_fetch(Ok(a.clone()));
    assert_eq!(p.last_data.as_ref().unwrap().headers, a.headers);
    assert_eq!(p.result_column, None);
}

#[test]
fn failed_fetch_publishes_empty_table() {
    let mut p = Poller::new(0);
    p.publish(table(&["result"]));
    assert_eq!(p.result_column, Some(0));
    p.complete_fetch(Err(SourceError::SourceUnreachable));
    let t = p.last_data.as_ref().unwrap();
    assert!(t.headers.is_empty() && t.rows.is_empty());
    assert_eq!(p.result_column, None);
}

#[test]
fn result_column_from_lowercase_headers() {
    assert_eq!(result_column_of_lowered(&strings(&["a", "result"])), Some(1));
    assert_eq!(result_column_of_lowered(&strings(&["Result"])), None);
}
