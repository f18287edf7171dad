//! The refresh policy: which source is active, when a gated tick asks for a
//! new read, and what the consumer sees after each completed read.
use vstd::prelude::*;
use vstd::string::*;
use crate::table::{empty_table, DataSource, SourceError, TableData};
use crate::text::{lower_of, lowercase};

verus! {

/// Shortest time between two checks of the active source, in milliseconds.
pub const UPDATE_INTERVAL_MS: u64 = 5000;

/// What the caller is asked to do after a decision of the poller.
#[derive(Clone, Debug)]
pub enum Action {
    /// Nothing to do.
    Idle,
    /// Read the local file at this path and hand the table to `publish`.
    ReadLocal(String),
    /// Fetch this spreadsheet address and sheet and hand the outcome to
    /// `complete_fetch`.
    FetchCloud(String, String),
}

/// The index of the first entry from `from` on that is `result`, or the
/// number of entries.
pub open spec fn first_result(lowered: Seq<Seq<char>>, from: int) -> int
    decreases lowered.len() - from,
{
    if from >= lowered.len() {
        lowered.len() as int
    } else if lowered[from] == "result"@ {
        from
    } else {
        first_result(lowered, from + 1)
    }
}

/// The highlighted column among headers whose lowercase forms are `lowered`:
/// the first that is `result`, if any.
pub open spec fn result_column_lowered(lowered: Seq<Seq<char>>) -> Option<usize> {
    let k = first_result(lowered, 0);
    if k < lowered.len() {
        Some(k as usize)
    } else {
        None
    }
}

/// The column that the consumer highlights: the first header equal to
/// `result` ignoring case, if any.
pub open spec fn result_column(hs: Seq<Seq<char>>) -> Option<usize> {
    result_column_lowered(Seq::new(hs.len(), |i: int| lower_of(hs[i])))
}

/// Enough time has passed since the last check at `last_check` for a tick at
/// `now` to be eligible.
pub open spec fn is_due(last_check: u64, now: u64) -> bool {
    now >= last_check && now - last_check >= UPDATE_INTERVAL_MS
}

/// The action of an eligible tick and the modification time recorded after
/// it, given the active source, the recorded modification time and the
/// modification time observed now (none when it could not be read).
pub open spec fn tick_decision(
    source: Option<DataSource>,
    recorded: Option<u64>,
    observed: Option<u64>,
) -> (Action, Option<u64>) {
    match source {
        None => (Action::Idle, recorded),
        Some(DataSource::Cloud(url, sheet)) => (Action::FetchCloud(url, sheet), recorded),
        Some(DataSource::Local(path)) => match (observed, recorded) {
            (None, _) => (Action::Idle, recorded),
            (Some(m), None) => (Action::Idle, Some(m)),
            (Some(m), Some(l)) => if m > l {
                (Action::ReadLocal(path), Some(m))
            } else {
                (Action::Idle, recorded)
            },
        },
    }
}

/// The state of the refresh loop.
pub struct Poller {
    /// The active source, once one was chosen.
    pub source: Option<DataSource>,
    /// The modification time last seen for a local source.
    pub last_modified: Option<u64>,
    /// When the source was last checked, in milliseconds.
    pub last_check: u64,
    /// The table of the read that completed last.
    pub last_data: Option<TableData>,
    /// The highlighted column of `last_data`.
    pub result_column: Option<usize>,
}

/// The state after a completed read hands over `data`.
pub open spec fn published(s: Poller, data: TableData) -> Poller {
    Poller {
        source: s.source,
        last_modified: s.last_modified,
        last_check: s.last_check,
        last_data: Some(data),
        result_column: result_column(data@.0),
    }
}

/// The index of the first of the lowercase headers `lowered` that is
/// `result`, if any.
pub fn result_column_of_lowered(lowered: &Vec<String>) -> (r: Option<usize>)
    ensures
        r == result_column_lowered(lowered.deep_view()),
{
    let ghost lv = lowered.deep_view();
    let target = String::from_str("result");
    let mut i: usize = 0;
    while i < lowered.len()
        invariant
            i <= lowered.len(),
            lv == lowered.deep_view(),
            target@ == "result"@,
            first_result(lv, 0) == first_result(lv, i as int),
        decreases lowered.len() - i,
    {
        if lowered[i] == target {
            return Some(i);
        }
        i += 1;
    }
    None
}

/// The index of the first header that lowercases to `result`, if any.
pub fn result_column_index(headers: &Vec<String>) -> (r: Option<usize>)
    ensures
        r == result_column(headers.deep_view()),
{
    let ghost hv = headers.deep_view();
    let mut lowered: Vec<String> = Vec::new();
    let mut i: usize = 0;
    while i < headers.len()
        invariant
            i <= headers.len(),
            hv == headers.deep_view(),
            lowered.deep_view() == Seq::new(i as nat, |j: int| lower_of(hv[j])),
        decreases headers.len() - i,
    {
        let ghost prev = lowered.deep_view();
        let lower = lowercase(headers[i].as_str());
        assert(hv[i as int] == headers@[i as int]@);
        lowered.push(lower);
        assert(lowered.deep_view() =~= prev.push(lower@));
        assert(lowered.deep_view() =~= Seq::new((i + 1) as nat, |j: int| lower_of(hv[j])));
        i += 1;
    }
    assert(lowered.deep_view() =~= Seq::new(hv.len(), |j: int| lower_of(hv[j])));
    result_column_of_lowered(&lowered)
}

impl Poller {
    /// A poller with no source, started at `now`.
    pub fn new(now: u64) -> (r: Poller)
        ensures
            r.source is None,
            r.last_modified is None,
            r.last_check == now,
            r.last_data is None,
            r.result_column is None,
    {
        Poller { source: None, last_modified: None, last_check: now, last_data: None, result_column: None }
    }

    /// Makes a local file the active source, whose modification time is now
    /// `modified`, and asks for it to be read.
    pub fn select_local(&mut self, path: String, modified: Option<u64>) -> (r: Action)
        ensures
            final(self).source == Some(DataSource::Local(path)),
            final(self).last_modified == modified,
            final(self).last_check == old(self).last_check,
            final(self).last_data == old(self).last_data,
            final(self).result_column == old(self).result_column,
            r == Action::ReadLocal(path),
    {
        let p = path.clone();
        self.source = Some(DataSource::Local(path));
        self.last_modified = modified;
        Action::ReadLocal(p)
    }

    /// Makes a remote sheet the active source and asks for it to be fetched;
    /// an empty address changes nothing.
    pub fn select_cloud(&mut self, url: String, sheet: String) -> (r: Action)
        ensures
            url@.len() == 0 ==> *final(self) == *old(self) && r == Action::Idle,
            url@.len() > 0 ==> {
                &&& final(self).source == Some(DataSource::Cloud(url, sheet))
                &&& final(self).last_modified is None
                &&& final(self).last_check == old(self).last_check
                &&& final(self).last_data == old(self).last_data
                &&& final(self).result_column == old(self).result_column
                &&& r == Action::FetchCloud(url, sheet)
            },
    {
        if url.as_str().is_empty() {
            return Action::Idle;
        }
        let u = url.clone();
        let s = sheet.clone();
        self.source = Some(DataSource::Cloud(url, sheet));
        self.last_modified = None;
        Action::FetchCloud(u, s)
    }

    /// A clock tick at `now`; `observed` is the active local file's current
    /// modification time, if it could be read. Only a due tick can ask for
    /// work: a remote source is always fetched again, a local one only when
    /// its file is newer than last seen.
    pub fn tick(&mut self, now: u64, observed: Option<u64>) -> (r: Action)
        ensures
            !is_due(old(self).last_check, now) ==> *final(self) == *old(self) && r == Action::Idle,
            is_due(old(self).last_check, now) ==> {
                &&& final(self).last_check == now
                &&& final(self).source == old(self).source
                &&& final(self).last_data == old(self).last_data
                &&& final(self).result_column == old(self).result_column
                &&& (r, final(self).last_modified) == tick_decision(
                    old(self).source,
                    old(self).last_modified,
                    observed,
                )
            },
    {
        if now < self.last_check || now - self.last_check < UPDATE_INTERVAL_MS {
            return Action::Idle;
        }
        self.last_check = now;
        match &self.source {
            None => Action::Idle,
            Some(DataSource::Cloud(url, sheet)) => Action::FetchCloud(url.clone(), sheet.clone()),
            Some(DataSource::Local(path)) => match observed {
                None => Action::Idle,
                Some(m) => match self.last_modified {
                    None => {
                        self.last_modified = Some(m);
                        Action::Idle
                    },
                    Some(l) => {
                        if m > l {
                            let p = path.clone();
                            self.last_modified = Some(m);
                            Action::ReadLocal(p)
                        } else {
                            Action::Idle
                        }
                    },
                },
            },
        }
    }

    /// A read completed with `data`: it replaces the last table, whatever
    /// was triggered before it, and the highlighted column is recomputed.
    pub fn publish(&mut self, data: TableData)
        ensures
            *final(self) == published(*old(self), data),
    {
        let col = result_column_index(&data.headers);
        self.last_data = Some(data);
        self.result_column = col;
    }

    /// A remote fetch completed: its table is published, or an empty table
    /// when it failed.
    pub fn complete_fetch(&mut self, outcome: Result<TableData, SourceError>)
        ensures
            outcome matches Ok(t) ==> *final(self) == published(*old(self), t),
            outcome is Err ==> (final(self).last_data matches Some(t) && t@ == empty_table()),
            outcome is Err ==> final(self).result_column is None,
            final(self).source == old(self).source,
            final(self).last_modified == old(self).last_modified,
            final(self).last_check == old(self).last_check,
    {
        match outcome {
            Ok(t) => self.publish(t),
            Err(_) => self.publish(TableData::empty()),
        }
    }
}

/// Last write wins: of two completed reads, the state depends only on the
/// one that completed last, not on the order in which they were triggered.
pub proof fn lemma_last_write_wins(s: Poller, first: TableData, second: TableData)
    ensures
        published(published(s, first), second) == published(s, second),
        published(published(s, first), second).last_data == Some(second),
{
}

} // verus!
