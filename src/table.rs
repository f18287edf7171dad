//! The data handed between the readers, the normaliser and the consumer.
use vstd::prelude::*;

verus! {

/// Where a table is read from: a local file, or a remote spreadsheet and one
/// of its sheets (an empty sheet name stands for the default sheet).
#[derive(Clone, Debug)]
pub enum DataSource {
    Local(String),
    Cloud(String, String),
}

/// A normalised table: display headers and the retained cells of each row.
#[derive(Clone, Debug)]
pub struct TableData {
    pub headers: Vec<String>,
    pub rows: Vec<Vec<String>>,
}

/// Headers and rows of a table as character sequences.
pub type TableModel = (Seq<Seq<char>>, Seq<Seq<Seq<char>>>);

impl View for TableData {
    type V = TableModel;

    open spec fn view(&self) -> TableModel {
        (self.headers.deep_view(), self.rows.deep_view())
    }
}

/// The table with no headers and no rows.
pub open spec fn empty_table() -> TableModel {
    (Seq::empty(), Seq::empty())
}

impl TableData {
    pub fn empty() -> (r: TableData)
        ensures
            r@ == empty_table(),
    {
        let r = TableData { headers: Vec::new(), rows: Vec::new() };
        assert(r@.0 =~= Seq::<Seq<char>>::empty());
        assert(r@.1 =~= Seq::<Seq<Seq<char>>>::empty());
        r
    }
}

/// Why a source yielded no table.
#[derive(Clone, Copy, Debug, PartialEq, Eq, Structural)]
pub enum SourceError {
    /// The file or the remote service could not be reached.
    SourceUnreachable,
    /// A single row could not be parsed.
    MalformedRow,
    /// The spreadsheet address holds no `d` path segment.
    InvalidReference,
}

} // verus!
