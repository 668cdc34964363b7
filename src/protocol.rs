use vstd::prelude::*;

verus! {

/// Direction of a sort.
#[derive(PartialEq, Eq, Structural, Clone, Copy, Debug)]
pub enum SortDir {
    Asc,
    Desc,
}

/// A request to the store worker.
#[derive(Debug)]
pub enum DBRequest {
    LoadSchema,
    LoadTable {
        table: String,
        page: usize,
        page_size: usize,
        /// Row offset to fetch from; without one it is `page * page_size`.
        offset_override: Option<usize>,
        /// Case-insensitive substring that some column must contain.
        filter: Option<String>,
        /// Column to sort by: a column name or the row-identity column.
        sort_by: Option<String>,
        /// Sort direction; ascending where a column is set and this is not.
        sort_dir: Option<SortDir>,
    },
    UpdateCell {
        table: String,
        rowid: i64,
        column: String,
        /// `None` writes SQL NULL.
        new_value: Option<String>,
    },
    ExportCSV {
        table: String,
        path: String,
        filter: Option<String>,
        sort_by: Option<String>,
        sort_dir: Option<SortDir>,
    },
    /// Undo the last change applied to this table.
    UndoLastChange {
        table: String,
    },
}

/// The store worker's answer to one request.
#[derive(Debug)]
pub enum DBResponse {
    Schema {
        tables: Vec<String>,
    },
    TableData {
        table: String,
        columns: Vec<String>,
        rows: Vec<Vec<String>>,
        page: usize,
        /// The row offset the rows were fetched from.
        offset: usize,
        total_rows: Option<usize>,
    },
    CellUpdated {
        ok: bool,
        message: Option<String>,
    },
    ExportedCSV {
        ok: bool,
        path: String,
        message: Option<String>,
    },
    Error(String),
}

} // verus!
