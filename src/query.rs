use vstd::prelude::*;
use vstd::string::*;

use crate::protocol::SortDir;
use crate::text::{joined, owned, push_char, push_str};

verus! {

/// Name of the row-identity pseudo-column.
pub open spec fn rowid_column() -> Seq<char> {
    "__rowid__"@
}

/// `s` with each double quote doubled.
pub open spec fn escape_quotes(s: Seq<char>) -> Seq<char>
    decreases s.len(),
{
    if s.len() == 0 {
        Seq::empty()
    } else {
        escape_quotes(s.drop_last()) + if s.last() == '"' {
            seq!['"', '"']
        } else {
            seq![s.last()]
        }
    }
}

/// `s` as a quoted SQL identifier.
pub open spec fn quoted(s: Seq<char>) -> Seq<char> {
    seq!['"'] + escape_quotes(s) + seq!['"']
}

/// Quote an identifier with double quotes, doubling each quote inside it.
pub fn ident(name: &str) -> (r: String)
    ensures
        r@ == quoted(name@),
{
    let n = name.unicode_len();
    let mut out = String::new();
    push_char(&mut out, '"');
    let mut i: usize = 0;
    while i < n
        invariant
            n == name@.len(),
            i <= n,
            out@ == seq!['"'] + escape_quotes(name@.subrange(0, i as int)),
        decreases n - i,
    {
        let c = name.get_char(i);
        assert(name@.subrange(0, i + 1).drop_last() =~= name@.subrange(0, i as int));
        push_char(&mut out, c);
        if c == '"' {
            push_char(&mut out, '"');
        }
        assert(out@ =~= seq!['"'] + escape_quotes(name@.subrange(0, i + 1)));
        i = i + 1;
    }
    assert(name@.subrange(0, n as int) =~= name@);
    push_char(&mut out, '"');
    out
}

/// The test that column `c` contains the bound pattern, ignoring case.
pub open spec fn column_test(c: Seq<char>) -> Seq<char> {
    "LOWER(CAST("@ + quoted(c) + " AS TEXT)) LIKE ? ESCAPE '\\'"@
}

/// Whether a filter asks for a predicate at all.
pub open spec fn filters(cols: Seq<Seq<char>>, filter: Option<Seq<char>>) -> bool {
    filter is Some && filter->0.len() > 0 && cols.len() > 0
}

/// The WHERE clause for `filter` over `cols`: any column contains the text.
pub open spec fn where_text(cols: Seq<Seq<char>>, filter: Option<Seq<char>>) -> Seq<char> {
    if filters(cols, filter) {
        " WHERE "@ + joined(cols.map_values(|c: Seq<char>| column_test(c)), " OR "@)
    } else {
        Seq::empty()
    }
}

/// `c` with ASCII capitals lowered, as the store's `LOWER` does; other characters
/// are left as they are.
pub open spec fn ascii_lower(c: char) -> char {
    if 'A' <= c <= 'Z' {
        ((c as int) + 32) as char
    } else {
        c
    }
}

/// `f` lowered as the store lowers text, with the LIKE wildcards `%` and `_` and
/// the escape character `\` each escaped by `\`, so that they match only themselves.
pub open spec fn like_escaped(f: Seq<char>) -> Seq<char>
    decreases f.len(),
{
    if f.len() == 0 {
        Seq::empty()
    } else {
        let c = ascii_lower(f.last());
        like_escaped(f.drop_last()) + if c == '%' || c == '_' || c == '\\' {
            seq!['\\', c]
        } else {
            seq![c]
        }
    }
}

/// The pattern bound to each column test: the filter as a literal substring.
pub open spec fn like_pattern(f: Seq<char>) -> Seq<char> {
    "%"@ + like_escaped(f) + "%"@
}

/// The LIKE pattern that finds `f` as a literal substring of lowered text.
pub fn like_pattern_of(f: &str) -> (r: String)
    ensures
        r@ == like_pattern(f@),
{
    let n = f.unicode_len();
    let mut out = owned("%");
    let ghost head = out@;
    let mut i: usize = 0;
    while i < n
        invariant
            n == f@.len(),
            i <= n,
            head == "%"@,
            out@ == head + like_escaped(f@.subrange(0, i as int)),
        decreases n - i,
    {
        assert(f@.subrange(0, i + 1).drop_last() =~= f@.subrange(0, i as int));
        let raw = f.get_char(i);
        let c = if 'A' <= raw && raw <= 'Z' {
            ((raw as u32) + 32) as u8 as char
        } else {
            raw
        };
        assert(c == ascii_lower(raw)) by {
            if 'A' <= raw && raw <= 'Z' {
                assert((((raw as u32) + 32) as u8 as char) == (((raw as int) + 32) as char));
            }
        }
        if c == '%' || c == '_' || c == '\\' {
            push_char(&mut out, '\\');
        }
        push_char(&mut out, c);
        assert(out@ =~= head + like_escaped(f@.subrange(0, i + 1)));
        i = i + 1;
    }
    assert(f@.subrange(0, n as int) =~= f@);
    push_str(&mut out, "%");
    out
}

/// The values bound to the WHERE clause, one per column test.
pub open spec fn where_params(cols: Seq<Seq<char>>, filter: Option<Seq<char>>) -> Seq<Seq<char>> {
    if filters(cols, filter) {
        Seq::new(cols.len(), |i: int| like_pattern(filter->0))
    } else {
        Seq::empty()
    }
}

/// Whether `sort_by` names the row identity or one of `cols`.
pub open spec fn sort_target_valid(cols: Seq<Seq<char>>, col: Seq<char>) -> bool {
    col == rowid_column() || cols.contains(col)
}

/// The ORDER BY clause; an unknown column gives none.
pub open spec fn order_text(cols: Seq<Seq<char>>, sort_by: Option<Seq<char>>, dir: Option<SortDir>) -> Seq<char> {
    match sort_by {
        Some(col) => if sort_target_valid(cols, col) {
            let name = if col == rowid_column() { rowid_column() } else { quoted(col) };
            let d = if dir == Some(SortDir::Desc) { "DESC"@ } else { "ASC"@ };
            " ORDER BY "@ + name + " "@ + d
        } else {
            Seq::empty()
        },
        None => Seq::empty(),
    }
}

/// The projection: the row identity, then each column.
pub open spec fn select_head(table: Seq<char>, cols: Seq<Seq<char>>) -> Seq<char> {
    "SELECT rowid as __rowid__, "@ + joined(cols.map_values(|c: Seq<char>| quoted(c)), ", "@)
        + " FROM "@ + quoted(table)
}

/// The paged data query.
pub open spec fn data_query(table: Seq<char>, cols: Seq<Seq<char>>, w: Seq<char>, o: Seq<char>) -> Seq<char> {
    select_head(table, cols) + w + o + " LIMIT ? OFFSET ?"@
}

/// The query that counts what the data query pages through.
pub open spec fn count_query(table: Seq<char>, w: Seq<char>) -> Seq<char> {
    "SELECT COUNT(*) FROM "@ + quoted(table) + w
}

/// The query that streams every matching row, for export.
pub open spec fn export_query(table: Seq<char>, cols: Seq<Seq<char>>, w: Seq<char>, o: Seq<char>) -> Seq<char> {
    select_head(table, cols) + w + o
}

/// A view of an optional string.
pub open spec fn opt_view(s: Option<String>) -> Option<Seq<char>> {
    match s {
        Some(v) => Some(v@),
        None => None,
    }
}

/// Each column as a quoted identifier.
fn quoted_all(cols: &Vec<String>) -> (r: Vec<String>)
    ensures
        r.deep_view() == cols.deep_view().map_values(|c: Seq<char>| quoted(c)),
{
    let mut out: Vec<String> = Vec::new();
    let mut i: usize = 0;
    while i < cols.len()
        invariant
            i <= cols@.len(),
            out@.len() == i,
            forall|j: int| 0 <= j < i ==> #[trigger] out@[j]@ == quoted(cols@[j]@),
        decreases cols@.len() - i,
    {
        out.push(ident(cols[i].as_str()));
        i = i + 1;
    }
    assert(out.deep_view() =~= cols.deep_view().map_values(|c: Seq<char>| quoted(c)));
    out
}

/// The WHERE clause and the values bound to it.
pub fn build_where(cols: &Vec<String>, filter: &Option<String>) -> (r: (String, Vec<String>))
    ensures
        r.0@ == where_text(cols.deep_view(), opt_view(*filter)),
        r.1.deep_view() == where_params(cols.deep_view(), opt_view(*filter)),
{
    let mut clause = String::new();
    let mut params: Vec<String> = Vec::new();
    let ghost fv = opt_view(*filter);
    match filter {
        Some(f) => {
            if f.unicode_len() > 0 && cols.len() > 0 {
                let pattern = like_pattern_of(f.as_str());
                let mut tests: Vec<String> = Vec::new();
                let mut i: usize = 0;
                while i < cols.len()
                    invariant
                        i <= cols@.len(),
                        tests@.len() == i,
                        params@.len() == i,
                        pattern@ == like_pattern(f@),
                        forall|j: int| 0 <= j < i ==> #[trigger] tests@[j]@ == column_test(cols@[j]@),
                        forall|j: int| 0 <= j < i ==> #[trigger] params@[j]@ == pattern@,
                    decreases cols@.len() - i,
                {
                    let mut t = owned("LOWER(CAST(");
                    let q = ident(cols[i].as_str());
                    push_str(&mut t, q.as_str());
                    push_str(&mut t, " AS TEXT)) LIKE ? ESCAPE '\\'");
                    tests.push(t);
                    params.push(pattern.clone());
                    i = i + 1;
                }
                assert(tests.deep_view() =~= cols.deep_view().map_values(|c: Seq<char>| column_test(c)));
                assert(params.deep_view() =~= where_params(cols.deep_view(), fv));
                let body = crate::text::join(&tests, " OR ");
                clause = owned(" WHERE ");
                push_str(&mut clause, body.as_str());
            } else {
                assert(params.deep_view() =~= where_params(cols.deep_view(), fv));
            }
        },
        None => {
            assert(params.deep_view() =~= where_params(cols.deep_view(), fv));
        },
    }
    (clause, params)
}

/// Whether `cols` holds `name`.
fn has_column(cols: &Vec<String>, name: &String) -> (r: bool)
    ensures
        r == cols.deep_view().contains(name@),
{
    let mut i: usize = 0;
    while i < cols.len()
        invariant
            i <= cols@.len(),
            forall|j: int| 0 <= j < i ==> cols@[j]@ != name@,
        decreases cols@.len() - i,
    {
        if cols[i] == *name {
            assert(cols.deep_view()[i as int] == name@);
            return true;
        }
        i = i + 1;
    }
    assert forall|j: int| 0 <= j < cols.deep_view().len() implies cols.deep_view()[j] != name@ by {
        assert(cols.deep_view()[j] == cols@[j]@);
    }
    false
}

/// The ORDER BY clause for a sort column and direction.
pub fn build_order(cols: &Vec<String>, sort_by: &Option<String>, dir: Option<SortDir>) -> (r: String)
    ensures
        r@ == order_text(cols.deep_view(), opt_view(*sort_by), dir),
{
    match sort_by {
        Some(col) => {
            let rowid = owned("__rowid__");
            let is_rowid = *col == rowid;
            if is_rowid || has_column(cols, col) {
                let mut out = owned(" ORDER BY ");
                if is_rowid {
                    push_str(&mut out, "__rowid__");
                } else {
                    let q = ident(col.as_str());
                    push_str(&mut out, q.as_str());
                }
                push_str(&mut out, " ");
                match dir {
                    Some(SortDir::Desc) => push_str(&mut out, "DESC"),
                    _ => push_str(&mut out, "ASC"),
                }
                out
            } else {
                String::new()
            }
        },
        None => String::new(),
    }
}

/// The projection of `cols` from `table`, with the row identity first.
fn build_select_head(table: &str, cols: &Vec<String>) -> (r: String)
    ensures
        r@ == select_head(table@, cols.deep_view()),
{
    let mut out = owned("SELECT rowid as __rowid__, ");
    let names = quoted_all(cols);
    let list = crate::text::join(&names, ", ");
    push_str(&mut out, list.as_str());
    push_str(&mut out, " FROM ");
    let t = ident(table);
    push_str(&mut out, t.as_str());
    out
}

/// Everything a page load runs against the store.
pub struct LoadPlan {
    /// The columns of the result: the row identity, then the table's columns.
    pub columns: Vec<String>,
    pub data_sql: String,
    pub count_sql: String,
    /// Values bound to the WHERE clause, in both queries.
    pub params: Vec<String>,
    /// Bound to LIMIT.
    pub limit: usize,
    /// Bound to OFFSET.
    pub offset: usize,
}

/// The row offset a page load starts at.
pub open spec fn load_offset(page: usize, page_size: usize, offset_override: Option<usize>) -> usize {
    match offset_override {
        Some(o) => o,
        None => if page * page_size > usize::MAX {
            usize::MAX
        } else {
            (page * page_size) as usize
        },
    }
}

/// The column list of a result: the row identity, then `cols`.
pub open spec fn with_identity(cols: Seq<Seq<char>>) -> Seq<Seq<char>> {
    seq![rowid_column()] + cols
}

fn identity_then(cols: &Vec<String>) -> (r: Vec<String>)
    ensures
        r.deep_view() == with_identity(cols.deep_view()),
{
    let mut out: Vec<String> = Vec::new();
    out.push(owned("__rowid__"));
    let mut i: usize = 0;
    while i < cols.len()
        invariant
            i <= cols@.len(),
            out@.len() == i + 1,
            out@[0]@ == rowid_column(),
            forall|j: int| 0 <= j < i ==> #[trigger] out@[j + 1]@ == cols@[j]@,
        decreases cols@.len() - i,
    {
        out.push(cols[i].clone());
        i = i + 1;
    }
    assert forall|k: int| 1 <= k < out@.len() implies out@[k]@ == cols@[k - 1]@ by {
        assert(out@[(k - 1) + 1]@ == cols@[k - 1]@);
    }
    assert(out.deep_view() =~= with_identity(cols.deep_view()));
    out
}

/// Compile a page load of `table`, whose columns are `cols`: the data query and the
/// count query share one WHERE clause and its bound values.
pub fn plan_load(
    table: &str,
    cols: &Vec<String>,
    page: usize,
    page_size: usize,
    offset_override: Option<usize>,
    filter: &Option<String>,
    sort_by: &Option<String>,
    sort_dir: Option<SortDir>,
) -> (r: LoadPlan)
    ensures
        r.columns.deep_view() == with_identity(cols.deep_view()),
        r.data_sql@ == data_query(
            table@,
            cols.deep_view(),
            where_text(cols.deep_view(), opt_view(*filter)),
            order_text(cols.deep_view(), opt_view(*sort_by), sort_dir),
        ),
        r.count_sql@ == count_query(table@, where_text(cols.deep_view(), opt_view(*filter))),
        r.params.deep_view() == where_params(cols.deep_view(), opt_view(*filter)),
        r.limit == page_size,
        r.offset == load_offset(page, page_size, offset_override),
{
    let (w, params) = build_where(cols, filter);
    let o = build_order(cols, sort_by, sort_dir);
    let mut data_sql = build_select_head(table, cols);
    push_str(&mut data_sql, w.as_str());
    push_str(&mut data_sql, o.as_str());
    push_str(&mut data_sql, " LIMIT ? OFFSET ?");
    let mut count_sql = owned("SELECT COUNT(*) FROM ");
    let t = ident(table);
    push_str(&mut count_sql, t.as_str());
    push_str(&mut count_sql, w.as_str());
    let offset = match offset_override {
        Some(o) => o,
        None => match page.checked_mul(page_size) {
            Some(p) => p,
            None => usize::MAX,
        },
    };
    LoadPlan { columns: identity_then(cols), data_sql, count_sql, params, limit: page_size, offset }
}

/// Everything an export runs against the store.
pub struct ExportPlan {
    /// The header line's fields: the row identity, then the table's columns.
    pub header: Vec<String>,
    pub sql: String,
    pub params: Vec<String>,
}

/// Compile an export of `table`, whose columns are `cols`, under a filter and sort.
pub fn plan_export(
    table: &str,
    cols: &Vec<String>,
    filter: &Option<String>,
    sort_by: &Option<String>,
    sort_dir: Option<SortDir>,
) -> (r: ExportPlan)
    ensures
        r.header.deep_view() == with_identity(cols.deep_view()),
        r.sql@ == export_query(
            table@,
            cols.deep_view(),
            where_text(cols.deep_view(), opt_view(*filter)),
            order_text(cols.deep_view(), opt_view(*sort_by), sort_dir),
        ),
        r.params.deep_view() == where_params(cols.deep_view(), opt_view(*filter)),
{
    let (w, params) = build_where(cols, filter);
    let o = build_order(cols, sort_by, sort_dir);
    let mut sql = build_select_head(table, cols);
    push_str(&mut sql, w.as_str());
    push_str(&mut sql, o.as_str());
    ExportPlan { header: identity_then(cols), sql, params }
}

/// The statement that writes one cell: the value binds to `?1`, the row identity to `?2`.
pub open spec fn update_query(table: Seq<char>, column: Seq<char>) -> Seq<char> {
    "UPDATE "@ + quoted(table) + " SET "@ + quoted(column) + " = ?1 WHERE rowid = ?2"@
}

/// The query that reads one cell; the row identity binds to `?1`.
pub open spec fn cell_query(table: Seq<char>, column: Seq<char>) -> Seq<char> {
    "SELECT "@ + quoted(column) + " FROM "@ + quoted(table) + " WHERE rowid = ?1"@
}

/// The query that lists a table's columns.
pub open spec fn columns_query(table: Seq<char>) -> Seq<char> {
    "PRAGMA table_info("@ + quoted(table) + ")"@
}

/// The statement that writes one cell of `table`.
pub fn update_sql(table: &str, column: &str) -> (r: String)
    ensures
        r@ == update_query(table@, column@),
{
    let mut out = owned("UPDATE ");
    push_str(&mut out, ident(table).as_str());
    push_str(&mut out, " SET ");
    push_str(&mut out, ident(column).as_str());
    push_str(&mut out, " = ?1 WHERE rowid = ?2");
    out
}

/// The query that reads one cell of `table`, read before it is written.
pub fn cell_sql(table: &str, column: &str) -> (r: String)
    ensures
        r@ == cell_query(table@, column@),
{
    let mut out = owned("SELECT ");
    push_str(&mut out, ident(column).as_str());
    push_str(&mut out, " FROM ");
    push_str(&mut out, ident(table).as_str());
    push_str(&mut out, " WHERE rowid = ?1");
    out
}

/// The query that lists the columns of `table`.
pub fn columns_sql(table: &str) -> (r: String)
    ensures
        r@ == columns_query(table@),
{
    let mut out = owned("PRAGMA table_info(");
    push_str(&mut out, ident(table).as_str());
    push_str(&mut out, ")");
    out
}

} // verus!
