use rusqlite::types::{Value, ValueRef};
use rusqlite::{params_from_iter, Connection};
use sqlite_tui::csv::write_csv_row;
use sqlite_tui::history::{undo_last_change, undo_outcome, update_cell, UndoHistory};
use sqlite_tui::query::{plan_export, plan_load};

fn store() -> Connection {
    let conn = Connection::open_in_memory().unwrap();
    conn.execute("CREATE TABLE t (name TEXT, qty INTEGER)", []).unwrap();
    for i in 1..=500i64 {
        let name = if i % 7 == 0 { format!("xABCx{}", i) } else { format!("row{}", i) };
        conn.execute("INSERT INTO t (name, qty) VALUES (?1, ?2)", (name, i)).unwrap();
    }
    conn
}

fn text(v: ValueRef<'_>) -> String {
    match v {
        ValueRef::Null => "NULL".to_string(),
        ValueRef::Integer(i) => i.to_string(),
        ValueRef::Real(f) => f.to_string(),
        ValueRef::Text(t) => String::from_utf8_lossy(t).to_string(),
        ValueRef::Blob(b) => format!("0x{}", sqlite_tui::csv::encode(b)),
    }
}

fn columns() -> Vec<String> {
    vec!["name".to_string(), "qty".to_string()]
}

#[test]
fn first_page_never_exceeds_filtered_total() {
    let conn = store();
    let plan = plan_load("t", &columns(), 0, 50, Some(0), &Some("abc".to_string()), &None, None);
    let mut data: Vec<Value> = plan.params.iter().map(|p| Value::Text(p.clone())).collect();
    data.push(Value::Integer(plan.limit as i64));
    data.push(Value::Integer(plan.offset as i64));
    let mut stmt = conn.prepare(&plan.data_sql).unwrap();
    let rows: Vec<Vec<String>> = stmt
        .query_map(params_from_iter(data), |r| {
            Ok((0..plan.columns.len()).map(|i| text(r.get_ref(i).unwrap())).collect())
        })
        .unwrap()
        .map(|r| r.unwrap())
        .collect();
    let count: Vec<Value> = plan.params.iter().map(|p| Value::Text(p.clone())).collect();
    let total: i64 = conn
        .query_row(&plan.count_sql, params_from_iter(count), |r| r.get(0))
        .unwrap();
    assert_eq!(total, 71);
    assert!(rows.len() as i64 <= total);
    assert_eq!(rows.len(), 50);
    assert!(rows.iter().all(|r| r[1].to_lowercase().contains("abc")));
    assert_eq!(rows[0][0], "7");
}

#[test]
fn export_with_filter_writes_every_match_after_a_header() {
    let conn = store();
    let plan = plan_export("t", &columns(), &Some("abc".to_string()), &None, None);
    let mut out = write_csv_row(&plan.header);
    let params: Vec<Value> = plan.params.iter().map(|p| Value::Text(p.clone())).collect();
    let mut stmt = conn.prepare(&plan.sql).unwrap();
    let mut rows = stmt.query(params_from_iter(params)).unwrap();
    while let Some(r) = rows.next().unwrap() {
        let values: Vec<String> = (0..plan.header.len()).map(|i| text(r.get_ref(i).unwrap())).collect();
        out.push_str(&write_csv_row(&values));
    }
    let lines: Vec<&str> = out.lines().collect();
    assert_eq!(lines[0], "__rowid__,name,qty");
    assert_eq!(lines.len() - 1, 71);
}

#[test]
fn sort_by_identity_descending() {
    let conn = store();
    let plan = plan_load(
        "t",
        &columns(),
        0,
        3,
        None,
        &None,
        &Some("__rowid__".to_string()),
        Some(sqlite_tui::protocol::SortDir::Desc),
    );
    let params = vec![Value::Integer(plan.limit as i64), Value::Integer(plan.offset as i64)];
    let mut stmt = conn.prepare(&plan.data_sql).unwrap();
    let ids: Vec<i64> = stmt
        .query_map(params_from_iter(params), |r| r.get(0))
        .unwrap()
        .map(|r| r.unwrap())
        .collect();
    assert_eq!(ids, vec![500, 499, 498]);
}

fn read_cell(conn: &Connection, rowid: i64) -> Option<String> {
    let sql = sqlite_tui::query::cell_sql("t", "name");
    conn.query_row(&sql, [rowid], |r| {
        Ok(match r.get_ref(0)? {
            ValueRef::Null => None,
            v => Some(text(v)),
        })
    })
    .unwrap()
}

fn write_cell(conn: &Connection, rowid: i64, v: Option<&str>) -> Result<(), String> {
    let sql = sqlite_tui::query::update_sql("t", "name");
    let value = match v {
        Some(s) => Value::Text(s.to_string()),
        None => Value::Null,
    };
    conn.execute(&sql, (value, rowid)).map(|_| ()).map_err(|e| e.to_string())
}

fn update_then_undo(conn: &Connection, rowid: i64, new_value: Option<&str>) {
    let mut h = UndoHistory::new();
    let before = read_cell(conn, rowid);
    let write = write_cell(conn, rowid, new_value);
    update_cell(&mut h, "t", rowid, "name", before.clone(), new_value.map(|s| s.to_string()), write);
    assert_eq!(read_cell(conn, rowid).as_deref(), new_value);
    let change = undo_last_change(&mut h, "t").unwrap();
    write_cell(conn, change.rowid, change.prev_value.as_deref()).unwrap();
    assert_eq!(read_cell(conn, rowid), before);
}

#[test]
fn undo_restores_the_store() {
    let conn = store();
    update_then_undo(&conn, 7, Some("changed"));
    update_then_undo(&conn, 7, None);
    write_cell(&conn, 8, None).unwrap();
    update_then_undo(&conn, 8, Some("back"));
}

#[test]
fn undo_with_nothing_recorded_leaves_the_store() {
    let conn = store();
    let mut h = UndoHistory::new();
    let before: Vec<Option<String>> = (1..=500).map(|i| read_cell(&conn, i)).collect();
    assert!(undo_last_change(&mut h, "t").is_none());
    assert!(matches!(
        undo_outcome(None),
        sqlite_tui::protocol::DBResponse::CellUpdated { ok: true, .. }
    ));
    let after: Vec<Option<String>> = (1..=500).map(|i| read_cell(&conn, i)).collect();
    assert_eq!(before, after);
}

#[test]
fn column_listing_includes_every_column() {
    let conn = store();
    let sql = sqlite_tui::query::columns_sql("t");
    let mut stmt = conn.prepare(&sql).unwrap();
    let names: Vec<String> = stmt.query_map([], |r| r.get(1)).unwrap().map(|r| r.unwrap()).collect();
    assert_eq!(names, vec!["name".to_string(), "qty".to_string()]);
}

fn filtered_count(conn: &Connection, filter: &str) -> i64 {
    let plan = plan_load("t", &columns(), 0, 50, Some(0), &Some(filter.to_string()), &None, None);
    let count: Vec<Value> = plan.params.iter().map(|p| Value::Text(p.clone())).collect();
    conn.query_row(&plan.count_sql, params_from_iter(count), |r| r.get(0)).unwrap()
}

#[test]
fn filter_wildcards_match_only_themselves() {
    let conn = store();
    assert_eq!(filtered_count(&conn, "_"), 0);
    assert_eq!(filtered_count(&conn, "%"), 0);
    conn.execute("INSERT INTO t (name, qty) VALUES ('a_b%c', 0)", []).unwrap();
    assert_eq!(filtered_count(&conn, "_"), 1);
    assert_eq!(filtered_count(&conn, "B%C"), 1);
    assert_eq!(filtered_count(&conn, "row1"), 96);
}
