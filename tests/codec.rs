use sqlite_tui::csv::{csv_escape, encode, write_csv_row};
use sqlite_tui::grapheme::{next_grapheme, prev_grapheme};
use sqlite_tui::protocol::SortDir;
use sqlite_tui::query::{build_order, build_where, ident, like_pattern_of, plan_export, plan_load};
use sqlite_tui::text::{contains_char, insert_char, join, remove_char, same_text, starts_with_text};

fn s(v: &str) -> String {
    v.to_string()
}

fn cols() -> Vec<String> {
    vec![s("name"), s("qty")]
}

#[test]
fn ident_doubles_quotes() {
    assert_eq!(ident("plain"), "\"plain\"");
    assert_eq!(ident("we\"ird"), "\"we\"\"ird\"");
    assert_eq!(ident(""), "\"\"");
}

#[test]
fn csv_fields_are_quoted_where_needed() {
    assert_eq!(csv_escape("abc"), "abc");
    assert_eq!(csv_escape("a,b"), "\"a,b\"");
    assert_eq!(csv_escape("say \"hi\""), "\"say \"\"hi\"\"\"");
    assert_eq!(csv_escape("two\nlines"), "\"two\nlines\"");
    assert_eq!(csv_escape("cr\r"), "\"cr\r\"");
    assert_eq!(csv_escape(""), "");
}

#[test]
fn csv_row_is_one_line() {
    assert_eq!(write_csv_row(&vec![s("1"), s("a,b"), s("NULL")]), "1,\"a,b\",NULL\n");
    assert_eq!(write_csv_row(&vec![]), "\n");
    assert_eq!(write_csv_row(&vec![s("x")]), "x\n");
}

#[test]
fn hex_encoding() {
    assert_eq!(encode(&[]), "");
    assert_eq!(encode(&[0x00, 0x0f, 0xa5, 0xff]), "000fa5ff");
}

#[test]
fn grapheme_steps() {
    assert_eq!(prev_grapheme("abc", 0), 0);
    assert_eq!(prev_grapheme("abc", 2), 1);
    assert_eq!(next_grapheme("abc", 2), 3);
    assert_eq!(next_grapheme("abc", 3), 3);
    assert_eq!(next_grapheme("héé", 2), 3);
}

#[test]
fn text_helpers() {
    assert_eq!(join(&vec![s("a"), s("b"), s("c")], ", "), "a, b, c");
    assert_eq!(join(&vec![], ","), "");
    assert!(contains_char("abc", 'b'));
    assert!(!contains_char("abc", 'z'));
    assert!(same_text("ab", "ab"));
    assert!(!same_text("ab", "abc"));
    assert!(starts_with_text("Undo failed", "Undo"));
    assert!(!starts_with_text("Und", "Undo"));
    assert_eq!(insert_char("ac", 1, 'b'), "abc");
    assert_eq!(insert_char("ab", 2, 'c'), "abc");
    assert_eq!(remove_char("abc", 0), "bc");
}

#[test]
fn filter_compiles_to_any_column_match() {
    let (w, params) = build_where(&cols(), &Some(s("AbC")));
    assert_eq!(
        w,
        " WHERE LOWER(CAST(\"name\" AS TEXT)) LIKE ? ESCAPE '\\' OR LOWER(CAST(\"qty\" AS TEXT)) LIKE ? ESCAPE '\\'"
    );
    assert_eq!(params, vec![s("%abc%"), s("%abc%")]);
}

#[test]
fn empty_or_absent_filter_compiles_to_nothing() {
    let (w, p) = build_where(&cols(), &None);
    assert_eq!(w, "");
    assert!(p.is_empty());
    let (w, p) = build_where(&cols(), &Some(s("")));
    assert_eq!(w, "");
    assert!(p.is_empty());
    let (w, p) = build_where(&vec![], &Some(s("x")));
    assert_eq!(w, "");
    assert!(p.is_empty());
}

#[test]
fn sort_clause() {
    assert_eq!(build_order(&cols(), &Some(s("qty")), None), " ORDER BY \"qty\" ASC");
    assert_eq!(build_order(&cols(), &Some(s("qty")), Some(SortDir::Desc)), " ORDER BY \"qty\" DESC");
    assert_eq!(build_order(&cols(), &Some(s("__rowid__")), Some(SortDir::Asc)), " ORDER BY __rowid__ ASC");
    assert_eq!(build_order(&cols(), &Some(s("missing")), Some(SortDir::Desc)), "");
    assert_eq!(build_order(&cols(), &None, Some(SortDir::Desc)), "");
}

#[test]
fn page_load_plan() {
    let plan = plan_load("t", &cols(), 3, 50, None, &Some(s("x")), &Some(s("name")), Some(SortDir::Desc));
    assert_eq!(plan.columns, vec![s("__rowid__"), s("name"), s("qty")]);
    let w = " WHERE LOWER(CAST(\"name\" AS TEXT)) LIKE ? ESCAPE '\\' OR LOWER(CAST(\"qty\" AS TEXT)) LIKE ? ESCAPE '\\'";
    assert_eq!(
        plan.data_sql,
        format!("SELECT rowid as __rowid__, \"name\", \"qty\" FROM \"t\"{} ORDER BY \"name\" DESC LIMIT ? OFFSET ?", w)
    );
    assert_eq!(plan.count_sql, format!("SELECT COUNT(*) FROM \"t\"{}", w));
    assert_eq!(plan.params, vec![s("%x%"), s("%x%")]);
    assert_eq!(plan.limit, 50);
    assert_eq!(plan.offset, 150);
    let over = plan_load("t", &cols(), 3, 50, Some(7), &None, &None, None);
    assert_eq!(over.offset, 7);
    assert_eq!(over.count_sql, "SELECT COUNT(*) FROM \"t\"");
    let huge = plan_load("t", &cols(), usize::MAX, 2, None, &None, &None, None);
    assert_eq!(huge.offset, usize::MAX);
}

#[test]
fn export_plan_has_identity_first() {
    let plan = plan_export("t", &cols(), &Some(s("abc")), &None, None);
    assert_eq!(plan.header, vec![s("__rowid__"), s("name"), s("qty")]);
    assert!(plan.sql.starts_with("SELECT rowid as __rowid__, \"name\", \"qty\" FROM \"t\" WHERE "));
    assert!(!plan.sql.contains("LIMIT"));
    assert_eq!(plan.params.len(), 2);
}

#[test]
fn filter_wildcards_are_escaped() {
    assert_eq!(like_pattern_of("a%_\\B"), "%a\\%\\_\\\\b%");
    assert_eq!(like_pattern_of("ÉX"), "%Éx%");
    assert_eq!(like_pattern_of(""), "%%");
}
