use lyra::migrate::{already_applied, split_sql};

#[test]
fn split_sql_drops_comments_and_empty_statements() {
    let sql = "-- create things\nCREATE TABLE a (x INT);\n\n  -- note\nALTER TABLE a ADD COLUMN y TEXT;\r\n;\n  ";
    assert_eq!(
        split_sql(sql),
        vec!["CREATE TABLE a (x INT)".to_string(), "ALTER TABLE a ADD COLUMN y TEXT".to_string()]
    );
}

#[test]
fn split_sql_keeps_multiline_statements() {
    let sql = "CREATE TABLE t (\n  id INTEGER, -- inline comment stays\n  -- whole line goes\n  name TEXT\r\n);";
    assert_eq!(
        split_sql(sql),
        vec!["CREATE TABLE t (\n  id INTEGER, -- inline comment stays\n  name TEXT\n)".to_string()]
    );
    assert!(split_sql("").is_empty());
    assert!(split_sql(" ; -- only\n ;").is_empty());
}

#[test]
fn split_sql_example_from_a_failed_migration() {
    let up = "ALTER TABLE tickets ADD COLUMN status TEXT DEFAULT 'queued'; SELECT * FROM missing_table;";
    assert_eq!(
        split_sql(up),
        vec![
            "ALTER TABLE tickets ADD COLUMN status TEXT DEFAULT 'queued'".to_string(),
            "SELECT * FROM missing_table".to_string()
        ]
    );
}

#[test]
fn applied_versions_are_skipped() {
    assert!(!already_applied(None, "001"));
    assert!(already_applied(Some("001"), "001"));
    assert!(already_applied(Some("002"), "001"));
    assert!(!already_applied(Some("001"), "002"));
    assert!(!already_applied(Some(""), "001"));
}
