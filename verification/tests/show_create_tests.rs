use databend_query_core::error::ErrorKind;
use databend_query_core::show_create::{
    column_line, escape_single_quotes, show_attach_table, show_create_kind, show_create_stream, show_create_table,
    show_create_view, ColumnDefinition, ComputedExpr, ShowCreateKind, TableDefinition, TableOption,
};

fn col(name: &str, sql_type: &str, nullable: bool) -> ColumnDefinition {
    ColumnDefinition {
        name: name.to_string(),
        sql_type: sql_type.to_string(),
        nullable,
        default_expr: None,
        computed_expr: None,
    }
}

fn opt(key: &str, value: &str, internal: bool) -> TableOption {
    TableOption { key: key.to_string(), value: value.to_string(), internal }
}

fn table() -> TableDefinition {
    let mut b = col("b", "VARCHAR", true);
    b.default_expr = Some("'x'".to_string());
    let mut c = col("c", "BIGINT", false);
    c.computed_expr = Some(ComputedExpr::Stored("a + 1".to_string()));
    TableDefinition {
        name: "t".to_string(),
        engine: "FUSE".to_string(),
        columns: vec![col("a", "INT", false), b, c],
        field_comments: vec!["".to_string(), "it's b".to_string(), "".to_string()],
        options: vec![opt("compression", "zstd", false), opt("snapshot_location", "x/y", true)],
        cluster_keys: Some("(a)".to_string()),
        comment: "demo".to_string(),
    }
}

#[test]
fn create_table_statement() {
    let expected = "CREATE TABLE `t` (\n  `a` INT NOT NULL,\n  `b` VARCHAR NULL DEFAULT 'x' COMMENT 'it\\'s b',\n  `c` BIGINT NOT NULL AS (a + 1) STORED\n) ENGINE=FUSE CLUSTER BY (a) COMPRESSION='zstd' COMMENT = 'demo'";
    assert_eq!(show_create_table(&table(), false), expected);
}

#[test]
fn hidden_options_are_left_out() {
    let expected = "CREATE TABLE `t` (\n  `a` INT NOT NULL,\n  `b` VARCHAR NULL DEFAULT 'x' COMMENT 'it\\'s b',\n  `c` BIGINT NOT NULL AS (a + 1) STORED\n) ENGINE=FUSE CLUSTER BY (a) COMMENT = 'demo'";
    assert_eq!(show_create_table(&table(), true), expected);
}

#[test]
fn iceberg_tables_always_show_options() {
    let mut t = table();
    t.engine = "ICEBERG".to_string();
    t.cluster_keys = None;
    t.comment = String::new();
    let s = show_create_table(&t, true);
    assert!(s.ends_with(") ENGINE=ICEBERG COMPRESSION='zstd'"));
}

#[test]
fn transient_tables() {
    let t = TableDefinition {
        name: "tmp".to_string(),
        engine: "FUSE".to_string(),
        columns: vec![col("x", "INT", true)],
        field_comments: vec![],
        options: vec![opt("TRANSIENT", "T", false)],
        cluster_keys: None,
        comment: String::new(),
    };
    assert_eq!(show_create_table(&t, false), "CREATE TRANSIENT TABLE `tmp` (\n  `x` INT NULL\n) ENGINE=FUSE TRANSIENT='T'");
}

#[test]
fn comments_need_one_per_column() {
    let mut t = table();
    t.field_comments = vec!["only one".to_string()];
    let s = show_create_table(&t, true);
    assert!(!s.contains("COMMENT 'only one'"));
    assert!(s.contains("`b` VARCHAR NULL DEFAULT 'x',\n"));
}

#[test]
fn virtual_columns() {
    let mut c = col("v", "INT", true);
    c.computed_expr = Some(ComputedExpr::Virtual("a * 2".to_string()));
    assert_eq!(column_line(&c, None), "  `v` INT NULL AS (a * 2) VIRTUAL");
    let comment = "n".to_string();
    assert_eq!(column_line(&col("n", "INT", false), Some(&comment)), "  `n` INT NOT NULL COMMENT 'n'");
}

#[test]
fn quotes_are_escaped() {
    assert_eq!(escape_single_quotes("it's 'x'"), "it\\'s \\'x\\'");
    assert_eq!(escape_single_quotes(""), "");
    assert_eq!(escape_single_quotes("plain"), "plain");
    let escaped = escape_single_quotes("''");
    assert_eq!(escaped.len(), 4);
}

#[test]
fn create_view_statement() {
    let q = "SELECT 1".to_string();
    assert_eq!(show_create_view("db", "v", Some(&q)).ok().unwrap(), "CREATE VIEW `db`.`v` AS SELECT 1");
    let e = show_create_view("db", "v", None).err().unwrap();
    assert_eq!(e.kind, ErrorKind::Internal);
    assert_eq!(e.message, "Logical error, View Table must have a SelectQuery inside.");
}

#[test]
fn create_stream_statement() {
    assert_eq!(show_create_stream("s", "db", "t", ""), "CREATE STREAM `s` ON TABLE `db`.`t`");
    assert_eq!(
        show_create_stream("s", "db", "t", "new rows"),
        "CREATE STREAM `s` ON TABLE `db`.`t` COMMENT = 'new rows'"
    );
}

#[test]
fn attach_table_statement() {
    assert_eq!(show_attach_table("db", "t", None, false), "ATTACH TABLE `db`.`t` N/A");
    let uri = "s3://bucket/path/".to_string();
    assert_eq!(show_attach_table("db", "t", Some(&uri), true), "ATTACH TABLE `db`.`t` s3://bucket/path/ READ_ONLY");
}

#[test]
fn statement_kind_by_engine() {
    assert_eq!(show_create_kind(&"STREAM".to_string(), true), ShowCreateKind::Stream);
    assert_eq!(show_create_kind(&"VIEW".to_string(), false), ShowCreateKind::View);
    assert_eq!(show_create_kind(&"FUSE".to_string(), true), ShowCreateKind::AttachedTable);
    assert_eq!(show_create_kind(&"FUSE".to_string(), false), ShowCreateKind::Table);
}
