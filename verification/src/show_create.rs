//! The text of `SHOW CREATE TABLE`: the DDL statement that recreates a
//! table, a view, a stream or an attached table.

use vstd::prelude::*;

use crate::error::{ErrorCode, ErrorKind};
use crate::text::{to_uppercase, uppercase};

verus! {

/// How a column's value is computed, if it is.
#[derive(Debug, Clone, PartialEq, Eq)]
pub enum ComputedExpr {
    Virtual(String),
    Stored(String),
}

/// A column as `SHOW CREATE TABLE` prints it.
#[derive(Debug, Clone, PartialEq, Eq)]
pub struct ColumnDefinition {
    pub name: String,
    /// The SQL name of the column's type, without nullability.
    pub sql_type: String,
    pub nullable: bool,
    pub default_expr: Option<String>,
    pub computed_expr: Option<ComputedExpr>,
}

/// A table option: its key, its value, and whether the key is internal
/// (internal options are never printed).
#[derive(Debug, Clone, PartialEq, Eq)]
pub struct TableOption {
    pub key: String,
    pub value: String,
    pub internal: bool,
}

/// What `SHOW CREATE TABLE` reads of an ordinary table.
#[derive(Debug, Clone, PartialEq, Eq)]
pub struct TableDefinition {
    pub name: String,
    pub engine: String,
    pub columns: Vec<ColumnDefinition>,
    /// The comments of the columns; tables created by the old planner have none.
    pub field_comments: Vec<String>,
    /// The options, in strictly ascending order of key (`options_ascending`).
    pub options: Vec<TableOption>,
    pub cluster_keys: Option<String>,
    pub comment: String,
}

/// The text with every `'` escaped as `\'`.
pub open spec fn escape_quotes(s: Seq<char>) -> Seq<char>
    decreases s.len(),
{
    if s.len() == 0 {
        Seq::empty()
    } else {
        escape_quotes(s.drop_last()) + if s.last() == '\'' { seq!['\\', '\''] } else { seq![s.last()] }
    }
}

/// Escapes every `'` of the text as `\'`.
pub fn escape_single_quotes(s: &str) -> (r: String)
    ensures
        r@ == escape_quotes(s@),
{
    let n = s.unicode_len();
    let mut r = String::new();
    let mut i: usize = 0;
    while i < n
        invariant
            n == s@.len(),
            i <= n,
            r@ == escape_quotes(s@.subrange(0, i as int)),
        decreases n - i,
    {
        let c = s.get_char(i);
        let ghost before = r@;
        let ghost prefix = s@.subrange(0, i + 1);
        proof {
            assert(prefix.drop_last() =~= s@.subrange(0, i as int));
            assert(prefix.last() == c);
        }
        if c == '\'' {
            r = r.concat("\\'");
            proof {
                reveal_strlit("\\'");
                assert(r@ =~= before + seq!['\\', '\'']);
            }
        } else {
            let piece = s.substring_char(i, i + 1);
            r = r.concat(piece);
            proof {
                assert(piece@ =~= seq![c]);
                assert(r@ =~= before + seq![c]);
            }
        }
        i = i + 1;
    }
    assert(s@.subrange(0, n as int) == s@);
    r
}

pub open spec fn backquoted(s: Seq<char>) -> Seq<char> {
    "`"@ + s + "`"@
}

pub open spec fn nullable_sql(nullable: bool) -> Seq<char> {
    if nullable { " NULL"@ } else { " NOT NULL"@ }
}

pub open spec fn default_sql(default_expr: Option<String>) -> Seq<char> {
    match default_expr {
        Some(e) => " DEFAULT "@ + e@,
        None => Seq::empty(),
    }
}

pub open spec fn computed_sql(computed_expr: Option<ComputedExpr>) -> Seq<char> {
    match computed_expr {
        Some(ComputedExpr::Virtual(e)) => " AS ("@ + e@ + ") VIRTUAL"@,
        Some(ComputedExpr::Stored(e)) => " AS ("@ + e@ + ") STORED"@,
        None => Seq::empty(),
    }
}

pub open spec fn column_comment_sql(comment: Option<Seq<char>>) -> Seq<char> {
    match comment {
        Some(m) => " COMMENT '"@ + escape_quotes(m) + "'"@,
        None => Seq::empty(),
    }
}

/// One column of the statement: name, type, nullability, default,
/// computation and comment.
pub open spec fn column_sql(c: ColumnDefinition, comment: Option<Seq<char>>) -> Seq<char> {
    "  "@ + backquoted(c.name@) + " "@ + c.sql_type@ + nullable_sql(c.nullable)
        + default_sql(c.default_expr) + computed_sql(c.computed_expr) + column_comment_sql(comment)
}

/// The comment printed for column `i`: only when every column has a comment
/// entry and this one is not empty.
pub open spec fn column_comment(t: TableDefinition, i: int) -> Option<Seq<char>> {
    if t.field_comments@.len() == t.columns@.len() && t.field_comments@[i]@.len() > 0 {
        Some(t.field_comments@[i]@)
    } else {
        None
    }
}

/// The first `k` columns, one per line, separated by `",\n"`.
pub open spec fn columns_sql(t: TableDefinition, k: nat) -> Seq<char>
    decreases k,
{
    if k == 0 {
        Seq::empty()
    } else if k == 1 {
        column_sql(t.columns@[0], column_comment(t, 0))
    } else {
        columns_sql(t, (k - 1) as nat) + ",\n"@ + column_sql(t.columns@[k - 1], column_comment(t, k - 1))
    }
}

/// Texts in the order of `str`'s `Ord`: character by character (UTF-8
/// bytes compare in the order of the characters they encode), a proper
/// prefix first.
pub open spec fn text_lt(a: Seq<char>, b: Seq<char>) -> bool
    decreases a.len(),
{
    if a.len() == 0 {
        b.len() > 0
    } else if b.len() == 0 {
        false
    } else if a[0] != b[0] {
        (a[0] as u32) < (b[0] as u32)
    } else {
        text_lt(a.drop_first(), b.drop_first())
    }
}

/// The options are in strictly ascending order of their keys, as a table's
/// option map holds them.
pub open spec fn options_ascending(options: Seq<TableOption>) -> bool {
    forall|i: int, j: int| 0 <= i < j < options.len() ==> text_lt(#[trigger] options[i].key@, #[trigger] options[j].key@)
}

/// The printed options among the first `k`: ` KEY='value'` for each option
/// that is not internal.
pub open spec fn options_sql(options: Seq<TableOption>, k: nat) -> Seq<char>
    decreases k,
{
    if k == 0 || k > options.len() {
        Seq::empty()
    } else {
        let o = options[k - 1];
        options_sql(options, (k - 1) as nat)
            + if o.internal { Seq::empty() } else { " "@ + uppercase(o.key@) + "='"@ + o.value@ + "'"@ }
    }
}

pub open spec fn has_option(options: Seq<TableOption>, key: Seq<char>) -> bool {
    exists|i: int| 0 <= i < options.len() && #[trigger] options[i].key@ == key
}

/// The statement that recreates an ordinary table. Options are printed
/// unless the settings hide them (Iceberg and Delta tables always print them),
/// in the order of the options, which `show_create_table` requires ascending
/// by key.
pub open spec fn create_table_sql(t: TableDefinition, hide_options: bool) -> Seq<char> {
    (if has_option(t.options@, "TRANSIENT"@) { "CREATE TRANSIENT TABLE "@ } else { "CREATE TABLE "@ })
        + backquoted(t.name@) + " (\n"@
        + columns_sql(t, t.columns@.len()) + "\n"@
        + ") ENGINE="@ + t.engine@
        + (match t.cluster_keys { Some(k) => " CLUSTER BY "@ + k@, None => Seq::empty() })
        + (if !hide_options || t.engine@ == "ICEBERG"@ || t.engine@ == "DELTA"@ {
            options_sql(t.options@, t.options@.len())
        } else {
            Seq::empty()
        })
        + (if t.comment@.len() > 0 { " COMMENT = '"@ + t.comment@ + "'"@ } else { Seq::empty() })
}

pub open spec fn opt_view(o: Option<&String>) -> Option<Seq<char>> {
    match o {
        Some(m) => Some(m@),
        None => None,
    }
}

/// The line of one column.
pub fn column_line(c: &ColumnDefinition, comment: Option<&String>) -> (r: String)
    ensures
        r@ == column_sql(*c, opt_view(comment)),
{
    let mut r = String::from_str("  ");
    r.append("`");
    r.append(c.name.as_str());
    r.append("`");
    r.append(" ");
    r.append(c.sql_type.as_str());
    let ghost s0 = r@;
    if c.nullable {
        r.append(" NULL");
    } else {
        r.append(" NOT NULL");
    }
    let ghost s1 = r@;
    assert(s1 =~= s0 + nullable_sql(c.nullable));
    match &c.default_expr {
        Some(e) => {
            r.append(" DEFAULT ");
            r.append(e.as_str());
        },
        None => {},
    }
    let ghost s2 = r@;
    assert(s2 =~= s1 + default_sql(c.default_expr));
    match &c.computed_expr {
        Some(ComputedExpr::Virtual(e)) => {
            r.append(" AS (");
            r.append(e.as_str());
            r.append(") VIRTUAL");
        },
        Some(ComputedExpr::Stored(e)) => {
            r.append(" AS (");
            r.append(e.as_str());
            r.append(") STORED");
        },
        None => {},
    }
    let ghost s3 = r@;
    assert(s3 =~= s2 + computed_sql(c.computed_expr));
    match comment {
        Some(m) => {
            r.append(" COMMENT '");
            let escaped = escape_single_quotes(m.as_str());
            r.append(escaped.as_str());
            r.append("'");
        },
        None => {},
    }
    assert(r@ =~= s3 + column_comment_sql(opt_view(comment)));
    assert(s0 =~= "  "@ + backquoted(c.name@) + " "@ + c.sql_type@);
    r
}

/// The comment printed for column `i`.
fn comment_of(t: &TableDefinition, i: usize) -> (r: Option<&String>)
    requires
        i < t.columns@.len(),
    ensures
        opt_view(r) == column_comment(*t, i as int),
{
    if t.field_comments.len() == t.columns.len() && t.field_comments[i].as_str().unicode_len() > 0 {
        Some(&t.field_comments[i])
    } else {
        None
    }
}

/// The column lines of the statement, separated by `",\n"`.
pub fn columns_text(t: &TableDefinition) -> (r: String)
    ensures
        r@ == columns_sql(*t, t.columns@.len()),
{
    let n = t.columns.len();
    let mut r = String::new();
    let mut k: usize = 0;
    while k < n
        invariant
            n == t.columns@.len(),
            k <= n,
            r@ == columns_sql(*t, k as nat),
        decreases n - k,
    {
        let line = column_line(&t.columns[k], comment_of(t, k));
        if k > 0 {
            r.append(",\n");
        }
        r.append(line.as_str());
        k = k + 1;
    }
    r
}

/// The printed options, in the order in which the table holds them.
pub fn options_text(options: &Vec<TableOption>) -> (r: String)
    ensures
        r@ == options_sql(options@, options@.len()),
{
    let n = options.len();
    let mut r = String::new();
    let mut k: usize = 0;
    while k < n
        invariant
            n == options@.len(),
            k <= n,
            r@ == options_sql(options@, k as nat),
        decreases n - k,
    {
        let o = &options[k];
        let ghost before = r@;
        if !o.internal {
            let upper = to_uppercase(o.key.as_str());
            r.append(" ");
            r.append(upper.as_str());
            r.append("='");
            r.append(o.value.as_str());
            r.append("'");
            proof {
                assert(r@ =~= before + (" "@ + uppercase(o.key@) + "='"@ + o.value@ + "'"@));
            }
        } else {
            assert(r@ =~= before + Seq::<char>::empty());
        }
        k = k + 1;
    }
    r
}

/// Whether an option has the given key.
fn has_option_key(options: &Vec<TableOption>, key: &String) -> (r: bool)
    ensures
        r == has_option(options@, key@),
{
    let n = options.len();
    let mut k: usize = 0;
    while k < n
        invariant
            n == options@.len(),
            k <= n,
            forall|j: int| 0 <= j < k ==> #[trigger] options@[j].key@ != key@,
        decreases n - k,
    {
        if options[k].key.eq(key) {
            return true;
        }
        k = k + 1;
    }
    false
}

/// The statement that recreates an ordinary table; `hide_options` is the
/// session setting that hides the options.
pub fn show_create_table(t: &TableDefinition, hide_options: bool) -> (r: String)
    requires
        options_ascending(t.options@),
    ensures
        r@ == create_table_sql(*t, hide_options),
{
    let transient = String::from_str("TRANSIENT");
    let mut r = if has_option_key(&t.options, &transient) {
        String::from_str("CREATE TRANSIENT TABLE ")
    } else {
        String::from_str("CREATE TABLE ")
    };
    let ghost start = r@;
    r.append("`");
    r.append(t.name.as_str());
    r.append("`");
    r.append(" (\n");
    let columns = columns_text(t);
    r.append(columns.as_str());
    r.append("\n");
    r.append(") ENGINE=");
    r.append(t.engine.as_str());
    let ghost head = r@;
    match &t.cluster_keys {
        Some(k) => {
            r.append(" CLUSTER BY ");
            r.append(k.as_str());
        },
        None => {},
    }
    let ghost with_cluster = r@;
    let iceberg = String::from_str("ICEBERG");
    let delta = String::from_str("DELTA");
    let show_options = !hide_options || t.engine.eq(&iceberg) || t.engine.eq(&delta);
    if show_options {
        let options = options_text(&t.options);
        r.append(options.as_str());
    }
    let ghost with_options = r@;
    if t.comment.as_str().unicode_len() > 0 {
        r.append(" COMMENT = '");
        r.append(t.comment.as_str());
        r.append("'");
    }
    proof {
        let cluster_part = match &t.cluster_keys {
            Some(k) => " CLUSTER BY "@ + k@,
            None => Seq::<char>::empty(),
        };
        let options_part = if show_options {
            options_sql(t.options@, t.options@.len())
        } else {
            Seq::<char>::empty()
        };
        let comment_part = if t.comment@.len() > 0 {
            " COMMENT = '"@ + t.comment@ + "'"@
        } else {
            Seq::<char>::empty()
        };
        assert(head =~= start + backquoted(t.name@) + " (\n"@ + columns_sql(*t, t.columns@.len())
            + "\n"@ + ") ENGINE="@ + t.engine@);
        assert(with_cluster =~= head + cluster_part);
        assert(with_options =~= with_cluster + options_part);
        assert(r@ =~= with_options + comment_part);
    }
    r
}

/// The statement that recreates a view, from the query the view stores
/// under its `query` option.
pub open spec fn create_view_sql(database: Seq<char>, name: Seq<char>, query: Seq<char>) -> Seq<char> {
    "CREATE VIEW "@ + backquoted(database) + "."@ + backquoted(name) + " AS "@ + query
}

pub open spec fn missing_view_query() -> Seq<char> {
    "Logical error, View Table must have a SelectQuery inside."@
}

/// The statement that recreates a view; a view without a stored query is
/// a logical error.
pub fn show_create_view(database: &str, name: &str, query: Option<&String>) -> (r: Result<String, ErrorCode>)
    ensures
        match query {
            Some(q) => r matches Ok(s) && s@ == create_view_sql(database@, name@, q@),
            None => r matches Err(e) && e@ == (ErrorKind::Internal, missing_view_query()),
        },
{
    match query {
        Some(q) => {
            let mut r = String::from_str("CREATE VIEW ");
            r.append("`");
            r.append(database);
            r.append("`");
            r.append(".");
            r.append("`");
            r.append(name);
            r.append("`");
            r.append(" AS ");
            r.append(q.as_str());
            assert(r@ =~= create_view_sql(database@, name@, q@));
            Ok(r)
        },
        None => Err(ErrorCode::new(
            ErrorKind::Internal,
            String::from_str("Logical error, View Table must have a SelectQuery inside."),
        )),
    }
}

/// ` COMMENT = '...'` for a comment that is not empty.
pub open spec fn table_comment_sql(comment: Seq<char>) -> Seq<char> {
    if comment.len() > 0 {
        " COMMENT = '"@ + comment + "'"@
    } else {
        Seq::empty()
    }
}

pub open spec fn create_stream_sql(
    name: Seq<char>,
    source_database: Seq<char>,
    source_table: Seq<char>,
    comment: Seq<char>,
) -> Seq<char> {
    "CREATE STREAM "@ + backquoted(name) + " ON TABLE "@ + backquoted(source_database) + "."@
        + backquoted(source_table) + table_comment_sql(comment)
}

/// The statement that recreates a stream on a table.
pub fn show_create_stream(name: &str, source_database: &str, source_table: &str, comment: &str) -> (r: String)
    ensures
        r@ == create_stream_sql(name@, source_database@, source_table@, comment@),
{
    let mut r = String::from_str("CREATE STREAM ");
    r.append("`");
    r.append(name);
    r.append("`");
    r.append(" ON TABLE ");
    r.append("`");
    r.append(source_database);
    r.append("`");
    r.append(".");
    r.append("`");
    r.append(source_table);
    r.append("`");
    let ghost head = r@;
    if comment.unicode_len() > 0 {
        r.append(" COMMENT = '");
        r.append(comment);
        r.append("'");
    }
    assert(r@ =~= head + table_comment_sql(comment@));
    r
}

/// The location printed for an attached table whose data location was not
/// recorded.
pub open spec fn location_not_available() -> Seq<char> {
    "N/A"@
}

pub open spec fn attach_table_sql(
    database: Seq<char>,
    name: Seq<char>,
    data_uri: Option<Seq<char>>,
    read_only: bool,
) -> Seq<char> {
    "ATTACH TABLE "@ + backquoted(database) + "."@ + backquoted(name) + " "@
        + (match data_uri { Some(u) => u, None => location_not_available() })
        + (if read_only { " READ_ONLY"@ } else { Seq::empty() })
}

/// The statement that attaches a table again to the data it was attached to.
pub fn show_attach_table(database: &str, name: &str, data_uri: Option<&String>, read_only: bool) -> (r: String)
    ensures
        r@ == attach_table_sql(database@, name@, opt_view(data_uri), read_only),
{
    let mut r = String::from_str("ATTACH TABLE ");
    r.append("`");
    r.append(database);
    r.append("`");
    r.append(".");
    r.append("`");
    r.append(name);
    r.append("`");
    r.append(" ");
    match data_uri {
        Some(u) => r.append(u.as_str()),
        None => r.append("N/A"),
    }
    let ghost head = r@;
    if read_only {
        r.append(" READ_ONLY");
    }
    assert(r@ =~= head + (if read_only { " READ_ONLY"@ } else { Seq::<char>::empty() }));
    r
}

/// Which statement `SHOW CREATE TABLE` prints for a table.
#[derive(Debug, Clone, Copy, PartialEq, Eq, Structural)]
pub enum ShowCreateKind {
    Stream,
    View,
    AttachedTable,
    Table,
}

pub open spec fn show_create_kind_of(engine: Seq<char>, has_storage_prefix: bool) -> ShowCreateKind {
    if engine == "STREAM"@ {
        ShowCreateKind::Stream
    } else if engine == "VIEW"@ {
        ShowCreateKind::View
    } else if has_storage_prefix {
        ShowCreateKind::AttachedTable
    } else {
        ShowCreateKind::Table
    }
}

/// Picks the statement by the table's engine and by whether its options
/// hold a storage prefix (which only attached tables have).
pub fn show_create_kind(engine: &String, has_storage_prefix: bool) -> (r: ShowCreateKind)
    ensures
        r == show_create_kind_of(engine@, has_storage_prefix),
{
    let stream = String::from_str("STREAM");
    let view = String::from_str("VIEW");
    if engine.eq(&stream) {
        ShowCreateKind::Stream
    } else if engine.eq(&view) {
        ShowCreateKind::View
    } else if has_storage_prefix {
        ShowCreateKind::AttachedTable
    } else {
        ShowCreateKind::Table
    }
}

/// Whether an engine is a lake format (Delta or Iceberg).
pub open spec fn lake_engine(engine: Seq<char>) -> bool {
    engine == seq!['D', 'E', 'L', 'T', 'A'] || engine == seq!['I', 'C', 'E', 'B', 'E', 'R', 'G']
}

/// The text one shown option adds: a space, the upper-case key, `='`, the
/// value and a closing `'`.
pub open spec fn shown_option(o: TableOption) -> Seq<char> {
    seq![' '] + uppercase(o.key@) + seq!['=', '\''] + o.value@ + seq!['\'']
}

proof fn lemma_option_in_options_sql(options: Seq<TableOption>, j: int, k: nat)
    requires
        0 <= j < k <= options.len(),
        !options[j].internal,
    ensures
        options_sql(options, (j + 1) as nat) == options_sql(options, j as nat) + shown_option(options[j]),
        options_sql(options, (j + 1) as nat).len() <= options_sql(options, k).len(),
        options_sql(options, k).subrange(
            options_sql(options, j as nat).len() as int,
            options_sql(options, j as nat).len() + shown_option(options[j]).len() as int,
        ) == shown_option(options[j]),
    decreases k,
{
    reveal_strlit(" ");
    reveal_strlit("='");
    reveal_strlit("'");
    let before = options_sql(options, j as nat);
    let piece = shown_option(options[j]);
    if k == j + 1 {
        assert(" "@ + uppercase(options[j].key@) + "='"@ + options[j].value@ + "'"@ =~= piece);
        assert(options_sql(options, k) == before + piece);
        assert((before + piece).subrange(before.len() as int, before.len() + piece.len() as int) =~= piece);
    } else {
        lemma_option_in_options_sql(options, j, (k - 1) as nat);
        let prev = options_sql(options, (k - 1) as nat);
        let o = options[k - 1];
        let extra = if o.internal { Seq::<char>::empty() } else { " "@ + uppercase(o.key@) + "='"@ + o.value@ + "'"@ };
        assert(options_sql(options, k) == prev + extra);
        assert((prev + extra).subrange(before.len() as int, before.len() + piece.len() as int)
            =~= prev.subrange(before.len() as int, before.len() + piece.len() as int));
    }
}

proof fn lemma_lake_engine_literals(engine: Seq<char>)
    ensures
        lake_engine(engine) <==> (engine == "DELTA"@ || engine == "ICEBERG"@),
{
    reveal_strlit("DELTA");
    reveal_strlit("ICEBERG");
    assert("DELTA"@ =~= seq!['D', 'E', 'L', 'T', 'A']);
    assert("ICEBERG"@ =~= seq!['I', 'C', 'E', 'B', 'E', 'R', 'G']);
}

proof fn lemma_columns_sql_same(t: TableDefinition, u: TableDefinition, k: nat)
    requires
        t.columns@ == u.columns@,
        t.field_comments@ == u.field_comments@,
    ensures
        columns_sql(t, k) == columns_sql(u, k),
    decreases k,
{
    if k > 1 {
        lemma_columns_sql_same(t, u, (k - 1) as nat);
    }
}

/// A Delta or Iceberg table always shows its options: its statement is the
/// same whether the settings hide options or not.
pub proof fn law_lake_tables_show_options(t: TableDefinition, hide_options: bool)
    requires
        lake_engine(t.engine@),
    ensures
        create_table_sql(t, hide_options) == create_table_sql(t, false),
{
    lemma_lake_engine_literals(t.engine@);
}

/// When options are shown (the settings do not hide them, or the table is a
/// Delta or Iceberg table), every option that is not internal appears in
/// the statement as ` KEY='value'`.
pub proof fn law_shown_options_appear(t: TableDefinition, hide_options: bool, j: int)
    requires
        !hide_options || lake_engine(t.engine@),
        0 <= j < t.options@.len(),
        !t.options@[j].internal,
    ensures
        exists|i: int| 0 <= i && i + shown_option(t.options@[j]).len() <= create_table_sql(t, hide_options).len()
            && #[trigger] create_table_sql(t, hide_options).subrange(i, i + shown_option(t.options@[j]).len())
                == shown_option(t.options@[j]),
{
    lemma_lake_engine_literals(t.engine@);
    let opts = t.options@;
    let n = opts.len();
    lemma_option_in_options_sql(opts, j, n);
    let head = (if has_option(opts, "TRANSIENT"@) { "CREATE TRANSIENT TABLE "@ } else { "CREATE TABLE "@ })
        + backquoted(t.name@) + " (\n"@
        + columns_sql(t, t.columns@.len()) + "\n"@
        + ") ENGINE="@ + t.engine@
        + (match t.cluster_keys { Some(k) => " CLUSTER BY "@ + k@, None => Seq::empty() });
    let body = options_sql(opts, n);
    let tail = if t.comment@.len() > 0 { " COMMENT = '"@ + t.comment@ + "'"@ } else { Seq::empty() };
    let sql = create_table_sql(t, hide_options);
    assert(sql == head + body + tail);
    let piece = shown_option(opts[j]);
    let at: int = head.len() + options_sql(opts, j as nat).len() as int;
    assert(sql.subrange(at, at + piece.len()) =~= body.subrange(
        options_sql(opts, j as nat).len() as int, options_sql(opts, j as nat).len() + piece.len() as int));
}

/// The statement starts with `CREATE TRANSIENT TABLE ` exactly for a
/// transient table (one with the `TRANSIENT` option) and with
/// `CREATE TABLE ` otherwise, followed by the back-quoted name.
#[verifier::rlimit(40)]
pub proof fn law_create_table_starts_with_name(t: TableDefinition, hide_options: bool)
    ensures
        ({
            let sql = create_table_sql(t, hide_options);
            let lead: Seq<char> = if has_option(t.options@, seq!['T', 'R', 'A', 'N', 'S', 'I', 'E', 'N', 'T']) {
                seq!['C', 'R', 'E', 'A', 'T', 'E', ' ', 'T', 'R', 'A', 'N', 'S', 'I', 'E', 'N', 'T', ' ', 'T', 'A', 'B', 'L', 'E', ' ']
            } else {
                seq!['C', 'R', 'E', 'A', 'T', 'E', ' ', 'T', 'A', 'B', 'L', 'E', ' ']
            };
            let named = lead + seq!['`'] + t.name@ + seq!['`'];
            named.len() <= sql.len() && sql.subrange(0, named.len() as int) == named
        }),
{
    reveal_strlit("TRANSIENT");
    reveal_strlit("CREATE TRANSIENT TABLE ");
    reveal_strlit("CREATE TABLE ");
    reveal_strlit("`");
    assert("TRANSIENT"@ =~= seq!['T', 'R', 'A', 'N', 'S', 'I', 'E', 'N', 'T']);
    assert("CREATE TRANSIENT TABLE "@ =~= seq!['C', 'R', 'E', 'A', 'T', 'E', ' ', 'T', 'R', 'A', 'N', 'S', 'I', 'E', 'N', 'T', ' ', 'T', 'A', 'B', 'L', 'E', ' ']);
    assert("CREATE TABLE "@ =~= seq!['C', 'R', 'E', 'A', 'T', 'E', ' ', 'T', 'A', 'B', 'L', 'E', ' ']);
    let sql = create_table_sql(t, hide_options);
    let lead: Seq<char> = if has_option(t.options@, "TRANSIENT"@) { "CREATE TRANSIENT TABLE "@ } else { "CREATE TABLE "@ };
    let named = lead + backquoted(t.name@);
    assert(backquoted(t.name@) =~= seq!['`'] + t.name@ + seq!['`']);
    lemma_prefix_of_chain(sql, named, create_table_rest(t, hide_options));
}

/// What follows the name in the statement.
spec fn create_table_rest(t: TableDefinition, hide_options: bool) -> Seq<char> {
    " (\n"@ + columns_sql(t, t.columns@.len()) + "\n"@ + ") ENGINE="@ + t.engine@
        + (match t.cluster_keys { Some(k) => " CLUSTER BY "@ + k@, None => Seq::empty() })
        + (if !hide_options || t.engine@ == "ICEBERG"@ || t.engine@ == "DELTA"@ {
            options_sql(t.options@, t.options@.len())
        } else {
            Seq::empty()
        })
        + (if t.comment@.len() > 0 { " COMMENT = '"@ + t.comment@ + "'"@ } else { Seq::empty() })
}

proof fn lemma_prefix_of_chain(whole: Seq<char>, head: Seq<char>, rest: Seq<char>)
    requires
        whole =~= head + rest,
    ensures
        head.len() <= whole.len(),
        whole.subrange(0, head.len() as int) == head,
{
    assert(whole.subrange(0, head.len() as int) =~= head);
}

/// A table comment, when there is one, ends the statement as
/// ` COMMENT = 'comment'`.
#[verifier::rlimit(40)]
pub proof fn law_create_table_ends_with_comment(t: TableDefinition, hide_options: bool)
    requires
        t.comment@.len() > 0,
    ensures
        ({
            let sql = create_table_sql(t, hide_options);
            let tail = seq![' ', 'C', 'O', 'M', 'M', 'E', 'N', 'T', ' ', '=', ' ', '\''] + t.comment@ + seq!['\''];
            tail.len() <= sql.len() && sql.subrange(sql.len() - tail.len(), sql.len() as int) == tail
        }),
{
    reveal_strlit(" COMMENT = '");
    reveal_strlit("'");
    let sql = create_table_sql(t, hide_options);
    let tail = seq![' ', 'C', 'O', 'M', 'M', 'E', 'N', 'T', ' ', '=', ' ', '\''] + t.comment@ + seq!['\''];
    assert(" COMMENT = '"@ + t.comment@ + "'"@ =~= tail);
    assert(sql.subrange(sql.len() - tail.len(), sql.len() as int) =~= tail);
}

/// Outside Delta and Iceberg tables, hidden options leave no trace: two
/// tables that differ only in their options (and agree on being transient)
/// give the same statement when options are hidden.
pub proof fn law_hidden_options_leave_no_trace(t: TableDefinition, u: TableDefinition)
    requires
        !lake_engine(t.engine@),
        u.name == t.name,
        u.engine == t.engine,
        u.columns == t.columns,
        u.field_comments == t.field_comments,
        u.cluster_keys == t.cluster_keys,
        u.comment == t.comment,
        has_option(u.options@, "TRANSIENT"@) == has_option(t.options@, "TRANSIENT"@),
    ensures
        create_table_sql(t, true) == create_table_sql(u, true),
{
    lemma_lake_engine_literals(t.engine@);
    lemma_columns_sql_same(t, u, t.columns@.len());
}

/// In an escaped text every quote is preceded by a backslash, and the text
/// is one character longer for each quote of the original.
pub proof fn law_escaped_quotes(s: Seq<char>)
    ensures
        forall|i: int| 0 <= i < escape_quotes(s).len() && #[trigger] escape_quotes(s)[i] == '\''
            ==> i > 0 && escape_quotes(s)[i - 1] == '\\',
        escape_quotes(s).len() == s.len() + s.filter(|c: char| c == '\'').len(),
    decreases s.len(),
{
    if s.len() > 0 {
        let init = s.drop_last();
        law_escaped_quotes(init);
        let e = escape_quotes(s);
        let ei = escape_quotes(init);
        let tail = if s.last() == '\'' { seq!['\\', '\''] } else { seq![s.last()] };
        assert(e == ei + tail);
        assert(s =~= init.push(s.last()));
        reveal(Seq::filter);
        assert(s.filter(|c: char| c == '\'') == init.filter(|c: char| c == '\'') + if s.last() == '\'' {
            seq!['\'']
        } else {
            Seq::<char>::empty()
        });
        assert forall|i: int| 0 <= i < e.len() && #[trigger] e[i] == '\'' implies i > 0 && e[i - 1] == '\\' by {
            if i < ei.len() {
                assert(e[i] == ei[i]);
                assert(e[i - 1] == ei[i - 1]);
            } else if s.last() == '\'' {
                assert(i == ei.len() + 1);
            }
        }
    }
}

/// A view is recreated by `CREATE VIEW` on its database-qualified,
/// back-quoted name, followed by ` AS ` and its stored query verbatim.
pub proof fn law_create_view_text(database: Seq<char>, name: Seq<char>, query: Seq<char>)
    ensures
        create_view_sql(database, name, query)
            == seq!['C', 'R', 'E', 'A', 'T', 'E', ' ', 'V', 'I', 'E', 'W', ' ', '`'] + database + seq!['`', '.', '`'] + name
                + seq!['`', ' ', 'A', 'S', ' '] + query,
{
    reveal_strlit("CREATE VIEW ");
    reveal_strlit("`");
    reveal_strlit(".");
    reveal_strlit(" AS ");
    assert(create_view_sql(database, name, query)
        =~= seq!['C', 'R', 'E', 'A', 'T', 'E', ' ', 'V', 'I', 'E', 'W', ' ', '`'] + database + seq!['`', '.', '`'] + name
            + seq!['`', ' ', 'A', 'S', ' '] + query);
}

/// A stream is recreated on its source table, database-qualified; its
/// comment is printed exactly when it is not empty.
pub proof fn law_create_stream_text(name: Seq<char>, source_database: Seq<char>, source_table: Seq<char>, comment: Seq<char>)
    ensures
        create_stream_sql(name, source_database, source_table, comment)
            == seq!['C', 'R', 'E', 'A', 'T', 'E', ' ', 'S', 'T', 'R', 'E', 'A', 'M', ' ', '`'] + name
                + seq!['`', ' ', 'O', 'N', ' ', 'T', 'A', 'B', 'L', 'E', ' ', '`'] + source_database
                + seq!['`', '.', '`'] + source_table + seq!['`']
                + (if comment.len() > 0 {
                    seq![' ', 'C', 'O', 'M', 'M', 'E', 'N', 'T', ' ', '=', ' ', '\''] + comment + seq!['\'']
                } else {
                    Seq::empty()
                }),
{
    reveal_strlit("CREATE STREAM ");
    reveal_strlit("`");
    reveal_strlit(".");
    reveal_strlit(" ON TABLE ");
    reveal_strlit(" COMMENT = '");
    reveal_strlit("'");
    assert(create_stream_sql(name, source_database, source_table, comment)
        =~= seq!['C', 'R', 'E', 'A', 'T', 'E', ' ', 'S', 'T', 'R', 'E', 'A', 'M', ' ', '`'] + name
            + seq!['`', ' ', 'O', 'N', ' ', 'T', 'A', 'B', 'L', 'E', ' ', '`'] + source_database
            + seq!['`', '.', '`'] + source_table + seq!['`']
            + (if comment.len() > 0 {
                seq![' ', 'C', 'O', 'M', 'M', 'E', 'N', 'T', ' ', '=', ' ', '\''] + comment + seq!['\'']
            } else {
                Seq::empty()
            }));
}

/// An attached table's statement ends with ` READ_ONLY` exactly when the
/// attachment is read-only, and otherwise with its data location.
pub proof fn law_attach_read_only(database: Seq<char>, name: Seq<char>, uri: Seq<char>, read_only: bool)
    ensures
        ({
            let sql = attach_table_sql(database, name, Some(uri), read_only);
            let mark = seq![' ', 'R', 'E', 'A', 'D', '_', 'O', 'N', 'L', 'Y'];
            &&& read_only ==> mark.len() <= sql.len() && sql.subrange(sql.len() - mark.len(), sql.len() as int) == mark
            &&& !read_only ==> uri.len() <= sql.len() && sql.subrange(sql.len() - uri.len(), sql.len() as int) == uri
        }),
{
    reveal_strlit(" READ_ONLY");
    let sql = attach_table_sql(database, name, Some(uri), read_only);
    let mark = seq![' ', 'R', 'E', 'A', 'D', '_', 'O', 'N', 'L', 'Y'];
    if read_only {
        assert(" READ_ONLY"@ =~= mark);
        assert(sql.subrange(sql.len() - mark.len(), sql.len() as int) =~= mark);
    } else {
        assert(sql.subrange(sql.len() - uri.len(), sql.len() as int) =~= uri);
    }
}

} // verus!
