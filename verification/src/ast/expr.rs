use vstd::prelude::*;

use super::operators::{BinaryOperator, JsonOperator, UnaryOperator};
use super::types::TypeName;

verus! {

/// A 256-bit signed integer, the unscaled value of a `Decimal256` literal.
#[verifier::external_type_specification]
#[verifier::external_body]
pub struct ExI256(ethnum::I256);

/// `I256::clone` (derived alongside `Copy`) returns its argument unchanged.
pub assume_specification[ <ethnum::I256 as core::clone::Clone>::clone ](x: &ethnum::I256) -> (r: ethnum::I256)
    ensures
        r == *x,
;

/// A byte range of the source text.
#[derive(Debug, Clone, Copy, PartialEq, Eq, Structural)]
pub struct Range {
    pub start: u32,
    pub end: u32,
}

/// Where a node came from in the source text, if it came from any.
pub type Span = Option<Range>;

/// A name in the SQL text, possibly quoted.
#[derive(Debug, Clone, PartialEq)]
pub struct Identifier {
    pub span: Span,
    pub name: String,
    pub quote: Option<char>,
}

/// A positional column reference such as `$1`.
#[derive(Debug, Clone, PartialEq)]
pub struct ColumnPosition {
    pub span: Span,
    pub pos: usize,
    pub name: String,
}

/// A subquery, held as its SQL text.
#[derive(Debug, Clone, PartialEq)]
pub struct Query {
    pub span: Span,
    pub text: String,
}

/// An `ORDER BY` item.
#[derive(Debug, PartialEq)]
pub struct OrderByExpr {
    pub expr: Expr,
    pub asc: Option<bool>,
    pub nulls_first: Option<bool>,
}

#[derive(Debug, Clone, Copy, PartialEq, Eq, Structural)]
pub enum IntervalKind {
    Year,
    Quarter,
    Month,
    Day,
    Hour,
    Minute,
    Second,
    Doy,
    Week,
    Dow,
}

#[derive(Debug, Clone, PartialEq)]
pub enum ColumnID {
    Name(Identifier),
    Position(ColumnPosition),
}

#[derive(Debug, PartialEq)]
pub enum Expr {
    /// Column reference, with indirection like `table.column`
    ColumnRef { span: Span, database: Option<Identifier>, table: Option<Identifier>, column: ColumnID },
    /// `IS [ NOT ] NULL` expression
    IsNull { span: Span, expr: Box<Expr>, not: bool },
    /// `IS [NOT] DISTINCT` expression
    IsDistinctFrom { span: Span, left: Box<Expr>, right: Box<Expr>, not: bool },
    /// `[ NOT ] IN (expr, ...)`
    InList { span: Span, expr: Box<Expr>, list: Vec<Expr>, not: bool },
    /// `[ NOT ] IN (SELECT ...)`
    InSubquery { span: Span, expr: Box<Expr>, subquery: Box<Query>, not: bool },
    /// `BETWEEN ... AND ...`
    Between { span: Span, expr: Box<Expr>, low: Box<Expr>, high: Box<Expr>, not: bool },
    /// Binary operation
    BinaryOp { span: Span, op: BinaryOperator, left: Box<Expr>, right: Box<Expr> },
    /// JSON operation
    JsonOp { span: Span, op: JsonOperator, left: Box<Expr>, right: Box<Expr> },
    /// Unary operation
    UnaryOp { span: Span, op: UnaryOperator, expr: Box<Expr> },
    /// `CAST(expr AS target_type)`, or `expr::target_type` in the PostgreSQL style
    Cast { span: Span, expr: Box<Expr>, target_type: TypeName, pg_style: bool },
    /// `TRY_CAST` expression
    TryCast { span: Span, expr: Box<Expr>, target_type: TypeName },
    /// `EXTRACT(IntervalKind FROM <expr>)`
    Extract { span: Span, kind: IntervalKind, expr: Box<Expr> },
    /// `DATE_PART(IntervalKind, <expr>)`
    DatePart { span: Span, kind: IntervalKind, expr: Box<Expr> },
    /// `POSITION(<expr> IN <expr>)`
    Position { span: Span, substr_expr: Box<Expr>, str_expr: Box<Expr> },
    /// `SUBSTRING(<expr> [FROM <expr>] [FOR <expr>])`
    Substring { span: Span, expr: Box<Expr>, substring_from: Box<Expr>, substring_for: Option<Box<Expr>> },
    /// `TRIM([[BOTH | LEADING | TRAILING] <expr> FROM] <expr>)`
    Trim { span: Span, expr: Box<Expr>, trim_where: Option<(TrimWhere, Box<Expr>)> },
    /// A literal value, such as string, number, date or NULL
    Literal { span: Span, lit: Literal },
    /// `COUNT(*)` expression
    CountAll { span: Span, window: Option<Window> },
    /// `(foo, bar)`
    Tuple { span: Span, exprs: Vec<Expr> },
    /// Scalar, aggregate or window function call; `distinct` marks `COUNT(DISTINCT a)`
    FunctionCall {
        span: Span,
        distinct: bool,
        name: Identifier,
        args: Vec<Expr>,
        params: Vec<Expr>,
        window: Option<Window>,
        lambda: Option<Lambda>,
    },
    /// `CASE ... WHEN ... ELSE ...` expression
    Case {
        span: Span,
        operand: Option<Box<Expr>>,
        conditions: Vec<Expr>,
        results: Vec<Expr>,
        else_result: Option<Box<Expr>>,
    },
    /// `[ NOT ] EXISTS` expression
    Exists { span: Span, not: bool, subquery: Box<Query> },
    /// Scalar, ANY, ALL or SOME subquery
    Subquery { span: Span, modifier: Option<SubqueryModifier>, subquery: Box<Query> },
    /// Element access of `Array`, `Map` and `Variant` values, like `arr[0]` or `obj:k1`
    MapAccess { span: Span, expr: Box<Expr>, accessor: MapAccessor },
    /// An array constructor
    Array { span: Span, exprs: Vec<Expr> },
    /// A map constructor
    MapExpr { span: Span, kvs: Vec<(Literal, Expr)> },
    /// `INTERVAL 1 DAY`
    Interval { span: Span, expr: Box<Expr>, unit: IntervalKind },
    DateAdd { span: Span, unit: IntervalKind, interval: Box<Expr>, date: Box<Expr> },
    DateSub { span: Span, unit: IntervalKind, interval: Box<Expr>, date: Box<Expr> },
    DateTrunc { span: Span, unit: IntervalKind, date: Box<Expr> },
}

#[derive(Debug, Clone, Copy, PartialEq, Eq, Structural)]
pub enum SubqueryModifier {
    Any,
    All,
    /// `SOME`
    SomeModifier,
}

#[derive(Debug, Clone, PartialEq)]
pub enum Literal {
    UInt64(u64),
    /// A double, held by the bits of its IEEE 754 encoding.
    Float64(u64),
    Decimal256 { value: ethnum::I256, precision: u8, scale: u8 },
    /// Quoted string literal value
    String(String),
    Boolean(bool),
    Null,
}

/// The display style for a map access expression
#[derive(Debug, PartialEq)]
pub enum MapAccessor {
    /// `[0][1]`
    Bracket { key: Box<Expr> },
    /// `.1`
    DotNumber { key: u64 },
    /// `:a:b`
    Colon { key: Identifier },
}

#[derive(Debug, Clone, Copy, PartialEq, Eq, Structural)]
pub enum TrimWhere {
    Both,
    Leading,
    Trailing,
}

#[derive(Debug, PartialEq)]
pub enum Window {
    WindowReference(WindowRef),
    WindowSpec(WindowSpec),
}

#[derive(Debug, PartialEq)]
pub struct WindowDefinition {
    pub name: Identifier,
    pub spec: WindowSpec,
}

#[derive(Debug, Clone, PartialEq)]
pub struct WindowRef {
    pub window_name: Identifier,
}

#[derive(Debug, PartialEq)]
pub struct WindowSpec {
    pub existing_window_name: Option<Identifier>,
    pub partition_by: Vec<Expr>,
    pub order_by: Vec<OrderByExpr>,
    pub window_frame: Option<WindowFrame>,
}

/// `RANGE UNBOUNDED PRECEDING` or `ROWS BETWEEN 5 PRECEDING AND CURRENT ROW`.
#[derive(Debug, PartialEq)]
pub struct WindowFrame {
    pub units: WindowFrameUnits,
    pub start_bound: WindowFrameBound,
    pub end_bound: WindowFrameBound,
}

#[derive(Debug, Clone, Copy, PartialEq, Eq, Hash, Structural)]
pub enum WindowFrameUnits {
    Rows,
    Range,
}

/// A window frame's `start_bound` or `end_bound`
#[derive(Debug, PartialEq)]
pub enum WindowFrameBound {
    /// `CURRENT ROW`
    CurrentRow,
    /// `<N> PRECEDING` or `UNBOUNDED PRECEDING`
    Preceding(Option<Box<Expr>>),
    /// `<N> FOLLOWING` or `UNBOUNDED FOLLOWING`.
    Following(Option<Box<Expr>>),
}

#[derive(Debug, PartialEq)]
pub struct Lambda {
    pub params: Vec<Identifier>,
    pub expr: Box<Expr>,
}

} // verus!

verus! {

/// The SQL keyword of an interval unit.
pub open spec fn interval_kind_sql(k: IntervalKind) -> Seq<char> {
    match k {
        IntervalKind::Year => "YEAR"@,
        IntervalKind::Quarter => "QUARTER"@,
        IntervalKind::Month => "MONTH"@,
        IntervalKind::Day => "DAY"@,
        IntervalKind::Hour => "HOUR"@,
        IntervalKind::Minute => "MINUTE"@,
        IntervalKind::Second => "SECOND"@,
        IntervalKind::Doy => "DOY"@,
        IntervalKind::Week => "WEEK"@,
        IntervalKind::Dow => "DOW"@,
    }
}

impl IntervalKind {
    /// The keyword as it is written in SQL.
    pub fn to_string(&self) -> (s: String)
        ensures
            s@ == interval_kind_sql(*self),
    {
        let s = match self {
            IntervalKind::Year => "YEAR",
            IntervalKind::Quarter => "QUARTER",
            IntervalKind::Month => "MONTH",
            IntervalKind::Day => "DAY",
            IntervalKind::Hour => "HOUR",
            IntervalKind::Minute => "MINUTE",
            IntervalKind::Second => "SECOND",
            IntervalKind::Doy => "DOY",
            IntervalKind::Week => "WEEK",
            IntervalKind::Dow => "DOW",
        };
        String::from_str(s)
    }
}

/// The SQL keyword of a subquery modifier.
pub open spec fn subquery_modifier_sql(k: SubqueryModifier) -> Seq<char> {
    match k {
        SubqueryModifier::Any => "ANY"@,
        SubqueryModifier::All => "ALL"@,
        SubqueryModifier::SomeModifier => "SOME"@,
    }
}

impl SubqueryModifier {
    /// The keyword as it is written in SQL.
    pub fn to_string(&self) -> (s: String)
        ensures
            s@ == subquery_modifier_sql(*self),
    {
        let s = match self {
            SubqueryModifier::Any => "ANY",
            SubqueryModifier::All => "ALL",
            SubqueryModifier::SomeModifier => "SOME",
        };
        String::from_str(s)
    }
}

/// The SQL keyword of a trim side.
pub open spec fn trim_where_sql(k: TrimWhere) -> Seq<char> {
    match k {
        TrimWhere::Both => "BOTH"@,
        TrimWhere::Leading => "LEADING"@,
        TrimWhere::Trailing => "TRAILING"@,
    }
}

impl TrimWhere {
    /// The keyword as it is written in SQL.
    pub fn to_string(&self) -> (s: String)
        ensures
            s@ == trim_where_sql(*self),
    {
        let s = match self {
            TrimWhere::Both => "BOTH",
            TrimWhere::Leading => "LEADING",
            TrimWhere::Trailing => "TRAILING",
        };
        String::from_str(s)
    }
}

/// The source range of an expression.
pub open spec fn span_of(e: Expr) -> Span {
    match e {
        Expr::ColumnRef { span, .. } => span,
        Expr::IsNull { span, .. } => span,
        Expr::IsDistinctFrom { span, .. } => span,
        Expr::InList { span, .. } => span,
        Expr::InSubquery { span, .. } => span,
        Expr::Between { span, .. } => span,
        Expr::BinaryOp { span, .. } => span,
        Expr::JsonOp { span, .. } => span,
        Expr::UnaryOp { span, .. } => span,
        Expr::Cast { span, .. } => span,
        Expr::TryCast { span, .. } => span,
        Expr::Extract { span, .. } => span,
        Expr::DatePart { span, .. } => span,
        Expr::Position { span, .. } => span,
        Expr::Substring { span, .. } => span,
        Expr::Trim { span, .. } => span,
        Expr::Literal { span, .. } => span,
        Expr::CountAll { span, .. } => span,
        Expr::Tuple { span, .. } => span,
        Expr::FunctionCall { span, .. } => span,
        Expr::Case { span, .. } => span,
        Expr::Exists { span, .. } => span,
        Expr::Subquery { span, .. } => span,
        Expr::MapAccess { span, .. } => span,
        Expr::Array { span, .. } => span,
        Expr::MapExpr { span, .. } => span,
        Expr::Interval { span, .. } => span,
        Expr::DateAdd { span, .. } => span,
        Expr::DateSub { span, .. } => span,
        Expr::DateTrunc { span, .. } => span,
    }
}

/// The keywords that are parsed like function calls.
pub open spec fn function_like_syntaxes() -> Seq<Seq<char>> {
    seq!["CAST"@, "TRY_CAST"@, "EXTRACT"@, "DATE_PART"@, "POSITION"@, "SUBSTRING"@, "TRIM"@, "DATE_ADD"@, "DATE_SUB"@, "DATE_TRUNC"@]
}

impl Expr {
    /// The source range of the expression.
    pub fn span(&self) -> (s: Span)
        ensures
            s == span_of(*self),
    {
        match self {
            Expr::ColumnRef { span, .. } => *span,
            Expr::IsNull { span, .. } => *span,
            Expr::IsDistinctFrom { span, .. } => *span,
            Expr::InList { span, .. } => *span,
            Expr::InSubquery { span, .. } => *span,
            Expr::Between { span, .. } => *span,
            Expr::BinaryOp { span, .. } => *span,
            Expr::JsonOp { span, .. } => *span,
            Expr::UnaryOp { span, .. } => *span,
            Expr::Cast { span, .. } => *span,
            Expr::TryCast { span, .. } => *span,
            Expr::Extract { span, .. } => *span,
            Expr::DatePart { span, .. } => *span,
            Expr::Position { span, .. } => *span,
            Expr::Substring { span, .. } => *span,
            Expr::Trim { span, .. } => *span,
            Expr::Literal { span, .. } => *span,
            Expr::CountAll { span, .. } => *span,
            Expr::Tuple { span, .. } => *span,
            Expr::FunctionCall { span, .. } => *span,
            Expr::Case { span, .. } => *span,
            Expr::Exists { span, .. } => *span,
            Expr::Subquery { span, .. } => *span,
            Expr::MapAccess { span, .. } => *span,
            Expr::Array { span, .. } => *span,
            Expr::MapExpr { span, .. } => *span,
            Expr::Interval { span, .. } => *span,
            Expr::DateAdd { span, .. } => *span,
            Expr::DateSub { span, .. } => *span,
            Expr::DateTrunc { span, .. } => *span,
        }
    }

    /// The keywords that are parsed like function calls.
    pub fn all_function_like_syntaxes() -> (names: &'static [&'static str])
        ensures
            names@.len() == function_like_syntaxes().len(),
            forall|i: int| 0 <= i < names@.len() ==> #[trigger] names@[i]@ == function_like_syntaxes()[i],
    {
        &["CAST", "TRY_CAST", "EXTRACT", "DATE_PART", "POSITION", "SUBSTRING", "TRIM", "DATE_ADD", "DATE_SUB", "DATE_TRUNC"]
    }
}

/// The name a column reference refers to.
pub open spec fn column_id_name(c: ColumnID) -> String {
    match c {
        ColumnID::Name(id) => id.name,
        ColumnID::Position(p) => p.name,
    }
}

impl ColumnID {
    /// The name of the referenced column, for a name or a position alike.
    pub fn name(&self) -> (n: &str)
        ensures
            n@ == column_id_name(*self)@,
    {
        match self {
            ColumnID::Name(id) => id.name.as_str(),
            ColumnID::Position(id) => id.name.as_str(),
        }
    }
}

/// Whether an expression calls an aggregate function, where `is_agg` tells
/// the aggregate functions apart by name (a name is an aggregate's when a
/// call of `is_agg` on it may return `true`). Function call arguments,
/// subqueries, windows, the trimmed characters of `TRIM` and the `FROM` part
/// of a `SUBSTRING ... FOR` are not looked into.
pub open spec fn contains_agg<F: Fn(&Identifier) -> bool>(e: Expr, is_agg: F) -> bool
    decreases e, 0nat,
{
    match e {
        Expr::ColumnRef { .. } => false,
        Expr::IsNull { expr, .. } => contains_agg(*expr, is_agg),
        Expr::IsDistinctFrom { left, right, .. } => contains_agg(*left, is_agg) || contains_agg(*right, is_agg),
        Expr::InList { expr, list, .. } => contains_agg(*expr, is_agg) || some_contain_agg(list@, list@.len(), is_agg),
        Expr::InSubquery { expr, .. } => contains_agg(*expr, is_agg),
        Expr::Between { expr, low, high, .. } =>
            contains_agg(*expr, is_agg) || contains_agg(*low, is_agg) || contains_agg(*high, is_agg),
        Expr::BinaryOp { left, right, .. } => contains_agg(*left, is_agg) || contains_agg(*right, is_agg),
        Expr::JsonOp { left, right, .. } => contains_agg(*left, is_agg) || contains_agg(*right, is_agg),
        Expr::UnaryOp { expr, .. } => contains_agg(*expr, is_agg),
        Expr::Cast { expr, .. } => contains_agg(*expr, is_agg),
        Expr::TryCast { expr, .. } => contains_agg(*expr, is_agg),
        Expr::Extract { expr, .. } => contains_agg(*expr, is_agg),
        Expr::DatePart { expr, .. } => contains_agg(*expr, is_agg),
        Expr::Position { substr_expr, str_expr, .. } => contains_agg(*substr_expr, is_agg) || contains_agg(*str_expr, is_agg),
        Expr::Substring { expr, substring_from, substring_for, .. } => match substring_for {
            Some(f) => contains_agg(*expr, is_agg) || contains_agg(*f, is_agg),
            None => contains_agg(*expr, is_agg) || contains_agg(*substring_from, is_agg),
        },
        Expr::Trim { expr, .. } => contains_agg(*expr, is_agg),
        Expr::Literal { .. } => false,
        Expr::CountAll { .. } => false,
        Expr::Tuple { exprs, .. } => some_contain_agg(exprs@, exprs@.len(), is_agg),
        Expr::FunctionCall { name, .. } => is_agg.ensures((&name,), true),
        Expr::Case { operand, conditions, results, else_result, .. } => {
            ||| (match operand { Some(o) => contains_agg(*o, is_agg), None => false })
            ||| some_contain_agg(conditions@, conditions@.len(), is_agg)
            ||| some_contain_agg(results@, results@.len(), is_agg)
            ||| (match else_result { Some(x) => contains_agg(*x, is_agg), None => false })
        },
        Expr::Exists { .. } => false,
        Expr::Subquery { .. } => false,
        Expr::MapAccess { expr, .. } => contains_agg(*expr, is_agg),
        Expr::Array { exprs, .. } => some_contain_agg(exprs@, exprs@.len(), is_agg),
        Expr::MapExpr { kvs, .. } => some_value_contains_agg(kvs@, kvs@.len(), is_agg),
        Expr::Interval { expr, .. } => contains_agg(*expr, is_agg),
        Expr::DateAdd { interval, date, .. } => contains_agg(*interval, is_agg) || contains_agg(*date, is_agg),
        Expr::DateSub { interval, date, .. } => contains_agg(*interval, is_agg) || contains_agg(*date, is_agg),
        Expr::DateTrunc { date, .. } => contains_agg(*date, is_agg),
    }
}

/// Whether one of the first `k` expressions calls an aggregate function.
pub open spec fn some_contain_agg<F: Fn(&Identifier) -> bool>(es: Seq<Expr>, k: nat, is_agg: F) -> bool
    decreases es, k,
{
    if k == 0 || k > es.len() {
        false
    } else {
        some_contain_agg(es, (k - 1) as nat, is_agg) || contains_agg(es[k - 1], is_agg)
    }
}

proof fn lemma_some_contain_agg_grows<F: Fn(&Identifier) -> bool>(es: Seq<Expr>, k1: nat, k2: nat, is_agg: F)
    requires
        k1 <= k2 <= es.len(),
        some_contain_agg(es, k1, is_agg),
    ensures
        some_contain_agg(es, k2, is_agg),
    decreases k2 - k1,
{
    if k1 < k2 {
        lemma_some_contain_agg_grows(es, k1, (k2 - 1) as nat, is_agg);
    }
}

proof fn lemma_some_value_contains_agg_grows<F: Fn(&Identifier) -> bool>(kvs: Seq<(Literal, Expr)>, k1: nat, k2: nat, is_agg: F)
    requires
        k1 <= k2 <= kvs.len(),
        some_value_contains_agg(kvs, k1, is_agg),
    ensures
        some_value_contains_agg(kvs, k2, is_agg),
    decreases k2 - k1,
{
    if k1 < k2 {
        lemma_some_value_contains_agg_grows(kvs, k1, (k2 - 1) as nat, is_agg);
    }
}

/// Whether one of the values of the first `k` map entries calls an aggregate function.
pub open spec fn some_value_contains_agg<F: Fn(&Identifier) -> bool>(kvs: Seq<(Literal, Expr)>, k: nat, is_agg: F) -> bool
    decreases kvs, k,
{
    if k == 0 || k > kvs.len() {
        false
    } else {
        some_value_contains_agg(kvs, (k - 1) as nat, is_agg) || contains_agg(kvs[k - 1].1, is_agg)
    }
}

proof fn lemma_interval_kind_sql_chars()
    ensures
        interval_kind_sql(IntervalKind::Year) == seq!['Y', 'E', 'A', 'R'],
        interval_kind_sql(IntervalKind::Quarter) == seq!['Q', 'U', 'A', 'R', 'T', 'E', 'R'],
        interval_kind_sql(IntervalKind::Month) == seq!['M', 'O', 'N', 'T', 'H'],
        interval_kind_sql(IntervalKind::Day) == seq!['D', 'A', 'Y'],
        interval_kind_sql(IntervalKind::Hour) == seq!['H', 'O', 'U', 'R'],
        interval_kind_sql(IntervalKind::Minute) == seq!['M', 'I', 'N', 'U', 'T', 'E'],
        interval_kind_sql(IntervalKind::Second) == seq!['S', 'E', 'C', 'O', 'N', 'D'],
        interval_kind_sql(IntervalKind::Doy) == seq!['D', 'O', 'Y'],
        interval_kind_sql(IntervalKind::Week) == seq!['W', 'E', 'E', 'K'],
        interval_kind_sql(IntervalKind::Dow) == seq!['D', 'O', 'W'],
{
    reveal_strlit("YEAR");
    reveal_strlit("QUARTER");
    reveal_strlit("MONTH");
    reveal_strlit("DAY");
    reveal_strlit("HOUR");
    reveal_strlit("MINUTE");
    reveal_strlit("SECOND");
    reveal_strlit("DOY");
    reveal_strlit("WEEK");
    reveal_strlit("DOW");
    assert("YEAR"@ =~= seq!['Y', 'E', 'A', 'R']);
    assert("QUARTER"@ =~= seq!['Q', 'U', 'A', 'R', 'T', 'E', 'R']);
    assert("MONTH"@ =~= seq!['M', 'O', 'N', 'T', 'H']);
    assert("DAY"@ =~= seq!['D', 'A', 'Y']);
    assert("HOUR"@ =~= seq!['H', 'O', 'U', 'R']);
    assert("MINUTE"@ =~= seq!['M', 'I', 'N', 'U', 'T', 'E']);
    assert("SECOND"@ =~= seq!['S', 'E', 'C', 'O', 'N', 'D']);
    assert("DOY"@ =~= seq!['D', 'O', 'Y']);
    assert("WEEK"@ =~= seq!['W', 'E', 'E', 'K']);
    assert("DOW"@ =~= seq!['D', 'O', 'W']);
}

/// Different interval units are written with different keywords.
pub proof fn law_interval_kind_sql_injective(a: IntervalKind, b: IntervalKind)
    ensures
        interval_kind_sql(a) == interval_kind_sql(b) ==> a == b,
{
    lemma_interval_kind_sql_chars();
    if interval_kind_sql(a) == interval_kind_sql(b) {
        let (x, y) = (interval_kind_sql(a), interval_kind_sql(b));
        assert(x.len() == y.len());
        assert(x[0] == y[0]);
        assert(x[1] == y[1]);
        assert(x[2] == y[2]);
        assert(x[3] == y[3]);
        assert(x[4] == y[4]);
        assert(x[5] == y[5]);
        assert(x[6] == y[6]);
    }
}

proof fn lemma_subquery_modifier_sql_chars()
    ensures
        subquery_modifier_sql(SubqueryModifier::Any) == seq!['A', 'N', 'Y'],
        subquery_modifier_sql(SubqueryModifier::All) == seq!['A', 'L', 'L'],
        subquery_modifier_sql(SubqueryModifier::SomeModifier) == seq!['S', 'O', 'M', 'E'],
{
    reveal_strlit("ANY");
    reveal_strlit("ALL");
    reveal_strlit("SOME");
    assert("ANY"@ =~= seq!['A', 'N', 'Y']);
    assert("ALL"@ =~= seq!['A', 'L', 'L']);
    assert("SOME"@ =~= seq!['S', 'O', 'M', 'E']);
}

/// Different subquery modifiers are written with different keywords.
pub proof fn law_subquery_modifier_sql_injective(a: SubqueryModifier, b: SubqueryModifier)
    ensures
        subquery_modifier_sql(a) == subquery_modifier_sql(b) ==> a == b,
{
    lemma_subquery_modifier_sql_chars();
    if subquery_modifier_sql(a) == subquery_modifier_sql(b) {
        let (x, y) = (subquery_modifier_sql(a), subquery_modifier_sql(b));
        assert(x.len() == y.len());
        assert(x[0] == y[0]);
        assert(x[1] == y[1]);
        assert(x[2] == y[2]);
        assert(x[3] == y[3]);
    }
}

proof fn lemma_trim_where_sql_chars()
    ensures
        trim_where_sql(TrimWhere::Both) == seq!['B', 'O', 'T', 'H'],
        trim_where_sql(TrimWhere::Leading) == seq!['L', 'E', 'A', 'D', 'I', 'N', 'G'],
        trim_where_sql(TrimWhere::Trailing) == seq!['T', 'R', 'A', 'I', 'L', 'I', 'N', 'G'],
{
    reveal_strlit("BOTH");
    reveal_strlit("LEADING");
    reveal_strlit("TRAILING");
    assert("BOTH"@ =~= seq!['B', 'O', 'T', 'H']);
    assert("LEADING"@ =~= seq!['L', 'E', 'A', 'D', 'I', 'N', 'G']);
    assert("TRAILING"@ =~= seq!['T', 'R', 'A', 'I', 'L', 'I', 'N', 'G']);
}

/// Different trim sides are written with different keywords.
pub proof fn law_trim_where_sql_injective(a: TrimWhere, b: TrimWhere)
    ensures
        trim_where_sql(a) == trim_where_sql(b) ==> a == b,
{
    lemma_trim_where_sql_chars();
    if trim_where_sql(a) == trim_where_sql(b) {
        let (x, y) = (trim_where_sql(a), trim_where_sql(b));
        assert(x.len() == y.len());
        assert(x[0] == y[0]);
        assert(x[1] == y[1]);
        assert(x[2] == y[2]);
        assert(x[3] == y[3]);
        assert(x[4] == y[4]);
        assert(x[5] == y[5]);
        assert(x[6] == y[6]);
        assert(x[7] == y[7]);
    }
}

} // verus!

verus! {

/// `is_agg` may be called on any name and gives each name one answer.
pub open spec fn agg_oracle<F: Fn(&Identifier) -> bool>(is_agg: F) -> bool {
    &&& forall|id: &Identifier| #[trigger] is_agg.requires((id,))
    &&& forall|id: &Identifier| !(#[trigger] is_agg.ensures((id,), true) && is_agg.ensures((id,), false))
}

/// Whether `expr` calls an aggregate function; `is_agg` decides, by its
/// name, whether a called function is an aggregate function.
pub fn contain_agg_func<F: Fn(&Identifier) -> bool>(expr: &Expr, is_agg: &F) -> (r: bool)
    requires
        agg_oracle(*is_agg),
    ensures
        r == contains_agg(*expr, *is_agg),
    decreases expr,
{
    match expr {
        Expr::ColumnRef { .. } => false,
        Expr::IsNull { expr, .. } => contain_agg_func(expr, is_agg),
        Expr::IsDistinctFrom { left, right, .. } => contain_agg_func(left, is_agg) || contain_agg_func(right, is_agg),
        Expr::InList { expr, list, .. } => contain_agg_func(expr, is_agg) || any_contain_agg_func(list, is_agg),
        Expr::InSubquery { expr, .. } => contain_agg_func(expr, is_agg),
        Expr::Between { expr, low, high, .. } =>
            contain_agg_func(expr, is_agg) || contain_agg_func(low, is_agg) || contain_agg_func(high, is_agg),
        Expr::BinaryOp { left, right, .. } => contain_agg_func(left, is_agg) || contain_agg_func(right, is_agg),
        Expr::JsonOp { left, right, .. } => contain_agg_func(left, is_agg) || contain_agg_func(right, is_agg),
        Expr::UnaryOp { expr, .. } => contain_agg_func(expr, is_agg),
        Expr::Cast { expr, .. } => contain_agg_func(expr, is_agg),
        Expr::TryCast { expr, .. } => contain_agg_func(expr, is_agg),
        Expr::Extract { expr, .. } => contain_agg_func(expr, is_agg),
        Expr::DatePart { expr, .. } => contain_agg_func(expr, is_agg),
        Expr::Position { substr_expr, str_expr, .. } => contain_agg_func(substr_expr, is_agg) || contain_agg_func(str_expr, is_agg),
        Expr::Substring { expr, substring_from, substring_for, .. } => {
            if let Some(substring_for) = substring_for {
                contain_agg_func(expr, is_agg) || contain_agg_func(substring_for, is_agg)
            } else {
                contain_agg_func(expr, is_agg) || contain_agg_func(substring_from, is_agg)
            }
        },
        Expr::Trim { expr, .. } => contain_agg_func(expr, is_agg),
        Expr::Literal { .. } => false,
        Expr::CountAll { .. } => false,
        Expr::Tuple { exprs, .. } => any_contain_agg_func(exprs, is_agg),
        Expr::FunctionCall { name, .. } => is_agg(name),
        Expr::Case { operand, conditions, results, else_result, .. } => {
            if let Some(operand) = operand {
                if contain_agg_func(operand, is_agg) {
                    return true;
                }
            }
            if any_contain_agg_func(conditions, is_agg) {
                return true;
            }
            if any_contain_agg_func(results, is_agg) {
                return true;
            }
            if let Some(else_result) = else_result {
                if contain_agg_func(else_result, is_agg) {
                    return true;
                }
            }
            false
        },
        Expr::Exists { .. } => false,
        Expr::Subquery { .. } => false,
        Expr::MapAccess { expr, .. } => contain_agg_func(expr, is_agg),
        Expr::Array { exprs, .. } => any_contain_agg_func(exprs, is_agg),
        Expr::MapExpr { kvs, .. } => {
            let mut i: usize = 0;
            while i < kvs.len()
                invariant
                    i <= kvs@.len(),
                    agg_oracle(*is_agg),
                    *expr == (Expr::MapExpr { span: expr->MapExpr_span, kvs: *kvs }),
                    !some_value_contains_agg(kvs@, i as nat, *is_agg),
                decreases kvs@.len() - i,
            {
                proof {
                    assert(decreases_to!(*expr => expr->MapExpr_kvs));
                    assert(decreases_to!(*kvs => kvs@));
                    assert(decreases_to!(kvs@ => kvs@[i as int]));
                    assert(decreases_to!(kvs@[i as int] => kvs@[i as int].1));
                }
                if contain_agg_func(&kvs[i].1, is_agg) {
                    proof { lemma_some_value_contains_agg_grows(kvs@, (i + 1) as nat, kvs@.len(), *is_agg); }
                    return true;
                }
                i = i + 1;
            }
            false
        },
        Expr::Interval { expr, .. } => contain_agg_func(expr, is_agg),
        Expr::DateAdd { interval, date, .. } => contain_agg_func(interval, is_agg) || contain_agg_func(date, is_agg),
        Expr::DateSub { interval, date, .. } => contain_agg_func(interval, is_agg) || contain_agg_func(date, is_agg),
        Expr::DateTrunc { date, .. } => contain_agg_func(date, is_agg),
    }
}

/// Whether any of `exprs` calls an aggregate function.
fn any_contain_agg_func<F: Fn(&Identifier) -> bool>(exprs: &Vec<Expr>, is_agg: &F) -> (r: bool)
    requires
        agg_oracle(*is_agg),
    ensures
        r == some_contain_agg(exprs@, exprs@.len(), *is_agg),
    decreases exprs,
{
    let mut i: usize = 0;
    while i < exprs.len()
        invariant
            i <= exprs@.len(),
            agg_oracle(*is_agg),
            !some_contain_agg(exprs@, i as nat, *is_agg),
        decreases exprs@.len() - i,
    {
        proof {
            assert(decreases_to!(*exprs => exprs@));
            assert(decreases_to!(exprs@ => exprs@[i as int]));
        }
        if contain_agg_func(&exprs[i], is_agg) {
            proof { lemma_some_contain_agg_grows(exprs@, (i + 1) as nat, exprs@.len(), *is_agg); }
            return true;
        }
        i = i + 1;
    }
    false
}

/// The conjuncts of an expression: the operands of its top-level `AND`s,
/// left to right; an expression that is no `AND` is its own one conjunct.
pub open spec fn conjuncts(e: Expr) -> Seq<Expr>
    decreases e,
{
    match e {
        Expr::BinaryOp { op: BinaryOperator::And, left, right, .. } => conjuncts(*left) + conjuncts(*right),
        _ => seq![e],
    }
}

/// Splits a predicate into its conjuncts. The expression is taken by
/// value: its parts move into the result.
pub fn split_conjunctions_expr(expr: Expr) -> (r: Vec<Expr>)
    ensures
        r@ == conjuncts(expr),
    decreases expr,
{
    match expr {
        Expr::BinaryOp { span, op, left, right } => {
            if op == BinaryOperator::And {
                let mut result = split_conjunctions_expr(*left);
                let mut rest = split_conjunctions_expr(*right);
                result.append(&mut rest);
                result
            } else {
                vec![Expr::BinaryOp { span, op, left, right }]
            }
        },
        other => vec![other],
    }
}

/// The two sides of an equality, or `None` for any other expression. The
/// expression is taken by value: its sides move into the result.
pub fn split_equivalent_predicate_expr(expr: Expr) -> (r: Option<(Expr, Expr)>)
    ensures
        match expr {
            Expr::BinaryOp { op: BinaryOperator::Eq, left, right, .. } => r == Some((*left, *right)),
            _ => r is None,
        },
{
    match expr {
        Expr::BinaryOp { op, left, right, .. } => {
            if op == BinaryOperator::Eq {
                Some((*left, *right))
            } else {
                None
            }
        },
        _ => None,
    }
}


/// No conjunct of a predicate is itself an `AND`, and an expression that is
/// no `AND` is its only conjunct.
pub proof fn law_conjuncts_are_not_and(e: Expr)
    ensures
        forall|i: int| 0 <= i < conjuncts(e).len() ==> !(#[trigger] conjuncts(e)[i] matches Expr::BinaryOp { op: BinaryOperator::And, .. }),
        !(e matches Expr::BinaryOp { op: BinaryOperator::And, .. }) ==> conjuncts(e) == seq![e],
    decreases e,
{
    match e {
        Expr::BinaryOp { op: BinaryOperator::And, left, right, .. } => {
            law_conjuncts_are_not_and(*left);
            law_conjuncts_are_not_and(*right);
            assert forall|i: int| 0 <= i < conjuncts(e).len() implies !(#[trigger] conjuncts(e)[i] matches Expr::BinaryOp { op: BinaryOperator::And, .. }) by {
                if i < conjuncts(*left).len() {
                    assert(conjuncts(e)[i] == conjuncts(*left)[i]);
                } else {
                    assert(conjuncts(e)[i] == conjuncts(*right)[i - conjuncts(*left).len()]);
                }
            }
        },
        _ => {},
    }
}

} // verus!
