//! The SQL text of expressions, windows and lambdas.
//!
//! Identifiers, positional columns, `ORDER BY` items and the literals whose
//! text needs escaping or number formatting (strings, decimals, doubles)
//! are rendered by functions the caller supplies; everything around them is
//! laid out here.

use vstd::prelude::*;

use super::expr::{
    interval_kind_sql, subquery_modifier_sql, trim_where_sql, ColumnID, ColumnPosition, Expr, Identifier,
    Lambda, Literal, MapAccessor, OrderByExpr, Window, WindowDefinition, WindowFrameBound, WindowFrameUnits,
    WindowRef, WindowSpec,
};
use super::operators::{binary_sql, json_sql, law_binary_sql_injective, unary_sql, BinaryOperator, UnaryOperator};
use super::types::type_sql;
use crate::text::{decimal, u64_to_decimal};

verus! {

/// The functions that render the leaves of an expression.
pub struct Renderers<FI, FP, FO, FL> {
    pub identifier: FI,
    pub position: FP,
    pub order_by: FO,
    pub literal: FL,
}

/// `f` may be called on any value and gives each value one text.
pub open spec fn renders<T, F: Fn(&T) -> String>(f: F) -> bool {
    &&& forall|x: &T| #[trigger] f.requires((x,))
    &&& forall|x: &T, s1: String, s2: String|
        #[trigger] f.ensures((x,), s1) && #[trigger] f.ensures((x,), s2) ==> s1@ == s2@
}

/// The text `f` gives for `x`.
pub open spec fn rendered<T, F: Fn(&T) -> String>(f: F, x: &T) -> Seq<char> {
    (choose|s: String| f.ensures((x,), s))@
}

proof fn lemma_rendered<T, F: Fn(&T) -> String>(f: F, x: &T, s: String)
    requires
        renders(f),
        f.ensures((x,), s),
    ensures
        s@ == rendered(f, x),
{
    let c = choose|s: String| f.ensures((x,), s);
    assert(f.ensures((x,), c));
}

#[verifier::opaque]
pub open spec fn renderers_ok<
    FI: Fn(&Identifier) -> String,
    FP: Fn(&ColumnPosition) -> String,
    FO: Fn(&OrderByExpr) -> String,
    FL: Fn(&Literal) -> String,
>(r: Renderers<FI, FP, FO, FL>) -> bool {
    &&& renders(r.identifier)
    &&& renders(r.position)
    &&& renders(r.order_by)
    &&& renders(r.literal)
}

/// The text of a literal: numbers, booleans and `NULL` directly, the others
/// as the literal renderer gives them.
pub open spec fn literal_sql<
    FI: Fn(&Identifier) -> String,
    FP: Fn(&ColumnPosition) -> String,
    FO: Fn(&OrderByExpr) -> String,
    FL: Fn(&Literal) -> String,
>(r: Renderers<FI, FP, FO, FL>, l: Literal) -> Seq<char> {
    match l {
        Literal::UInt64(v) => decimal(v as nat),
        Literal::Boolean(b) => if b { "TRUE"@ } else { "FALSE"@ },
        Literal::Null => "NULL"@,
        _ => rendered(r.literal, &l),
    }
}

pub open spec fn ident_sql<
    FI: Fn(&Identifier) -> String,
    FP: Fn(&ColumnPosition) -> String,
    FO: Fn(&OrderByExpr) -> String,
    FL: Fn(&Literal) -> String,
>(r: Renderers<FI, FP, FO, FL>, id: Identifier) -> Seq<char> {
    rendered(r.identifier, &id)
}

pub open spec fn column_id_sql<
    FI: Fn(&Identifier) -> String,
    FP: Fn(&ColumnPosition) -> String,
    FO: Fn(&OrderByExpr) -> String,
    FL: Fn(&Literal) -> String,
>(r: Renderers<FI, FP, FO, FL>, c: ColumnID) -> Seq<char> {
    match c {
        ColumnID::Name(id) => ident_sql(r, id),
        ColumnID::Position(p) => rendered(r.position, &p),
    }
}

/// The first `k` identifiers, separated by `", "`.
pub open spec fn idents_sql<
    FI: Fn(&Identifier) -> String,
    FP: Fn(&ColumnPosition) -> String,
    FO: Fn(&OrderByExpr) -> String,
    FL: Fn(&Literal) -> String,
>(r: Renderers<FI, FP, FO, FL>, ids: Seq<Identifier>, k: nat) -> Seq<char>
    decreases k,
{
    if k == 0 || k > ids.len() {
        Seq::empty()
    } else if k == 1 {
        ident_sql(r, ids[0])
    } else {
        idents_sql(r, ids, (k - 1) as nat) + ", "@ + ident_sql(r, ids[k - 1])
    }
}

/// The first `k` `ORDER BY` items, separated by `", "`.
pub open spec fn order_bys_sql<
    FI: Fn(&Identifier) -> String,
    FP: Fn(&ColumnPosition) -> String,
    FO: Fn(&OrderByExpr) -> String,
    FL: Fn(&Literal) -> String,
>(r: Renderers<FI, FP, FO, FL>, items: Seq<OrderByExpr>, k: nat) -> Seq<char>
    decreases k,
{
    if k == 0 || k > items.len() {
        Seq::empty()
    } else if k == 1 {
        rendered(r.order_by, &items[0])
    } else {
        order_bys_sql(r, items, (k - 1) as nat) + ", "@ + rendered(r.order_by, &items[k - 1])
    }
}

/// `" NOT"` when `not` is set.
pub open spec fn not_sql(not: bool) -> Seq<char> {
    if not { " NOT"@ } else { Seq::empty() }
}

/// The SQL text of an expression.
pub open spec fn expr_sql<
    FI: Fn(&Identifier) -> String,
    FP: Fn(&ColumnPosition) -> String,
    FO: Fn(&OrderByExpr) -> String,
    FL: Fn(&Literal) -> String,
>(r: Renderers<FI, FP, FO, FL>, e: Expr) -> Seq<char>
    decreases e, 1nat, 0nat,
{
    match e {
        Expr::ColumnRef { database, table, column, .. } => {
            (match database { Some(d) => ident_sql(r, d), None => Seq::empty() })
                + (match table {
                    Some(t) => (if database is Some { "."@ } else { Seq::empty() }) + ident_sql(r, t) + "."@,
                    None => Seq::empty(),
                })
                + column_id_sql(r, column)
        },
        Expr::IsNull { expr, not, .. } => expr_sql(r, *expr) + " IS"@ + not_sql(not) + " NULL"@,
        Expr::IsDistinctFrom { left, right, not, .. } =>
            expr_sql(r, *left) + " IS"@ + not_sql(not) + " DISTINCT FROM "@ + expr_sql(r, *right),
        Expr::InList { expr, list, not, .. } =>
            expr_sql(r, *expr) + not_sql(not) + " IN("@ + exprs_sql(r, list@, list@.len()) + ")"@,
        Expr::InSubquery { expr, subquery, not, .. } =>
            expr_sql(r, *expr) + not_sql(not) + " IN("@ + subquery.text@ + ")"@,
        Expr::Between { expr, low, high, not, .. } =>
            expr_sql(r, *expr) + not_sql(not) + " BETWEEN "@ + expr_sql(r, *low) + " AND "@ + expr_sql(r, *high),
        Expr::UnaryOp { op, expr, .. } => match op {
            UnaryOperator::Factorial => "("@ + expr_sql(r, *expr) + " "@ + unary_sql(op) + ")"@,
            _ => "("@ + unary_sql(op) + " "@ + expr_sql(r, *expr) + ")"@,
        },
        Expr::BinaryOp { op, left, right, .. } =>
            "("@ + expr_sql(r, *left) + " "@ + binary_sql(op) + " "@ + expr_sql(r, *right) + ")"@,
        Expr::JsonOp { op, left, right, .. } =>
            "("@ + expr_sql(r, *left) + " "@ + json_sql(op) + " "@ + expr_sql(r, *right) + ")"@,
        Expr::Cast { expr, target_type, pg_style, .. } => if pg_style {
            expr_sql(r, *expr) + "::"@ + type_sql(target_type)
        } else {
            "CAST("@ + expr_sql(r, *expr) + " AS "@ + type_sql(target_type) + ")"@
        },
        Expr::TryCast { expr, target_type, .. } =>
            "TRY_CAST("@ + expr_sql(r, *expr) + " AS "@ + type_sql(target_type) + ")"@,
        Expr::Extract { kind, expr, .. } =>
            "EXTRACT("@ + interval_kind_sql(kind) + " FROM "@ + expr_sql(r, *expr) + ")"@,
        Expr::DatePart { kind, expr, .. } =>
            "DATE_PART("@ + interval_kind_sql(kind) + ", "@ + expr_sql(r, *expr) + ")"@,
        Expr::Position { substr_expr, str_expr, .. } =>
            "POSITION("@ + expr_sql(r, *substr_expr) + " IN "@ + expr_sql(r, *str_expr) + ")"@,
        Expr::Substring { expr, substring_from, substring_for, .. } =>
            "SUBSTRING("@ + expr_sql(r, *expr) + " FROM "@ + expr_sql(r, *substring_from)
                + (match substring_for { Some(f) => " FOR "@ + expr_sql(r, *f), None => Seq::empty() }) + ")"@,
        Expr::Trim { expr, trim_where, .. } =>
            "TRIM("@ + (match trim_where {
                Some((w, s)) => trim_where_sql(w) + " "@ + expr_sql(r, *s) + " FROM "@,
                None => Seq::empty(),
            }) + expr_sql(r, *expr) + ")"@,
        Expr::Literal { lit, .. } => literal_sql(r, lit),
        Expr::CountAll { window, .. } =>
            "COUNT(*)"@ + (match window { Some(w) => " OVER ("@ + window_sql(r, w) + ")"@, None => Seq::empty() }),
        Expr::Tuple { exprs, .. } =>
            "("@ + exprs_sql(r, exprs@, exprs@.len()) + (if exprs@.len() == 1 { ","@ } else { Seq::empty() }) + ")"@,
        Expr::FunctionCall { distinct, name, args, params, window, lambda, .. } =>
            ident_sql(r, name)
                + (if params@.len() > 0 { "("@ + exprs_sql(r, params@, params@.len()) + ")"@ } else { Seq::empty() })
                + "("@ + (if distinct { "DISTINCT "@ } else { Seq::empty() }) + exprs_sql(r, args@, args@.len())
                + (match lambda { Some(l) => ", "@ + lambda_sql(r, l), None => Seq::empty() }) + ")"@
                + (match window { Some(w) => " OVER ("@ + window_sql(r, w) + ")"@, None => Seq::empty() }),
        Expr::Case { operand, conditions, results, else_result, .. } => {
            let n = if conditions@.len() < results@.len() { conditions@.len() } else { results@.len() };
            "CASE"@ + (match operand { Some(o) => " "@ + expr_sql(r, *o) + " "@, None => Seq::empty() })
                + whens_sql(r, e, n)
                + (match else_result { Some(x) => " ELSE "@ + expr_sql(r, *x), None => Seq::empty() }) + " END"@
        },
        Expr::Exists { not, subquery, .. } =>
            (if not { "NOT "@ } else { Seq::empty() }) + "EXISTS ("@ + subquery.text@ + ")"@,
        Expr::Subquery { modifier, subquery, .. } =>
            (match modifier { Some(m) => subquery_modifier_sql(m) + " "@, None => Seq::empty() })
                + "("@ + subquery.text@ + ")"@,
        Expr::MapAccess { expr, accessor, .. } => expr_sql(r, *expr) + match accessor {
            MapAccessor::Bracket { key } => "["@ + expr_sql(r, *key) + "]"@,
            MapAccessor::DotNumber { key } => "."@ + decimal(key as nat),
            MapAccessor::Colon { key } => ":"@ + ident_sql(r, key),
        },
        Expr::Array { exprs, .. } => "["@ + exprs_sql(r, exprs@, exprs@.len()) + "]"@,
        Expr::MapExpr { kvs, .. } => "{"@ + kvs_sql(r, kvs@, kvs@.len()) + "}"@,
        Expr::Interval { expr, unit, .. } => "INTERVAL "@ + expr_sql(r, *expr) + " "@ + interval_kind_sql(unit),
        Expr::DateAdd { unit, interval, date, .. } =>
            "DATE_ADD("@ + interval_kind_sql(unit) + ", "@ + expr_sql(r, *interval) + ", "@ + expr_sql(r, *date) + ")"@,
        Expr::DateSub { unit, interval, date, .. } =>
            "DATE_SUB("@ + interval_kind_sql(unit) + ", "@ + expr_sql(r, *interval) + ", "@ + expr_sql(r, *date) + ")"@,
        Expr::DateTrunc { unit, date, .. } =>
            "DATE_TRUNC("@ + interval_kind_sql(unit) + ", "@ + expr_sql(r, *date) + ")"@,
    }
}

/// The first `k` expressions, separated by `", "`.
pub open spec fn exprs_sql<
    FI: Fn(&Identifier) -> String,
    FP: Fn(&ColumnPosition) -> String,
    FO: Fn(&OrderByExpr) -> String,
    FL: Fn(&Literal) -> String,
>(r: Renderers<FI, FP, FO, FL>, es: Seq<Expr>, k: nat) -> Seq<char>
    decreases es, 0nat, k,
{
    if k == 0 || k > es.len() {
        Seq::empty()
    } else if k == 1 {
        expr_sql(r, es[0])
    } else {
        exprs_sql(r, es, (k - 1) as nat) + ", "@ + expr_sql(r, es[k - 1])
    }
}

/// The first `k` entries of a map constructor, `key:value`, separated by `","`.
pub open spec fn kvs_sql<
    FI: Fn(&Identifier) -> String,
    FP: Fn(&ColumnPosition) -> String,
    FO: Fn(&OrderByExpr) -> String,
    FL: Fn(&Literal) -> String,
>(r: Renderers<FI, FP, FO, FL>, kvs: Seq<(Literal, Expr)>, k: nat) -> Seq<char>
    decreases kvs, 0nat, k,
{
    if k == 0 || k > kvs.len() {
        Seq::empty()
    } else {
        kvs_sql(r, kvs, (k - 1) as nat) + (if k > 1 { ","@ } else { Seq::empty() })
            + literal_sql(r, kvs[k - 1].0) + ":"@ + expr_sql(r, kvs[k - 1].1)
    }
}

/// The first `k` branches of a `CASE` expression, ` WHEN cond THEN result`.
pub open spec fn whens_sql<
    FI: Fn(&Identifier) -> String,
    FP: Fn(&ColumnPosition) -> String,
    FO: Fn(&OrderByExpr) -> String,
    FL: Fn(&Literal) -> String,
>(r: Renderers<FI, FP, FO, FL>, e: Expr, k: nat) -> Seq<char>
    decreases e, 0nat, k,
{
    match e {
        Expr::Case { conditions, results, .. } => if k == 0 || k > conditions@.len() || k > results@.len() {
            Seq::empty()
        } else {
            whens_sql(r, e, (k - 1) as nat) + " WHEN "@ + expr_sql(r, conditions@[k - 1]) + " THEN "@
                + expr_sql(r, results@[k - 1])
        },
        _ => Seq::empty(),
    }
}

pub open spec fn frame_bound_sql<
    FI: Fn(&Identifier) -> String,
    FP: Fn(&ColumnPosition) -> String,
    FO: Fn(&OrderByExpr) -> String,
    FL: Fn(&Literal) -> String,
>(r: Renderers<FI, FP, FO, FL>, b: WindowFrameBound) -> Seq<char>
    decreases b, 0nat, 0nat,
{
    match b {
        WindowFrameBound::CurrentRow => "CURRENT ROW"@,
        WindowFrameBound::Preceding(None) => "UNBOUNDED PRECEDING"@,
        WindowFrameBound::Following(None) => "UNBOUNDED FOLLOWING"@,
        WindowFrameBound::Preceding(Some(n)) => expr_sql(r, *n) + " PRECEDING"@,
        WindowFrameBound::Following(Some(n)) => expr_sql(r, *n) + " FOLLOWING"@,
    }
}

/// A window specification: `PARTITION BY ...`, `ORDER BY ...` and the frame,
/// each when present, separated by spaces.
pub open spec fn window_spec_sql<
    FI: Fn(&Identifier) -> String,
    FP: Fn(&ColumnPosition) -> String,
    FO: Fn(&OrderByExpr) -> String,
    FL: Fn(&Literal) -> String,
>(r: Renderers<FI, FP, FO, FL>, s: WindowSpec) -> Seq<char>
    decreases s, 0nat, 0nat,
{
    let has_partition = s.partition_by@.len() > 0;
    let has_order = s.order_by@.len() > 0;
    (if has_partition {
        "PARTITION BY "@ + exprs_sql(r, s.partition_by@, s.partition_by@.len())
    } else {
        Seq::empty()
    }) + (if has_order {
        (if has_partition { " "@ } else { Seq::empty() }) + "ORDER BY "@
            + order_bys_sql(r, s.order_by@, s.order_by@.len())
    } else {
        Seq::empty()
    }) + (match s.window_frame {
        Some(frame) => (if has_partition || has_order { " "@ } else { Seq::empty() })
            + (match frame.units { WindowFrameUnits::Rows => "ROWS"@, WindowFrameUnits::Range => "RANGE"@ })
            + " BETWEEN "@ + frame_bound_sql(r, frame.start_bound) + " AND "@ + frame_bound_sql(r, frame.end_bound),
        None => Seq::empty(),
    })
}

pub open spec fn window_sql<
    FI: Fn(&Identifier) -> String,
    FP: Fn(&ColumnPosition) -> String,
    FO: Fn(&OrderByExpr) -> String,
    FL: Fn(&Literal) -> String,
>(r: Renderers<FI, FP, FO, FL>, w: Window) -> Seq<char>
    decreases w, 0nat, 0nat,
{
    match w {
        Window::WindowReference(wr) => "WINDOW "@ + ident_sql(r, wr.window_name),
        Window::WindowSpec(s) => window_spec_sql(r, s),
    }
}

/// A lambda: its one parameter, or its parameters in parentheses, then
/// `->` and the body.
pub open spec fn lambda_sql<
    FI: Fn(&Identifier) -> String,
    FP: Fn(&ColumnPosition) -> String,
    FO: Fn(&OrderByExpr) -> String,
    FL: Fn(&Literal) -> String,
>(r: Renderers<FI, FP, FO, FL>, l: Lambda) -> Seq<char>
    decreases l, 0nat, 0nat,
{
    (if l.params@.len() == 1 {
        ident_sql(r, l.params@[0])
    } else {
        "("@ + idents_sql(r, l.params@, l.params@.len()) + ")"@
    }) + " -> "@ + expr_sql(r, *l.expr)
}

fn ident_text<FI: Fn(&Identifier) -> String, FP: Fn(&ColumnPosition) -> String, FO: Fn(&OrderByExpr) -> String, FL: Fn(&Literal) -> String>(id: &Identifier, r: &Renderers<FI, FP, FO, FL>) -> (s: String)
    requires
        renderers_ok(*r),
    ensures
        s@ == ident_sql(*r, *id),
{
    proof {
        reveal(renderers_ok);
    }
    let s = (r.identifier)(id);
    proof {
        lemma_rendered(r.identifier, id, s);
    }
    s
}

fn literal_text<FI: Fn(&Identifier) -> String, FP: Fn(&ColumnPosition) -> String, FO: Fn(&OrderByExpr) -> String, FL: Fn(&Literal) -> String>(l: &Literal, r: &Renderers<FI, FP, FO, FL>) -> (s: String)
    requires
        renderers_ok(*r),
    ensures
        s@ == literal_sql(*r, *l),
{
    proof {
        reveal(renderers_ok);
    }
    match l {
        Literal::UInt64(v) => u64_to_decimal(*v),
        Literal::Boolean(b) => if *b { String::from_str("TRUE") } else { String::from_str("FALSE") },
        Literal::Null => String::from_str("NULL"),
        _ => {
            let s = (r.literal)(l);
            proof {
                lemma_rendered(r.literal, l, s);
            }
            s
        },
    }
}

fn column_id_text<FI: Fn(&Identifier) -> String, FP: Fn(&ColumnPosition) -> String, FO: Fn(&OrderByExpr) -> String, FL: Fn(&Literal) -> String>(c: &ColumnID, r: &Renderers<FI, FP, FO, FL>) -> (s: String)
    requires
        renderers_ok(*r),
    ensures
        s@ == column_id_sql(*r, *c),
{
    proof {
        reveal(renderers_ok);
    }
    match c {
        ColumnID::Name(id) => ident_text(id, r),
        ColumnID::Position(p) => {
            let s = (r.position)(p);
            proof {
                lemma_rendered(r.position, p, s);
            }
            s
        },
    }
}

fn idents_text<FI: Fn(&Identifier) -> String, FP: Fn(&ColumnPosition) -> String, FO: Fn(&OrderByExpr) -> String, FL: Fn(&Literal) -> String>(ids: &Vec<Identifier>, r: &Renderers<FI, FP, FO, FL>) -> (s: String)
    requires
        renderers_ok(*r),
    ensures
        s@ == idents_sql(*r, ids@, ids@.len()),
{
    let mut acc = String::new();
    let mut i: usize = 0;
    while i < ids.len()
        invariant
            i <= ids@.len(),
            renderers_ok(*r),
            acc@ == idents_sql(*r, ids@, i as nat),
        decreases ids@.len() - i,
    {
        let item = ident_text(&ids[i], r);
        if i == 0 {
            acc = item;
        } else {
            acc = acc.concat(", ").concat(item.as_str());
        }
        i = i + 1;
    }
    acc
}

fn order_bys_text<FI: Fn(&Identifier) -> String, FP: Fn(&ColumnPosition) -> String, FO: Fn(&OrderByExpr) -> String, FL: Fn(&Literal) -> String>(items: &Vec<OrderByExpr>, r: &Renderers<FI, FP, FO, FL>) -> (s: String)
    requires
        renderers_ok(*r),
    ensures
        s@ == order_bys_sql(*r, items@, items@.len()),
{
    let mut acc = String::new();
    let mut i: usize = 0;
    while i < items.len()
        invariant
            i <= items@.len(),
            renderers_ok(*r),
            acc@ == order_bys_sql(*r, items@, i as nat),
        decreases items@.len() - i,
    {
        proof {
            reveal(renderers_ok);
        }
        let item = (r.order_by)(&items[i]);
        proof {
            lemma_rendered(r.order_by, &items@[i as int], item);
        }
        if i == 0 {
            acc = item;
        } else {
            acc = acc.concat(", ").concat(item.as_str());
        }
        i = i + 1;
    }
    acc
}

fn not_text(not: bool) -> (s: String)
    ensures
        s@ == not_sql(not),
{
    if not { String::from_str(" NOT") } else { String::new() }
}

fn exprs_text<FI: Fn(&Identifier) -> String, FP: Fn(&ColumnPosition) -> String, FO: Fn(&OrderByExpr) -> String, FL: Fn(&Literal) -> String>(es: &Vec<Expr>, r: &Renderers<FI, FP, FO, FL>) -> (s: String)
    requires
        renderers_ok(*r),
    ensures
        s@ == exprs_sql(*r, es@, es@.len()),
    decreases es, 0nat, 0nat,
{
    let mut acc = String::new();
    let mut i: usize = 0;
    while i < es.len()
        invariant
            i <= es@.len(),
            renderers_ok(*r),
            acc@ == exprs_sql(*r, es@, i as nat),
        decreases es@.len() - i,
    {
        proof {
            assert(decreases_to!(*es => es@));
            assert(decreases_to!(es@ => es@[i as int]));
        }
        let item = expr_text(&es[i], r);
        if i == 0 {
            acc = item;
        } else {
            acc = acc.concat(", ").concat(item.as_str());
        }
        i = i + 1;
    }
    acc
}

fn kvs_text<FI: Fn(&Identifier) -> String, FP: Fn(&ColumnPosition) -> String, FO: Fn(&OrderByExpr) -> String, FL: Fn(&Literal) -> String>(kvs: &Vec<(Literal, Expr)>, r: &Renderers<FI, FP, FO, FL>) -> (s: String)
    requires
        renderers_ok(*r),
    ensures
        s@ == kvs_sql(*r, kvs@, kvs@.len()),
    decreases kvs, 0nat, 0nat,
{
    let mut acc = String::new();
    let mut i: usize = 0;
    while i < kvs.len()
        invariant
            i <= kvs@.len(),
            renderers_ok(*r),
            acc@ == kvs_sql(*r, kvs@, i as nat),
        decreases kvs@.len() - i,
    {
        proof {
            assert(decreases_to!(*kvs => kvs@));
            assert(decreases_to!(kvs@ => kvs@[i as int]));
            assert(decreases_to!(kvs@[i as int] => kvs@[i as int].1));
        }
        let key = literal_text(&kvs[i].0, r);
        let value = expr_text(&kvs[i].1, r);
        let sep = if i > 0 { String::from_str(",") } else { String::new() };
        proof {
            assert(sep@ == (if i + 1 > 1 { ","@ } else { Seq::<char>::empty() }));
        }
        acc = acc.concat(sep.as_str()).concat(key.as_str()).concat(":").concat(value.as_str());
        i = i + 1;
    }
    acc
}

fn frame_bound_text<FI: Fn(&Identifier) -> String, FP: Fn(&ColumnPosition) -> String, FO: Fn(&OrderByExpr) -> String, FL: Fn(&Literal) -> String>(b: &WindowFrameBound, r: &Renderers<FI, FP, FO, FL>) -> (s: String)
    requires
        renderers_ok(*r),
    ensures
        s@ == frame_bound_sql(*r, *b),
    decreases b, 0nat, 0nat,
{
    match b {
        WindowFrameBound::CurrentRow => String::from_str("CURRENT ROW"),
        WindowFrameBound::Preceding(None) => String::from_str("UNBOUNDED PRECEDING"),
        WindowFrameBound::Following(None) => String::from_str("UNBOUNDED FOLLOWING"),
        WindowFrameBound::Preceding(Some(n)) => expr_text(n, r).concat(" PRECEDING"),
        WindowFrameBound::Following(Some(n)) => expr_text(n, r).concat(" FOLLOWING"),
    }
}

fn window_spec_text<FI: Fn(&Identifier) -> String, FP: Fn(&ColumnPosition) -> String, FO: Fn(&OrderByExpr) -> String, FL: Fn(&Literal) -> String>(s: &WindowSpec, r: &Renderers<FI, FP, FO, FL>) -> (t: String)
    requires
        renderers_ok(*r),
    ensures
        t@ == window_spec_sql(*r, *s),
    decreases s, 0nat, 0nat,
{
    let has_partition = s.partition_by.len() > 0;
    let has_order = s.order_by.len() > 0;
    let partition = if has_partition {
        String::from_str("PARTITION BY ").concat(exprs_text(&s.partition_by, r).as_str())
    } else {
        String::new()
    };
    let order = if has_order {
        let sep = if has_partition { String::from_str(" ") } else { String::new() };
        sep.concat("ORDER BY ").concat(order_bys_text(&s.order_by, r).as_str())
    } else {
        String::new()
    };
    let frame = match &s.window_frame {
        Some(f) => {
            let sep = if has_partition || has_order { String::from_str(" ") } else { String::new() };
            let units = match f.units {
                WindowFrameUnits::Rows => String::from_str("ROWS"),
                WindowFrameUnits::Range => String::from_str("RANGE"),
            };
            let start = frame_bound_text(&f.start_bound, r);
            let end = frame_bound_text(&f.end_bound, r);
            sep.concat(units.as_str()).concat(" BETWEEN ").concat(start.as_str()).concat(" AND ").concat(end.as_str())
        },
        None => String::new(),
    };
    partition.concat(order.as_str()).concat(frame.as_str())
}

fn window_text<FI: Fn(&Identifier) -> String, FP: Fn(&ColumnPosition) -> String, FO: Fn(&OrderByExpr) -> String, FL: Fn(&Literal) -> String>(w: &Window, r: &Renderers<FI, FP, FO, FL>) -> (s: String)
    requires
        renderers_ok(*r),
    ensures
        s@ == window_sql(*r, *w),
    decreases w, 0nat, 0nat,
{
    match w {
        Window::WindowReference(wr) => String::from_str("WINDOW ").concat(ident_text(&wr.window_name, r).as_str()),
        Window::WindowSpec(s) => window_spec_text(s, r),
    }
}

fn lambda_text<FI: Fn(&Identifier) -> String, FP: Fn(&ColumnPosition) -> String, FO: Fn(&OrderByExpr) -> String, FL: Fn(&Literal) -> String>(l: &Lambda, r: &Renderers<FI, FP, FO, FL>) -> (s: String)
    requires
        renderers_ok(*r),
    ensures
        s@ == lambda_sql(*r, *l),
    decreases l, 0nat, 0nat,
{
    let params = if l.params.len() == 1 {
        ident_text(&l.params[0], r)
    } else {
        String::from_str("(").concat(idents_text(&l.params, r).as_str()).concat(")")
    };
    params.concat(" -> ").concat(expr_text(&l.expr, r).as_str())
}

fn window_clause_text<FI: Fn(&Identifier) -> String, FP: Fn(&ColumnPosition) -> String, FO: Fn(&OrderByExpr) -> String, FL: Fn(&Literal) -> String>(window: &Option<Window>, r: &Renderers<FI, FP, FO, FL>) -> (s: String)
    requires
        renderers_ok(*r),
    ensures
        s@ == (match *window { Some(w) => " OVER ("@ + window_sql(*r, w) + ")"@, None => Seq::empty() }),
    decreases window, 0nat, 0nat,
{
    match window {
        Some(w) => String::from_str(" OVER (").concat(window_text(w, r).as_str()).concat(")"),
        None => String::new(),
    }
}

#[verifier::rlimit(50)]
fn expr_text<FI: Fn(&Identifier) -> String, FP: Fn(&ColumnPosition) -> String, FO: Fn(&OrderByExpr) -> String, FL: Fn(&Literal) -> String>(e: &Expr, r: &Renderers<FI, FP, FO, FL>) -> (s: String)
    requires
        renderers_ok(*r),
    ensures
        s@ == expr_sql(*r, *e),
    decreases e, 1nat, 0nat,
{
    match e {
        Expr::ColumnRef { database, table, column, .. } => {
            let db = match database {
                Some(d) => ident_text(d, r),
                None => String::new(),
            };
            let tbl = match table {
                Some(t) => {
                    let sep = if database.is_some() { String::from_str(".") } else { String::new() };
                    sep.concat(ident_text(t, r).as_str()).concat(".")
                },
                None => String::new(),
            };
            db.concat(tbl.as_str()).concat(column_id_text(column, r).as_str())
        },
        Expr::IsNull { expr, not, .. } =>
            expr_text(expr, r).concat(" IS").concat(not_text(*not).as_str()).concat(" NULL"),
        Expr::IsDistinctFrom { left, right, not, .. } =>
            expr_text(left, r).concat(" IS").concat(not_text(*not).as_str()).concat(" DISTINCT FROM ")
                .concat(expr_text(right, r).as_str()),
        Expr::InList { expr, list, not, .. } =>
            expr_text(expr, r).concat(not_text(*not).as_str()).concat(" IN(").concat(exprs_text(list, r).as_str())
                .concat(")"),
        Expr::InSubquery { expr, subquery, not, .. } =>
            expr_text(expr, r).concat(not_text(*not).as_str()).concat(" IN(").concat(subquery.text.as_str())
                .concat(")"),
        Expr::Between { expr, low, high, not, .. } =>
            expr_text(expr, r).concat(not_text(*not).as_str()).concat(" BETWEEN ").concat(expr_text(low, r).as_str())
                .concat(" AND ").concat(expr_text(high, r).as_str()),
        Expr::UnaryOp { op, expr, .. } => {
            let op_text = op.to_string();
            match op {
                UnaryOperator::Factorial => String::from_str("(").concat(expr_text(expr, r).as_str()).concat(" ")
                    .concat(op_text.as_str()).concat(")"),
                _ => String::from_str("(").concat(op_text.as_str()).concat(" ").concat(expr_text(expr, r).as_str())
                    .concat(")"),
            }
        },
        Expr::BinaryOp { op, left, right, .. } => {
            let op_text = op.to_string();
            String::from_str("(").concat(expr_text(left, r).as_str()).concat(" ").concat(op_text.as_str())
                .concat(" ").concat(expr_text(right, r).as_str()).concat(")")
        },
        Expr::JsonOp { op, left, right, .. } => {
            let op_text = op.to_string();
            String::from_str("(").concat(expr_text(left, r).as_str()).concat(" ").concat(op_text.as_str())
                .concat(" ").concat(expr_text(right, r).as_str()).concat(")")
        },
        Expr::Cast { expr, target_type, pg_style, .. } => {
            let ty = target_type.to_string();
            if *pg_style {
                expr_text(expr, r).concat("::").concat(ty.as_str())
            } else {
                String::from_str("CAST(").concat(expr_text(expr, r).as_str()).concat(" AS ").concat(ty.as_str())
                    .concat(")")
            }
        },
        Expr::TryCast { expr, target_type, .. } => {
            let ty = target_type.to_string();
            String::from_str("TRY_CAST(").concat(expr_text(expr, r).as_str()).concat(" AS ").concat(ty.as_str())
                .concat(")")
        },
        Expr::Extract { kind, expr, .. } => String::from_str("EXTRACT(").concat(kind.to_string().as_str())
            .concat(" FROM ").concat(expr_text(expr, r).as_str()).concat(")"),
        Expr::DatePart { kind, expr, .. } => String::from_str("DATE_PART(").concat(kind.to_string().as_str())
            .concat(", ").concat(expr_text(expr, r).as_str()).concat(")"),
        Expr::Position { substr_expr, str_expr, .. } => String::from_str("POSITION(")
            .concat(expr_text(substr_expr, r).as_str()).concat(" IN ").concat(expr_text(str_expr, r).as_str())
            .concat(")"),
        Expr::Substring { expr, substring_from, substring_for, .. } => {
            let for_part = match substring_for {
                Some(f) => String::from_str(" FOR ").concat(expr_text(f, r).as_str()),
                None => String::new(),
            };
            String::from_str("SUBSTRING(").concat(expr_text(expr, r).as_str()).concat(" FROM ")
                .concat(expr_text(substring_from, r).as_str()).concat(for_part.as_str()).concat(")")
        },
        Expr::Trim { expr, trim_where, .. } => {
            let where_part = match trim_where {
                Some((w, t)) => w.to_string().concat(" ").concat(expr_text(t, r).as_str()).concat(" FROM "),
                None => String::new(),
            };
            String::from_str("TRIM(").concat(where_part.as_str()).concat(expr_text(expr, r).as_str()).concat(")")
        },
        Expr::Literal { lit, .. } => literal_text(lit, r),
        Expr::CountAll { window, .. } => String::from_str("COUNT(*)").concat(window_clause_text(window, r).as_str()),
        Expr::Tuple { exprs, .. } => {
            let trailing = if exprs.len() == 1 { String::from_str(",") } else { String::new() };
            String::from_str("(").concat(exprs_text(exprs, r).as_str()).concat(trailing.as_str()).concat(")")
        },
        Expr::FunctionCall { distinct, name, args, params, window, lambda, .. } => {
            let params_part = if params.len() > 0 {
                String::from_str("(").concat(exprs_text(params, r).as_str()).concat(")")
            } else {
                String::new()
            };
            let distinct_part = if *distinct { String::from_str("DISTINCT ") } else { String::new() };
            let lambda_part = match lambda {
                Some(l) => String::from_str(", ").concat(lambda_text(l, r).as_str()),
                None => String::new(),
            };
            ident_text(name, r).concat(params_part.as_str()).concat("(").concat(distinct_part.as_str())
                .concat(exprs_text(args, r).as_str()).concat(lambda_part.as_str()).concat(")")
                .concat(window_clause_text(window, r).as_str())
        },
        Expr::Case { operand, conditions, results, else_result, .. } => {
            let operand_part = match operand {
                Some(o) => String::from_str(" ").concat(expr_text(o, r).as_str()).concat(" "),
                None => String::new(),
            };
            let n = if conditions.len() < results.len() { conditions.len() } else { results.len() };
            let mut whens = String::new();
            let mut i: usize = 0;
            while i < n
                invariant
                    i <= n,
                    n <= conditions@.len(),
                    n <= results@.len(),
                    renderers_ok(*r),
                    *e == (Expr::Case {
                        span: e->Case_span,
                        operand: *operand,
                        conditions: *conditions,
                        results: *results,
                        else_result: *else_result,
                    }),
                    whens@ == whens_sql(*r, *e, i as nat),
                decreases n - i,
            {
                proof {
                    assert(decreases_to!(*e => e->Case_conditions));
                    assert(decreases_to!(*conditions => conditions@));
                    assert(decreases_to!(conditions@ => conditions@[i as int]));
                    assert(decreases_to!(*e => e->Case_results));
                    assert(decreases_to!(*results => results@));
                    assert(decreases_to!(results@ => results@[i as int]));
                }
                let c = expr_text(&conditions[i], r);
                let v = expr_text(&results[i], r);
                whens = whens.concat(" WHEN ").concat(c.as_str()).concat(" THEN ").concat(v.as_str());
                i = i + 1;
            }
            let else_part = match else_result {
                Some(x) => String::from_str(" ELSE ").concat(expr_text(x, r).as_str()),
                None => String::new(),
            };
            String::from_str("CASE").concat(operand_part.as_str()).concat(whens.as_str()).concat(else_part.as_str())
                .concat(" END")
        },
        Expr::Exists { not, subquery, .. } => {
            let not_part = if *not { String::from_str("NOT ") } else { String::new() };
            not_part.concat("EXISTS (").concat(subquery.text.as_str()).concat(")")
        },
        Expr::Subquery { modifier, subquery, .. } => {
            let modifier_part = match modifier {
                Some(m) => m.to_string().concat(" "),
                None => String::new(),
            };
            modifier_part.concat("(").concat(subquery.text.as_str()).concat(")")
        },
        Expr::MapAccess { expr, accessor, .. } => {
            let access = match accessor {
                MapAccessor::Bracket { key } => String::from_str("[").concat(expr_text(key, r).as_str()).concat("]"),
                MapAccessor::DotNumber { key } => String::from_str(".").concat(u64_to_decimal(*key).as_str()),
                MapAccessor::Colon { key } => String::from_str(":").concat(ident_text(key, r).as_str()),
            };
            expr_text(expr, r).concat(access.as_str())
        },
        Expr::Array { exprs, .. } => String::from_str("[").concat(exprs_text(exprs, r).as_str()).concat("]"),
        Expr::MapExpr { kvs, .. } => String::from_str("{").concat(kvs_text(kvs, r).as_str()).concat("}"),
        Expr::Interval { expr, unit, .. } => String::from_str("INTERVAL ").concat(expr_text(expr, r).as_str())
            .concat(" ").concat(unit.to_string().as_str()),
        Expr::DateAdd { unit, interval, date, .. } => String::from_str("DATE_ADD(").concat(unit.to_string().as_str())
            .concat(", ").concat(expr_text(interval, r).as_str()).concat(", ").concat(expr_text(date, r).as_str())
            .concat(")"),
        Expr::DateSub { unit, interval, date, .. } => String::from_str("DATE_SUB(").concat(unit.to_string().as_str())
            .concat(", ").concat(expr_text(interval, r).as_str()).concat(", ").concat(expr_text(date, r).as_str())
            .concat(")"),
        Expr::DateTrunc { unit, date, .. } => String::from_str("DATE_TRUNC(").concat(unit.to_string().as_str())
            .concat(", ").concat(expr_text(date, r).as_str()).concat(")"),
    }
}

impl Expr {
    /// The SQL text of the expression, with the leaves rendered by `r`.
    pub fn to_sql<FI: Fn(&Identifier) -> String, FP: Fn(&ColumnPosition) -> String, FO: Fn(&OrderByExpr) -> String, FL: Fn(&Literal) -> String>(&self, r: &Renderers<FI, FP, FO, FL>) -> (s: String)
        requires
            renderers_ok(*r),
        ensures
            s@ == expr_sql(*r, *self),
    {
        expr_text(self, r)
    }

    /// The alternate SQL text (`{:#}`): a column reference shows its column
    /// alone, without database and table; any other expression shows as
    /// `to_sql` gives it.
    pub fn to_sql_alternate<FI: Fn(&Identifier) -> String, FP: Fn(&ColumnPosition) -> String, FO: Fn(&OrderByExpr) -> String, FL: Fn(&Literal) -> String>(&self, r: &Renderers<FI, FP, FO, FL>) -> (s: String)
        requires
            renderers_ok(*r),
        ensures
            s@ == match *self {
                Expr::ColumnRef { column, .. } => column_id_sql(*r, column),
                _ => expr_sql(*r, *self),
            },
    {
        match self {
            Expr::ColumnRef { column, .. } => column_id_text(column, r),
            _ => expr_text(self, r),
        }
    }
}

impl Window {
    pub fn to_sql<FI: Fn(&Identifier) -> String, FP: Fn(&ColumnPosition) -> String, FO: Fn(&OrderByExpr) -> String, FL: Fn(&Literal) -> String>(&self, r: &Renderers<FI, FP, FO, FL>) -> (s: String)
        requires
            renderers_ok(*r),
        ensures
            s@ == window_sql(*r, *self),
    {
        window_text(self, r)
    }
}

impl WindowSpec {
    pub fn to_sql<FI: Fn(&Identifier) -> String, FP: Fn(&ColumnPosition) -> String, FO: Fn(&OrderByExpr) -> String, FL: Fn(&Literal) -> String>(&self, r: &Renderers<FI, FP, FO, FL>) -> (s: String)
        requires
            renderers_ok(*r),
        ensures
            s@ == window_spec_sql(*r, *self),
    {
        window_spec_text(self, r)
    }
}

impl WindowRef {
    /// `WINDOW name`.
    pub fn to_sql<FI: Fn(&Identifier) -> String, FP: Fn(&ColumnPosition) -> String, FO: Fn(&OrderByExpr) -> String, FL: Fn(&Literal) -> String>(&self, r: &Renderers<FI, FP, FO, FL>) -> (s: String)
        requires
            renderers_ok(*r),
        ensures
            s@ == "WINDOW "@ + ident_sql(*r, self.window_name),
    {
        String::from_str("WINDOW ").concat(ident_text(&self.window_name, r).as_str())
    }
}

impl WindowDefinition {
    /// `WINDOW name spec`.
    pub fn to_sql<FI: Fn(&Identifier) -> String, FP: Fn(&ColumnPosition) -> String, FO: Fn(&OrderByExpr) -> String, FL: Fn(&Literal) -> String>(&self, r: &Renderers<FI, FP, FO, FL>) -> (s: String)
        requires
            renderers_ok(*r),
        ensures
            s@ == "WINDOW "@ + ident_sql(*r, self.name) + " "@ + window_spec_sql(*r, self.spec),
    {
        String::from_str("WINDOW ").concat(ident_text(&self.name, r).as_str()).concat(" ")
            .concat(window_spec_text(&self.spec, r).as_str())
    }
}

impl Lambda {
    pub fn to_sql<FI: Fn(&Identifier) -> String, FP: Fn(&ColumnPosition) -> String, FO: Fn(&OrderByExpr) -> String, FL: Fn(&Literal) -> String>(&self, r: &Renderers<FI, FP, FO, FL>) -> (s: String)
        requires
            renderers_ok(*r),
        ensures
            s@ == lambda_sql(*r, *self),
    {
        lambda_text(self, r)
    }
}

impl Literal {
    pub fn to_sql<FI: Fn(&Identifier) -> String, FP: Fn(&ColumnPosition) -> String, FO: Fn(&OrderByExpr) -> String, FL: Fn(&Literal) -> String>(&self, r: &Renderers<FI, FP, FO, FL>) -> (s: String)
        requires
            renderers_ok(*r),
        ensures
            s@ == literal_sql(*r, *self),
    {
        literal_text(self, r)
    }
}

impl ColumnID {
    pub fn to_sql<FI: Fn(&Identifier) -> String, FP: Fn(&ColumnPosition) -> String, FO: Fn(&OrderByExpr) -> String, FL: Fn(&Literal) -> String>(&self, r: &Renderers<FI, FP, FO, FL>) -> (s: String)
        requires
            renderers_ok(*r),
        ensures
            s@ == column_id_sql(*r, *self),
    {
        column_id_text(self, r)
    }
}


/// A binary expression is written in parentheses: the left operand, the
/// operator's text between single spaces, then the right operand.
pub proof fn law_binary_expr_sql<
    FI: Fn(&Identifier) -> String,
    FP: Fn(&ColumnPosition) -> String,
    FO: Fn(&OrderByExpr) -> String,
    FL: Fn(&Literal) -> String,
>(r: Renderers<FI, FP, FO, FL>, span: super::expr::Span, op: BinaryOperator, left: Expr, right: Expr)
    ensures
        expr_sql(r, Expr::BinaryOp { span, op, left: Box::new(left), right: Box::new(right) })
            == seq!['('] + expr_sql(r, left) + seq![' '] + binary_sql(op) + seq![' '] + expr_sql(r, right) + seq![')'],
{
    reveal_strlit("(");
    reveal_strlit(" ");
    reveal_strlit(")");
    assert(expr_sql(r, Expr::BinaryOp { span, op, left: Box::new(left), right: Box::new(right) })
        =~= seq!['('] + expr_sql(r, left) + seq![' '] + binary_sql(op) + seq![' '] + expr_sql(r, right) + seq![')']);
}

/// Two binary expressions over the same operands but different operators
/// are written differently: the text tells which comparison or arithmetic
/// is meant.
pub proof fn law_binary_expr_sql_tells_the_operator<
    FI: Fn(&Identifier) -> String,
    FP: Fn(&ColumnPosition) -> String,
    FO: Fn(&OrderByExpr) -> String,
    FL: Fn(&Literal) -> String,
>(r: Renderers<FI, FP, FO, FL>, span: super::expr::Span, a: BinaryOperator, b: BinaryOperator, left: Expr, right: Expr)
    requires
        a != b,
    ensures
        expr_sql(r, Expr::BinaryOp { span, op: a, left: Box::new(left), right: Box::new(right) })
            != expr_sql(r, Expr::BinaryOp { span, op: b, left: Box::new(left), right: Box::new(right) }),
{
    law_binary_expr_sql(r, span, a, left, right);
    law_binary_expr_sql(r, span, b, left, right);
    law_binary_sql_injective(a, b);
    let l = expr_sql(r, left);
    let rt = expr_sql(r, right);
    let ta = seq!['('] + l + seq![' '] + binary_sql(a) + seq![' '] + rt + seq![')'];
    let tb = seq!['('] + l + seq![' '] + binary_sql(b) + seq![' '] + rt + seq![')'];
    if ta == tb {
        let start: int = l.len() as int + 2;
        assert(ta.len() == tb.len());
        assert(binary_sql(a).len() == binary_sql(b).len());
        assert(ta.subrange(start, start + binary_sql(a).len() as int) =~= binary_sql(a));
        assert(tb.subrange(start, start + binary_sql(b).len() as int) =~= binary_sql(b));
    }
}

/// A unary expression is written in parentheses with its operator before
/// the operand, a space between; the factorial `!` alone comes after it.
pub proof fn law_unary_expr_sql<
    FI: Fn(&Identifier) -> String,
    FP: Fn(&ColumnPosition) -> String,
    FO: Fn(&OrderByExpr) -> String,
    FL: Fn(&Literal) -> String,
>(r: Renderers<FI, FP, FO, FL>, span: super::expr::Span, op: UnaryOperator, e: Expr)
    ensures
        op == UnaryOperator::Factorial ==> expr_sql(r, Expr::UnaryOp { span, op, expr: Box::new(e) })
            == seq!['('] + expr_sql(r, e) + seq![' ', '!', ')'],
        op != UnaryOperator::Factorial ==> expr_sql(r, Expr::UnaryOp { span, op, expr: Box::new(e) })
            == seq!['('] + unary_sql(op) + seq![' '] + expr_sql(r, e) + seq![')'],
{
    reveal_strlit("(");
    reveal_strlit(" ");
    reveal_strlit(")");
    reveal_strlit("!");
    let x = Expr::UnaryOp { span, op, expr: Box::new(e) };
    if op == UnaryOperator::Factorial {
        assert(expr_sql(r, x) =~= seq!['('] + expr_sql(r, e) + seq![' ', '!', ')']);
    } else {
        assert(expr_sql(r, x) =~= seq!['('] + unary_sql(op) + seq![' '] + expr_sql(r, e) + seq![')']);
    }
}

} // verus!
