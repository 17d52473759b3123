//! Copies of the expression tree and of type names. Each node is copied
//! field by field, its children recursively.

use vstd::prelude::*;

use super::expr::{
    Expr, Lambda, MapAccessor, OrderByExpr, Window, WindowDefinition, WindowFrame, WindowFrameBound, WindowSpec,
};
use super::types::TypeName;

verus! {

fn copy_type_name(t: &TypeName) -> (r: TypeName)
    decreases t,
{
    match t {
        TypeName::Boolean => TypeName::Boolean,
        TypeName::UInt8 => TypeName::UInt8,
        TypeName::UInt16 => TypeName::UInt16,
        TypeName::UInt32 => TypeName::UInt32,
        TypeName::UInt64 => TypeName::UInt64,
        TypeName::Int8 => TypeName::Int8,
        TypeName::Int16 => TypeName::Int16,
        TypeName::Int32 => TypeName::Int32,
        TypeName::Int64 => TypeName::Int64,
        TypeName::Float32 => TypeName::Float32,
        TypeName::Float64 => TypeName::Float64,
        TypeName::Decimal { precision, scale } => TypeName::Decimal { precision: *precision, scale: *scale },
        TypeName::Date => TypeName::Date,
        TypeName::Timestamp => TypeName::Timestamp,
        TypeName::Binary => TypeName::Binary,
        TypeName::String => TypeName::String,
        TypeName::Array(b) => TypeName::Array(Box::new(copy_type_name(&**b))),
        TypeName::MapType { key_type, val_type } => TypeName::MapType {
            key_type: Box::new(copy_type_name(&**key_type)),
            val_type: Box::new(copy_type_name(&**val_type)),
        },
        TypeName::Bitmap => TypeName::Bitmap,
        TypeName::Tuple { fields_name, fields_type } => TypeName::Tuple {
            fields_name: fields_name.clone(),
            fields_type: copy_type_names(fields_type),
        },
        TypeName::Variant => TypeName::Variant,
        TypeName::Nullable(b) => TypeName::Nullable(Box::new(copy_type_name(&**b))),
        TypeName::NotNull(b) => TypeName::NotNull(Box::new(copy_type_name(&**b))),
    }
}

fn copy_type_names(v: &Vec<TypeName>) -> (r: Vec<TypeName>)
    decreases v,
{
    let mut r: Vec<TypeName> = Vec::new();
    let mut i: usize = 0;
    while i < v.len()
        invariant
            i <= v@.len(),
        decreases v@.len() - i,
    {
        assert(decreases_to!(v => v@[i as int]));
        r.push(copy_type_name(&v[i]));
        i = i + 1;
    }
    r
}

impl Clone for TypeName {
    fn clone(&self) -> (r: TypeName) {
        copy_type_name(self)
    }
}

fn copy_opt_box(o: &Option<Box<Expr>>) -> (r: Option<Box<Expr>>)
    decreases o,
{
    match o {
        Some(b) => Some(Box::new(copy_expr(&**b))),
        None => None,
    }
}

fn copy_exprs(v: &Vec<Expr>) -> (r: Vec<Expr>)
    decreases v,
{
    let mut r: Vec<Expr> = Vec::new();
    let mut i: usize = 0;
    while i < v.len()
        invariant
            i <= v@.len(),
        decreases v@.len() - i,
    {
        assert(decreases_to!(v => v@[i as int]));
        r.push(copy_expr(&v[i]));
        i = i + 1;
    }
    r
}

fn copy_order_bys(v: &Vec<OrderByExpr>) -> (r: Vec<OrderByExpr>)
    decreases v,
{
    let mut r: Vec<OrderByExpr> = Vec::new();
    let mut i: usize = 0;
    while i < v.len()
        invariant
            i <= v@.len(),
        decreases v@.len() - i,
    {
        assert(decreases_to!(v => v@[i as int]));
        r.push(copy_order_by(&v[i]));
        i = i + 1;
    }
    r
}

fn copy_order_by(o: &OrderByExpr) -> (r: OrderByExpr)
    decreases o,
{
    OrderByExpr { expr: copy_expr(&o.expr), asc: o.asc, nulls_first: o.nulls_first }
}

fn copy_key_values(v: &Vec<(super::expr::Literal, Expr)>) -> (r: Vec<(super::expr::Literal, Expr)>)
    decreases v,
{
    let mut r: Vec<(super::expr::Literal, Expr)> = Vec::new();
    let mut i: usize = 0;
    while i < v.len()
        invariant
            i <= v@.len(),
        decreases v@.len() - i,
    {
        assert(decreases_to!(v => v@[i as int]));
        assert(decreases_to!(v@[i as int] => v@[i as int].1));
        r.push((v[i].0.clone(), copy_expr(&v[i].1)));
        i = i + 1;
    }
    r
}

fn copy_frame_bound(b: &WindowFrameBound) -> (r: WindowFrameBound)
    decreases b,
{
    match b {
        WindowFrameBound::CurrentRow => WindowFrameBound::CurrentRow,
        WindowFrameBound::Preceding(o) => WindowFrameBound::Preceding(copy_opt_box(o)),
        WindowFrameBound::Following(o) => WindowFrameBound::Following(copy_opt_box(o)),
    }
}

fn copy_window_spec(s: &WindowSpec) -> (r: WindowSpec)
    decreases s,
{
    WindowSpec {
        existing_window_name: s.existing_window_name.clone(),
        partition_by: copy_exprs(&s.partition_by),
        order_by: copy_order_bys(&s.order_by),
        window_frame: match &s.window_frame {
            Some(f) => Some(WindowFrame {
                units: f.units,
                start_bound: copy_frame_bound(&f.start_bound),
                end_bound: copy_frame_bound(&f.end_bound),
            }),
            None => None,
        },
    }
}

fn copy_window(w: &Window) -> (r: Window)
    decreases w,
{
    match w {
        Window::WindowReference(r) => Window::WindowReference(r.clone()),
        Window::WindowSpec(s) => Window::WindowSpec(copy_window_spec(s)),
    }
}

fn copy_opt_window(o: &Option<Window>) -> (r: Option<Window>)
    decreases o,
{
    match o {
        Some(w) => Some(copy_window(w)),
        None => None,
    }
}

fn copy_lambda(l: &Lambda) -> (r: Lambda)
    decreases l,
{
    Lambda { params: l.params.clone(), expr: Box::new(copy_expr(&*l.expr)) }
}

fn copy_accessor(a: &MapAccessor) -> (r: MapAccessor)
    decreases a,
{
    match a {
        MapAccessor::Bracket { key } => MapAccessor::Bracket { key: Box::new(copy_expr(&**key)) },
        MapAccessor::DotNumber { key } => MapAccessor::DotNumber { key: *key },
        MapAccessor::Colon { key } => MapAccessor::Colon { key: key.clone() },
    }
}

fn copy_expr(e: &Expr) -> (r: Expr)
    decreases e,
{
    match e {
        Expr::ColumnRef { span, database, table, column } => Expr::ColumnRef {
            span: *span,
            database: database.clone(),
            table: table.clone(),
            column: column.clone(),
        },
        Expr::IsNull { span, expr, not } => Expr::IsNull { span: *span, expr: Box::new(copy_expr(&**expr)), not: *not },
        Expr::IsDistinctFrom { span, left, right, not } => Expr::IsDistinctFrom {
            span: *span,
            left: Box::new(copy_expr(&**left)),
            right: Box::new(copy_expr(&**right)),
            not: *not,
        },
        Expr::InList { span, expr, list, not } => Expr::InList {
            span: *span,
            expr: Box::new(copy_expr(&**expr)),
            list: copy_exprs(list),
            not: *not,
        },
        Expr::InSubquery { span, expr, subquery, not } => Expr::InSubquery {
            span: *span,
            expr: Box::new(copy_expr(&**expr)),
            subquery: subquery.clone(),
            not: *not,
        },
        Expr::Between { span, expr, low, high, not } => Expr::Between {
            span: *span,
            expr: Box::new(copy_expr(&**expr)),
            low: Box::new(copy_expr(&**low)),
            high: Box::new(copy_expr(&**high)),
            not: *not,
        },
        Expr::BinaryOp { span, op, left, right } => Expr::BinaryOp {
            span: *span,
            op: *op,
            left: Box::new(copy_expr(&**left)),
            right: Box::new(copy_expr(&**right)),
        },
        Expr::JsonOp { span, op, left, right } => Expr::JsonOp {
            span: *span,
            op: *op,
            left: Box::new(copy_expr(&**left)),
            right: Box::new(copy_expr(&**right)),
        },
        Expr::UnaryOp { span, op, expr } => Expr::UnaryOp { span: *span, op: *op, expr: Box::new(copy_expr(&**expr)) },
        Expr::Cast { span, expr, target_type, pg_style } => Expr::Cast {
            span: *span,
            expr: Box::new(copy_expr(&**expr)),
            target_type: copy_type_name(target_type),
            pg_style: *pg_style,
        },
        Expr::TryCast { span, expr, target_type } => Expr::TryCast {
            span: *span,
            expr: Box::new(copy_expr(&**expr)),
            target_type: copy_type_name(target_type),
        },
        Expr::Extract { span, kind, expr } => Expr::Extract { span: *span, kind: *kind, expr: Box::new(copy_expr(&**expr)) },
        Expr::DatePart { span, kind, expr } => Expr::DatePart { span: *span, kind: *kind, expr: Box::new(copy_expr(&**expr)) },
        Expr::Position { span, substr_expr, str_expr } => Expr::Position {
            span: *span,
            substr_expr: Box::new(copy_expr(&**substr_expr)),
            str_expr: Box::new(copy_expr(&**str_expr)),
        },
        Expr::Substring { span, expr, substring_from, substring_for } => Expr::Substring {
            span: *span,
            expr: Box::new(copy_expr(&**expr)),
            substring_from: Box::new(copy_expr(&**substring_from)),
            substring_for: copy_opt_box(substring_for),
        },
        Expr::Trim { span, expr, trim_where } => Expr::Trim {
            span: *span,
            expr: Box::new(copy_expr(&**expr)),
            trim_where: match trim_where {
                Some(w) => Some((w.0, Box::new(copy_expr(&*w.1)))),
                None => None,
            },
        },
        Expr::Literal { span, lit } => Expr::Literal { span: *span, lit: lit.clone() },
        Expr::CountAll { span, window } => Expr::CountAll { span: *span, window: copy_opt_window(window) },
        Expr::Tuple { span, exprs } => Expr::Tuple { span: *span, exprs: copy_exprs(exprs) },
        Expr::FunctionCall { span, distinct, name, args, params, window, lambda } => Expr::FunctionCall {
            span: *span,
            distinct: *distinct,
            name: name.clone(),
            args: copy_exprs(args),
            params: copy_exprs(params),
            window: copy_opt_window(window),
            lambda: match lambda {
                Some(l) => Some(copy_lambda(l)),
                None => None,
            },
        },
        Expr::Case { span, operand, conditions, results, else_result } => Expr::Case {
            span: *span,
            operand: copy_opt_box(operand),
            conditions: copy_exprs(conditions),
            results: copy_exprs(results),
            else_result: copy_opt_box(else_result),
        },
        Expr::Exists { span, not, subquery } => Expr::Exists { span: *span, not: *not, subquery: subquery.clone() },
        Expr::Subquery { span, modifier, subquery } => Expr::Subquery {
            span: *span,
            modifier: *modifier,
            subquery: subquery.clone(),
        },
        Expr::MapAccess { span, expr, accessor } => Expr::MapAccess {
            span: *span,
            expr: Box::new(copy_expr(&**expr)),
            accessor: copy_accessor(accessor),
        },
        Expr::Array { span, exprs } => Expr::Array { span: *span, exprs: copy_exprs(exprs) },
        Expr::MapExpr { span, kvs } => Expr::MapExpr { span: *span, kvs: copy_key_values(kvs) },
        Expr::Interval { span, expr, unit } => Expr::Interval { span: *span, expr: Box::new(copy_expr(&**expr)), unit: *unit },
        Expr::DateAdd { span, unit, interval, date } => Expr::DateAdd {
            span: *span,
            unit: *unit,
            interval: Box::new(copy_expr(&**interval)),
            date: Box::new(copy_expr(&**date)),
        },
        Expr::DateSub { span, unit, interval, date } => Expr::DateSub {
            span: *span,
            unit: *unit,
            interval: Box::new(copy_expr(&**interval)),
            date: Box::new(copy_expr(&**date)),
        },
        Expr::DateTrunc { span, unit, date } => Expr::DateTrunc { span: *span, unit: *unit, date: Box::new(copy_expr(&**date)) },
    }
}

impl Clone for Expr {
    fn clone(&self) -> (r: Expr) {
        copy_expr(self)
    }
}

impl Clone for OrderByExpr {
    fn clone(&self) -> (r: OrderByExpr) {
        copy_order_by(self)
    }
}

impl Clone for MapAccessor {
    fn clone(&self) -> (r: MapAccessor) {
        copy_accessor(self)
    }
}

impl Clone for Window {
    fn clone(&self) -> (r: Window) {
        copy_window(self)
    }
}

impl Clone for WindowSpec {
    fn clone(&self) -> (r: WindowSpec) {
        copy_window_spec(self)
    }
}

impl Clone for WindowDefinition {
    fn clone(&self) -> (r: WindowDefinition) {
        WindowDefinition { name: self.name.clone(), spec: copy_window_spec(&self.spec) }
    }
}

impl Clone for WindowFrameBound {
    fn clone(&self) -> (r: WindowFrameBound) {
        copy_frame_bound(self)
    }
}

impl Clone for WindowFrame {
    fn clone(&self) -> (r: WindowFrame) {
        WindowFrame {
            units: self.units,
            start_bound: copy_frame_bound(&self.start_bound),
            end_bound: copy_frame_bound(&self.end_bound),
        }
    }
}

impl Clone for Lambda {
    fn clone(&self) -> (r: Lambda) {
        copy_lambda(self)
    }
}

} // verus!
