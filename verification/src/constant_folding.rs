//! Constant folding of plan expressions.
//!
//! Function calls whose arguments are all literals are evaluated once at
//! planning time and replaced by their value; `AND` / `OR` with a constant
//! side are simplified; string literals that read as dates next to a binary
//! operator are turned into dates. What a function is, how it evaluates and
//! how an expression is named belong to the function registry and the
//! expression engine: the caller supplies them as an [`Evaluator`].

use vstd::prelude::*;

use crate::error::{ErrorCode, ErrorKind};
use crate::text::{lowercase, to_lowercase};

verus! {

/// An error, by its view.
pub type ErrV = (ErrorKind, Seq<char>);

/// The type of a value.
#[derive(Debug, Clone, Copy, PartialEq, Eq, Structural)]
pub enum DataType {
    Null,
    Boolean,
    UInt8,
    UInt16,
    UInt32,
    UInt64,
    Int8,
    Int16,
    Int32,
    Int64,
    Float32,
    Float64,
    Date16,
    Date32,
    DateTime32,
    Text,
    Interval,
    List,
    Struct,
}

impl View for DataType {
    type V = DataType;

    open spec fn view(&self) -> DataType {
        *self
    }
}

/// A value of a literal; `None` inside a variant is a typed `NULL`.
#[derive(Debug, Clone, PartialEq)]
pub enum DataValue {
    Null,
    Boolean(Option<bool>),
    Int8(Option<i8>),
    Int16(Option<i16>),
    Int32(Option<i32>),
    Int64(Option<i64>),
    UInt8(Option<u8>),
    UInt16(Option<u16>),
    UInt32(Option<u32>),
    UInt64(Option<u64>),
    Text(Option<Vec<u8>>),
}

/// A value as the contracts see it.
pub enum ValueV {
    Null,
    Boolean(Option<bool>),
    Int8(Option<i8>),
    Int16(Option<i16>),
    Int32(Option<i32>),
    Int64(Option<i64>),
    UInt8(Option<u8>),
    UInt16(Option<u16>),
    UInt32(Option<u32>),
    UInt64(Option<u64>),
    Text(Option<Seq<u8>>),
}

impl View for DataValue {
    type V = ValueV;

    open spec fn view(&self) -> ValueV {
        match *self {
            DataValue::Null => ValueV::Null,
            DataValue::Boolean(v) => ValueV::Boolean(v),
            DataValue::Int8(v) => ValueV::Int8(v),
            DataValue::Int16(v) => ValueV::Int16(v),
            DataValue::Int32(v) => ValueV::Int32(v),
            DataValue::Int64(v) => ValueV::Int64(v),
            DataValue::UInt8(v) => ValueV::UInt8(v),
            DataValue::UInt16(v) => ValueV::UInt16(v),
            DataValue::UInt32(v) => ValueV::UInt32(v),
            DataValue::UInt64(v) => ValueV::UInt64(v),
            DataValue::Text(v) => ValueV::Text(
                match v {
                    Some(b) => Some(b@),
                    None => None,
                },
            ),
        }
    }
}

/// A plan expression. Subqueries refer to their plan by a number that the
/// caller gives them.
#[derive(Debug, PartialEq)]
pub enum Expression {
    Alias(String, Box<Expression>),
    Column(String),
    QualifiedColumn(Vec<String>),
    Literal { value: DataValue, column_name: Option<String>, data_type: DataType },
    Exists(u64),
    Subquery { name: String, plan: u64 },
    ScalarSubquery { name: String, plan: u64 },
    UnaryExpression { op: String, expr: Box<Expression> },
    BinaryExpression { left: Box<Expression>, op: String, right: Box<Expression> },
    ScalarFunction { op: String, args: Vec<Expression> },
    AggregateFunction { op: String, distinct: bool, params: Vec<DataValue>, args: Vec<Expression> },
    Sort { expr: Box<Expression>, asc: bool, nulls_first: bool },
    Wildcard,
    Cast { expr: Box<Expression>, data_type: DataType },
}

/// An expression as the contracts see it: texts as character sequences,
/// lists as sequences.
pub enum ExprV {
    Alias(Seq<char>, Box<ExprV>),
    Column(Seq<char>),
    QualifiedColumn(Seq<Seq<char>>),
    Literal { value: ValueV, column_name: Option<Seq<char>>, data_type: DataType },
    Exists(u64),
    Subquery { name: Seq<char>, plan: u64 },
    ScalarSubquery { name: Seq<char>, plan: u64 },
    UnaryExpression { op: Seq<char>, expr: Box<ExprV> },
    BinaryExpression { left: Box<ExprV>, op: Seq<char>, right: Box<ExprV> },
    ScalarFunction { op: Seq<char>, args: Seq<ExprV> },
    AggregateFunction { op: Seq<char>, distinct: bool, params: Seq<ValueV>, args: Seq<ExprV> },
    Sort { expr: Box<ExprV>, asc: bool, nulls_first: bool },
    Wildcard,
    Cast { expr: Box<ExprV>, data_type: DataType },
}

pub open spec fn name_view(n: Option<String>) -> Option<Seq<char>> {
    match n {
        Some(s) => Some(s@),
        None => None,
    }
}

/// The views of the first `k` expressions.
pub open spec fn exprs_view(es: Seq<Expression>, k: nat) -> Seq<ExprV>
    decreases es, 0nat, k,
{
    if k == 0 || k > es.len() {
        Seq::empty()
    } else {
        exprs_view(es, (k - 1) as nat).push(expr_view(es[k - 1]))
    }
}

pub open spec fn expr_view(e: Expression) -> ExprV
    decreases e, 0nat, 0nat,
{
    match e {
        Expression::Alias(a, x) => ExprV::Alias(a@, Box::new(expr_view(*x))),
        Expression::Column(c) => ExprV::Column(c@),
        Expression::QualifiedColumn(names) => ExprV::QualifiedColumn(names@.map_values(|s: String| s@)),
        Expression::Literal { value, column_name, data_type } => ExprV::Literal {
            value: value@,
            column_name: name_view(column_name),
            data_type,
        },
        Expression::Exists(p) => ExprV::Exists(p),
        Expression::Subquery { name, plan } => ExprV::Subquery { name: name@, plan },
        Expression::ScalarSubquery { name, plan } => ExprV::ScalarSubquery { name: name@, plan },
        Expression::UnaryExpression { op, expr } => ExprV::UnaryExpression {
            op: op@,
            expr: Box::new(expr_view(*expr)),
        },
        Expression::BinaryExpression { left, op, right } => ExprV::BinaryExpression {
            left: Box::new(expr_view(*left)),
            op: op@,
            right: Box::new(expr_view(*right)),
        },
        Expression::ScalarFunction { op, args } => ExprV::ScalarFunction {
            op: op@,
            args: exprs_view(args@, args@.len()),
        },
        Expression::AggregateFunction { op, distinct, params, args } => ExprV::AggregateFunction {
            op: op@,
            distinct,
            params: params@.map_values(|v: DataValue| v@),
            args: exprs_view(args@, args@.len()),
        },
        Expression::Sort { expr, asc, nulls_first } => ExprV::Sort {
            expr: Box::new(expr_view(*expr)),
            asc,
            nulls_first,
        },
        Expression::Wildcard => ExprV::Wildcard,
        Expression::Cast { expr, data_type } => ExprV::Cast { expr: Box::new(expr_view(*expr)), data_type },
    }
}

impl View for Expression {
    type V = ExprV;

    open spec fn view(&self) -> ExprV {
        expr_view(*self)
    }
}

/// The views of a list of expressions.
pub open spec fn args_view(v: Vec<Expression>) -> Seq<ExprV> {
    exprs_view(v@, v@.len())
}

proof fn lemma_exprs_view(es: Seq<Expression>, k: nat)
    requires
        k <= es.len(),
    ensures
        exprs_view(es, k).len() == k,
        forall|i: int| 0 <= i < k ==> #[trigger] exprs_view(es, k)[i] == expr_view(es[i]),
    decreases k,
{
    if k > 0 {
        lemma_exprs_view(es, (k - 1) as nat);
    }
}

/// The views of the first `k` expressions depend on those alone.
proof fn lemma_exprs_view_prefix(a: Seq<Expression>, b: Seq<Expression>, k: nat)
    requires
        k <= a.len(),
        k <= b.len(),
        forall|i: int| 0 <= i < k ==> a[i] == b[i],
    ensures
        exprs_view(a, k) == exprs_view(b, k),
    decreases k,
{
    if k > 0 {
        lemma_exprs_view_prefix(a, b, (k - 1) as nat);
    }
}

/// Pushing an expression pushes its view.
proof fn lemma_exprs_view_push(s: Seq<Expression>, x: Expression)
    ensures
        exprs_view(s.push(x), s.len() + 1) == exprs_view(s, s.len()).push(expr_view(x)),
{
    lemma_exprs_view_prefix(s.push(x), s, s.len());
}

/// A copy of a value.
fn copy_value(v: &DataValue) -> (r: DataValue)
    ensures
        r@ == v@,
{
    match v {
        DataValue::Null => DataValue::Null,
        DataValue::Boolean(x) => DataValue::Boolean(*x),
        DataValue::Int8(x) => DataValue::Int8(*x),
        DataValue::Int16(x) => DataValue::Int16(*x),
        DataValue::Int32(x) => DataValue::Int32(*x),
        DataValue::Int64(x) => DataValue::Int64(*x),
        DataValue::UInt8(x) => DataValue::UInt8(*x),
        DataValue::UInt16(x) => DataValue::UInt16(*x),
        DataValue::UInt32(x) => DataValue::UInt32(*x),
        DataValue::UInt64(x) => DataValue::UInt64(*x),
        DataValue::Text(None) => DataValue::Text(None),
        DataValue::Text(Some(b)) => {
            let c = b.clone();
            assert(c@ =~= b@);
            DataValue::Text(Some(c))
        },
    }
}

fn copy_values(vs: &Vec<DataValue>) -> (r: Vec<DataValue>)
    ensures
        r@.map_values(|v: DataValue| v@) == vs@.map_values(|v: DataValue| v@),
{
    let mut out: Vec<DataValue> = Vec::new();
    let mut i: usize = 0;
    while i < vs.len()
        invariant
            i <= vs@.len(),
            out@.len() == i,
            forall|j: int| 0 <= j < i ==> #[trigger] out@[j]@ == vs@[j]@,
        decreases vs@.len() - i,
    {
        out.push(copy_value(&vs[i]));
        i = i + 1;
    }
    assert(out@.map_values(|v: DataValue| v@) =~= vs@.map_values(|v: DataValue| v@));
    out
}

fn copy_names(ns: &Vec<String>) -> (r: Vec<String>)
    ensures
        r@.map_values(|s: String| s@) == ns@.map_values(|s: String| s@),
{
    let mut out: Vec<String> = Vec::new();
    let mut i: usize = 0;
    while i < ns.len()
        invariant
            i <= ns@.len(),
            out@.len() == i,
            forall|j: int| 0 <= j < i ==> #[trigger] out@[j]@ == ns@[j]@,
        decreases ns@.len() - i,
    {
        out.push(ns[i].clone());
        i = i + 1;
    }
    assert(out@.map_values(|s: String| s@) =~= ns@.map_values(|s: String| s@));
    out
}

fn copy_name(n: &Option<String>) -> (r: Option<String>)
    ensures
        name_view(r) == name_view(*n),
{
    match n {
        Some(s) => Some(s.clone()),
        None => None,
    }
}

/// A copy of a list of expressions.
fn copy_exprs(es: &Vec<Expression>) -> (r: Vec<Expression>)
    ensures
        args_view(r) == args_view(*es),
    decreases es, 0nat,
{
    let mut out: Vec<Expression> = Vec::new();
    let mut i: usize = 0;
    while i < es.len()
        invariant
            i <= es@.len(),
            out@.len() == i,
            exprs_view(out@, out@.len()) == exprs_view(es@, i as nat),
        decreases es@.len() - i,
    {
        proof {
            assert(decreases_to!(*es => es@));
            assert(decreases_to!(es@ => es@[i as int]));
        }
        let c = copy_expr(&es[i]);
        proof {
            lemma_exprs_view_push(out@, c);
        }
        out.push(c);
        i = i + 1;
    }
    out
}

/// A copy of an expression.
fn copy_expr(e: &Expression) -> (r: Expression)
    ensures
        r@ == e@,
    decreases e, 1nat,
{
    match e {
        Expression::Alias(a, x) => Expression::Alias(a.clone(), Box::new(copy_expr(x))),
        Expression::Column(c) => Expression::Column(c.clone()),
        Expression::QualifiedColumn(names) => Expression::QualifiedColumn(copy_names(names)),
        Expression::Literal { value, column_name, data_type } => Expression::Literal {
            value: copy_value(value),
            column_name: copy_name(column_name),
            data_type: *data_type,
        },
        Expression::Exists(p) => Expression::Exists(*p),
        Expression::Subquery { name, plan } => Expression::Subquery { name: name.clone(), plan: *plan },
        Expression::ScalarSubquery { name, plan } => Expression::ScalarSubquery { name: name.clone(), plan: *plan },
        Expression::UnaryExpression { op, expr } => Expression::UnaryExpression {
            op: op.clone(),
            expr: Box::new(copy_expr(expr)),
        },
        Expression::BinaryExpression { left, op, right } => Expression::BinaryExpression {
            left: Box::new(copy_expr(left)),
            op: op.clone(),
            right: Box::new(copy_expr(right)),
        },
        Expression::ScalarFunction { op, args } => Expression::ScalarFunction {
            op: op.clone(),
            args: copy_exprs(args),
        },
        Expression::AggregateFunction { op, distinct, params, args } => Expression::AggregateFunction {
            op: op.clone(),
            distinct: *distinct,
            params: copy_values(params),
            args: copy_exprs(args),
        },
        Expression::Sort { expr, asc, nulls_first } => Expression::Sort {
            expr: Box::new(copy_expr(expr)),
            asc: *asc,
            nulls_first: *nulls_first,
        },
        Expression::Wildcard => Expression::Wildcard,
        Expression::Cast { expr, data_type } => Expression::Cast {
            expr: Box::new(copy_expr(expr)),
            data_type: *data_type,
        },
    }
}

/// The services folding asks of the function registry and the expression
/// engine.
pub struct Evaluator<FD, FE, FN, FB, FT> {
    /// Whether the named function always gives the same result on the same
    /// arguments; an error for a name the registry does not know.
    pub deterministic: FD,
    /// The value and type of an expression over constants.
    pub evaluate: FE,
    /// The output column name of an expression.
    pub column_name: FN,
    /// A value read as a boolean.
    pub as_bool: FB,
    /// The text of a value.
    pub text: FT,
}

pub open spec fn result_view<T: View>(r: Result<T, ErrorCode>) -> Result<T::V, ErrV> {
    match r {
        Ok(v) => Ok(v@),
        Err(e) => Err(e@),
    }
}

/// `f` accepts every argument, and arguments with equal views give outcomes
/// with equal views.
pub open spec fn determined<A: View, T: View, F: Fn(&A) -> Result<T, ErrorCode>>(f: F) -> bool {
    &&& forall|x: &A| #[trigger] f.requires((x,))
    &&& forall|x1: &A, x2: &A, r1: Result<T, ErrorCode>, r2: Result<T, ErrorCode>|
        #![trigger f.ensures((x1,), r1), f.ensures((x2,), r2)]
        f.ensures((x1,), r1) && f.ensures((x2,), r2) && x1@ == x2@ ==> result_view(r1) == result_view(r2)
}

/// The outcome `f` gives for an argument with view `v`.
pub open spec fn outcome<A: View, T: View, F: Fn(&A) -> Result<T, ErrorCode>>(f: F, v: A::V) -> Result<T::V, ErrV> {
    let (x, r) = choose|x: &A, r: Result<T, ErrorCode>| x@ == v && f.ensures((x,), r);
    result_view(r)
}

proof fn lemma_outcome<A: View, T: View, F: Fn(&A) -> Result<T, ErrorCode>>(f: F, x: &A, r: Result<T, ErrorCode>)
    requires
        determined(f),
        f.ensures((x,), r),
    ensures
        result_view(r) == outcome(f, x@),
{
    assert(exists|y: &A, s: Result<T, ErrorCode>| y@ == x@ && f.ensures((y,), s));
    let (y, s) = choose|y: &A, s: Result<T, ErrorCode>| y@ == x@ && f.ensures((y,), s);
    assert(f.ensures((y,), s) && f.ensures((x,), r));
}

/// `f` accepts every argument, and arguments with equal views give equal
/// texts.
pub open spec fn named<A: View, F: Fn(&A) -> String>(f: F) -> bool {
    &&& forall|x: &A| #[trigger] f.requires((x,))
    &&& forall|x1: &A, x2: &A, r1: String, r2: String|
        #![trigger f.ensures((x1,), r1), f.ensures((x2,), r2)]
        f.ensures((x1,), r1) && f.ensures((x2,), r2) && x1@ == x2@ ==> r1@ == r2@
}

/// The text `f` gives for an argument with view `v`.
pub open spec fn name_of<A: View, F: Fn(&A) -> String>(f: F, v: A::V) -> Seq<char> {
    let (x, r) = choose|x: &A, r: String| x@ == v && f.ensures((x,), r);
    r@
}

proof fn lemma_name_of<A: View, F: Fn(&A) -> String>(f: F, x: &A, r: String)
    requires
        named(f),
        f.ensures((x,), r),
    ensures
        r@ == name_of(f, x@),
{
    assert(exists|y: &A, s: String| y@ == x@ && f.ensures((y,), s));
    let (y, s) = choose|y: &A, s: String| y@ == x@ && f.ensures((y,), s);
    assert(f.ensures((y,), s) && f.ensures((x,), r));
}

/// Each service answers every question, and the same way for equal questions.
#[verifier::opaque]
pub open spec fn evaluator_ok<
    FD: Fn(&String) -> Result<bool, ErrorCode>,
    FE: Fn(&Expression) -> Result<(DataValue, DataType), ErrorCode>,
    FN: Fn(&Expression) -> String,
    FB: Fn(&DataValue) -> Result<bool, ErrorCode>,
    FT: Fn(&DataValue) -> String,
>(ev: Evaluator<FD, FE, FN, FB, FT>) -> bool {
    &&& determined(ev.deterministic)
    &&& determined(ev.evaluate)
    &&& named(ev.column_name)
    &&& determined(ev.as_bool)
    &&& named(ev.text)
}

fn call_deterministic<
    FD: Fn(&String) -> Result<bool, ErrorCode>,
    FE: Fn(&Expression) -> Result<(DataValue, DataType), ErrorCode>,
    FN: Fn(&Expression) -> String,
    FB: Fn(&DataValue) -> Result<bool, ErrorCode>,
    FT: Fn(&DataValue) -> String,
>(ev: &Evaluator<FD, FE, FN, FB, FT>, op: &String) -> (r: Result<bool, ErrorCode>)
    requires
        evaluator_ok(*ev),
    ensures
        result_view(r) == outcome(ev.deterministic, op@),
{
    proof {
        reveal(evaluator_ok);
    }
    let r = (ev.deterministic)(op);
    proof {
        lemma_outcome(ev.deterministic, op, r);
    }
    r
}

fn call_evaluate<
    FD: Fn(&String) -> Result<bool, ErrorCode>,
    FE: Fn(&Expression) -> Result<(DataValue, DataType), ErrorCode>,
    FN: Fn(&Expression) -> String,
    FB: Fn(&DataValue) -> Result<bool, ErrorCode>,
    FT: Fn(&DataValue) -> String,
>(ev: &Evaluator<FD, FE, FN, FB, FT>, e: &Expression) -> (r: Result<(DataValue, DataType), ErrorCode>)
    requires
        evaluator_ok(*ev),
    ensures
        result_view(r) == outcome(ev.evaluate, e@),
{
    proof {
        reveal(evaluator_ok);
    }
    let r = (ev.evaluate)(e);
    proof {
        lemma_outcome(ev.evaluate, e, r);
    }
    r
}

fn call_column_name<
    FD: Fn(&String) -> Result<bool, ErrorCode>,
    FE: Fn(&Expression) -> Result<(DataValue, DataType), ErrorCode>,
    FN: Fn(&Expression) -> String,
    FB: Fn(&DataValue) -> Result<bool, ErrorCode>,
    FT: Fn(&DataValue) -> String,
>(ev: &Evaluator<FD, FE, FN, FB, FT>, e: &Expression) -> (r: String)
    requires
        evaluator_ok(*ev),
    ensures
        r@ == name_of(ev.column_name, e@),
{
    proof {
        reveal(evaluator_ok);
    }
    let r = (ev.column_name)(e);
    proof {
        lemma_name_of(ev.column_name, e, r);
    }
    r
}

fn call_as_bool<
    FD: Fn(&String) -> Result<bool, ErrorCode>,
    FE: Fn(&Expression) -> Result<(DataValue, DataType), ErrorCode>,
    FN: Fn(&Expression) -> String,
    FB: Fn(&DataValue) -> Result<bool, ErrorCode>,
    FT: Fn(&DataValue) -> String,
>(ev: &Evaluator<FD, FE, FN, FB, FT>, v: &DataValue) -> (r: Result<bool, ErrorCode>)
    requires
        evaluator_ok(*ev),
    ensures
        result_view(r) == outcome(ev.as_bool, v@),
{
    proof {
        reveal(evaluator_ok);
    }
    let r = (ev.as_bool)(v);
    proof {
        lemma_outcome(ev.as_bool, v, r);
    }
    r
}

fn call_text<
    FD: Fn(&String) -> Result<bool, ErrorCode>,
    FE: Fn(&Expression) -> Result<(DataValue, DataType), ErrorCode>,
    FN: Fn(&Expression) -> String,
    FB: Fn(&DataValue) -> Result<bool, ErrorCode>,
    FT: Fn(&DataValue) -> String,
>(ev: &Evaluator<FD, FE, FN, FB, FT>, v: &DataValue) -> (r: String)
    requires
        evaluator_ok(*ev),
    ensures
        r@ == name_of(ev.text, v@),
{
    proof {
        reveal(evaluator_ok);
    }
    let r = (ev.text)(v);
    proof {
        lemma_name_of(ev.text, v, r);
    }
    r
}

/// Whether `chrono::NaiveDate::parse_from_str` reads the text as a date in
/// the format.
pub uninterp spec fn date_parses(s: Seq<char>, fmt: Seq<char>) -> bool;

/// Whether `chrono::NaiveDateTime::parse_from_str` reads the text as a date
/// and time in the format.
pub uninterp spec fn datetime_parses(s: Seq<char>, fmt: Seq<char>) -> bool;

/// `chrono::NaiveDate::parse_from_str(s, fmt)` succeeds; named by `date_parses`.
#[verifier::external_body]
fn parses_as_date(s: &str, fmt: &str) -> (b: bool)
    ensures
        b == date_parses(s@, fmt@),
{
    chrono::NaiveDate::parse_from_str(s, fmt).is_ok()
}

/// `chrono::NaiveDateTime::parse_from_str(s, fmt)` succeeds; named by
/// `datetime_parses`.
#[verifier::external_body]
fn parses_as_datetime(s: &str, fmt: &str) -> (b: bool)
    ensures
        b == datetime_parses(s@, fmt@),
{
    chrono::NaiveDateTime::parse_from_str(s, fmt).is_ok()
}

/// How a call that is not folded is rebuilt.
#[derive(Debug, Clone, Copy, PartialEq, Eq, Structural)]
pub enum Shape {
    Scalar,
    Unary,
    Binary,
}

pub open spec fn shaped(shape: Shape, op: Seq<char>, args: Seq<ExprV>) -> ExprV {
    match shape {
        Shape::Scalar => ExprV::ScalarFunction { op, args },
        Shape::Unary => ExprV::UnaryExpression { op, expr: Box::new(args[0]) },
        Shape::Binary => ExprV::BinaryExpression { left: Box::new(args[0]), op, right: Box::new(args[1]) },
    }
}

/// Every argument is a literal.
pub open spec fn all_literals(args: Seq<ExprV>) -> bool {
    forall|i: int| 0 <= i < args.len() ==> #[trigger] args[i] is Literal
}

/// The literal that replaces `x` once evaluated, named `name`.
pub open spec fn executed<
    FD: Fn(&String) -> Result<bool, ErrorCode>,
    FE: Fn(&Expression) -> Result<(DataValue, DataType), ErrorCode>,
    FN: Fn(&Expression) -> String,
    FB: Fn(&DataValue) -> Result<bool, ErrorCode>,
    FT: Fn(&DataValue) -> String,
>(ev: Evaluator<FD, FE, FN, FB, FT>, x: ExprV, name: Seq<char>) -> Result<ExprV, ErrV> {
    match outcome(ev.evaluate, x) {
        Ok((value, data_type)) => Ok(ExprV::Literal { value, column_name: Some(name), data_type }),
        Err(e) => Err(e),
    }
}

/// A call of `op` on `args`: evaluated when `op` is deterministic and every
/// argument is a literal, rebuilt otherwise.
pub open spec fn rewritten<
    FD: Fn(&String) -> Result<bool, ErrorCode>,
    FE: Fn(&Expression) -> Result<(DataValue, DataType), ErrorCode>,
    FN: Fn(&Expression) -> String,
    FB: Fn(&DataValue) -> Result<bool, ErrorCode>,
    FT: Fn(&DataValue) -> String,
>(
    ev: Evaluator<FD, FE, FN, FB, FT>,
    op: Seq<char>,
    args: Seq<ExprV>,
    name: Seq<char>,
    shape: Shape,
) -> Result<ExprV, ErrV> {
    match outcome(ev.deterministic, op) {
        Err(e) => Err(e),
        Ok(det) => if det && all_literals(args) {
            executed(ev, ExprV::ScalarFunction { op, args }, name)
        } else {
            Ok(shaped(shape, op, args))
        },
    }
}

/// A boolean literal named `name`.
pub open spec fn bool_literal(b: bool, name: Seq<char>) -> ExprV {
    ExprV::Literal { value: ValueV::Boolean(Some(b)), column_name: Some(name), data_type: DataType::Boolean }
}

/// A string literal that reads as a date (or else as a date and time) becomes
/// a call of `toDate` (or `toDateTime`) on it, folded; other expressions stay
/// as they are. The error of that call where it fails.
pub open spec fn date_converted<
    FD: Fn(&String) -> Result<bool, ErrorCode>,
    FE: Fn(&Expression) -> Result<(DataValue, DataType), ErrorCode>,
    FN: Fn(&Expression) -> String,
    FB: Fn(&DataValue) -> Result<bool, ErrorCode>,
    FT: Fn(&DataValue) -> String,
>(ev: Evaluator<FD, FE, FN, FB, FT>, x: ExprV) -> Result<ExprV, ErrV> {
    match x {
        ExprV::Literal { value, data_type, .. } => {
            if data_type != DataType::Text {
                Ok(x)
            } else {
                let t = name_of(ev.text, value);
                let name = name_of(ev.column_name, x);
                if date_parses(t, "%Y-%m-%d"@) {
                    rewritten(ev, "toDate"@, seq![x], name, Shape::Scalar)
                } else if datetime_parses(t, "%Y-%m-%d %H:%M:%S"@) {
                    rewritten(ev, "toDateTime"@, seq![x], name, Shape::Scalar)
                } else {
                    Ok(x)
                }
            }
        },
        _ => Ok(x),
    }
}

/// The first `k` expressions converted in order; the first failure wins.
pub open spec fn converted_upto<
    FD: Fn(&String) -> Result<bool, ErrorCode>,
    FE: Fn(&Expression) -> Result<(DataValue, DataType), ErrorCode>,
    FN: Fn(&Expression) -> String,
    FB: Fn(&DataValue) -> Result<bool, ErrorCode>,
    FT: Fn(&DataValue) -> String,
>(ev: Evaluator<FD, FE, FN, FB, FT>, s: Seq<ExprV>, k: nat) -> Result<Seq<ExprV>, ErrV>
    decreases k,
{
    if k == 0 || k > s.len() {
        Ok(Seq::empty())
    } else {
        match converted_upto(ev, s, (k - 1) as nat) {
            Err(e) => Err(e),
            Ok(done) => match date_converted(ev, s[k - 1]) {
                Err(e) => Err(e),
                Ok(y) => Ok(done.push(y)),
            },
        }
    }
}

/// The date conversion of a list, in order; the first failure wins.
pub open spec fn converted_all<
    FD: Fn(&String) -> Result<bool, ErrorCode>,
    FE: Fn(&Expression) -> Result<(DataValue, DataType), ErrorCode>,
    FN: Fn(&Expression) -> String,
    FB: Fn(&DataValue) -> Result<bool, ErrorCode>,
    FT: Fn(&DataValue) -> String,
>(ev: Evaluator<FD, FE, FN, FB, FT>, s: Seq<ExprV>) -> Result<Seq<ExprV>, ErrV> {
    converted_upto(ev, s, s.len())
}

/// `AND` (or `OR`) of two folded sides, neither of which decided the whole.
pub open spec fn joined(nl: ExprV, lc: bool, nr: ExprV, rc: bool, name: Seq<char>, is_and: bool) -> ExprV {
    if lc && rc {
        bool_literal(is_and, name)
    } else if lc {
        nr
    } else if rc {
        nl
    } else {
        ExprV::BinaryExpression {
            left: Box::new(nl),
            op: if is_and { "and"@ } else { "or"@ },
            right: Box::new(nr),
        }
    }
}

/// One side of an `AND` (`is_and`) or `OR`, folded: the new side, whether it
/// is a constant, and whether that constant decides the whole condition (in
/// which case the first component is the whole condition's value).
pub open spec fn cond<
    FD: Fn(&String) -> Result<bool, ErrorCode>,
    FE: Fn(&Expression) -> Result<(DataValue, DataType), ErrorCode>,
    FN: Fn(&Expression) -> String,
    FB: Fn(&DataValue) -> Result<bool, ErrorCode>,
    FT: Fn(&DataValue) -> String,
>(ev: Evaluator<FD, FE, FN, FB, FT>, x: ExprV, name: Seq<char>, is_and: bool) -> Result<(ExprV, bool, bool), ErrV>
    decreases x, 2nat, 0nat,
{
    match folded(ev, x) {
        Err(er) => Err(er),
        Ok(n) => match n {
            ExprV::Literal { value, .. } => match outcome(ev.as_bool, value) {
                Err(er) => Err(er),
                Ok(val) => if val && !is_and {
                    Ok((bool_literal(true, name), true, true))
                } else if !val && is_and {
                    Ok((bool_literal(false, name), true, true))
                } else {
                    Ok((n, true, false))
                },
            },
            _ => Ok((n, false, false)),
        },
    }
}

/// An `AND` (`is_and`) or `OR` expression `e`, folded.
pub open spec fn const_cond<
    FD: Fn(&String) -> Result<bool, ErrorCode>,
    FE: Fn(&Expression) -> Result<(DataValue, DataType), ErrorCode>,
    FN: Fn(&Expression) -> String,
    FB: Fn(&DataValue) -> Result<bool, ErrorCode>,
    FT: Fn(&DataValue) -> String,
>(ev: Evaluator<FD, FE, FN, FB, FT>, e: ExprV, name: Seq<char>, is_and: bool) -> Result<ExprV, ErrV>
    decreases e, 0nat, 0nat,
{
    match e {
        ExprV::BinaryExpression { left, right, .. } => match cond(ev, *left, name, is_and) {
            Err(er) => Err(er),
            Ok((nl, lc, lr)) => if lr {
                Ok(nl)
            } else {
                match cond(ev, *right, name, is_and) {
                    Err(er) => Err(er),
                    Ok((nr, rc, rr)) => if rr { Ok(nr) } else { Ok(joined(nl, lc, nr, rc, name, is_and)) },
                }
            },
        },
        _ => Ok(e),
    }
}

/// The first `k` arguments folded, in order; the first failure wins.
pub open spec fn folded_args<
    FD: Fn(&String) -> Result<bool, ErrorCode>,
    FE: Fn(&Expression) -> Result<(DataValue, DataType), ErrorCode>,
    FN: Fn(&Expression) -> String,
    FB: Fn(&DataValue) -> Result<bool, ErrorCode>,
    FT: Fn(&DataValue) -> String,
>(ev: Evaluator<FD, FE, FN, FB, FT>, args: Seq<ExprV>, k: nat) -> Result<Seq<ExprV>, ErrV>
    decreases args, 0nat, k,
{
    if k == 0 || k > args.len() {
        Ok(Seq::empty())
    } else {
        match folded_args(ev, args, (k - 1) as nat) {
            Err(er) => Err(er),
            Ok(s) => match folded(ev, args[k - 1]) {
                Err(er) => Err(er),
                Ok(n) => Ok(s.push(n)),
            },
        }
    }
}

/// An expression with its constant parts folded.
pub open spec fn folded<
    FD: Fn(&String) -> Result<bool, ErrorCode>,
    FE: Fn(&Expression) -> Result<(DataValue, DataType), ErrorCode>,
    FN: Fn(&Expression) -> String,
    FB: Fn(&DataValue) -> Result<bool, ErrorCode>,
    FT: Fn(&DataValue) -> String,
>(ev: Evaluator<FD, FE, FN, FB, FT>, e: ExprV) -> Result<ExprV, ErrV>
    decreases e, 1nat, 0nat,
{
    let name = name_of(ev.column_name, e);
    match e {
        ExprV::Alias(a, x) => match folded(ev, *x) {
            Ok(n) => Ok(ExprV::Alias(a, Box::new(n))),
            Err(er) => Err(er),
        },
        ExprV::ScalarFunction { op, args } => match folded_args(ev, args, args.len()) {
            Ok(na) => rewritten(ev, op, na, name, Shape::Scalar),
            Err(er) => Err(er),
        },
        ExprV::UnaryExpression { op, expr } => match folded(ev, *expr) {
            Ok(n) => rewritten(ev, op, seq![n], name, Shape::Unary),
            Err(er) => Err(er),
        },
        ExprV::BinaryExpression { left, op, right } => if lowercase(op) == "and"@ {
            const_cond(ev, e, name, true)
        } else if lowercase(op) == "or"@ {
            const_cond(ev, e, name, false)
        } else {
            match folded(ev, *left) {
                Err(er) => Err(er),
                Ok(nl) => match folded(ev, *right) {
                    Err(er) => Err(er),
                    Ok(nr) => match converted_all(ev, seq![nl, nr]) {
                        Ok(c) => rewritten(ev, op, c, name, Shape::Binary),
                        Err(er) => Err(er),
                    },
                },
            }
        },
        ExprV::Cast { expr, data_type } => match folded(ev, *expr) {
            Err(er) => Err(er),
            Ok(n) => if n is Literal {
                executed(ev, ExprV::Cast { expr: Box::new(n), data_type }, name)
            } else {
                Ok(ExprV::Cast { expr: Box::new(n), data_type })
            },
        },
        ExprV::Sort { expr, asc, nulls_first } => match folded(ev, *expr) {
            Err(er) => Err(er),
            Ok(n) => Ok(ExprV::Sort { expr: Box::new(n), asc, nulls_first }),
        },
        ExprV::AggregateFunction { op, distinct, params, args } => match folded_args(ev, args, args.len()) {
            Err(er) => Err(er),
            Ok(na) => Ok(ExprV::AggregateFunction { op, distinct, params, args: na }),
        },
        _ => Ok(e),
    }
}

/// `alias` naming `expr`.
fn rewrite_alias(alias: &String, expr: Expression) -> (r: Expression)
    ensures
        r@ == ExprV::Alias(alias@, Box::new(expr@)),
{
    Expression::Alias(alias.clone(), Box::new(expr))
}

/// Whether every argument is a literal.
fn constants_arguments(args: &Vec<Expression>) -> (b: bool)
    ensures
        b == all_literals(args_view(*args)),
{
    proof {
        lemma_exprs_view(args@, args@.len());
    }
    let mut i: usize = 0;
    while i < args.len()
        invariant
            i <= args@.len(),
            exprs_view(args@, args@.len()).len() == args@.len(),
            forall|j: int| 0 <= j < args@.len() ==> #[trigger] exprs_view(args@, args@.len())[j] == expr_view(args@[j]),
            forall|j: int| 0 <= j < i ==> #[trigger] exprs_view(args@, args@.len())[j] is Literal,
        decreases args@.len() - i,
    {
        if !matches!(args[i], Expression::Literal { .. }) {
            assert(!(exprs_view(args@, args@.len())[i as int] is Literal));
            return false;
        }
        i = i + 1;
    }
    true
}

/// A literal holding `value` of type `data_type`, named `column_name`.
fn convert_to_expression(column_name: String, value: DataValue, data_type: DataType) -> (r: Expression)
    ensures
        r@ == (ExprV::Literal { value: value@, column_name: Some(column_name@), data_type }),
{
    Expression::Literal { value, column_name: Some(column_name), data_type }
}

/// Evaluates `expression` and gives the literal that replaces it, named
/// `origin_name`.
fn execute_expression<
    FD: Fn(&String) -> Result<bool, ErrorCode>,
    FE: Fn(&Expression) -> Result<(DataValue, DataType), ErrorCode>,
    FN: Fn(&Expression) -> String,
    FB: Fn(&DataValue) -> Result<bool, ErrorCode>,
    FT: Fn(&DataValue) -> String,
>(ev: &Evaluator<FD, FE, FN, FB, FT>, expression: Expression, origin_name: String) -> (r: Result<Expression, ErrorCode>)
    requires
        evaluator_ok(*ev),
    ensures
        result_view(r) == executed(*ev, expression@, origin_name@),
{
    match call_evaluate(ev, &expression) {
        Ok((value, data_type)) => Ok(convert_to_expression(origin_name, value, data_type)),
        Err(e) => Err(e),
    }
}

/// A call rebuilt in its shape.
fn shape_expr(shape: Shape, op: &String, args: Vec<Expression>) -> (r: Expression)
    requires
        shape == Shape::Unary ==> args@.len() == 1,
        shape == Shape::Binary ==> args@.len() == 2,
    ensures
        r@ == shaped(shape, op@, args_view(args)),
{
    proof {
        lemma_exprs_view(args@, args@.len());
    }
    match shape {
        Shape::Scalar => Expression::ScalarFunction { op: op.clone(), args },
        Shape::Unary => {
            let mut a = args;
            let x = a.remove(0);
            Expression::UnaryExpression { op: op.clone(), expr: Box::new(x) }
        },
        Shape::Binary => {
            let mut a = args;
            let l = a.remove(0);
            let r = a.remove(0);
            Expression::BinaryExpression { left: Box::new(l), op: op.clone(), right: Box::new(r) }
        },
    }
}

/// A call of `op` on folded arguments: evaluated when `op` is deterministic
/// and every argument is a literal, rebuilt in its shape otherwise.
fn rewrite_function<
    FD: Fn(&String) -> Result<bool, ErrorCode>,
    FE: Fn(&Expression) -> Result<(DataValue, DataType), ErrorCode>,
    FN: Fn(&Expression) -> String,
    FB: Fn(&DataValue) -> Result<bool, ErrorCode>,
    FT: Fn(&DataValue) -> String,
>(
    ev: &Evaluator<FD, FE, FN, FB, FT>,
    op: &String,
    args: Vec<Expression>,
    name: String,
    shape: Shape,
) -> (r: Result<Expression, ErrorCode>)
    requires
        evaluator_ok(*ev),
        shape == Shape::Unary ==> args@.len() == 1,
        shape == Shape::Binary ==> args@.len() == 2,
    ensures
        result_view(r) == rewritten(*ev, op@, args_view(args), name@, shape),
{
    match call_deterministic(ev, op) {
        Err(e) => Err(e),
        Ok(det) => {
            if det && constants_arguments(&args) {
                let call = Expression::ScalarFunction { op: op.clone(), args };
                execute_expression(ev, call, name)
            } else {
                Ok(shape_expr(shape, op, args))
            }
        },
    }
}

/// A list of one expression.
fn single(x: Expression) -> (v: Vec<Expression>)
    ensures
        args_view(v) == seq![x@],
        v@.len() == 1,
{
    let mut v: Vec<Expression> = Vec::new();
    proof {
        lemma_exprs_view_push(v@, x);
    }
    v.push(x);
    assert(Seq::<ExprV>::empty().push(x@) =~= seq![x@]);
    v
}

/// A list of two expressions.
fn pair(x: Expression, y: Expression) -> (v: Vec<Expression>)
    ensures
        args_view(v) == seq![x@, y@],
        v@.len() == 2,
{
    let mut v = single(x);
    proof {
        lemma_exprs_view_push(v@, y);
    }
    v.push(y);
    assert(seq![x@].push(y@) =~= seq![x@, y@]);
    v
}

/// A date-like string literal turned into a date; anything else copied.
fn convert_one<
    FD: Fn(&String) -> Result<bool, ErrorCode>,
    FE: Fn(&Expression) -> Result<(DataValue, DataType), ErrorCode>,
    FN: Fn(&Expression) -> String,
    FB: Fn(&DataValue) -> Result<bool, ErrorCode>,
    FT: Fn(&DataValue) -> String,
>(ev: &Evaluator<FD, FE, FN, FB, FT>, e: &Expression) -> (r: Result<Expression, ErrorCode>)
    requires
        evaluator_ok(*ev),
    ensures
        result_view(r) == date_converted(*ev, e@),
{
    match e {
        Expression::Literal { value, data_type, .. } => {
            if !matches!(data_type, DataType::Text) {
                return Ok(copy_expr(e));
            }
            let text = call_text(ev, value);
            let date = parses_as_date(text.as_str(), "%Y-%m-%d");
            let datetime = parses_as_datetime(text.as_str(), "%Y-%m-%d %H:%M:%S");
            let op_function = if date {
                String::from_str("toDate")
            } else if datetime {
                String::from_str("toDateTime")
            } else {
                return Ok(copy_expr(e));
            };
            let name = call_column_name(ev, e);
            let args = single(copy_expr(e));
            rewrite_function(ev, &op_function, args, name, Shape::Scalar)
        },
        _ => Ok(copy_expr(e)),
    }
}

/// Once the first `k` conversions fail, every longer prefix fails the same way.
proof fn lemma_converted_err<
    FD: Fn(&String) -> Result<bool, ErrorCode>,
    FE: Fn(&Expression) -> Result<(DataValue, DataType), ErrorCode>,
    FN: Fn(&Expression) -> String,
    FB: Fn(&DataValue) -> Result<bool, ErrorCode>,
    FT: Fn(&DataValue) -> String,
>(ev: Evaluator<FD, FE, FN, FB, FT>, s: Seq<ExprV>, k: nat, m: nat, er: ErrV)
    requires
        k <= m <= s.len(),
        converted_upto(ev, s, k) == Err::<Seq<ExprV>, ErrV>(er),
    ensures
        converted_upto(ev, s, m) == Err::<Seq<ExprV>, ErrV>(er),
    decreases m - k,
{
    if k < m {
        lemma_converted_err(ev, s, k, (m - 1) as nat, er);
    }
}

/// Turns the date-like string literals of a list into dates, in order; the
/// first conversion that fails gives its error.
fn try_convert_to_date<
    FD: Fn(&String) -> Result<bool, ErrorCode>,
    FE: Fn(&Expression) -> Result<(DataValue, DataType), ErrorCode>,
    FN: Fn(&Expression) -> String,
    FB: Fn(&DataValue) -> Result<bool, ErrorCode>,
    FT: Fn(&DataValue) -> String,
>(ev: &Evaluator<FD, FE, FN, FB, FT>, exprs: Vec<Expression>) -> (r: Result<Vec<Expression>, ErrorCode>)
    requires
        evaluator_ok(*ev),
    ensures
        match r {
            Ok(v) => converted_all(*ev, args_view(exprs)) == Ok::<Seq<ExprV>, ErrV>(args_view(v)) && v@.len() == exprs@.len(),
            Err(e) => converted_all(*ev, args_view(exprs)) == Err::<Seq<ExprV>, ErrV>(e@),
        },
{
    proof {
        lemma_exprs_view(exprs@, exprs@.len());
    }
    let ghost av = args_view(exprs);
    let mut out: Vec<Expression> = Vec::new();
    let mut i: usize = 0;
    while i < exprs.len()
        invariant
            evaluator_ok(*ev),
            i <= exprs@.len(),
            out@.len() == i,
            av == args_view(exprs),
            av.len() == exprs@.len(),
            forall|j: int| 0 <= j < exprs@.len() ==> #[trigger] av[j] == expr_view(exprs@[j]),
            converted_upto(*ev, av, i as nat) == Ok::<Seq<ExprV>, ErrV>(args_view(out)),
        decreases exprs@.len() - i,
    {
        match convert_one(ev, &exprs[i]) {
            Ok(c) => {
                proof {
                    lemma_exprs_view_push(out@, c);
                }
                out.push(c);
            },
            Err(e) => {
                proof {
                    lemma_converted_err(*ev, av, (i + 1) as nat, av.len(), e@);
                }
                return Err(e);
            },
        }
        i = i + 1;
    }
    Ok(out)
}

/// Once the first `k` arguments fail, every longer prefix fails the same way.
proof fn lemma_folded_args_err<
    FD: Fn(&String) -> Result<bool, ErrorCode>,
    FE: Fn(&Expression) -> Result<(DataValue, DataType), ErrorCode>,
    FN: Fn(&Expression) -> String,
    FB: Fn(&DataValue) -> Result<bool, ErrorCode>,
    FT: Fn(&DataValue) -> String,
>(ev: Evaluator<FD, FE, FN, FB, FT>, args: Seq<ExprV>, k: nat, m: nat, er: ErrV)
    requires
        k <= m <= args.len(),
        folded_args(ev, args, k) == Err::<Seq<ExprV>, ErrV>(er),
    ensures
        folded_args(ev, args, m) == Err::<Seq<ExprV>, ErrV>(er),
    decreases m - k,
{
    if k < m {
        lemma_folded_args_err(ev, args, k, (m - 1) as nat, er);
    }
}

/// Folds each argument in turn; the first failure is returned.
fn fold_args<
    FD: Fn(&String) -> Result<bool, ErrorCode>,
    FE: Fn(&Expression) -> Result<(DataValue, DataType), ErrorCode>,
    FN: Fn(&Expression) -> String,
    FB: Fn(&DataValue) -> Result<bool, ErrorCode>,
    FT: Fn(&DataValue) -> String,
>(ev: &Evaluator<FD, FE, FN, FB, FT>, args: &Vec<Expression>) -> (r: Result<Vec<Expression>, ErrorCode>)
    requires
        evaluator_ok(*ev),
    ensures
        match r {
            Ok(v) => folded_args(*ev, args_view(*args), args@.len()) == Ok::<Seq<ExprV>, ErrV>(args_view(v)),
            Err(e) => folded_args(*ev, args_view(*args), args@.len()) == Err::<Seq<ExprV>, ErrV>(e@),
        },
    decreases args, 0nat, 0nat,
{
    let ghost av = args_view(*args);
    proof {
        lemma_exprs_view(args@, args@.len());
    }
    let mut out: Vec<Expression> = Vec::new();
    let mut i: usize = 0;
    while i < args.len()
        invariant
            evaluator_ok(*ev),
            i <= args@.len(),
            av == args_view(*args),
            av.len() == args@.len(),
            forall|j: int| 0 <= j < args@.len() ==> #[trigger] av[j] == expr_view(args@[j]),
            folded_args(*ev, av, i as nat) == Ok::<Seq<ExprV>, ErrV>(args_view(out)),
        decreases args@.len() - i,
    {
        proof {
            assert(decreases_to!(*args => args@));
            assert(decreases_to!(args@ => args@[i as int]));
        }
        match fold_expr(ev, &args[i]) {
            Ok(n) => {
                proof {
                    lemma_exprs_view_push(out@, n);
                }
                out.push(n);
            },
            Err(e) => {
                proof {
                    lemma_folded_args_err(*ev, av, (i + 1) as nat, av.len(), e@);
                }
                return Err(e);
            },
        }
        i = i + 1;
    }
    Ok(out)
}

/// One side of an `AND` (`is_and`) or `OR`, folded: the new side, whether it
/// is a constant, and whether that constant decides the whole condition.
fn eval_const_cond<
    FD: Fn(&String) -> Result<bool, ErrorCode>,
    FE: Fn(&Expression) -> Result<(DataValue, DataType), ErrorCode>,
    FN: Fn(&Expression) -> String,
    FB: Fn(&DataValue) -> Result<bool, ErrorCode>,
    FT: Fn(&DataValue) -> String,
>(ev: &Evaluator<FD, FE, FN, FB, FT>, column_name: &String, expr: &Expression, is_and: bool)
    -> (r: Result<(Expression, bool, bool), ErrorCode>)
    requires
        evaluator_ok(*ev),
    ensures
        match r {
            Ok((n, c, rm)) => cond(*ev, expr@, column_name@, is_and) == Ok::<(ExprV, bool, bool), ErrV>((n@, c, rm)),
            Err(e) => cond(*ev, expr@, column_name@, is_and) == Err::<(ExprV, bool, bool), ErrV>(e@),
        },
    decreases expr, 2nat, 0nat,
{
    let new_expr = match fold_expr(ev, expr) {
        Ok(n) => n,
        Err(e) => return Err(e),
    };
    let val: Option<bool> = match &new_expr {
        Expression::Literal { value, .. } => match call_as_bool(ev, value) {
            Ok(b) => Some(b),
            Err(e) => return Err(e),
        },
        _ => None,
    };
    match val {
        Some(v) => {
            if v && !is_and {
                Ok((Expression::Literal {
                    value: DataValue::Boolean(Some(true)),
                    column_name: Some(column_name.clone()),
                    data_type: DataType::Boolean,
                }, true, true))
            } else if !v && is_and {
                Ok((Expression::Literal {
                    value: DataValue::Boolean(Some(false)),
                    column_name: Some(column_name.clone()),
                    data_type: DataType::Boolean,
                }, true, true))
            } else {
                Ok((new_expr, true, false))
            }
        },
        None => Ok((new_expr, false, false)),
    }
}

/// An `AND` (`is_and`) or `OR` condition with its constant sides removed.
fn remove_const_cond<
    FD: Fn(&String) -> Result<bool, ErrorCode>,
    FE: Fn(&Expression) -> Result<(DataValue, DataType), ErrorCode>,
    FN: Fn(&Expression) -> String,
    FB: Fn(&DataValue) -> Result<bool, ErrorCode>,
    FT: Fn(&DataValue) -> String,
>(ev: &Evaluator<FD, FE, FN, FB, FT>, origin: &Expression, column_name: String, is_and: bool)
    -> (r: Result<Expression, ErrorCode>)
    requires
        evaluator_ok(*ev),
    ensures
        result_view(r) == const_cond(*ev, origin@, column_name@, is_and),
    decreases origin, 0nat, 0nat,
{
    match origin {
        Expression::BinaryExpression { left, right, .. } => {
            let (new_left, left_const, left_remove) = match eval_const_cond(ev, &column_name, left, is_and) {
                Ok(t) => t,
                Err(e) => return Err(e),
            };
            if left_remove {
                return Ok(new_left);
            }
            let (new_right, right_const, right_remove) = match eval_const_cond(ev, &column_name, right, is_and) {
                Ok(t) => t,
                Err(e) => return Err(e),
            };
            if right_remove {
                return Ok(new_right);
            }
            if left_const && right_const {
                Ok(Expression::Literal {
                    value: DataValue::Boolean(Some(is_and)),
                    column_name: Some(column_name),
                    data_type: DataType::Boolean,
                })
            } else if left_const {
                Ok(new_right)
            } else if right_const {
                Ok(new_left)
            } else {
                let op = if is_and { String::from_str("and") } else { String::from_str("or") };
                Ok(Expression::BinaryExpression { left: Box::new(new_left), op, right: Box::new(new_right) })
            }
        },
        _ => Ok(copy_expr(origin)),
    }
}

/// An expression with its constant parts folded.
fn fold_expr<
    FD: Fn(&String) -> Result<bool, ErrorCode>,
    FE: Fn(&Expression) -> Result<(DataValue, DataType), ErrorCode>,
    FN: Fn(&Expression) -> String,
    FB: Fn(&DataValue) -> Result<bool, ErrorCode>,
    FT: Fn(&DataValue) -> String,
>(ev: &Evaluator<FD, FE, FN, FB, FT>, origin: &Expression) -> (r: Result<Expression, ErrorCode>)
    requires
        evaluator_ok(*ev),
    ensures
        result_view(r) == folded(*ev, origin@),
    decreases origin, 1nat, 0nat,
{
    match origin {
        Expression::Alias(alias, expr) => match fold_expr(ev, expr) {
            Ok(n) => Ok(rewrite_alias(alias, n)),
            Err(e) => Err(e),
        },
        Expression::ScalarFunction { op, args } => {
            proof {
                lemma_exprs_view(args@, args@.len());
            }
            let new_args = match fold_args(ev, args) {
                Ok(a) => a,
                Err(e) => return Err(e),
            };
            let origin_name = call_column_name(ev, origin);
            rewrite_function(ev, op, new_args, origin_name, Shape::Scalar)
        },
        Expression::UnaryExpression { op, expr } => {
            let origin_name = call_column_name(ev, origin);
            let new_expr = match fold_expr(ev, expr) {
                Ok(n) => n,
                Err(e) => return Err(e),
            };
            rewrite_function(ev, op, single(new_expr), origin_name, Shape::Unary)
        },
        Expression::BinaryExpression { left, op, right } => {
            let lower = to_lowercase(op.as_str());
            let origin_name = call_column_name(ev, origin);
            if lower == String::from_str("and") {
                remove_const_cond(ev, origin, origin_name, true)
            } else if lower == String::from_str("or") {
                remove_const_cond(ev, origin, origin_name, false)
            } else {
                let new_left = match fold_expr(ev, left) {
                    Ok(n) => n,
                    Err(e) => return Err(e),
                };
                let new_right = match fold_expr(ev, right) {
                    Ok(n) => n,
                    Err(e) => return Err(e),
                };
                let ghost pv = seq![new_left@, new_right@];
                let both = pair(new_left, new_right);
                assert(args_view(both) == pv);
                let new_exprs = match try_convert_to_date(ev, both) {
                    Ok(v) => v,
                    Err(e) => return Err(e),
                };
                rewrite_function(ev, op, new_exprs, origin_name, Shape::Binary)
            }
        },
        Expression::Cast { expr, data_type } => {
            let new_expr = match fold_expr(ev, expr) {
                Ok(n) => n,
                Err(e) => return Err(e),
            };
            if matches!(new_expr, Expression::Literal { .. }) {
                let origin_name = call_column_name(ev, origin);
                let optimize_expr = Expression::Cast { expr: Box::new(new_expr), data_type: *data_type };
                return execute_expression(ev, optimize_expr, origin_name);
            }
            Ok(Expression::Cast { expr: Box::new(new_expr), data_type: *data_type })
        },
        Expression::Sort { expr, asc, nulls_first } => match fold_expr(ev, expr) {
            Ok(n) => Ok(create_sort(asc, nulls_first, n)),
            Err(e) => Err(e),
        },
        Expression::AggregateFunction { op, distinct, params, args } => {
            proof {
                lemma_exprs_view(args@, args@.len());
            }
            let new_args = match fold_args(ev, args) {
                Ok(a) => a,
                Err(e) => return Err(e),
            };
            Ok(Expression::AggregateFunction {
                op: op.clone(),
                distinct: *distinct,
                params: copy_values(params),
                args: new_args,
            })
        },
        _ => Ok(copy_expr(origin)),
    }
}

/// A sort key on `new_expr`.
fn create_sort(asc: &bool, nulls_first: &bool, new_expr: Expression) -> (r: Expression)
    ensures
        r@ == (ExprV::Sort { expr: Box::new(new_expr@), asc: *asc, nulls_first: *nulls_first }),
{
    Expression::Sort { expr: Box::new(new_expr), asc: *asc, nulls_first: *nulls_first }
}

/// All expressions of a list folded, in order; the first failure wins.
pub open spec fn folded_list<
    FD: Fn(&String) -> Result<bool, ErrorCode>,
    FE: Fn(&Expression) -> Result<(DataValue, DataType), ErrorCode>,
    FN: Fn(&Expression) -> String,
    FB: Fn(&DataValue) -> Result<bool, ErrorCode>,
    FT: Fn(&DataValue) -> String,
>(ev: Evaluator<FD, FE, FN, FB, FT>, es: Vec<Expression>) -> Result<Seq<ExprV>, ErrV> {
    folded_args(ev, args_view(es), es@.len())
}

pub open spec fn list_result_view(r: Result<Vec<Expression>, ErrorCode>) -> Result<Seq<ExprV>, ErrV> {
    match r {
        Ok(v) => Ok(args_view(v)),
        Err(e) => Err(e@),
    }
}

/// What an aggregation's expressions become: the aggregates folded, then
/// the group keys folded; the first failure wins.
pub open spec fn folded_aggregation<
    FD: Fn(&String) -> Result<bool, ErrorCode>,
    FE: Fn(&Expression) -> Result<(DataValue, DataType), ErrorCode>,
    FN: Fn(&Expression) -> String,
    FB: Fn(&DataValue) -> Result<bool, ErrorCode>,
    FT: Fn(&DataValue) -> String,
>(
    ev: Evaluator<FD, FE, FN, FB, FT>,
    aggr_expr: Vec<Expression>,
    group_expr: Vec<Expression>,
) -> Result<(Seq<ExprV>, Seq<ExprV>), ErrV> {
    match folded_list(ev, aggr_expr) {
        Err(e) => Err(e),
        Ok(a) => match folded_list(ev, group_expr) {
            Err(e) => Err(e),
            Ok(g) => Ok((a, g)),
        },
    }
}

pub open spec fn aggregation_view(r: Result<(Vec<Expression>, Vec<Expression>), ErrorCode>) -> Result<(Seq<ExprV>, Seq<ExprV>), ErrV> {
    match r {
        Ok((a, g)) => Ok((args_view(a), args_view(g))),
        Err(e) => Err(e@),
    }
}

/// The error of a partial aggregation met while another one is open.
pub open spec fn partial_twice_message() -> Seq<char> {
    "Logical error: before group by schema must be None"@
}

/// The error of a final aggregation met with no partial one open.
pub open spec fn final_alone_message() -> Seq<char> {
    "Logical error: before group by schema must be Some"@
}

/// The expression rewriter of the constant-folding pass. Between the
/// partial and the final step of an aggregation it keeps the schema of the
/// partial step's input, which the final step needs; `S` is the schema type.
pub struct ConstantFoldingImpl<S> {
    pub before_group_by_schema: Option<S>,
}

impl<S> ConstantFoldingImpl<S> {
    /// A rewriter with no aggregation open.
    pub fn new() -> (r: ConstantFoldingImpl<S>)
        ensures
            r.before_group_by_schema is None,
    {
        ConstantFoldingImpl { before_group_by_schema: None }
    }

    /// `origin` with its constant parts folded. Where a date-like string
    /// literal next to a binary operator cannot be turned into a date, the
    /// error of that conversion is returned.
    pub fn rewrite_expr<
        FD: Fn(&String) -> Result<bool, ErrorCode>,
        FE: Fn(&Expression) -> Result<(DataValue, DataType), ErrorCode>,
        FN: Fn(&Expression) -> String,
        FB: Fn(&DataValue) -> Result<bool, ErrorCode>,
        FT: Fn(&DataValue) -> String,
    >(&self, ev: &Evaluator<FD, FE, FN, FB, FT>, origin: &Expression) -> (r: Result<Expression, ErrorCode>)
        requires
            evaluator_ok(*ev),
        ensures
            result_view(r) == folded(*ev, origin@),
    {
        fold_expr(ev, origin)
    }

    /// Each expression of a list folded; the first failure is returned.
    pub fn rewrite_exprs<
        FD: Fn(&String) -> Result<bool, ErrorCode>,
        FE: Fn(&Expression) -> Result<(DataValue, DataType), ErrorCode>,
        FN: Fn(&Expression) -> String,
        FB: Fn(&DataValue) -> Result<bool, ErrorCode>,
        FT: Fn(&DataValue) -> String,
    >(&self, ev: &Evaluator<FD, FE, FN, FB, FT>, exprs: &Vec<Expression>) -> (r: Result<Vec<Expression>, ErrorCode>)
        requires
            evaluator_ok(*ev),
        ensures
            list_result_view(r) == folded_list(*ev, *exprs),
    {
        fold_args(ev, exprs)
    }

    /// The partial step of an aggregation over an input of schema
    /// `input_schema`: refused while another aggregation is open; otherwise
    /// the schema is kept for the final step and the aggregates and group
    /// keys are folded.
    pub fn rewrite_aggregate_partial<
        FD: Fn(&String) -> Result<bool, ErrorCode>,
        FE: Fn(&Expression) -> Result<(DataValue, DataType), ErrorCode>,
        FN: Fn(&Expression) -> String,
        FB: Fn(&DataValue) -> Result<bool, ErrorCode>,
        FT: Fn(&DataValue) -> String,
    >(
        &mut self,
        ev: &Evaluator<FD, FE, FN, FB, FT>,
        input_schema: S,
        aggr_expr: &Vec<Expression>,
        group_expr: &Vec<Expression>,
    ) -> (r: Result<(Vec<Expression>, Vec<Expression>), ErrorCode>)
        requires
            evaluator_ok(*ev),
        ensures
            old(self).before_group_by_schema is Some ==> {
                &&& aggregation_view(r) == Err::<(Seq<ExprV>, Seq<ExprV>), ErrV>((ErrorKind::LogicalError, partial_twice_message()))
                &&& final(self).before_group_by_schema == old(self).before_group_by_schema
            },
            old(self).before_group_by_schema is None ==> {
                &&& aggregation_view(r) == folded_aggregation(*ev, *aggr_expr, *group_expr)
                &&& final(self).before_group_by_schema == Some(input_schema)
            },
    {
        if self.before_group_by_schema.is_some() {
            return Err(ErrorCode::new(
                ErrorKind::LogicalError,
                String::from_str("Logical error: before group by schema must be None"),
            ));
        }
        self.before_group_by_schema = Some(input_schema);
        let new_aggr_expr = match fold_args(ev, aggr_expr) {
            Ok(v) => v,
            Err(e) => return Err(e),
        };
        let new_group_expr = match fold_args(ev, group_expr) {
            Ok(v) => v,
            Err(e) => return Err(e),
        };
        Ok((new_aggr_expr, new_group_expr))
    }

    /// The final step of an aggregation: refused when no partial step is
    /// open; otherwise it hands back the schema the partial step kept, with
    /// the aggregates and group keys folded. No aggregation is open after it.
    pub fn rewrite_aggregate_final<
        FD: Fn(&String) -> Result<bool, ErrorCode>,
        FE: Fn(&Expression) -> Result<(DataValue, DataType), ErrorCode>,
        FN: Fn(&Expression) -> String,
        FB: Fn(&DataValue) -> Result<bool, ErrorCode>,
        FT: Fn(&DataValue) -> String,
    >(
        &mut self,
        ev: &Evaluator<FD, FE, FN, FB, FT>,
        aggr_expr: &Vec<Expression>,
        group_expr: &Vec<Expression>,
    ) -> (r: Result<(S, Vec<Expression>, Vec<Expression>), ErrorCode>)
        requires
            evaluator_ok(*ev),
        ensures
            final(self).before_group_by_schema is None,
            old(self).before_group_by_schema is None ==> match r {
                Ok(_) => false,
                Err(e) => e@ == (ErrorKind::LogicalError, final_alone_message()),
            },
            old(self).before_group_by_schema is Some ==> match r {
                Ok((s, a, g)) => {
                    &&& old(self).before_group_by_schema == Some(s)
                    &&& folded_aggregation(*ev, *aggr_expr, *group_expr) == Ok::<(Seq<ExprV>, Seq<ExprV>), ErrV>((args_view(a), args_view(g)))
                },
                Err(e) => folded_aggregation(*ev, *aggr_expr, *group_expr) == Err::<(Seq<ExprV>, Seq<ExprV>), ErrV>(e@),
            },
    {
        match self.before_group_by_schema.take() {
            None => Err(ErrorCode::new(
                ErrorKind::LogicalError,
                String::from_str("Logical error: before group by schema must be Some"),
            )),
            Some(schema_before_group_by) => {
                let new_aggr_expr = match fold_args(ev, aggr_expr) {
                    Ok(v) => v,
                    Err(e) => return Err(e),
                };
                let new_group_expr = match fold_args(ev, group_expr) {
                    Ok(v) => v,
                    Err(e) => return Err(e),
                };
                Ok((schema_before_group_by, new_aggr_expr, new_group_expr))
            },
        }
    }
}

/// The constant-folding pass of the optimizer.
pub struct ConstantFoldingOptimizer {}

impl ConstantFoldingOptimizer {
    pub fn create() -> (r: ConstantFoldingOptimizer) {
        ConstantFoldingOptimizer {}
    }

    /// The pass's name.
    pub fn name(&self) -> (r: &'static str)
        ensures
            r@ == "ConstantFolding"@,
    {
        "ConstantFolding"
    }
}

/// A literal is already folded: it stays as it is.
pub proof fn law_literal_is_folded<
    FD: Fn(&String) -> Result<bool, ErrorCode>,
    FE: Fn(&Expression) -> Result<(DataValue, DataType), ErrorCode>,
    FN: Fn(&Expression) -> String,
    FB: Fn(&DataValue) -> Result<bool, ErrorCode>,
    FT: Fn(&DataValue) -> String,
>(ev: Evaluator<FD, FE, FN, FB, FT>, value: ValueV, column_name: Option<Seq<char>>, data_type: DataType)
    ensures
        folded(ev, ExprV::Literal { value, column_name, data_type })
            == Ok::<ExprV, ErrV>(ExprV::Literal { value, column_name, data_type }),
{
}

/// `x AND y` whose left side folds to a false constant is the constant
/// `FALSE`, named after the whole condition; the right side is not looked at.
pub proof fn law_and_with_false_left<
    FD: Fn(&String) -> Result<bool, ErrorCode>,
    FE: Fn(&Expression) -> Result<(DataValue, DataType), ErrorCode>,
    FN: Fn(&Expression) -> String,
    FB: Fn(&DataValue) -> Result<bool, ErrorCode>,
    FT: Fn(&DataValue) -> String,
>(ev: Evaluator<FD, FE, FN, FB, FT>, left: ExprV, op: Seq<char>, right: ExprV)
    requires
        lowercase(op) == "and"@,
        folded(ev, left) is Ok,
        folded(ev, left)->Ok_0 is Literal,
        outcome(ev.as_bool, folded(ev, left)->Ok_0->Literal_value) == Ok::<bool, ErrV>(false),
    ensures ({
        let e = ExprV::BinaryExpression { left: Box::new(left), op, right: Box::new(right) };
        folded(ev, e) == Ok::<ExprV, ErrV>(bool_literal(false, name_of(ev.column_name, e)))
    }),
{
    let e = ExprV::BinaryExpression { left: Box::new(left), op, right: Box::new(right) };
    let name = name_of(ev.column_name, e);
    assert(cond(ev, left, name, true) == Ok::<(ExprV, bool, bool), ErrV>((bool_literal(false, name), true, true)));
    assert(const_cond(ev, e, name, true) == Ok::<ExprV, ErrV>(bool_literal(false, name)));
    assert(folded(ev, e) == const_cond(ev, e, name, true));
}

/// `x OR y` whose left side folds to a true constant is the constant `TRUE`,
/// named after the whole condition; the right side is not looked at.
pub proof fn law_or_with_true_left<
    FD: Fn(&String) -> Result<bool, ErrorCode>,
    FE: Fn(&Expression) -> Result<(DataValue, DataType), ErrorCode>,
    FN: Fn(&Expression) -> String,
    FB: Fn(&DataValue) -> Result<bool, ErrorCode>,
    FT: Fn(&DataValue) -> String,
>(ev: Evaluator<FD, FE, FN, FB, FT>, left: ExprV, op: Seq<char>, right: ExprV)
    requires
        lowercase(op) == "or"@,
        lowercase(op) != "and"@,
        folded(ev, left) is Ok,
        folded(ev, left)->Ok_0 is Literal,
        outcome(ev.as_bool, folded(ev, left)->Ok_0->Literal_value) == Ok::<bool, ErrV>(true),
    ensures ({
        let e = ExprV::BinaryExpression { left: Box::new(left), op, right: Box::new(right) };
        folded(ev, e) == Ok::<ExprV, ErrV>(bool_literal(true, name_of(ev.column_name, e)))
    }),
{
    let e = ExprV::BinaryExpression { left: Box::new(left), op, right: Box::new(right) };
    let name = name_of(ev.column_name, e);
    assert(cond(ev, left, name, false) == Ok::<(ExprV, bool, bool), ErrV>((bool_literal(true, name), true, true)));
    assert(const_cond(ev, e, name, false) == Ok::<ExprV, ErrV>(bool_literal(true, name)));
    assert(folded(ev, e) == const_cond(ev, e, name, false));
}

/// A constant side of an `AND` that does not decide it drops out: when the
/// left side folds to a true constant and the right side folds to a
/// non-constant, the condition folds to its folded right side.
pub proof fn law_and_drops_true_side<
    FD: Fn(&String) -> Result<bool, ErrorCode>,
    FE: Fn(&Expression) -> Result<(DataValue, DataType), ErrorCode>,
    FN: Fn(&Expression) -> String,
    FB: Fn(&DataValue) -> Result<bool, ErrorCode>,
    FT: Fn(&DataValue) -> String,
>(ev: Evaluator<FD, FE, FN, FB, FT>, left: ExprV, op: Seq<char>, right: ExprV)
    requires
        lowercase(op) == "and"@,
        folded(ev, left) is Ok,
        folded(ev, left)->Ok_0 is Literal,
        outcome(ev.as_bool, folded(ev, left)->Ok_0->Literal_value) == Ok::<bool, ErrV>(true),
        folded(ev, right) is Ok,
        !(folded(ev, right)->Ok_0 is Literal),
    ensures
        folded(ev, ExprV::BinaryExpression { left: Box::new(left), op, right: Box::new(right) }) == folded(ev, right),
{
    let e = ExprV::BinaryExpression { left: Box::new(left), op, right: Box::new(right) };
    let name = name_of(ev.column_name, e);
    assert(cond(ev, left, name, true) == Ok::<(ExprV, bool, bool), ErrV>((folded(ev, left)->Ok_0, true, false)));
    assert(cond(ev, right, name, true) == Ok::<(ExprV, bool, bool), ErrV>((folded(ev, right)->Ok_0, false, false)));
    assert(const_cond(ev, e, name, true) == folded(ev, right));
    assert(folded(ev, e) == const_cond(ev, e, name, true));
}

/// An `AND` of two sides that fold to non-constants is the `AND` of the
/// folded sides.
pub proof fn law_and_of_non_constants<
    FD: Fn(&String) -> Result<bool, ErrorCode>,
    FE: Fn(&Expression) -> Result<(DataValue, DataType), ErrorCode>,
    FN: Fn(&Expression) -> String,
    FB: Fn(&DataValue) -> Result<bool, ErrorCode>,
    FT: Fn(&DataValue) -> String,
>(ev: Evaluator<FD, FE, FN, FB, FT>, left: ExprV, op: Seq<char>, right: ExprV)
    requires
        lowercase(op) == "and"@,
        folded(ev, left) is Ok,
        !(folded(ev, left)->Ok_0 is Literal),
        folded(ev, right) is Ok,
        !(folded(ev, right)->Ok_0 is Literal),
    ensures
        folded(ev, ExprV::BinaryExpression { left: Box::new(left), op, right: Box::new(right) })
            == Ok::<ExprV, ErrV>(ExprV::BinaryExpression {
                left: Box::new(folded(ev, left)->Ok_0),
                op: "and"@,
                right: Box::new(folded(ev, right)->Ok_0),
            }),
{
    let e = ExprV::BinaryExpression { left: Box::new(left), op, right: Box::new(right) };
    let name = name_of(ev.column_name, e);
    assert(cond(ev, left, name, true) == Ok::<(ExprV, bool, bool), ErrV>((folded(ev, left)->Ok_0, false, false)));
    assert(cond(ev, right, name, true) == Ok::<(ExprV, bool, bool), ErrV>((folded(ev, right)->Ok_0, false, false)));
    assert(const_cond(ev, e, name, true) == Ok::<ExprV, ErrV>(joined(folded(ev, left)->Ok_0, false, folded(ev, right)->Ok_0, false, name, true)));
    assert(folded(ev, e) == const_cond(ev, e, name, true));
}

/// A call of a deterministic function on literals is replaced by the
/// literal of its value, named after the call.
pub proof fn law_constant_call_is_evaluated<
    FD: Fn(&String) -> Result<bool, ErrorCode>,
    FE: Fn(&Expression) -> Result<(DataValue, DataType), ErrorCode>,
    FN: Fn(&Expression) -> String,
    FB: Fn(&DataValue) -> Result<bool, ErrorCode>,
    FT: Fn(&DataValue) -> String,
>(ev: Evaluator<FD, FE, FN, FB, FT>, op: Seq<char>, args: Seq<ExprV>)
    requires
        outcome(ev.deterministic, op) == Ok::<bool, ErrV>(true),
        all_literals(args),
    ensures ({
        let e = ExprV::ScalarFunction { op, args };
        folded(ev, e) == executed(ev, e, name_of(ev.column_name, e))
    }),
{
    assert forall|i: int| 0 <= i < args.len() implies #[trigger] folded(ev, args[i]) == Ok::<ExprV, ErrV>(args[i]) by {
        assert(args[i] is Literal);
    }
    assert forall|k: nat| k <= args.len() implies #[trigger] folded_args(ev, args, k) == Ok::<Seq<ExprV>, ErrV>(args.subrange(0, k as int)) by {
        lemma_folded_args_literals(ev, args, k);
    }
    assert(args.subrange(0, args.len() as int) =~= args);
    let e = ExprV::ScalarFunction { op, args };
    assert(folded_args(ev, args, args.len()) == Ok::<Seq<ExprV>, ErrV>(args));
    assert(rewritten(ev, op, args, name_of(ev.column_name, e), Shape::Scalar) == executed(ev, e, name_of(ev.column_name, e)));
}

/// A call of a function that is not deterministic is never evaluated: it
/// stays a call of the same function, on its folded arguments.
pub proof fn law_nondeterministic_call_is_kept<
    FD: Fn(&String) -> Result<bool, ErrorCode>,
    FE: Fn(&Expression) -> Result<(DataValue, DataType), ErrorCode>,
    FN: Fn(&Expression) -> String,
    FB: Fn(&DataValue) -> Result<bool, ErrorCode>,
    FT: Fn(&DataValue) -> String,
>(ev: Evaluator<FD, FE, FN, FB, FT>, op: Seq<char>, args: Seq<ExprV>)
    requires
        outcome(ev.deterministic, op) == Ok::<bool, ErrV>(false),
        folded_args(ev, args, args.len()) is Ok,
    ensures
        folded(ev, ExprV::ScalarFunction { op, args })
            == Ok::<ExprV, ErrV>(ExprV::ScalarFunction { op, args: folded_args(ev, args, args.len())->Ok_0 }),
{
}

/// A call of a deterministic function with an argument that does not fold
/// to a literal stays a call of the same function, on its folded arguments.
pub proof fn law_call_on_non_constant_is_kept<
    FD: Fn(&String) -> Result<bool, ErrorCode>,
    FE: Fn(&Expression) -> Result<(DataValue, DataType), ErrorCode>,
    FN: Fn(&Expression) -> String,
    FB: Fn(&DataValue) -> Result<bool, ErrorCode>,
    FT: Fn(&DataValue) -> String,
>(ev: Evaluator<FD, FE, FN, FB, FT>, op: Seq<char>, args: Seq<ExprV>, i: int)
    requires
        outcome(ev.deterministic, op) == Ok::<bool, ErrV>(true),
        folded_args(ev, args, args.len()) is Ok,
        0 <= i < folded_args(ev, args, args.len())->Ok_0.len(),
        !(folded_args(ev, args, args.len())->Ok_0[i] is Literal),
    ensures
        folded(ev, ExprV::ScalarFunction { op, args })
            == Ok::<ExprV, ErrV>(ExprV::ScalarFunction { op, args: folded_args(ev, args, args.len())->Ok_0 }),
{
}

/// A constant side of an `OR` that does not decide it drops out: when the
/// left side folds to a false constant and the right side folds to a
/// non-constant, the condition folds to its folded right side.
pub proof fn law_or_drops_false_side<
    FD: Fn(&String) -> Result<bool, ErrorCode>,
    FE: Fn(&Expression) -> Result<(DataValue, DataType), ErrorCode>,
    FN: Fn(&Expression) -> String,
    FB: Fn(&DataValue) -> Result<bool, ErrorCode>,
    FT: Fn(&DataValue) -> String,
>(ev: Evaluator<FD, FE, FN, FB, FT>, left: ExprV, op: Seq<char>, right: ExprV)
    requires
        lowercase(op) == "or"@,
        lowercase(op) != "and"@,
        folded(ev, left) is Ok,
        folded(ev, left)->Ok_0 is Literal,
        outcome(ev.as_bool, folded(ev, left)->Ok_0->Literal_value) == Ok::<bool, ErrV>(false),
        folded(ev, right) is Ok,
        !(folded(ev, right)->Ok_0 is Literal),
    ensures
        folded(ev, ExprV::BinaryExpression { left: Box::new(left), op, right: Box::new(right) }) == folded(ev, right),
{
    let e = ExprV::BinaryExpression { left: Box::new(left), op, right: Box::new(right) };
    let name = name_of(ev.column_name, e);
    assert(cond(ev, left, name, false) == Ok::<(ExprV, bool, bool), ErrV>((folded(ev, left)->Ok_0, true, false)));
    assert(cond(ev, right, name, false) == Ok::<(ExprV, bool, bool), ErrV>((folded(ev, right)->Ok_0, false, false)));
    assert(const_cond(ev, e, name, false) == folded(ev, right));
    assert(folded(ev, e) == const_cond(ev, e, name, false));
}

proof fn lemma_folded_args_literals<
    FD: Fn(&String) -> Result<bool, ErrorCode>,
    FE: Fn(&Expression) -> Result<(DataValue, DataType), ErrorCode>,
    FN: Fn(&Expression) -> String,
    FB: Fn(&DataValue) -> Result<bool, ErrorCode>,
    FT: Fn(&DataValue) -> String,
>(ev: Evaluator<FD, FE, FN, FB, FT>, args: Seq<ExprV>, k: nat)
    requires
        k <= args.len(),
        forall|i: int| 0 <= i < args.len() ==> #[trigger] folded(ev, args[i]) == Ok::<ExprV, ErrV>(args[i]),
    ensures
        folded_args(ev, args, k) == Ok::<Seq<ExprV>, ErrV>(args.subrange(0, k as int)),
    decreases k,
{
    if k > 0 {
        lemma_folded_args_literals(ev, args, (k - 1) as nat);
        assert(folded(ev, args[k - 1]) == Ok::<ExprV, ErrV>(args[k - 1]));
        assert(args.subrange(0, k - 1).push(args[k - 1]) =~= args.subrange(0, k as int));
    } else {
        assert(args.subrange(0, 0) =~= Seq::<ExprV>::empty());
    }
}

} // verus!
