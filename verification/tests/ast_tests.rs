use databend_query_core::ast::display::Renderers;
use databend_query_core::ast::expr::{
    contain_agg_func, split_conjunctions_expr, split_equivalent_predicate_expr, ColumnID, ColumnPosition, Expr,
    Identifier, IntervalKind, Lambda, Literal, MapAccessor, OrderByExpr, Query, Range, SubqueryModifier, TrimWhere,
    Window, WindowFrame, WindowFrameBound, WindowFrameUnits, WindowRef, WindowSpec,
};
use databend_query_core::ast::operators::{BinaryOperator, JsonOperator, UnaryOperator};
use databend_query_core::ast::types::TypeName;
use databend_query_core::error::ErrorKind;

fn ident(name: &str) -> Identifier {
    Identifier { span: None, name: name.to_string(), quote: None }
}

fn column(name: &str) -> Expr {
    Expr::ColumnRef { span: None, database: None, table: None, column: ColumnID::Name(ident(name)) }
}

fn number(v: u64) -> Expr {
    Expr::Literal { span: None, lit: Literal::UInt64(v) }
}

fn binary(op: BinaryOperator, left: Expr, right: Expr) -> Expr {
    Expr::BinaryOp { span: None, op, left: Box::new(left), right: Box::new(right) }
}

fn render_ident(id: &Identifier) -> String {
    match id.quote {
        Some(q) => format!("{}{}{}", q, id.name, q),
        None => id.name.clone(),
    }
}

fn render_position(p: &ColumnPosition) -> String {
    format!("${}", p.pos)
}

fn render_order_by(o: &OrderByExpr) -> String {
    match &o.expr {
        Expr::ColumnRef { column: ColumnID::Name(id), .. } => id.name.clone(),
        _ => "?".to_string(),
    }
}

fn render_literal(l: &Literal) -> String {
    match l {
        Literal::String(s) => format!("'{}'", s),
        _ => "<lit>".to_string(),
    }
}

fn sql(e: &Expr) -> String {
    let r = Renderers {
        identifier: render_ident,
        position: render_position,
        order_by: render_order_by,
        literal: render_literal,
    };
    e.to_sql(&r)
}

#[test]
fn contrary_of_comparisons() {
    assert_eq!(BinaryOperator::Gt.to_contrary().unwrap(), BinaryOperator::Lte);
    assert_eq!(BinaryOperator::Lt.to_contrary().unwrap(), BinaryOperator::Gte);
    assert_eq!(BinaryOperator::Gte.to_contrary().unwrap(), BinaryOperator::Lt);
    assert_eq!(BinaryOperator::Lte.to_contrary().unwrap(), BinaryOperator::Gt);
    assert_eq!(BinaryOperator::Eq.to_contrary().unwrap(), BinaryOperator::NotEq);
    assert_eq!(BinaryOperator::NotEq.to_contrary().unwrap(), BinaryOperator::Eq);
}

#[test]
fn contrary_twice_is_identity() {
    let ops = [
        BinaryOperator::Gt,
        BinaryOperator::Lt,
        BinaryOperator::Gte,
        BinaryOperator::Lte,
        BinaryOperator::Eq,
        BinaryOperator::NotEq,
    ];
    for op in ops.iter() {
        let c = op.to_contrary().unwrap();
        assert_ne!(c, *op);
        assert_eq!(c.to_contrary().unwrap(), *op);
    }
}

#[test]
fn contrary_of_arithmetic_is_unimplemented() {
    let e = BinaryOperator::Plus.to_contrary().unwrap_err();
    assert_eq!(e.kind, ErrorKind::Unimplemented);
    assert_eq!(e.message, "Converting + to its contrary is not currently supported");
    let e = BinaryOperator::And.to_contrary().unwrap_err();
    assert_eq!(e.message, "Converting AND to its contrary is not currently supported");
}

#[test]
fn operator_function_names() {
    assert_eq!(BinaryOperator::Plus.to_func_name(), "plus");
    assert_eq!(BinaryOperator::StringConcat.to_func_name(), "concat");
    assert_eq!(BinaryOperator::Caret.to_func_name(), "pow");
    assert_eq!(BinaryOperator::BitwiseShiftLeft.to_func_name(), "bit_shift_left");
    assert_eq!(BinaryOperator::L2Distance.to_func_name(), "l2_distance");
    assert_eq!(BinaryOperator::NotEq.to_func_name(), "noteq");
    assert_eq!(UnaryOperator::Factorial.to_func_name(), "factorial");
    assert_eq!(BinaryOperator::NotRLike.to_string(), "NOT RLIKE");
    assert_eq!(BinaryOperator::BitwiseXor.to_string(), "#");
    assert_eq!(JsonOperator::Arrow.to_string(), "->");
}

#[test]
fn wrap_nullable_is_idempotent() {
    let t = TypeName::Int32.wrap_nullable();
    assert!(t.is_nullable());
    assert_eq!(t, TypeName::Nullable(Box::new(TypeName::Int32)));
    let again = t.wrap_nullable();
    assert_eq!(again, TypeName::Nullable(Box::new(TypeName::Int32)));
    assert!(!TypeName::String.is_nullable());
}

#[test]
fn wrap_not_null_is_idempotent() {
    let t = TypeName::String.wrap_not_null();
    assert_eq!(t, TypeName::NotNull(Box::new(TypeName::String)));
    assert_eq!(t.wrap_not_null(), TypeName::NotNull(Box::new(TypeName::String)));
}

#[test]
fn type_names_in_sql() {
    assert_eq!(TypeName::Decimal { precision: 10, scale: 2 }.to_string(), "Decimal(10, 2)");
    assert_eq!(TypeName::Nullable(Box::new(TypeName::Int32)).to_string(), "Int32 NULL");
    assert_eq!(TypeName::Array(Box::new(TypeName::Boolean)).to_string(), "ARRAY(BOOLEAN)");
    let map = TypeName::MapType { key_type: Box::new(TypeName::String), val_type: Box::new(TypeName::UInt64) };
    assert_eq!(map.to_string(), "MAP(STRING, UInt64)");
    let tuple = TypeName::Tuple {
        fields_name: Some(vec!["a".to_string(), "b".to_string()]),
        fields_type: vec![TypeName::Int8, TypeName::Date],
    };
    assert_eq!(tuple.to_string(), "TUPLE(a Int8, b DATE)");
    let unnamed = TypeName::Tuple { fields_name: None, fields_type: vec![TypeName::Int8, TypeName::Date] };
    assert_eq!(unnamed.to_string(), "TUPLE(Int8, DATE)");
}

#[test]
fn keywords_of_small_enums() {
    assert_eq!(IntervalKind::Doy.to_string(), "DOY");
    assert_eq!(SubqueryModifier::SomeModifier.to_string(), "SOME");
    assert_eq!(TrimWhere::Leading.to_string(), "LEADING");
}

#[test]
fn column_id_names() {
    assert_eq!(ColumnID::Name(ident("c1")).name(), "c1");
    let pos = ColumnPosition { span: None, pos: 2, name: "$2".to_string() };
    assert_eq!(ColumnID::Position(pos).name(), "$2");
}

#[test]
fn spans_of_expressions() {
    let e = Expr::Literal { span: Some(Range { start: 3, end: 5 }), lit: Literal::Null };
    assert_eq!(e.span(), Some(Range { start: 3, end: 5 }));
    assert_eq!(column("a").span(), None);
}

#[test]
fn function_like_syntaxes_list() {
    let names = Expr::all_function_like_syntaxes();
    assert!(names.contains(&"CAST"));
    assert!(names.contains(&"TRY_CAST"));
}

#[test]
fn conjunctions_are_split_left_to_right() {
    let e = binary(
        BinaryOperator::And,
        binary(BinaryOperator::And, column("a"), column("b")),
        binary(BinaryOperator::Or, column("c"), column("d")),
    );
    let parts = split_conjunctions_expr(e);
    assert_eq!(parts.len(), 3);
    assert_eq!(parts[0], column("a"));
    assert_eq!(parts[1], column("b"));
    assert_eq!(parts[2], binary(BinaryOperator::Or, column("c"), column("d")));
    for p in parts.iter() {
        assert!(!matches!(p, Expr::BinaryOp { op: BinaryOperator::And, .. }));
    }
}

#[test]
fn a_non_conjunction_is_its_own_conjunct() {
    let parts = split_conjunctions_expr(column("x"));
    assert_eq!(parts, vec![column("x")]);
}

#[test]
fn equalities_are_split() {
    let (l, r) = split_equivalent_predicate_expr(binary(BinaryOperator::Eq, column("a"), number(1))).unwrap();
    assert_eq!(l, column("a"));
    assert_eq!(r, number(1));
    assert!(split_equivalent_predicate_expr(binary(BinaryOperator::Gt, column("a"), number(1))).is_none());
}

#[test]
fn aggregate_calls_are_found() {
    let is_agg = |id: &Identifier| id.name == "sum";
    let call = Expr::FunctionCall {
        span: None,
        distinct: false,
        name: ident("sum"),
        args: vec![column("a")],
        params: vec![],
        window: None,
        lambda: None,
    };
    let e = binary(BinaryOperator::Plus, number(1), call);
    assert!(contain_agg_func(&e, &is_agg));
    let plain = Expr::FunctionCall {
        span: None,
        distinct: false,
        name: ident("abs"),
        args: vec![column("a")],
        params: vec![],
        window: None,
        lambda: None,
    };
    assert!(!contain_agg_func(&plain, &is_agg));
    let list = Expr::Tuple { span: None, exprs: vec![number(1), e] };
    assert!(contain_agg_func(&list, &is_agg));
}

#[test]
fn expression_text() {
    assert_eq!(sql(&binary(BinaryOperator::Plus, column("a"), number(1))), "(a + 1)");
    let cast = Expr::Cast { span: None, expr: Box::new(column("a")), target_type: TypeName::Int32, pg_style: true };
    assert_eq!(sql(&cast), "a::Int32");
    let cast = Expr::Cast { span: None, expr: Box::new(column("a")), target_type: TypeName::Int32, pg_style: false };
    assert_eq!(sql(&cast), "CAST(a AS Int32)");
    let not_null = Expr::IsNull { span: None, expr: Box::new(column("a")), not: true };
    assert_eq!(sql(&not_null), "a IS NOT NULL");
    let fact = Expr::UnaryOp { span: None, op: UnaryOperator::Factorial, expr: Box::new(number(5)) };
    assert_eq!(sql(&fact), "(5 !)");
    let neg = Expr::UnaryOp { span: None, op: UnaryOperator::Minus, expr: Box::new(number(5)) };
    assert_eq!(sql(&neg), "(- 5)");
    let one = Expr::Tuple { span: None, exprs: vec![number(1)] };
    assert_eq!(sql(&one), "(1,)");
    let two = Expr::Tuple { span: None, exprs: vec![number(1), number(2)] };
    assert_eq!(sql(&two), "(1, 2)");
    let access = Expr::MapAccess {
        span: None,
        expr: Box::new(column("t")),
        accessor: MapAccessor::DotNumber { key: 3 },
    };
    assert_eq!(sql(&access), "t.3");
    let between = Expr::Between {
        span: None,
        expr: Box::new(column("x")),
        low: Box::new(number(1)),
        high: Box::new(number(9)),
        not: false,
    };
    assert_eq!(sql(&between), "x BETWEEN 1 AND 9");
    let lit = Expr::Literal { span: None, lit: Literal::String("hi".to_string()) };
    assert_eq!(sql(&lit), "'hi'");
    let b = Expr::Literal { span: None, lit: Literal::Boolean(false) };
    assert_eq!(sql(&b), "FALSE");
}

#[test]
fn qualified_columns_text() {
    let e = Expr::ColumnRef {
        span: None,
        database: Some(ident("db")),
        table: Some(ident("t")),
        column: ColumnID::Name(ident("c")),
    };
    assert_eq!(sql(&e), "db.t.c");
    let e = Expr::ColumnRef {
        span: None,
        database: None,
        table: Some(ident("t")),
        column: ColumnID::Position(ColumnPosition { span: None, pos: 1, name: "$1".to_string() }),
    };
    assert_eq!(sql(&e), "t.$1");
}

#[test]
fn function_call_text() {
    let call = Expr::FunctionCall {
        span: None,
        distinct: true,
        name: ident("count"),
        args: vec![column("a"), column("b")],
        params: vec![number(1)],
        window: Some(Window::WindowReference(WindowRef { window_name: ident("w") })),
        lambda: None,
    };
    assert_eq!(sql(&call), "count(1)(DISTINCT a, b) OVER (WINDOW w)");
    let lambda = Lambda { params: vec![ident("x")], expr: Box::new(binary(BinaryOperator::Plus, column("x"), number(1))) };
    let call = Expr::FunctionCall {
        span: None,
        distinct: false,
        name: ident("array_transform"),
        args: vec![column("arr")],
        params: vec![],
        window: None,
        lambda: Some(lambda),
    };
    assert_eq!(sql(&call), "array_transform(arr, x -> (x + 1))");
}

#[test]
fn case_and_subquery_text() {
    let case = Expr::Case {
        span: None,
        operand: None,
        conditions: vec![column("a"), column("b")],
        results: vec![number(1), number(2)],
        else_result: Some(Box::new(number(0))),
    };
    assert_eq!(sql(&case), "CASE WHEN a THEN 1 WHEN b THEN 2 ELSE 0 END");
    let q = Query { span: None, text: "SELECT 1".to_string() };
    let exists = Expr::Exists { span: None, not: true, subquery: Box::new(q) };
    assert_eq!(sql(&exists), "NOT EXISTS (SELECT 1)");
    let q = Query { span: None, text: "SELECT 2".to_string() };
    let sub = Expr::Subquery { span: None, modifier: Some(SubqueryModifier::Any), subquery: Box::new(q) };
    assert_eq!(sql(&sub), "ANY (SELECT 2)");
}

#[test]
fn window_spec_text() {
    let spec = WindowSpec {
        existing_window_name: None,
        partition_by: vec![column("a")],
        order_by: vec![OrderByExpr { expr: column("b"), asc: None, nulls_first: None }],
        window_frame: Some(WindowFrame {
            units: WindowFrameUnits::Rows,
            start_bound: WindowFrameBound::Preceding(None),
            end_bound: WindowFrameBound::Following(Some(Box::new(number(2)))),
        }),
    };
    let count = Expr::CountAll { span: None, window: Some(Window::WindowSpec(spec)) };
    assert_eq!(
        sql(&count),
        "COUNT(*) OVER (PARTITION BY a ORDER BY b ROWS BETWEEN UNBOUNDED PRECEDING AND 2 FOLLOWING)"
    );
    let frame_only = WindowSpec {
        existing_window_name: None,
        partition_by: vec![],
        order_by: vec![],
        window_frame: Some(WindowFrame {
            units: WindowFrameUnits::Range,
            start_bound: WindowFrameBound::CurrentRow,
            end_bound: WindowFrameBound::CurrentRow,
        }),
    };
    let count = Expr::CountAll { span: None, window: Some(Window::WindowSpec(frame_only)) };
    assert_eq!(sql(&count), "COUNT(*) OVER (RANGE BETWEEN CURRENT ROW AND CURRENT ROW)");
}

#[test]
fn date_and_map_text() {
    let add = Expr::DateAdd {
        span: None,
        unit: IntervalKind::Day,
        interval: Box::new(number(1)),
        date: Box::new(column("d")),
    };
    assert_eq!(sql(&add), "DATE_ADD(DAY, 1, d)");
    let map = Expr::MapExpr {
        span: None,
        kvs: vec![(Literal::UInt64(1), number(10)), (Literal::UInt64(2), number(20))],
    };
    assert_eq!(sql(&map), "{1:10,2:20}");
    let trim = Expr::Trim {
        span: None,
        expr: Box::new(column("s")),
        trim_where: Some((TrimWhere::Both, Box::new(column("c")))),
    };
    assert_eq!(sql(&trim), "TRIM(BOTH c FROM s)");
    let json = Expr::JsonOp {
        span: None,
        op: JsonOperator::LongArrow,
        left: Box::new(column("j")),
        right: Box::new(number(0)),
    };
    assert_eq!(sql(&json), "(j ->> 0)");
}

#[test]
fn alternate_text_shows_bare_column() {
    let r = Renderers {
        identifier: render_ident,
        position: render_position,
        order_by: render_order_by,
        literal: render_literal,
    };
    let e = Expr::ColumnRef {
        span: None,
        database: Some(ident("db")),
        table: Some(ident("t")),
        column: ColumnID::Name(ident("c")),
    };
    assert_eq!(e.to_sql_alternate(&r), "c");
    let e = Expr::IsNull {
        span: None,
        expr: Box::new(Expr::ColumnRef {
            span: None,
            database: None,
            table: Some(ident("t")),
            column: ColumnID::Name(ident("c")),
        }),
        not: true,
    };
    assert_eq!(e.to_sql_alternate(&r), "t.c IS NOT NULL");
}

#[test]
fn expressions_and_type_names_clone_into_equal_copies() {
    let window = Window::WindowSpec(WindowSpec {
        existing_window_name: None,
        partition_by: vec![column("p")],
        order_by: vec![OrderByExpr { expr: column("o"), asc: Some(false), nulls_first: None }],
        window_frame: Some(WindowFrame {
            units: WindowFrameUnits::Rows,
            start_bound: WindowFrameBound::Preceding(Some(Box::new(number(3)))),
            end_bound: WindowFrameBound::CurrentRow,
        }),
    });
    let e = Expr::FunctionCall {
        span: None,
        distinct: false,
        name: ident("f"),
        args: vec![
            binary(BinaryOperator::Plus, column("a"), number(1)),
            Expr::MapAccess {
                span: None,
                expr: Box::new(column("m")),
                accessor: MapAccessor::Bracket { key: Box::new(number(0)) },
            },
            Expr::Cast {
                span: None,
                expr: Box::new(column("c")),
                target_type: TypeName::Nullable(Box::new(TypeName::Array(Box::new(TypeName::Int32)))),
                pg_style: true,
            },
        ],
        params: vec![],
        window: Some(window),
        lambda: Some(Lambda { params: vec![ident("x")], expr: Box::new(column("x")) }),
    };
    assert_eq!(e.clone(), e);
    let t = TypeName::Tuple {
        fields_name: Some(vec!["a".to_string()]),
        fields_type: vec![TypeName::MapType { key_type: Box::new(TypeName::String), val_type: Box::new(TypeName::UInt8) }],
    };
    assert_eq!(t.clone(), t);
    let o = OrderByExpr { expr: column("z"), asc: None, nulls_first: Some(true) };
    assert_eq!(o.clone(), o);
    let a = MapAccessor::Colon { key: ident("k") };
    assert_eq!(a.clone(), a);
}
