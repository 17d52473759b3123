use databend_query_core::constant_folding::{
    ConstantFoldingImpl, ConstantFoldingOptimizer, DataType, DataValue, Evaluator, Expression,
};
use databend_query_core::error::{ErrorCode, ErrorKind};

fn describe(e: &Expression) -> String {
    match e {
        Expression::Alias(a, _) => a.clone(),
        Expression::Column(c) => c.clone(),
        Expression::Literal { column_name: Some(n), .. } => n.clone(),
        Expression::Literal { value, .. } => value_text(value),
        Expression::ScalarFunction { op, args } => {
            let inner: Vec<String> = args.iter().map(describe).collect();
            format!("{}({})", op, inner.join(", "))
        }
        Expression::UnaryExpression { op, expr } => format!("({} {})", op, describe(expr)),
        Expression::BinaryExpression { left, op, right } => {
            format!("({} {} {})", describe(left), op, describe(right))
        }
        Expression::Cast { expr, .. } => format!("cast({})", describe(expr)),
        other => format!("{:?}", other),
    }
}

fn value_text(v: &DataValue) -> String {
    match v {
        DataValue::Null => "NULL".to_string(),
        DataValue::Boolean(Some(b)) => b.to_string(),
        DataValue::UInt64(Some(n)) => n.to_string(),
        DataValue::Int64(Some(n)) => n.to_string(),
        DataValue::Int32(Some(n)) => n.to_string(),
        DataValue::Text(Some(b)) => String::from_utf8_lossy(b).to_string(),
        _ => "NULL".to_string(),
    }
}

fn literal_u64(n: u64) -> Expression {
    Expression::Literal { value: DataValue::UInt64(Some(n)), column_name: None, data_type: DataType::UInt64 }
}

fn literal_bool(b: bool) -> Expression {
    Expression::Literal { value: DataValue::Boolean(Some(b)), column_name: None, data_type: DataType::Boolean }
}

fn literal_text(s: &str) -> Expression {
    Expression::Literal {
        value: DataValue::Text(Some(s.as_bytes().to_vec())),
        column_name: None,
        data_type: DataType::Text,
    }
}

fn column(name: &str) -> Expression {
    Expression::Column(name.to_string())
}

fn binary(left: Expression, op: &str, right: Expression) -> Expression {
    Expression::BinaryExpression { left: Box::new(left), op: op.to_string(), right: Box::new(right) }
}

fn evaluate(e: &Expression) -> Result<(DataValue, DataType), ErrorCode> {
    match e {
        Expression::ScalarFunction { op, args } if op == "plus" => {
            let mut sum = 0u64;
            for a in args {
                match a {
                    Expression::Literal { value: DataValue::UInt64(Some(n)), .. } => sum += n,
                    _ => return Err(ErrorCode::new(ErrorKind::BadArguments, "plus needs numbers".to_string())),
                }
            }
            Ok((DataValue::UInt64(Some(sum)), DataType::UInt64))
        }
        Expression::ScalarFunction { op, args } if op == "toDate" => match &args[0] {
            Expression::Literal { value: DataValue::Text(Some(b)), .. } => {
                let s = String::from_utf8_lossy(b).to_string();
                let day: i32 = s[8..10].parse().unwrap();
                Ok((DataValue::Int32(Some(day)), DataType::Date16))
            }
            _ => Err(ErrorCode::new(ErrorKind::BadArguments, "toDate needs text".to_string())),
        },
        Expression::ScalarFunction { op, .. } if op == "toDateTime" => {
            Ok((DataValue::Int64(Some(0)), DataType::DateTime32))
        }
        Expression::ScalarFunction { op, args } if op == "not" => match &args[0] {
            Expression::Literal { value: DataValue::Boolean(Some(b)), .. } => {
                Ok((DataValue::Boolean(Some(!b)), DataType::Boolean))
            }
            _ => Err(ErrorCode::new(ErrorKind::BadArguments, "not needs a boolean".to_string())),
        },
        Expression::Cast { expr, data_type: DataType::Int64 } => match expr.as_ref() {
            Expression::Literal { value: DataValue::UInt64(Some(n)), .. } => {
                Ok((DataValue::Int64(Some(*n as i64)), DataType::Int64))
            }
            _ => Err(ErrorCode::new(ErrorKind::BadArguments, "cannot cast".to_string())),
        },
        _ => Err(ErrorCode::new(ErrorKind::Unimplemented, "cannot evaluate".to_string())),
    }
}

fn deterministic(op: &String) -> Result<bool, ErrorCode> {
    match op.as_str() {
        "plus" | "toDate" | "toDateTime" | "not" | ">" | "=" => Ok(true),
        "rand" => Ok(false),
        _ => Err(ErrorCode::new(ErrorKind::Unimplemented, format!("Unsupported Function: {}", op))),
    }
}

fn as_bool(v: &DataValue) -> Result<bool, ErrorCode> {
    match v {
        DataValue::Boolean(Some(b)) => Ok(*b),
        DataValue::UInt64(Some(n)) => Ok(*n != 0),
        _ => Err(ErrorCode::new(ErrorKind::BadArguments, "not a boolean".to_string())),
    }
}

type TestEvaluator = Evaluator<
    fn(&String) -> Result<bool, ErrorCode>,
    fn(&Expression) -> Result<(DataValue, DataType), ErrorCode>,
    fn(&Expression) -> String,
    fn(&DataValue) -> Result<bool, ErrorCode>,
    fn(&DataValue) -> String,
>;

fn evaluator() -> TestEvaluator {
    Evaluator {
        deterministic: deterministic as fn(&String) -> Result<bool, ErrorCode>,
        evaluate: evaluate as fn(&Expression) -> Result<(DataValue, DataType), ErrorCode>,
        column_name: describe as fn(&Expression) -> String,
        as_bool: as_bool as fn(&DataValue) -> Result<bool, ErrorCode>,
        text: value_text as fn(&DataValue) -> String,
    }
}

fn named_bool(b: bool, name: &str) -> Expression {
    Expression::Literal {
        value: DataValue::Boolean(Some(b)),
        column_name: Some(name.to_string()),
        data_type: DataType::Boolean,
    }
}

#[test]
fn test_constant_call_is_evaluated() {
    let folding: ConstantFoldingImpl<u32> = ConstantFoldingImpl::new();
    let e = Expression::ScalarFunction { op: "plus".to_string(), args: vec![literal_u64(1), literal_u64(2)] };
    let r = folding.rewrite_expr(&evaluator(), &e).unwrap();
    assert_eq!(
        r,
        Expression::Literal {
            value: DataValue::UInt64(Some(3)),
            column_name: Some("plus(1, 2)".to_string()),
            data_type: DataType::UInt64,
        }
    );
}

#[test]
fn test_nested_constant_calls_fold_inside_out() {
    let folding: ConstantFoldingImpl<u32> = ConstantFoldingImpl::new();
    let inner = Expression::ScalarFunction { op: "plus".to_string(), args: vec![literal_u64(1), literal_u64(2)] };
    let e = Expression::ScalarFunction { op: "plus".to_string(), args: vec![inner, literal_u64(4)] };
    let r = folding.rewrite_expr(&evaluator(), &e).unwrap();
    match r {
        Expression::Literal { value, column_name, .. } => {
            assert_eq!(value, DataValue::UInt64(Some(7)));
            assert_eq!(column_name, Some("plus(plus(1, 2), 4)".to_string()));
        }
        other => panic!("not folded: {:?}", other),
    }
}

#[test]
fn test_call_on_a_column_is_kept() {
    let folding: ConstantFoldingImpl<u32> = ConstantFoldingImpl::new();
    let e = Expression::ScalarFunction { op: "plus".to_string(), args: vec![column("a"), literal_u64(2)] };
    let r = folding.rewrite_expr(&evaluator(), &e).unwrap();
    assert_eq!(r, Expression::ScalarFunction { op: "plus".to_string(), args: vec![column("a"), literal_u64(2)] });
}

#[test]
fn test_non_deterministic_call_is_kept() {
    let folding: ConstantFoldingImpl<u32> = ConstantFoldingImpl::new();
    let e = Expression::ScalarFunction { op: "rand".to_string(), args: vec![] };
    let r = folding.rewrite_expr(&evaluator(), &e).unwrap();
    assert_eq!(r, Expression::ScalarFunction { op: "rand".to_string(), args: vec![] });
}

#[test]
fn test_unknown_function_is_an_error() {
    let folding: ConstantFoldingImpl<u32> = ConstantFoldingImpl::new();
    let e = Expression::ScalarFunction { op: "nosuch".to_string(), args: vec![literal_u64(1)] };
    let err = folding.rewrite_expr(&evaluator(), &e).unwrap_err();
    assert_eq!(err.kind, ErrorKind::Unimplemented);
    assert_eq!(err.message, "Unsupported Function: nosuch");
}

#[test]
fn test_unary_call_on_literal_is_evaluated() {
    let folding: ConstantFoldingImpl<u32> = ConstantFoldingImpl::new();
    let e = Expression::UnaryExpression { op: "not".to_string(), expr: Box::new(literal_bool(true)) };
    let r = folding.rewrite_expr(&evaluator(), &e).unwrap();
    assert_eq!(r, named_bool(false, "(not true)"));
}

#[test]
fn test_unary_call_on_column_keeps_its_shape() {
    let folding: ConstantFoldingImpl<u32> = ConstantFoldingImpl::new();
    let e = Expression::UnaryExpression { op: "not".to_string(), expr: Box::new(column("flag")) };
    let r = folding.rewrite_expr(&evaluator(), &e).unwrap();
    assert_eq!(r, Expression::UnaryExpression { op: "not".to_string(), expr: Box::new(column("flag")) });
}

#[test]
fn test_and_with_false_side_is_false() {
    let folding: ConstantFoldingImpl<u32> = ConstantFoldingImpl::new();
    let e = binary(column("a"), "AND", literal_bool(false));
    let r = folding.rewrite_expr(&evaluator(), &e).unwrap();
    assert_eq!(r, named_bool(false, "(a AND false)"));
}

#[test]
fn test_and_with_false_left_ignores_right() {
    let folding: ConstantFoldingImpl<u32> = ConstantFoldingImpl::new();
    // the right side would fail to fold, but it is never looked at
    let bad = Expression::ScalarFunction { op: "nosuch".to_string(), args: vec![] };
    let e = binary(literal_bool(false), "and", bad);
    let r = folding.rewrite_expr(&evaluator(), &e).unwrap();
    assert_eq!(r, named_bool(false, "(false and nosuch())"));
}

#[test]
fn test_or_with_true_side_is_true() {
    let folding: ConstantFoldingImpl<u32> = ConstantFoldingImpl::new();
    let e = binary(literal_bool(true), "or", column("a"));
    let r = folding.rewrite_expr(&evaluator(), &e).unwrap();
    assert_eq!(r, named_bool(true, "(true or a)"));
}

#[test]
fn test_and_drops_true_side() {
    let folding: ConstantFoldingImpl<u32> = ConstantFoldingImpl::new();
    let e = binary(literal_bool(true), "and", column("a"));
    let r = folding.rewrite_expr(&evaluator(), &e).unwrap();
    assert_eq!(r, column("a"));
}

#[test]
fn test_or_drops_false_side() {
    let folding: ConstantFoldingImpl<u32> = ConstantFoldingImpl::new();
    let e = binary(column("a"), "OR", literal_bool(false));
    let r = folding.rewrite_expr(&evaluator(), &e).unwrap();
    assert_eq!(r, column("a"));
}

#[test]
fn test_and_of_two_true_constants_is_true() {
    let folding: ConstantFoldingImpl<u32> = ConstantFoldingImpl::new();
    let e = binary(literal_bool(true), "and", literal_u64(5));
    let r = folding.rewrite_expr(&evaluator(), &e).unwrap();
    assert_eq!(r, named_bool(true, "(true and 5)"));
}

#[test]
fn test_or_of_two_false_constants_is_false() {
    let folding: ConstantFoldingImpl<u32> = ConstantFoldingImpl::new();
    let e = binary(literal_bool(false), "or", literal_u64(0));
    let r = folding.rewrite_expr(&evaluator(), &e).unwrap();
    assert_eq!(r, named_bool(false, "(false or 0)"));
}

#[test]
fn test_and_of_columns_is_rebuilt_lowercase() {
    let folding: ConstantFoldingImpl<u32> = ConstantFoldingImpl::new();
    let e = binary(column("a"), "AND", column("b"));
    let r = folding.rewrite_expr(&evaluator(), &e).unwrap();
    assert_eq!(r, binary(column("a"), "and", column("b")));
}

#[test]
fn test_condition_that_is_not_boolean_is_an_error() {
    let folding: ConstantFoldingImpl<u32> = ConstantFoldingImpl::new();
    let e = binary(literal_text("x"), "and", column("a"));
    let err = folding.rewrite_expr(&evaluator(), &e).unwrap_err();
    assert_eq!(err.message, "not a boolean");
}

#[test]
fn test_date_text_next_to_comparison_becomes_date() {
    let folding: ConstantFoldingImpl<u32> = ConstantFoldingImpl::new();
    let e = binary(column("d"), ">", literal_text("2021-03-07"));
    let r = folding.rewrite_expr(&evaluator(), &e).unwrap();
    let date = Expression::Literal {
        value: DataValue::Int32(Some(7)),
        column_name: Some("2021-03-07".to_string()),
        data_type: DataType::Date16,
    };
    assert_eq!(r, binary(column("d"), ">", date));
}

#[test]
fn test_datetime_text_becomes_datetime() {
    let folding: ConstantFoldingImpl<u32> = ConstantFoldingImpl::new();
    let e = binary(column("t"), "=", literal_text("2021-03-07 10:11:12"));
    let r = folding.rewrite_expr(&evaluator(), &e).unwrap();
    let dt = Expression::Literal {
        value: DataValue::Int64(Some(0)),
        column_name: Some("2021-03-07 10:11:12".to_string()),
        data_type: DataType::DateTime32,
    };
    assert_eq!(r, binary(column("t"), "=", dt));
}

#[test]
fn test_other_text_is_not_converted() {
    let folding: ConstantFoldingImpl<u32> = ConstantFoldingImpl::new();
    let e = binary(column("d"), ">", literal_text("yesterday"));
    let r = folding.rewrite_expr(&evaluator(), &e).unwrap();
    assert_eq!(r, binary(column("d"), ">", literal_text("yesterday")));
}

#[test]
fn test_cast_of_literal_is_evaluated() {
    let folding: ConstantFoldingImpl<u32> = ConstantFoldingImpl::new();
    let e = Expression::Cast { expr: Box::new(literal_u64(9)), data_type: DataType::Int64 };
    let r = folding.rewrite_expr(&evaluator(), &e).unwrap();
    assert_eq!(
        r,
        Expression::Literal {
            value: DataValue::Int64(Some(9)),
            column_name: Some("cast(9)".to_string()),
            data_type: DataType::Int64,
        }
    );
}

#[test]
fn test_cast_of_column_is_kept() {
    let folding: ConstantFoldingImpl<u32> = ConstantFoldingImpl::new();
    let e = Expression::Cast { expr: Box::new(column("a")), data_type: DataType::Int64 };
    let r = folding.rewrite_expr(&evaluator(), &e).unwrap();
    assert_eq!(r, Expression::Cast { expr: Box::new(column("a")), data_type: DataType::Int64 });
}

#[test]
fn test_alias_and_sort_fold_inside() {
    let folding: ConstantFoldingImpl<u32> = ConstantFoldingImpl::new();
    let sum = Expression::ScalarFunction { op: "plus".to_string(), args: vec![literal_u64(1), literal_u64(1)] };
    let e = Expression::Sort {
        expr: Box::new(Expression::Alias("two".to_string(), Box::new(sum))),
        asc: false,
        nulls_first: true,
    };
    let r = folding.rewrite_expr(&evaluator(), &e).unwrap();
    let two = Expression::Literal {
        value: DataValue::UInt64(Some(2)),
        column_name: Some("plus(1, 1)".to_string()),
        data_type: DataType::UInt64,
    };
    assert_eq!(
        r,
        Expression::Sort {
            expr: Box::new(Expression::Alias("two".to_string(), Box::new(two))),
            asc: false,
            nulls_first: true,
        }
    );
}

#[test]
fn test_aggregate_arguments_fold() {
    let folding: ConstantFoldingImpl<u32> = ConstantFoldingImpl::new();
    let sum = Expression::ScalarFunction { op: "plus".to_string(), args: vec![literal_u64(2), literal_u64(3)] };
    let e = Expression::AggregateFunction {
        op: "sum".to_string(),
        distinct: true,
        params: vec![DataValue::UInt64(Some(1))],
        args: vec![sum, column("x")],
    };
    let r = folding.rewrite_expr(&evaluator(), &e).unwrap();
    let five = Expression::Literal {
        value: DataValue::UInt64(Some(5)),
        column_name: Some("plus(2, 3)".to_string()),
        data_type: DataType::UInt64,
    };
    assert_eq!(
        r,
        Expression::AggregateFunction {
            op: "sum".to_string(),
            distinct: true,
            params: vec![DataValue::UInt64(Some(1))],
            args: vec![five, column("x")],
        }
    );
}

#[test]
fn test_leaves_are_kept() {
    let folding: ConstantFoldingImpl<u32> = ConstantFoldingImpl::new();
    let ev = evaluator();
    for e in [column("a"), literal_u64(4), Expression::Wildcard, Expression::Exists(3)] {
        let r = folding.rewrite_expr(&ev, &e).unwrap();
        assert_eq!(r, e);
    }
}

#[test]
fn test_aggregation_steps_pair_up() {
    let mut folding: ConstantFoldingImpl<u32> = ConstantFoldingImpl::new();
    let ev = evaluator();
    let aggr = vec![Expression::ScalarFunction { op: "plus".to_string(), args: vec![literal_u64(1), literal_u64(1)] }];
    let group = vec![column("g")];
    let (a, g) = folding.rewrite_aggregate_partial(&ev, 42, &aggr, &group).unwrap();
    assert_eq!(a.len(), 1);
    assert!(matches!(a[0], Expression::Literal { value: DataValue::UInt64(Some(2)), .. }));
    assert_eq!(g, vec![column("g")]);
    assert_eq!(folding.before_group_by_schema, Some(42));

    let (schema, _, g2) = folding.rewrite_aggregate_final(&ev, &aggr, &group).unwrap();
    assert_eq!(schema, 42);
    assert_eq!(g2, vec![column("g")]);
    assert_eq!(folding.before_group_by_schema, None);
}

#[test]
fn test_partial_twice_is_a_logical_error() {
    let mut folding: ConstantFoldingImpl<u32> = ConstantFoldingImpl::new();
    let ev = evaluator();
    folding.rewrite_aggregate_partial(&ev, 1, &vec![], &vec![]).unwrap();
    let err = folding.rewrite_aggregate_partial(&ev, 2, &vec![], &vec![]).unwrap_err();
    assert_eq!(err.kind, ErrorKind::LogicalError);
    assert_eq!(err.message, "Logical error: before group by schema must be None");
    assert_eq!(folding.before_group_by_schema, Some(1));
}

#[test]
fn test_final_alone_is_a_logical_error() {
    let mut folding: ConstantFoldingImpl<u32> = ConstantFoldingImpl::new();
    let err = folding.rewrite_aggregate_final(&evaluator(), &vec![], &vec![]).unwrap_err();
    assert_eq!(err.kind, ErrorKind::LogicalError);
    assert_eq!(err.message, "Logical error: before group by schema must be Some");
}

#[test]
fn test_rewrite_exprs_stops_at_first_error() {
    let folding: ConstantFoldingImpl<u32> = ConstantFoldingImpl::new();
    let exprs = vec![
        literal_u64(1),
        Expression::ScalarFunction { op: "first_bad".to_string(), args: vec![] },
        Expression::ScalarFunction { op: "second_bad".to_string(), args: vec![] },
    ];
    let err = folding.rewrite_exprs(&evaluator(), &exprs).unwrap_err();
    assert_eq!(err.message, "Unsupported Function: first_bad");
}

#[test]
fn test_optimizer_name() {
    let o = ConstantFoldingOptimizer::create();
    assert_eq!(o.name(), "ConstantFolding");
}
